use vstd::prelude::*;

verus! {

/// Options given to the generator itself.
pub struct Attrs {
    /// Addresses of the runtime's known `type_info` vtables, when given by hand.
    pub known_tables: Vec<usize>,
}

/// A base interface: one abstract C++ class with its virtual methods.
pub struct Base {
    pub ident: String,
    /// Calling convention of every trampoline of this base.
    pub abi: String,
    /// Mangled name that the base's `type_info` carries.
    pub rtti_name: String,
    /// Virtual methods, in declaration order.
    pub funcs: Vec<String>,
}

/// The derived type and the ordered names of the bases it implements.
pub struct Child {
    pub ident: String,
    pub parents: Vec<String>,
}

/// Everything declared in one generator module.
pub struct VTableDefinition {
    /// Name of the module, used as the namespace of the derived type.
    pub module: String,
    pub child: Child,
    pub bases: Vec<Base>,
}

/// Declaration errors found while generating.
#[derive(Debug)]
pub enum VTableError {
    /// The derived type lists a base with no declared interface.
    UnresolvedBase(String),
}

/// Index of the first declared base named `name`, if any.
pub open spec fn first_base(bases: Seq<Base>, name: Seq<char>, j: int) -> bool {
    &&& 0 <= j < bases.len()
    &&& bases[j].ident@ == name
    &&& forall|k: int| 0 <= k < j ==> bases[k].ident@ != name
}

/// Whether some declared base is named `name`.
pub open spec fn declared(bases: Seq<Base>, name: Seq<char>) -> bool {
    exists|j: int| 0 <= j < bases.len() && bases[j].ident@ == name
}

/// Looks a base up by name, as the first declared one with that name.
pub fn find_base(bases: &Vec<Base>, name: &String) -> (r: Option<usize>)
    ensures
        match r {
            Some(j) => first_base(bases@, name@, j as int),
            None => !declared(bases@, name@),
        },
{
    let mut j: usize = 0;
    while j < bases.len()
        invariant
            j <= bases@.len(),
            forall|k: int| 0 <= k < j ==> bases@[k].ident@ != name@,
        decreases bases@.len() - j,
    {
        if bases[j].ident == *name {
            return Some(j);
        }
        j = j + 1;
    }
    None
}

/// Calling convention used when a base does not name one.
pub open spec fn default_abi() -> Seq<char> {
    "fastcall"@
}

/// The calling convention of a base: the one given, else the default.
pub fn resolve_abi(abi: Option<String>) -> (r: String)
    ensures
        r@ == match abi {
            Some(a) => a@,
            None => default_abi(),
        },
{
    match abi {
        Some(a) => a,
        None => {
            proof {
                reveal_strlit("fastcall");
            }
            "fastcall".to_string()
        },
    }
}

} // verus!
