use vstd::prelude::*;

use crate::model::{default_abi, resolve_abi, Base, Child, VTableDefinition};

verus! {

/// A generator attribute found on an item of the module.
pub enum VTableAttr {
    /// The struct derives from the listed bases, in order.
    Derive(Vec<String>),
    /// The trait describes a virtual class.
    VirtualClass { abi: Option<String>, rtti_name: String },
}

/// A method of a trait, as far as the generator looks at it.
pub struct Method {
    pub name: String,
    pub has_default: bool,
    pub has_receiver: bool,
}

/// An item of the module, with the generator attributes taken off it.
pub enum Item {
    Const { attrs: Vec<VTableAttr> },
    Struct { ident: String, attrs: Vec<VTableAttr> },
    Trait { ident: String, attrs: Vec<VTableAttr>, methods: Vec<Method> },
    Other,
}

/// Misplaced or malformed declarations.
#[derive(Debug)]
pub enum DeclError {
    /// A generator attribute stands on a constant.
    AttrOnConst,
    /// A second struct of the module derives.
    DuplicateDerive,
    /// `virtual_class` stands on a struct.
    VirtualClassOnStruct,
    /// `derive` stands on a trait.
    DeriveOnTrait,
    /// A virtual-class method has a default body.
    DefaultMethod(String),
    /// A virtual-class method takes no receiver.
    StaticMethod(String),
    /// No struct of the module derives.
    MissingChild,
}

/// The names of `v`, as character sequences.
pub open spec fn names(v: Seq<String>) -> Seq<Seq<char>> {
    v.map_values(|s: String| s@)
}

/// A derived type, seen as plain sequences.
pub struct ChildView {
    pub ident: Seq<char>,
    pub parents: Seq<Seq<char>>,
}

/// A base interface, seen as plain sequences.
pub struct BaseView {
    pub ident: Seq<char>,
    pub abi: Seq<char>,
    pub rtti_name: Seq<char>,
    pub funcs: Seq<Seq<char>>,
}

pub open spec fn child_view(c: Child) -> ChildView {
    ChildView { ident: c.ident@, parents: names(c.parents@) }
}

pub open spec fn base_view(b: Base) -> BaseView {
    BaseView { ident: b.ident@, abi: b.abi@, rtti_name: b.rtti_name@, funcs: names(b.funcs@) }
}

pub open spec fn bases_view(v: Seq<Base>) -> Seq<BaseView> {
    v.map_values(|b: Base| base_view(b))
}

pub open spec fn opt_child_view(c: Option<Child>) -> Option<ChildView> {
    match c {
        Some(c) => Some(child_view(c)),
        None => None,
    }
}

/// The child after the attributes of struct `ident`.
pub open spec fn struct_attrs(child: Option<ChildView>, ident: Seq<char>, attrs: Seq<VTableAttr>) -> Result<
    Option<ChildView>,
    DeclError,
>
    decreases attrs.len(),
{
    if attrs.len() == 0 {
        Ok(child)
    } else {
        match struct_attrs(child, ident, attrs.drop_last()) {
            Err(e) => Err(e),
            Ok(c) => match attrs.last() {
                VTableAttr::Derive(ps) => if c is Some {
                    Err(DeclError::DuplicateDerive)
                } else {
                    Ok(Some(ChildView { ident, parents: names(ps@) }))
                },
                VTableAttr::VirtualClass { .. } => Err(DeclError::VirtualClassOnStruct),
            },
        }
    }
}

/// The first method, in order, that a virtual class cannot have.
pub open spec fn bad_method(methods: Seq<Method>) -> Option<DeclError>
    decreases methods.len(),
{
    if methods.len() == 0 {
        None
    } else {
        match bad_method(methods.drop_last()) {
            Some(e) => Some(e),
            None => {
                let m = methods.last();
                if m.has_default {
                    Some(DeclError::DefaultMethod(m.name))
                } else if !m.has_receiver {
                    Some(DeclError::StaticMethod(m.name))
                } else {
                    None
                }
            },
        }
    }
}

pub open spec fn method_names(methods: Seq<Method>) -> Seq<Seq<char>> {
    methods.map_values(|m: Method| m.name@)
}

/// The bases after the attributes of trait `ident`.
pub open spec fn trait_attrs(
    bases: Seq<BaseView>,
    ident: Seq<char>,
    attrs: Seq<VTableAttr>,
    methods: Seq<Method>,
) -> Result<Seq<BaseView>, DeclError>
    decreases attrs.len(),
{
    if attrs.len() == 0 {
        Ok(bases)
    } else {
        match trait_attrs(bases, ident, attrs.drop_last(), methods) {
            Err(e) => Err(e),
            Ok(bs) => match attrs.last() {
                VTableAttr::Derive(_) => Err(DeclError::DeriveOnTrait),
                VTableAttr::VirtualClass { abi, rtti_name } => match bad_method(methods) {
                    Some(e) => Err(e),
                    None => Ok(
                        bs.push(
                            BaseView {
                                ident,
                                abi: match abi {
                                    Some(a) => a@,
                                    None => default_abi(),
                                },
                                rtti_name: rtti_name@,
                                funcs: method_names(methods),
                            },
                        ),
                    ),
                },
            },
        }
    }
}

/// Child and bases declared so far.
pub struct ScanState {
    pub child: Option<ChildView>,
    pub bases: Seq<BaseView>,
}

pub open spec fn item_step(s: ScanState, item: Item) -> Result<ScanState, DeclError> {
    match item {
        Item::Const { attrs } => if attrs@.len() > 0 {
            Err(DeclError::AttrOnConst)
        } else {
            Ok(s)
        },
        Item::Struct { ident, attrs } => match struct_attrs(s.child, ident@, attrs@) {
            Ok(c) => Ok(ScanState { child: c, bases: s.bases }),
            Err(e) => Err(e),
        },
        Item::Trait { ident, attrs, methods } => match trait_attrs(
            s.bases,
            ident@,
            attrs@,
            methods@,
        ) {
            Ok(bs) => Ok(ScanState { child: s.child, bases: bs }),
            Err(e) => Err(e),
        },
        Item::Other => Ok(s),
    }
}

/// The declarations of `items`, read in order; the first error stops.
pub open spec fn scan(items: Seq<Item>) -> Result<ScanState, DeclError>
    decreases items.len(),
{
    if items.len() == 0 {
        Ok(ScanState { child: None, bases: Seq::empty() })
    } else {
        match scan(items.drop_last()) {
            Ok(s) => item_step(s, items.last()),
            Err(e) => Err(e),
        }
    }
}

proof fn lemma_struct_attrs_stop(
    child: Option<ChildView>,
    ident: Seq<char>,
    attrs: Seq<VTableAttr>,
    k: int,
)
    requires
        0 <= k <= attrs.len(),
        struct_attrs(child, ident, attrs.subrange(0, k)) is Err,
    ensures
        struct_attrs(child, ident, attrs) == struct_attrs(child, ident, attrs.subrange(0, k)),
    decreases attrs.len(),
{
    if k == attrs.len() {
        assert(attrs.subrange(0, k) =~= attrs);
    } else {
        assert(attrs.drop_last().subrange(0, k) =~= attrs.subrange(0, k));
        lemma_struct_attrs_stop(child, ident, attrs.drop_last(), k);
    }
}

proof fn lemma_trait_attrs_stop(
    bases: Seq<BaseView>,
    ident: Seq<char>,
    attrs: Seq<VTableAttr>,
    methods: Seq<Method>,
    k: int,
)
    requires
        0 <= k <= attrs.len(),
        trait_attrs(bases, ident, attrs.subrange(0, k), methods) is Err,
    ensures
        trait_attrs(bases, ident, attrs, methods) == trait_attrs(
            bases,
            ident,
            attrs.subrange(0, k),
            methods,
        ),
    decreases attrs.len(),
{
    if k == attrs.len() {
        assert(attrs.subrange(0, k) =~= attrs);
    } else {
        assert(attrs.drop_last().subrange(0, k) =~= attrs.subrange(0, k));
        lemma_trait_attrs_stop(bases, ident, attrs.drop_last(), methods, k);
    }
}

proof fn lemma_bad_method_stop(methods: Seq<Method>, k: int)
    requires
        0 <= k <= methods.len(),
        bad_method(methods.subrange(0, k)) is Some,
    ensures
        bad_method(methods) == bad_method(methods.subrange(0, k)),
    decreases methods.len(),
{
    if k == methods.len() {
        assert(methods.subrange(0, k) =~= methods);
    } else {
        assert(methods.drop_last().subrange(0, k) =~= methods.subrange(0, k));
        lemma_bad_method_stop(methods.drop_last(), k);
    }
}

proof fn lemma_scan_stop(items: Seq<Item>, k: int)
    requires
        0 <= k <= items.len(),
        scan(items.subrange(0, k)) is Err,
    ensures
        scan(items) == scan(items.subrange(0, k)),
    decreases items.len(),
{
    if k == items.len() {
        assert(items.subrange(0, k) =~= items);
    } else {
        assert(items.drop_last().subrange(0, k) =~= items.subrange(0, k));
        lemma_scan_stop(items.drop_last(), k);
    }
}

fn clone_strings(v: &Vec<String>) -> (r: Vec<String>)
    ensures
        r@ == v@,
{
    let mut r: Vec<String> = Vec::new();
    let mut i: usize = 0;
    while i < v.len()
        invariant
            i <= v@.len(),
            r@ == v@.subrange(0, i as int),
        decreases v@.len() - i,
    {
        r.push(v[i].clone());
        i = i + 1;
        assert(r@ =~= v@.subrange(0, i as int));
    }
    assert(v@.subrange(0, i as int) =~= v@);
    r
}

/// The first method that a virtual class cannot have, if any.
fn check_methods(methods: &Vec<Method>) -> (r: Option<DeclError>)
    ensures
        r == bad_method(methods@),
{
    let mut i: usize = 0;
    while i < methods.len()
        invariant
            i <= methods@.len(),
            bad_method(methods@.subrange(0, i as int)) is None,
        decreases methods@.len() - i,
    {
        let m = &methods[i];
        assert(methods@.subrange(0, i + 1).drop_last() =~= methods@.subrange(0, i as int));
        if m.has_default {
            proof {
                lemma_bad_method_stop(methods@, i + 1);
            }
            return Some(DeclError::DefaultMethod(m.name.clone()));
        }
        if !m.has_receiver {
            proof {
                lemma_bad_method_stop(methods@, i + 1);
            }
            return Some(DeclError::StaticMethod(m.name.clone()));
        }
        i = i + 1;
    }
    assert(methods@.subrange(0, i as int) =~= methods@);
    None
}

fn method_name_list(methods: &Vec<Method>) -> (r: Vec<String>)
    ensures
        names(r@) == method_names(methods@),
{
    let mut r: Vec<String> = Vec::new();
    let mut i: usize = 0;
    while i < methods.len()
        invariant
            i <= methods@.len(),
            r@.len() == i,
            forall|j: int| 0 <= j < i ==> (#[trigger] r@[j])@ == methods@[j].name@,
        decreases methods@.len() - i,
    {
        r.push(methods[i].name.clone());
        i = i + 1;
    }
    assert(names(r@) =~= method_names(methods@));
    r
}

/// Applies the attributes of struct `ident` to the child found so far.
fn apply_struct_attrs(child: &mut Option<Child>, ident: &String, attrs: &Vec<VTableAttr>) -> (r:
    Result<(), DeclError>)
    ensures
        match struct_attrs(opt_child_view(*old(child)), ident@, attrs@) {
            Ok(c) => r is Ok && opt_child_view(*final(child)) == c,
            Err(e) => r == Err::<(), DeclError>(e),
        },
{
    let mut i: usize = 0;
    while i < attrs.len()
        invariant
            i <= attrs@.len(),
            struct_attrs(opt_child_view(*old(child)), ident@, attrs@.subrange(0, i as int))
                == Ok::<Option<ChildView>, DeclError>(opt_child_view(*child)),
        decreases attrs@.len() - i,
    {
        assert(attrs@.subrange(0, i + 1).drop_last() =~= attrs@.subrange(0, i as int));
        match &attrs[i] {
            VTableAttr::Derive(parents) => {
                if child.is_some() {
                    proof {
                        lemma_struct_attrs_stop(opt_child_view(*old(child)), ident@, attrs@, i + 1);
                    }
                    return Err(DeclError::DuplicateDerive);
                }
                *child = Some(Child { ident: ident.clone(), parents: clone_strings(parents) });
            },
            VTableAttr::VirtualClass { .. } => {
                proof {
                    lemma_struct_attrs_stop(opt_child_view(*old(child)), ident@, attrs@, i + 1);
                }
                return Err(DeclError::VirtualClassOnStruct);
            },
        }
        i = i + 1;
    }
    assert(attrs@.subrange(0, i as int) =~= attrs@);
    Ok(())
}

/// Applies the attributes of trait `ident` to the bases found so far.
fn apply_trait_attrs(
    bases: &mut Vec<Base>,
    ident: &String,
    attrs: &Vec<VTableAttr>,
    methods: &Vec<Method>,
) -> (r: Result<(), DeclError>)
    ensures
        match trait_attrs(bases_view(old(bases)@), ident@, attrs@, methods@) {
            Ok(bs) => r is Ok && bases_view(final(bases)@) == bs,
            Err(e) => r == Err::<(), DeclError>(e),
        },
{
    let mut i: usize = 0;
    while i < attrs.len()
        invariant
            i <= attrs@.len(),
            trait_attrs(bases_view(old(bases)@), ident@, attrs@.subrange(0, i as int), methods@)
                == Ok::<Seq<BaseView>, DeclError>(bases_view(bases@)),
        decreases attrs@.len() - i,
    {
        assert(attrs@.subrange(0, i + 1).drop_last() =~= attrs@.subrange(0, i as int));
        match &attrs[i] {
            VTableAttr::Derive(_) => {
                proof {
                    lemma_trait_attrs_stop(bases_view(old(bases)@), ident@, attrs@, methods@, i + 1);
                }
                return Err(DeclError::DeriveOnTrait);
            },
            VTableAttr::VirtualClass { abi, rtti_name } => {
                match check_methods(methods) {
                    Some(e) => {
                        proof {
                            lemma_trait_attrs_stop(
                                bases_view(old(bases)@),
                                ident@,
                                attrs@,
                                methods@,
                                i + 1,
                            );
                        }
                        return Err(e);
                    },
                    None => {},
                }
                let b = Base {
                    ident: ident.clone(),
                    abi: resolve_abi(abi.clone()),
                    rtti_name: rtti_name.clone(),
                    funcs: method_name_list(methods),
                };
                let ghost before = bases@;
                bases.push(b);
                assert(bases_view(bases@) =~= bases_view(before).push(base_view(b)));
            },
        }
        i = i + 1;
    }
    assert(attrs@.subrange(0, i as int) =~= attrs@);
    Ok(())
}

/// What a module with `items` declares: its one derived type and its bases.
pub open spec fn definition_of(items: Seq<Item>) -> Result<(ChildView, Seq<BaseView>), DeclError> {
    match scan(items) {
        Err(e) => Err(e),
        Ok(s) => match s.child {
            Some(c) => Ok((c, s.bases)),
            None => Err(DeclError::MissingChild),
        },
    }
}

impl VTableDefinition {
    /// Reads the declarations of module `module` from its items, in order.
    pub fn try_from(module: String, items: &Vec<Item>) -> (r: Result<VTableDefinition, DeclError>)
        ensures
            match definition_of(items@) {
                Ok((c, bs)) => r matches Ok(d) && d.module@ == module@ && child_view(d.child) == c
                    && bases_view(d.bases@) == bs,
                Err(e) => r == Err::<VTableDefinition, DeclError>(e),
            },
    {
        let mut child: Option<Child> = None;
        let mut bases: Vec<Base> = Vec::new();
        let mut i: usize = 0;
        assert(bases_view(bases@) =~= Seq::<BaseView>::empty());
        assert(items@.subrange(0, 0) =~= Seq::<Item>::empty());
        while i < items.len()
            invariant
                i <= items@.len(),
                scan(items@.subrange(0, i as int)) == Ok::<ScanState, DeclError>(
                    ScanState { child: opt_child_view(child), bases: bases_view(bases@) },
                ),
            decreases items@.len() - i,
        {
            assert(items@.subrange(0, i + 1).drop_last() =~= items@.subrange(0, i as int));
            let step = match &items[i] {
                Item::Const { attrs } => {
                    if attrs.len() > 0 {
                        Err(DeclError::AttrOnConst)
                    } else {
                        Ok(())
                    }
                },
                Item::Struct { ident, attrs } => apply_struct_attrs(&mut child, ident, attrs),
                Item::Trait { ident, attrs, methods } => apply_trait_attrs(
                    &mut bases,
                    ident,
                    attrs,
                    methods,
                ),
                Item::Other => Ok(()),
            };
            match step {
                Err(e) => {
                    proof {
                        lemma_scan_stop(items@, i + 1);
                    }
                    return Err(e);
                },
                Ok(()) => {},
            }
            i = i + 1;
        }
        assert(items@.subrange(0, i as int) =~= items@);
        match child {
            Some(c) => Ok(VTableDefinition { module, child: c, bases }),
            None => Err(DeclError::MissingChild),
        }
    }
}

} // verus!
