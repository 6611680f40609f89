use vstd::prelude::*;

use vstd::string::StringSliceAdditionalSpecFns;
use vstd::utf8::encode_utf8;

use crate::layout::{BaseSlot, ObjectLayout};
use crate::model::Base as Interface;

verus! {

/// Low byte of a base-class entry: the base is public and non-virtual.
pub const PUBLIC_NON_VIRTUAL: usize = 2;

/// The decimal digits of `n`, most significant first.
pub open spec fn decimal(n: nat) -> Seq<u8>
    decreases n,
{
    if n < 10 {
        seq![(48 + n) as u8]
    } else {
        decimal(n / 10).push((48 + n % 10) as u8)
    }
}

/// Itanium nested name `N <len> ns <len> name E`, with a terminating zero.
pub open spec fn mangled(ns: Seq<u8>, name: Seq<u8>) -> Seq<u8> {
    seq![78u8] + decimal(ns.len()) + ns + decimal(name.len()) + name + seq![69u8, 0u8]
}

/// The word `(offset << 8) | flags` of an `__base_class_type_info` entry.
pub open spec fn offset_flags_spec(offset: nat) -> nat {
    offset * 256 + PUBLIC_NON_VIRTUAL as nat
}

fn push_decimal(out: &mut Vec<u8>, n: usize)
    ensures
        final(out)@ == old(out)@ + decimal(n as nat),
    decreases n,
{
    if n < 10 {
        out.push((48 + n) as u8);
        assert(final(out)@ =~= old(out)@ + decimal(n as nat));
    } else {
        let ghost start = out@;
        push_decimal(out, n / 10);
        out.push((48 + n % 10) as u8);
        assert(out@ =~= start + decimal(n as nat));
    }
}

fn push_str(out: &mut Vec<u8>, s: &str)
    ensures
        final(out)@ == old(out)@ + s.spec_bytes(),
{
    let bytes = s.as_bytes();
    let mut i: usize = 0;
    while i < bytes.len()
        invariant
            bytes@ == s.spec_bytes(),
            i <= bytes@.len(),
            out@ == old(out)@ + bytes@.subrange(0, i as int),
        decreases bytes@.len() - i,
    {
        out.push(bytes[i]);
        i = i + 1;
        assert(out@ =~= old(out)@ + bytes@.subrange(0, i as int));
    }
    assert(bytes@.subrange(0, i as int) =~= bytes@);
}

/// The bytes of `s` followed by a terminating zero.
pub fn byte_str(s: &str) -> (r: Vec<u8>)
    ensures
        r@ == s.spec_bytes().push(0),
{
    let mut r: Vec<u8> = Vec::new();
    push_str(&mut r, s);
    r.push(0);
    assert(r@ =~= s.spec_bytes().push(0));
    r
}

/// The mangled name of class `name` in namespace `ns`, zero-terminated.
pub fn mangled_name(ns: &str, name: &str) -> (r: Vec<u8>)
    ensures
        r@ == mangled(ns.spec_bytes(), name.spec_bytes()),
{
    let mut r: Vec<u8> = Vec::new();
    r.push(78u8);
    let nb = ns.as_bytes();
    let cb = name.as_bytes();
    push_decimal(&mut r, nb.len());
    push_str(&mut r, ns);
    push_decimal(&mut r, cb.len());
    push_str(&mut r, name);
    r.push(69u8);
    r.push(0u8);
    let ghost a = ns.spec_bytes();
    let ghost b = name.spec_bytes();
    assert(r@ =~= seq![78u8] + decimal(a.len()) + a + decimal(b.len()) + b + seq![69u8, 0u8]);
    r
}

/// Packs a byte offset with the public, non-virtual flag.
pub fn offset_flags(offset: usize) -> (r: usize)
    requires
        offset * 256 + 2 <= usize::MAX,
    ensures
        r == offset_flags_spec(offset as nat),
        r % 256 == PUBLIC_NON_VIRTUAL,
        r / 256 == offset,
{
    offset * 256 + PUBLIC_NON_VIRTUAL
}

/// `type_info` of a base class, under the runtime's `__class_type_info`.
pub struct BaseTypeInfo {
    /// Zero-terminated mangled name.
    pub name: Vec<u8>,
}

/// One entry of the bases array of a multiple-bases `type_info`.
pub struct Base {
    /// Index of the base's `type_info` among the declared bases.
    pub base: usize,
    pub offset_flags: usize,
}

/// `type_info` of the derived class, under `__vmi_class_type_info`.
pub struct MultipleBasesTypeInfo {
    /// Zero-terminated mangled name.
    pub name: Vec<u8>,
    pub flags: u32,
    pub bases_count: u32,
    pub bases: Vec<Base>,
}

/// The base `type_info` that describes interface `b`.
pub fn make_base_type_info(b: &Interface) -> (r: BaseTypeInfo)
    ensures
        r.name@ == encode_utf8(b.rtti_name@).push(0),
{
    BaseTypeInfo { name: byte_str(b.rtti_name.as_str()) }
}

/// Whether `ti` is the derived `type_info` of class `name` in namespace `ns`
/// with the slots of `slots`.
pub open spec fn is_type_info_of(
    ti: MultipleBasesTypeInfo,
    ns: Seq<u8>,
    name: Seq<u8>,
    slots: Seq<BaseSlot>,
) -> bool {
    &&& ti.name@ == mangled(ns, name)
    &&& ti.flags == 0
    &&& ti.bases_count == slots.len()
    &&& ti.bases@.len() == slots.len()
    &&& forall|i: int|
        #![trigger ti.bases@[i]]
        0 <= i < slots.len() ==> {
            &&& ti.bases@[i].base == slots[i].base
            &&& ti.bases@[i].offset_flags == offset_flags_spec(slots[i].offset as nat)
        }
}

/// The derived `type_info`: its mangled name, no flags, and one entry per
/// slot holding the slot's base and offset.
pub fn make_type_info(ns: &str, name: &str, layout: &ObjectLayout) -> (r: MultipleBasesTypeInfo)
    requires
        layout.slots@.len() <= u32::MAX,
        forall|i: int|
            0 <= i < layout.slots@.len() ==> #[trigger] layout.slots@[i].offset * 256 + 2
                <= usize::MAX,
    ensures
        is_type_info_of(r, ns.spec_bytes(), name.spec_bytes(), layout.slots@),
{
    let mut bases: Vec<Base> = Vec::new();
    let mut i: usize = 0;
    while i < layout.slots.len()
        invariant
            i <= layout.slots@.len(),
            bases@.len() == i,
            forall|i: int|
                0 <= i < layout.slots@.len() ==> #[trigger] layout.slots@[i].offset * 256 + 2
                    <= usize::MAX,
            forall|j: int|
                #![trigger bases@[j]]
                0 <= j < i ==> {
                    &&& bases@[j].base == layout.slots@[j].base
                    &&& bases@[j].offset_flags == offset_flags_spec(
                        layout.slots@[j].offset as nat,
                    )
                },
        decreases layout.slots@.len() - i,
    {
        let slot = &layout.slots[i];
        bases.push(Base { base: slot.base, offset_flags: offset_flags(slot.offset) });
        i = i + 1;
    }
    MultipleBasesTypeInfo {
        name: mangled_name(ns, name),
        flags: 0,
        bases_count: layout.slots.len() as u32,
        bases,
    }
}

} // verus!
