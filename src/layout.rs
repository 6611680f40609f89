use vstd::prelude::*;

use crate::model::{declared, find_base, first_base, Base, Child, VTableError};

verus! {

/// One base of the derived type, at its place in the object.
pub struct BaseSlot {
    /// Index of the base's interface among the declared bases.
    pub base: usize,
    /// Byte offset of the slot's vtable pointer, which is also the
    /// `this` adjustment of the base's trampolines.
    pub offset: usize,
}

/// Binary layout of a boxed instance: vtable pointers, then the value.
pub struct ObjectLayout {
    pub slots: Vec<BaseSlot>,
    /// Byte offset of the concrete value.
    pub body_offset: usize,
}

/// Offsets up to `k` slots of `ptr` bytes, shifted by eight bits and
/// flagged, fit in a signed machine word.
pub open spec fn layout_fits(k: nat, ptr: nat) -> bool {
    k * ptr * 256 + 2 <= isize::MAX
}

/// Whether every listed parent names a declared base.
pub open spec fn all_declared(bases: Seq<Base>, parents: Seq<String>) -> bool {
    forall|i: int| 0 <= i < parents.len() ==> declared(bases, #[trigger] parents[i]@)
}

/// The layout that the parents, in order, give with pointers of `ptr` bytes.
pub open spec fn is_layout_of(
    l: ObjectLayout,
    bases: Seq<Base>,
    parents: Seq<String>,
    ptr: nat,
) -> bool {
    &&& l.slots@.len() == parents.len()
    &&& l.body_offset == parents.len() * ptr
    &&& forall|i: int|
        #![trigger l.slots@[i]]
        0 <= i < parents.len() ==> {
            &&& first_base(bases, parents[i]@, l.slots@[i].base as int)
            &&& l.slots@[i].offset == i * ptr
        }
}

/// Index of the first parent that names no declared base.
pub open spec fn first_unresolved(bases: Seq<Base>, parents: Seq<String>, i: int) -> bool {
    &&& 0 <= i < parents.len()
    &&& !declared(bases, parents[i]@)
    &&& forall|k: int| 0 <= k < i ==> declared(bases, #[trigger] parents[k]@)
}

/// Places one vtable pointer per parent, in the declared order, then the value.
pub fn plan_layout(child: &Child, bases: &Vec<Base>, pointer_size: usize) -> (r: Result<
    ObjectLayout,
    VTableError,
>)
    requires
        layout_fits(child.parents@.len(), pointer_size as nat),
    ensures
        r is Ok <==> all_declared(bases@, child.parents@),
        match r {
            Ok(l) => is_layout_of(l, bases@, child.parents@, pointer_size as nat),
            Err(VTableError::UnresolvedBase(name)) => exists|i: int|
                first_unresolved(bases@, child.parents@, i) && child.parents@[i]@ == name@,
        },
{
    let k = child.parents.len();
    let mut slots: Vec<BaseSlot> = Vec::new();
    let mut offset: usize = 0;
    let mut i: usize = 0;
    while i < k
        invariant
            k == child.parents@.len(),
            layout_fits(k as nat, pointer_size as nat),
            i <= k,
            offset == i * pointer_size,
            slots@.len() == i,
            forall|j: int|
                #![trigger slots@[j]]
                0 <= j < i ==> {
                    &&& first_base(bases@, child.parents@[j]@, slots@[j].base as int)
                    &&& slots@[j].offset == j * pointer_size
                },
        decreases k - i,
    {
        assert(offset + pointer_size <= k * pointer_size) by (nonlinear_arith)
            requires
                offset == i * pointer_size,
                i < k,
        ;
        assert(k * pointer_size <= k * pointer_size * 256) by (nonlinear_arith);
        match find_base(bases, &child.parents[i]) {
            Some(b) => {
                slots.push(BaseSlot { base: b, offset });
            },
            None => {
                assert(first_unresolved(bases@, child.parents@, i as int)) by {
                    assert forall|j: int| 0 <= j < i implies declared(
                        bases@,
                        #[trigger] child.parents@[j]@,
                    ) by {
                        assert(slots@[j].base < bases@.len());
                    }
                }
                return Err(VTableError::UnresolvedBase(child.parents[i].clone()));
            },
        }
        assert((i + 1) * pointer_size == i * pointer_size + pointer_size) by (nonlinear_arith);
        offset = offset + pointer_size;
        i = i + 1;
    }
    assert(k * pointer_size <= k * pointer_size * 256) by (nonlinear_arith);
    let l = ObjectLayout { slots, body_offset: offset };
    assert(all_declared(bases@, child.parents@)) by {
        assert forall|j: int| 0 <= j < k implies declared(bases@, #[trigger] child.parents@[j]@) by {
            assert(l.slots@[j].base < bases@.len());
        }
    }
    Ok(l)
}

/// A layout of `k` parents has `k` pointer-sized slots, back to back from
/// the start of the object, and the value right after the last one.
pub proof fn lemma_slots_precede_body(
    l: ObjectLayout,
    bases: Seq<Base>,
    parents: Seq<String>,
    ptr: nat,
    i: int,
)
    requires
        is_layout_of(l, bases, parents, ptr),
        0 <= i < parents.len(),
    ensures
        l.slots@.len() == parents.len(),
        l.slots@[i].offset == i * ptr,
        l.slots@[i].offset + ptr <= l.body_offset,
        i + 1 < parents.len() ==> l.slots@[i + 1].offset == l.slots@[i].offset + ptr,
        l.body_offset == parents.len() * ptr,
{
    assert(l.slots@[i].offset == i * ptr);
    assert(i * ptr + ptr <= parents.len() * ptr) by (nonlinear_arith)
        requires
            0 <= i < parents.len(),
    ;
    if i + 1 < parents.len() {
        assert(l.slots@[i + 1].offset == (i + 1) * ptr);
        assert((i + 1) * ptr == i * ptr + ptr) by (nonlinear_arith);
    }
}

} // verus!
