use vstd::prelude::*;

use crate::layout::{BaseSlot, ObjectLayout};
use crate::model::Base as Interface;

verus! {

/// A forwarding function: called with a pointer to one base sub-object, it
/// moves the pointer back by `adjust` bytes onto the boxed instance and calls
/// the same-named method of the concrete value.
pub struct Trampoline {
    pub name: String,
    pub abi: String,
    pub adjust: usize,
}

/// The vtable of one slot, with the header that precedes it in memory.
pub struct GenericTable {
    /// Offset-to-top: minus the slot's byte offset.
    pub offset: isize,
    /// Index of the slot's interface among the declared bases.
    pub base: usize,
    /// One trampoline per virtual method, in declaration order.
    pub entries: Vec<Trampoline>,
}

/// Whether `t` is the vtable of slot `s` of interfaces `bases`.
pub open spec fn is_table_of(t: GenericTable, s: BaseSlot, bases: Seq<Interface>) -> bool {
    let b = bases[s.base as int];
    &&& t.offset == -(s.offset as int)
    &&& t.base == s.base
    &&& t.entries@.len() == b.funcs@.len()
    &&& forall|m: int|
        #![trigger t.entries@[m]]
        0 <= m < b.funcs@.len() ==> {
            &&& t.entries@[m].name@ == b.funcs@[m]@
            &&& t.entries@[m].abi@ == b.abi@
            &&& t.entries@[m].adjust == s.offset
        }
}

/// The slots' interfaces are declared and their offsets fit a signed word.
pub open spec fn slots_valid(slots: Seq<BaseSlot>, bases: Seq<Interface>) -> bool {
    forall|i: int|
        #![trigger slots[i]]
        0 <= i < slots.len() ==> slots[i].base < bases.len() && slots[i].offset <= isize::MAX
}

/// The table of one slot.
pub fn make_table(bases: &Vec<Interface>, slot: &BaseSlot) -> (r: GenericTable)
    requires
        slot.base < bases@.len(),
        slot.offset <= isize::MAX,
    ensures
        is_table_of(r, *slot, bases@),
{
    let b = &bases[slot.base];
    let mut entries: Vec<Trampoline> = Vec::new();
    let mut m: usize = 0;
    while m < b.funcs.len()
        invariant
            m <= b.funcs@.len(),
            entries@.len() == m,
            forall|k: int|
                #![trigger entries@[k]]
                0 <= k < m ==> {
                    &&& entries@[k].name@ == b.funcs@[k]@
                    &&& entries@[k].abi@ == b.abi@
                    &&& entries@[k].adjust == slot.offset
                },
        decreases b.funcs@.len() - m,
    {
        entries.push(
            Trampoline { name: b.funcs[m].clone(), abi: b.abi.clone(), adjust: slot.offset },
        );
        m = m + 1;
    }
    GenericTable { offset: -(slot.offset as isize), base: slot.base, entries }
}

/// One table per slot, in slot order.
pub fn make_vtables(bases: &Vec<Interface>, layout: &ObjectLayout) -> (r: Vec<GenericTable>)
    requires
        slots_valid(layout.slots@, bases@),
    ensures
        r@.len() == layout.slots@.len(),
        forall|i: int|
            0 <= i < r@.len() ==> is_table_of(#[trigger] r@[i], layout.slots@[i], bases@),
{
    let mut r: Vec<GenericTable> = Vec::new();
    let mut i: usize = 0;
    while i < layout.slots.len()
        invariant
            slots_valid(layout.slots@, bases@),
            i <= layout.slots@.len(),
            r@.len() == i,
            forall|j: int| 0 <= j < i ==> is_table_of(#[trigger] r@[j], layout.slots@[j], bases@),
        decreases layout.slots@.len() - i,
    {
        r.push(make_table(bases, &layout.slots[i]));
        i = i + 1;
    }
    r
}

/// Where a trampoline that adjusts by `adjust` takes pointer `this`.
pub open spec fn adjusted(this: int, adjust: int) -> int {
    this - adjust
}

/// The address of the boxed instance, from a pointer to one of its bases.
pub fn adjust_this(this: usize, adjust: usize) -> (r: usize)
    requires
        adjust <= this,
    ensures
        r == adjusted(this as int, adjust as int),
{
    if adjust > 0 {
        this - adjust
    } else {
        this
    }
}

/// A trampoline of any table, called with the instance's address plus its
/// slot's offset, reaches the instance itself: all slots see one receiver.
pub proof fn lemma_same_receiver(
    tables: Seq<GenericTable>,
    slots: Seq<BaseSlot>,
    bases: Seq<Interface>,
    boxed: int,
    i: int,
    m: int,
)
    requires
        tables.len() == slots.len(),
        forall|j: int| 0 <= j < tables.len() ==> is_table_of(#[trigger] tables[j], slots[j], bases),
        0 <= i < tables.len(),
        0 <= m < tables[i].entries@.len(),
    ensures
        adjusted(boxed + slots[i].offset, tables[i].entries@[m].adjust as int) == boxed,
        tables[i].entries@[m].name@ == bases[slots[i].base as int].funcs@[m]@,
{
    assert(is_table_of(tables[i], slots[i], bases));
}

} // verus!
