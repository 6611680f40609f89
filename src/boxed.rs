use vstd::prelude::*;

verus! {

/// A concrete value behind one vtable pointer per base, as foreign code
/// sees it.
pub struct Boxed<T> {
    /// Address of each slot's vtable, in slot order.
    pub tables: Vec<usize>,
    pub body: T,
}

/// Allocates an instance that holds `object` after the vtable pointers.
pub fn make_boxed<T>(tables: Vec<usize>, object: T) -> (r: Box<Boxed<T>>)
    ensures
        r.tables@ == tables@,
        r.body == object,
{
    Box::new(Boxed { tables, body: object })
}

/// Frees an instance and hands its value back.
pub fn from_boxed<T>(ptr: Box<Boxed<T>>) -> (r: T)
    ensures
        r == ptr.body,
{
    let Boxed { tables, body } = *ptr;
    body
}

/// Unwrapping what was wrapped gives the value back, whatever the tables.
pub proof fn lemma_round_trip<T>(tables: Vec<usize>, object: T, boxed: Box<Boxed<T>>, out: T)
    requires
        boxed.tables@ == tables@,
        boxed.body == object,
        out == boxed.body,
    ensures
        out == object,
{
}

} // verus!
