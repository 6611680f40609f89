use vstd::prelude::*;
use vstd::utf8::encode_utf8;

use crate::layout::{
    all_declared, first_unresolved, is_layout_of, layout_fits, plan_layout, ObjectLayout,
};
use crate::model::{Attrs, VTableDefinition, VTableError};
use crate::rtti::{
    is_type_info_of, make_base_type_info, make_type_info, offset_flags_spec, BaseTypeInfo,
    MultipleBasesTypeInfo, PUBLIC_NON_VIRTUAL,
};
use crate::vtable::{is_table_of, make_vtables, GenericTable};

verus! {

/// Everything generated for one definition.
pub struct Expansion {
    pub layout: ObjectLayout,
    /// One vtable per slot.
    pub vtables: Vec<GenericTable>,
    /// One `type_info` per declared base.
    pub base_infos: Vec<BaseTypeInfo>,
    /// The derived type's `type_info`.
    pub type_info: MultipleBasesTypeInfo,
}

/// The definition can be laid out in machine words.
pub open spec fn fits(def: VTableDefinition, pointer_size: nat) -> bool {
    &&& layout_fits(def.child.parents@.len(), pointer_size)
    &&& def.child.parents@.len() <= u32::MAX
}

/// Whether `e` is what `def` generates with pointers of `pointer_size` bytes.
pub open spec fn is_expansion_of(e: Expansion, def: VTableDefinition, pointer_size: nat) -> bool {
    let bases = def.bases@;
    &&& is_layout_of(e.layout, bases, def.child.parents@, pointer_size)
    &&& e.vtables@.len() == e.layout.slots@.len()
    &&& forall|i: int|
        0 <= i < e.vtables@.len() ==> is_table_of(
            #[trigger] e.vtables@[i],
            e.layout.slots@[i],
            bases,
        )
    &&& e.base_infos@.len() == bases.len()
    &&& forall|j: int|
        0 <= j < bases.len() ==> (#[trigger] e.base_infos@[j]).name@ == encode_utf8(
            bases[j].rtti_name@,
        ).push(0)
    &&& is_type_info_of(
        e.type_info,
        encode_utf8(def.module@),
        encode_utf8(def.child.ident@),
        e.layout.slots@,
    )
}

/// Generates layout, vtables and `type_info` records for `def`; fails with
/// the first parent that names no declared base.
pub fn expand(attrs: &Attrs, def: &VTableDefinition, pointer_size: usize) -> (r: Result<
    Expansion,
    VTableError,
>)
    requires
        fits(*def, pointer_size as nat),
    ensures
        r is Ok <==> all_declared(def.bases@, def.child.parents@),
        match r {
            Ok(e) => is_expansion_of(e, *def, pointer_size as nat),
            Err(VTableError::UnresolvedBase(name)) => exists|i: int|
                first_unresolved(def.bases@, def.child.parents@, i) && def.child.parents@[i]@
                    == name@,
        },
{
    let layout = match plan_layout(&def.child, &def.bases, pointer_size) {
        Ok(l) => l,
        Err(e) => {
            return Err(e);
        },
    };
    let ghost k = def.child.parents@.len();
    assert forall|i: int| 0 <= i < k implies #[trigger] layout.slots@[i].offset * 256 + 2
        <= isize::MAX && layout.slots@[i].base < def.bases@.len() by {
        assert(layout.slots@[i].offset == i * pointer_size);
        assert(i * pointer_size * 256 <= k * pointer_size * 256) by (nonlinear_arith)
            requires
                0 <= i < k,
        ;
    }
    let vtables = make_vtables(&def.bases, &layout);
    let mut base_infos: Vec<BaseTypeInfo> = Vec::new();
    let mut j: usize = 0;
    while j < def.bases.len()
        invariant
            j <= def.bases@.len(),
            base_infos@.len() == j,
            forall|m: int|
                0 <= m < j ==> (#[trigger] base_infos@[m]).name@ == encode_utf8(
                    def.bases@[m].rtti_name@,
                ).push(0),
        decreases def.bases@.len() - j,
    {
        base_infos.push(make_base_type_info(&def.bases[j]));
        j = j + 1;
    }
    let type_info = make_type_info(def.module.as_str(), def.child.ident.as_str(), &layout);
    Ok(Expansion { layout, vtables, base_infos, type_info })
}

/// Each entry of the derived `type_info` carries its slot's byte offset
/// above the low byte, and the public, non-virtual flag in it.
pub proof fn lemma_entry_offsets(e: Expansion, def: VTableDefinition, pointer_size: nat, i: int)
    requires
        is_expansion_of(e, def, pointer_size),
        0 <= i < def.child.parents@.len(),
    ensures
        e.type_info.bases@[i].offset_flags / 256 == e.layout.slots@[i].offset,
        e.type_info.bases@[i].offset_flags % 256 == PUBLIC_NON_VIRTUAL,
        e.layout.slots@[i].offset == i * pointer_size,
{
    let o = e.layout.slots@[i].offset as int;
    assert(e.type_info.bases@[i].offset_flags == offset_flags_spec(o as nat));
    assert((o * 256 + 2) / 256 == o && (o * 256 + 2) % 256 == 2) by (nonlinear_arith)
        requires
            o >= 0,
    ;
}

} // verus!
