use cpp_class::boxed::{from_boxed, make_boxed};
use cpp_class::expand::expand;
use cpp_class::layout::plan_layout;
use cpp_class::model::{find_base, resolve_abi, Attrs, Base, Child, VTableDefinition, VTableError};
use cpp_class::rtti::{byte_str, make_base_type_info, mangled_name, offset_flags};
use cpp_class::vtable::adjust_this;

fn base(ident: &str, funcs: &[&str]) -> Base {
    Base {
        ident: ident.to_string(),
        abi: "C".to_string(),
        rtti_name: format!("1{}", ident),
        funcs: funcs.iter().map(|f| f.to_string()).collect(),
    }
}

fn definition(parents: &[&str]) -> VTableDefinition {
    VTableDefinition {
        module: "ns".to_string(),
        child: Child {
            ident: "Widget".to_string(),
            parents: parents.iter().map(|p| p.to_string()).collect(),
        },
        bases: vec![base("A", &["f", "g"]), base("B", &["h"])],
    }
}

#[test]
fn mangled_name_of_widget() {
    assert_eq!(mangled_name("ns", "Widget"), b"N2ns6WidgetE\0".to_vec());
}

#[test]
fn mangled_name_with_two_digit_length() {
    assert_eq!(mangled_name("outer", "LongClassName"), b"N5outer13LongClassNameE\0".to_vec());
}

#[test]
fn byte_str_appends_zero() {
    assert_eq!(byte_str("7Surface"), b"7Surface\0".to_vec());
    assert_eq!(byte_str(""), vec![0u8]);
}

#[test]
fn offset_flags_packs_offset_and_flag() {
    assert_eq!(offset_flags(0), 2);
    assert_eq!(offset_flags(8), (8 << 8) | 2);
    assert_eq!(offset_flags(16), 4098);
}

#[test]
fn find_base_takes_first_match() {
    let bases = vec![base("A", &[]), base("B", &[]), base("B", &["x"])];
    assert_eq!(find_base(&bases, &"B".to_string()), Some(1));
    assert_eq!(find_base(&bases, &"C".to_string()), None);
}

#[test]
fn abi_defaults_to_fastcall() {
    assert_eq!(resolve_abi(None), "fastcall");
    assert_eq!(resolve_abi(Some("C".to_string())), "C");
}

#[test]
fn layout_places_slots_then_body() {
    let def = definition(&["B", "A", "B"]);
    let l = plan_layout(&def.child, &def.bases, 8).ok().unwrap();
    let offsets: Vec<usize> = l.slots.iter().map(|s| s.offset).collect();
    let bases: Vec<usize> = l.slots.iter().map(|s| s.base).collect();
    assert_eq!(offsets, vec![0, 8, 16]);
    assert_eq!(bases, vec![1, 0, 1]);
    assert_eq!(l.body_offset, 24);
}

#[test]
fn layout_without_bases_is_empty() {
    let def = definition(&[]);
    let l = plan_layout(&def.child, &def.bases, 8).ok().unwrap();
    assert!(l.slots.is_empty());
    assert_eq!(l.body_offset, 0);
}

#[test]
fn layout_reports_unresolved_base() {
    let def = definition(&["A", "C", "D"]);
    match plan_layout(&def.child, &def.bases, 8) {
        Err(VTableError::UnresolvedBase(name)) => assert_eq!(name, "C"),
        Ok(_) => panic!("expected an error"),
    }
}

#[test]
fn expand_reports_unresolved_base() {
    let def = definition(&["Missing"]);
    match expand(&Attrs { known_tables: vec![] }, &def, 8) {
        Err(VTableError::UnresolvedBase(name)) => assert_eq!(name, "Missing"),
        Ok(_) => panic!("expected an error"),
    }
}

#[test]
fn expand_two_bases() {
    let def = definition(&["A", "B"]);
    let e = expand(&Attrs { known_tables: vec![] }, &def, 8).ok().unwrap();

    assert_eq!(e.vtables.len(), 2);
    let first: Vec<&str> = e.vtables[0].entries.iter().map(|t| t.name.as_str()).collect();
    let second: Vec<&str> = e.vtables[1].entries.iter().map(|t| t.name.as_str()).collect();
    assert_eq!(first, vec!["f", "g"]);
    assert_eq!(second, vec!["h"]);
    assert_eq!(e.vtables[0].offset, 0);
    assert_eq!(e.vtables[1].offset, -8);
    assert!(e.vtables[0].entries.iter().all(|t| t.adjust == 0 && t.abi == "C"));
    assert!(e.vtables[1].entries.iter().all(|t| t.adjust == 8));

    assert_eq!(e.type_info.name, b"N2ns6WidgetE\0".to_vec());
    assert_eq!(e.type_info.flags, 0);
    assert_eq!(e.type_info.bases_count, 2);
    assert_eq!(e.type_info.bases[0].base, 0);
    assert_eq!(e.type_info.bases[0].offset_flags, 2);
    assert_eq!(e.type_info.bases[1].base, 1);
    assert_eq!(e.type_info.bases[1].offset_flags, (8 << 8) | 2);

    assert_eq!(e.base_infos.len(), 2);
    assert_eq!(e.base_infos[0].name, b"1A\0".to_vec());
    assert_eq!(e.base_infos[1].name, b"1B\0".to_vec());
}

#[test]
fn entry_offsets_match_slots() {
    let def = definition(&["B", "A", "A", "B"]);
    let e = expand(&Attrs { known_tables: vec![] }, &def, 4).ok().unwrap();
    for (i, entry) in e.type_info.bases.iter().enumerate() {
        assert_eq!(entry.offset_flags >> 8, e.layout.slots[i].offset);
        assert_eq!(entry.offset_flags & 0xff, 2);
        assert_eq!(e.layout.slots[i].offset, i * 4);
    }
}

#[test]
fn base_type_info_names_base() {
    let info = make_base_type_info(&base("Shape", &[]));
    assert_eq!(info.name, b"1Shape\0".to_vec());
}

#[test]
fn trampolines_reach_one_receiver() {
    let def = definition(&["A", "B"]);
    let e = expand(&Attrs { known_tables: vec![] }, &def, 8).ok().unwrap();
    let boxed: usize = 0x1000;
    let f = &e.vtables[0].entries[0];
    let h = &e.vtables[1].entries[0];
    assert_eq!(adjust_this(boxed, f.adjust), boxed);
    assert_eq!(adjust_this(boxed + 8, h.adjust), boxed);
}

#[test]
fn boxed_round_trip() {
    let b = make_boxed(vec![0x10, 0x20], "payload".to_string());
    assert_eq!(b.tables, vec![0x10, 0x20]);
    assert_eq!(from_boxed(b), "payload");
}
