use cpp_class::decl::{DeclError, Item, Method, VTableAttr};
use cpp_class::model::VTableDefinition;

fn method(name: &str) -> Method {
    Method { name: name.to_string(), has_default: false, has_receiver: true }
}

fn class(abi: Option<&str>, rtti_name: &str) -> VTableAttr {
    VTableAttr::VirtualClass { abi: abi.map(|a| a.to_string()), rtti_name: rtti_name.to_string() }
}

fn derive(parents: &[&str]) -> VTableAttr {
    VTableAttr::Derive(parents.iter().map(|p| p.to_string()).collect())
}

fn shape_trait(attrs: Vec<VTableAttr>, methods: Vec<Method>) -> Item {
    Item::Trait { ident: "Shape".to_string(), attrs, methods }
}

fn widget(attrs: Vec<VTableAttr>) -> Item {
    Item::Struct { ident: "Widget".to_string(), attrs }
}

fn error_of(items: Vec<Item>) -> DeclError {
    match VTableDefinition::try_from("ns".to_string(), &items) {
        Err(e) => e,
        Ok(_) => panic!("expected an error"),
    }
}

#[test]
fn reads_child_and_bases() {
    let items = vec![
        shape_trait(vec![class(None, "5Shape")], vec![method("area"), method("name")]),
        Item::Trait {
            ident: "Named".to_string(),
            attrs: vec![class(Some("C"), "5Named")],
            methods: vec![method("label")],
        },
        Item::Other,
        widget(vec![derive(&["Shape", "Named"])]),
    ];
    let def = VTableDefinition::try_from("ns".to_string(), &items).ok().unwrap();
    assert_eq!(def.module, "ns");
    assert_eq!(def.child.ident, "Widget");
    assert_eq!(def.child.parents, vec!["Shape".to_string(), "Named".to_string()]);
    assert_eq!(def.bases.len(), 2);
    assert_eq!(def.bases[0].ident, "Shape");
    assert_eq!(def.bases[0].abi, "fastcall");
    assert_eq!(def.bases[0].rtti_name, "5Shape");
    assert_eq!(def.bases[0].funcs, vec!["area".to_string(), "name".to_string()]);
    assert_eq!(def.bases[1].abi, "C");
    assert_eq!(def.bases[1].funcs, vec!["label".to_string()]);
}

#[test]
fn plain_items_are_ignored() {
    let items = vec![
        Item::Const { attrs: vec![] },
        Item::Struct { ident: "Helper".to_string(), attrs: vec![] },
        widget(vec![derive(&[])]),
    ];
    let def = VTableDefinition::try_from("m".to_string(), &items).ok().unwrap();
    assert!(def.bases.is_empty());
    assert!(def.child.parents.is_empty());
}

#[test]
fn missing_child() {
    let items = vec![shape_trait(vec![class(None, "5Shape")], vec![method("area")])];
    assert!(matches!(error_of(items), DeclError::MissingChild));
}

#[test]
fn attribute_on_const() {
    let items = vec![Item::Const { attrs: vec![derive(&["A"])] }, widget(vec![derive(&[])])];
    assert!(matches!(error_of(items), DeclError::AttrOnConst));
}

#[test]
fn second_derive() {
    let items = vec![
        widget(vec![derive(&["A"])]),
        Item::Struct { ident: "Other".to_string(), attrs: vec![derive(&["B"])] },
    ];
    assert!(matches!(error_of(items), DeclError::DuplicateDerive));
}

#[test]
fn virtual_class_on_struct() {
    let items = vec![widget(vec![class(None, "6Widget")])];
    assert!(matches!(error_of(items), DeclError::VirtualClassOnStruct));
}

#[test]
fn derive_on_trait() {
    let items = vec![shape_trait(vec![derive(&["A"])], vec![]), widget(vec![derive(&[])])];
    assert!(matches!(error_of(items), DeclError::DeriveOnTrait));
}

#[test]
fn default_method() {
    let mut m = method("area");
    m.has_default = true;
    let items = vec![shape_trait(vec![class(None, "5Shape")], vec![method("a"), m])];
    match error_of(items) {
        DeclError::DefaultMethod(name) => assert_eq!(name, "area"),
        e => panic!("unexpected {:?}", e),
    }
}

#[test]
fn static_method() {
    let mut m = method("make");
    m.has_receiver = false;
    let items = vec![shape_trait(vec![class(None, "5Shape")], vec![m]), widget(vec![derive(&[])])];
    match error_of(items) {
        DeclError::StaticMethod(name) => assert_eq!(name, "make"),
        e => panic!("unexpected {:?}", e),
    }
}

#[test]
fn first_error_wins() {
    let items = vec![
        widget(vec![class(None, "6Widget")]),
        Item::Const { attrs: vec![derive(&[])] },
    ];
    assert!(matches!(error_of(items), DeclError::VirtualClassOnStruct));
}
