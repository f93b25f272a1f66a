use hcl_for::Identifier;

#[test]
fn identifier_accepts_valid_names() {
    for name in ["x", "_", "foo_bar", "a-b", "Key9", "_9-x"] {
        let id = Identifier::new(name).expect("valid name");
        assert_eq!(id.as_str(), name);
    }
}

#[test]
fn identifier_rejects_invalid_names() {
    for name in ["", "9a", "-x", "a b", "a.b", "é", "x\u{e9}"] {
        assert!(Identifier::new(name).is_none(), "{name:?} was accepted");
    }
}

#[test]
fn identifier_clone_keeps_name() {
    let id = Identifier::new("value").unwrap();
    let copy = id.clone();
    assert_eq!(copy, id);
    assert_eq!(copy.as_str(), "value");
}
