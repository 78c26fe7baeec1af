use bouncer::value::{copy_value, find_entry, read_optional_text, read_text_list, OpaqueValue};

fn text(s: &str) -> OpaqueValue {
    OpaqueValue::Text(s.to_string())
}

#[test]
fn first_entry_of_a_name_counts() {
    let entries = vec![
        ("a".to_string(), text("1")),
        ("b".to_string(), text("2")),
        ("a".to_string(), text("3")),
    ];
    assert_eq!(find_entry(&entries, "a"), Some(0));
    assert_eq!(find_entry(&entries, "b"), Some(1));
    assert_eq!(find_entry(&entries, "c"), None);
    let m = OpaqueValue::Mapping(entries);
    assert!(matches!(m.get("a"), Some(OpaqueValue::Text(t)) if t == "1"));
    assert!(m.get("c").is_none());
    assert!(text("a").get("a").is_none());
    assert!(OpaqueValue::Sequence(vec![]).get("a").is_none());
}

#[test]
fn optional_texts() {
    let m = OpaqueValue::Mapping(vec![
        ("t".to_string(), text("x")),
        ("n".to_string(), OpaqueValue::Null),
        ("b".to_string(), OpaqueValue::Bool(false)),
        ("k".to_string(), OpaqueValue::Number("7".to_string())),
    ]);
    assert_eq!(read_optional_text(&m, "t"), Some(Some("x".to_string())));
    assert_eq!(read_optional_text(&m, "n"), Some(None));
    assert_eq!(read_optional_text(&m, "missing"), Some(None));
    assert_eq!(read_optional_text(&m, "b"), None);
    assert_eq!(read_optional_text(&m, "k"), None);
    assert_eq!(read_optional_text(&OpaqueValue::Null, "t"), Some(None));
}

#[test]
fn lists_of_texts() {
    assert_eq!(
        read_text_list(&OpaqueValue::Sequence(vec![text("a"), text("b")])),
        Some(vec!["a".to_string(), "b".to_string()])
    );
    assert_eq!(read_text_list(&OpaqueValue::Sequence(vec![])), Some(vec![]));
    assert_eq!(read_text_list(&OpaqueValue::Sequence(vec![text("a"), OpaqueValue::Null])), None);
    assert_eq!(read_text_list(&text("a")), None);
}

#[test]
fn a_copy_holds_the_same_tree() {
    let value = OpaqueValue::Mapping(vec![
        ("a".to_string(), OpaqueValue::Sequence(vec![text("x"), OpaqueValue::Bool(false)])),
        ("b".to_string(), OpaqueValue::Mapping(vec![("c".to_string(), OpaqueValue::Null)])),
        ("n".to_string(), OpaqueValue::Number("1.5".to_string())),
    ]);
    let written = format!("{:?}", value);
    assert_eq!(format!("{:?}", copy_value(&value)), written);
    assert_eq!(format!("{:?}", value.clone()), written);
    assert_eq!(format!("{:?}", copy_value(&OpaqueValue::Null)), "Null");
    assert_eq!(format!("{:?}", copy_value(&OpaqueValue::Sequence(vec![]))), "Sequence([])");
}
