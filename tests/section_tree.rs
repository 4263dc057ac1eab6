use pallas_inspect::section::Section;

fn topics(s: &Section) -> Vec<Option<String>> {
    s.children.iter().map(|c| c.topic.clone()).collect()
}

#[test]
fn try_build_child_absorbs_failure_into_parent() {
    let s = Section::new()
        .with_topic("root")
        .try_build_child(Err("bad input".to_string()));
    assert_eq!(s.error.as_deref(), Some("bad input"));
    assert!(s.children.is_empty());
}

#[test]
fn try_build_child_appends_success() {
    let child = Section::new().with_topic("child");
    let s = Section::new().with_topic("root").try_build_child(Ok(child));
    assert!(s.error.is_none());
    assert_eq!(topics(&s), vec![Some("child".to_string())]);
}

#[test]
fn new_section_is_empty() {
    let s = Section::new();
    assert!(s.topic.is_none() && s.identity.is_none() && s.error.is_none());
    assert!(s.bytes.is_none() && s.attributes.is_empty() && s.children.is_empty());
}

#[test]
fn from_error_holds_only_the_error() {
    let s = Section::from_error("boom".to_string());
    assert_eq!(s.error.as_deref(), Some("boom"));
    assert!(s.topic.is_none() && s.attributes.is_empty() && s.children.is_empty());
}

#[test]
fn attributes_keep_insertion_order_and_absent_values() {
    let s = Section::new()
        .with_attr("first", "1".to_string())
        .with_maybe_attr("second", None)
        .with_maybe_attr("third", Some("3".to_string()));
    assert_eq!(s.attributes.len(), 3);
    assert_eq!(s.attributes[0].topic.as_deref(), Some("first"));
    assert_eq!(s.attributes[0].value.as_deref(), Some("1"));
    assert_eq!(s.attributes[1].topic.as_deref(), Some("second"));
    assert!(s.attributes[1].value.is_none());
    assert_eq!(s.attributes[2].value.as_deref(), Some("3"));
}

#[test]
fn bytes_are_lower_case_hex() {
    let s = Section::new().with_bytes(&[0x00, 0xab, 0x1f]);
    assert_eq!(s.bytes.as_deref(), Some("00ab1f"));
}

#[test]
fn child_operations_append_or_replace() {
    let s = Section::new()
        .push_child(Section::new().with_topic("a"))
        .maybe_push_child(None)
        .maybe_push_child(Some(Section::new().with_topic("b")))
        .build_child(Section::new().with_topic("c"))
        .append_children(vec![Section::new().with_topic("d")]);
    assert_eq!(
        topics(&s),
        vec![
            Some("a".to_string()),
            Some("b".to_string()),
            Some("c".to_string()),
            Some("d".to_string())
        ]
    );
    let replaced = s.collect_children(vec![Section::new().with_topic("z")]);
    assert_eq!(topics(&replaced), vec![Some("z".to_string())]);
}
