use ilo4_fan_control::json::{has_at, len_at, text_at, u64_at};

fn document() -> serde_json::Value {
    serde_json::from_str(r#"{"a": {"b": [10, "x", -3, 1.5, {"c": "deep"}]}, "n": null, "e": []}"#)
        .unwrap()
}

#[test]
fn a_pointer_finds_what_is_there() {
    let doc = document();
    assert!(has_at(&doc, ""));
    assert!(has_at(&doc, "/a"));
    assert!(has_at(&doc, "/a/b/4/c"));
    assert!(has_at(&doc, "/n"));
    assert!(!has_at(&doc, "/z"));
    assert!(!has_at(&doc, "/a/b/5"));
    assert!(!has_at(&doc, "/a/b/01"));
    assert!(!has_at(&doc, "a"));
}

#[test]
fn an_array_has_a_length() {
    let doc = document();
    assert_eq!(len_at(&doc, "/a/b"), Some(5));
    assert_eq!(len_at(&doc, "/e"), Some(0));
    assert_eq!(len_at(&doc, "/a"), None);
    assert_eq!(len_at(&doc, "/z"), None);
}

#[test]
fn a_string_is_copied_out() {
    let doc = document();
    assert_eq!(text_at(&doc, "/a/b/1"), Some("x".to_string()));
    assert_eq!(text_at(&doc, "/a/b/4/c"), Some("deep".to_string()));
    assert_eq!(text_at(&doc, "/a/b/0"), None);
    assert_eq!(text_at(&doc, "/n"), None);
    assert_eq!(text_at(&doc, "/z"), None);
}

#[test]
fn only_a_natural_number_is_a_number() {
    let doc = document();
    assert_eq!(u64_at(&doc, "/a/b/0"), Some(10));
    assert_eq!(u64_at(&doc, "/a/b/1"), None);
    assert_eq!(u64_at(&doc, "/a/b/2"), None);
    assert_eq!(u64_at(&doc, "/a/b/3"), None);
    assert_eq!(u64_at(&doc, "/z"), None);
}
