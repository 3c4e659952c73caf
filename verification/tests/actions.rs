use wasmrs::actions::{chars, reverse, wrap};

#[test]
fn reverse_text() {
    assert_eq!(reverse("hello"), "olleh");
    assert_eq!(reverse(""), "");
    assert_eq!(reverse("añb"), "bña");
}

#[test]
fn chars_of_text() {
    assert_eq!(chars("abc"), vec!["a".to_owned(), "b".to_owned(), "c".to_owned()]);
    assert!(chars("").is_empty());
}

#[test]
fn wrap_text() {
    assert_eq!(wrap("[", "msg", "]"), "[msg]");
}
