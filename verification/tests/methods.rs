use translator_backend::method::{method_from_uppercase, parse_method, Method};
use translator_backend::text::contains_char;

#[test]
fn upper_case_names_are_recognized() {
    assert_eq!(method_from_uppercase("GET"), Some(Method::Get));
    assert_eq!(method_from_uppercase("POST"), Some(Method::Post));
    assert_eq!(method_from_uppercase("PUT"), Some(Method::Put));
    assert_eq!(method_from_uppercase("PATCH"), Some(Method::Patch));
    assert_eq!(method_from_uppercase("DELETE"), Some(Method::Delete));
}

#[test]
fn exact_match_does_not_fold_case() {
    assert_eq!(method_from_uppercase("get"), None);
    assert_eq!(method_from_uppercase("Post"), None);
    assert_eq!(method_from_uppercase(""), None);
    assert_eq!(method_from_uppercase("GET "), None);
}

#[test]
fn parse_ignores_case() {
    assert_eq!(parse_method("get"), Some(Method::Get));
    assert_eq!(parse_method("Get"), Some(Method::Get));
    assert_eq!(parse_method("GET"), Some(Method::Get));
    assert_eq!(parse_method("post"), Some(Method::Post));
    assert_eq!(parse_method("pUt"), Some(Method::Put));
    assert_eq!(parse_method("patch"), Some(Method::Patch));
    assert_eq!(parse_method("delete"), Some(Method::Delete));
}

#[test]
fn parse_follows_unicode_case_mapping() {
    // U+017F, the long s, has S for its upper-case form.
    assert_eq!(parse_method("po\u{17f}t"), Some(Method::Post));
}

#[test]
fn parse_refuses_other_methods() {
    assert_eq!(parse_method("HEAD"), None);
    assert_eq!(parse_method("options"), None);
    assert_eq!(parse_method("TRACE"), None);
    assert_eq!(parse_method(""), None);
    assert_eq!(parse_method(" get"), None);
    assert_eq!(parse_method("GETS"), None);
}

#[test]
fn names_round_trip() {
    let all: Vec<Method> =
        vec![Method::Get, Method::Post, Method::Put, Method::Patch, Method::Delete];
    for method in all {
        assert_eq!(method_from_uppercase(method.name()), Some(method));
    }
    assert_eq!(Method::Patch.name(), "PATCH");
}

#[test]
fn contains_char_finds_a_character() {
    assert!(contains_char("/v2?target=fr", '?'));
    assert!(contains_char("?", '?'));
    assert!(contains_char("/v2/x?", '?'));
    assert!(!contains_char("/v2", '?'));
    assert!(!contains_char("", '?'));
    assert!(contains_char("caf\u{e9}?", '?'));
    assert!(contains_char("caf\u{e9}", '\u{e9}'));
}
