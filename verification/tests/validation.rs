use yoo::validate::{validate_description, validate_project_name};

#[test]
fn accepts_names_matching_the_pattern() {
    assert!(validate_project_name("my-app"));
    assert!(validate_project_name("a"));
    assert!(validate_project_name("0"));
    assert!(validate_project_name("A1-B2-c3"));
    assert!(validate_project_name("frontend"));
    assert!(validate_project_name("a1-2b-3c-4d"));
}

#[test]
fn rejects_empty_name() {
    assert!(!validate_project_name(""));
}

#[test]
fn rejects_whitespace() {
    assert!(!validate_project_name("my app"));
    assert!(!validate_project_name(" my-app"));
    assert!(!validate_project_name("my-app "));
    assert!(!validate_project_name("\t"));
}

#[test]
fn rejects_punctuation_other_than_hyphen() {
    assert!(!validate_project_name("my_app"));
    assert!(!validate_project_name("app!"));
    assert!(!validate_project_name("a.b"));
    assert!(!validate_project_name("a/b"));
}

#[test]
fn rejects_leading_or_trailing_hyphen() {
    assert!(!validate_project_name("-app"));
    assert!(!validate_project_name("app-"));
    assert!(!validate_project_name("-"));
    assert!(!validate_project_name("-a-"));
}

#[test]
fn rejects_adjacent_hyphens() {
    assert!(!validate_project_name("my--app"));
    assert!(!validate_project_name("a--b--c"));
}

#[test]
fn rejects_non_ascii_letters() {
    assert!(!validate_project_name("caf\u{e9}"));
    assert!(!validate_project_name("\u{4f60}\u{597d}"));
}

#[test]
fn description_must_be_non_empty() {
    assert!(!validate_description(""));
    assert!(validate_description("a tiny demo"));
}
