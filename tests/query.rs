use elm_mcp::query::{validate_package, validate_string, QueryError};

#[test]
fn accepts_lowercase_digits_and_hyphens() {
    assert!(validate_string("elm-ui"));
    assert!(validate_string("json-decode-2"));
    assert!(validate_string("0123456789"));
    assert!(validate_string("-"));
    assert!(validate_string(""));
}

#[test]
fn rejects_other_characters() {
    assert!(!validate_string("Elm"));
    assert!(!validate_string("elm ui"));
    assert!(!validate_string("elm_ui"));
    assert!(!validate_string("elm/ui"));
    assert!(!validate_string("é"));
    assert!(!validate_string("abc!"));
}

#[test]
fn joins_author_and_name() {
    assert_eq!(validate_package("elm", "json"), Ok("elm/json".to_string()));
    assert_eq!(validate_package("mdgriffith", "elm-ui"), Ok("mdgriffith/elm-ui".to_string()));
}

#[test]
fn rejects_pair_when_both_parts_are_invalid() {
    assert_eq!(validate_package("Elm", "Json"), Err(QueryError::InvalidCharacters));
}

#[test]
fn accepts_pair_when_one_part_is_valid() {
    assert_eq!(validate_package("Elm", "json"), Ok("Elm/json".to_string()));
    assert_eq!(validate_package("elm", "Json"), Ok("elm/Json".to_string()));
}

#[test]
fn query_error_message_names_allowed_characters() {
    assert_eq!(
        QueryError::InvalidCharacters.message(),
        "Allowed characters: digits (0-9), lowercase letters (a-z), hyphen (-)"
    );
}
