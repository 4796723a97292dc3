use code_scan_rs::payload::{extract_json_from_macro_tokens, is_valid_json};

#[test]
fn payload_runs_from_first_open_to_last_close() {
    assert_eq!(
        extract_json_from_macro_tokens("json ! ({ \"a\" : { \"b\" : 1 } })"),
        Some("{ \"a\" : { \"b\" : 1 } }".to_string())
    );
    assert_eq!(extract_json_from_macro_tokens("x{a}y"), Some("{a}".to_string()));
    assert_eq!(extract_json_from_macro_tokens("{}"), Some("{}".to_string()));
    assert_eq!(extract_json_from_macro_tokens("{a}{b}"), Some("{a}{b}".to_string()));
    assert_eq!(extract_json_from_macro_tokens("}{}"), Some("{}".to_string()));
    assert_eq!(extract_json_from_macro_tokens("é{ü}ß"), Some("{ü}".to_string()));
}

#[test]
fn payload_needs_both_braces() {
    assert_eq!(extract_json_from_macro_tokens(""), None);
    assert_eq!(extract_json_from_macro_tokens("no braces"), None);
    assert_eq!(extract_json_from_macro_tokens("only { open"), None);
    assert_eq!(extract_json_from_macro_tokens("only } close"), None);
}

#[test]
fn payload_of_braces_in_the_wrong_order() {
    assert_eq!(extract_json_from_macro_tokens("}{"), Some(String::new()));
    assert_eq!(extract_json_from_macro_tokens("a}{b"), Some(String::new()));
    assert_eq!(extract_json_from_macro_tokens("} {"), None);
    assert_eq!(extract_json_from_macro_tokens("}ab{"), None);
}

#[test]
fn valid_json_needs_both_braces() {
    assert!(is_valid_json("{}"));
    assert!(is_valid_json("}{"));
    assert!(is_valid_json("a { b } c"));
    assert!(!is_valid_json(""));
    assert!(!is_valid_json("{"));
    assert!(!is_valid_json("}"));
    assert!(!is_valid_json("[1, 2]"));
}
