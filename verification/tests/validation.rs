use support_case::decimal::{format_integer, parse_positive};
use support_case::text::{is_control, is_white_space, same_optional_text, same_text};
use support_case::validate::{
    parse_mutation_request, valid_case_ref, valid_idempotency_key, valid_identifier,
    valid_opaque_id, valid_secret_reference, valid_text, validate_callers,
};

const ID: &str = "936da01f-9abd-4d9d-80c7-02af85c822a8";

#[test]
fn opaque_identifiers_are_bounded_and_ascii() {
    assert!(valid_opaque_id("usr_1", 512));
    assert!(valid_opaque_id("a.b_c-d:e/f0", 512));
    assert!(valid_opaque_id(&"x".repeat(512), 512));
    assert!(!valid_opaque_id(&"x".repeat(513), 512));
    assert!(!valid_opaque_id("", 512));
    assert!(!valid_opaque_id("with space", 512));
    assert!(!valid_opaque_id("usr_\u{e9}", 512));
    assert!(!valid_opaque_id("usr@1", 512));
    assert!(valid_idempotency_key(&"k".repeat(200)));
    assert!(!valid_idempotency_key(&"k".repeat(201)));
    assert!(valid_identifier("auth.users", 256));
    assert!(!valid_identifier("auth/users", 256));
}

#[test]
fn texts_are_bounded_in_bytes_and_free_of_control_codes() {
    assert!(valid_text("Need help", 300, false));
    assert!(valid_text("line\nline\r\n\ttab", 300, false));
    assert!(!valid_text("bell\u{7}", 300, false));
    assert!(!valid_text("del\u{7f}", 300, false));
    assert!(!valid_text("", 300, false));
    assert!(!valid_text(" \u{3000}\t", 300, false));
    assert!(valid_text("", 300, true));
    assert!(valid_text(" ", 300, true));
    assert!(valid_text(&"\u{e9}".repeat(150), 300, false));
    assert!(!valid_text(&"\u{e9}".repeat(151), 300, false));
}

#[test]
fn character_classes_are_those_of_unicode() {
    for code in 0..0x11_0000_u32 {
        if let Some(c) = char::from_u32(code) {
            assert_eq!(is_control(c), c.is_control(), "{code:x}");
            assert_eq!(is_white_space(c), c.is_whitespace(), "{code:x}");
        }
    }
}

#[test]
fn texts_are_compared_whole() {
    assert!(same_text("SUP-1", "SUP-1"));
    assert!(!same_text("SUP-1", "SUP-10"));
    assert!(!same_text("a", "b"));
    assert!(same_optional_text(&Some("a".to_owned()), "a"));
    assert!(!same_optional_text(&None, "a"));
}

#[test]
fn case_references_are_uuids_or_identifiers() {
    assert!(valid_case_ref(ID));
    assert!(valid_case_ref("936DA01F9ABD4D9D80C702AF85C822A8"));
    assert!(valid_case_ref(&format!("{{{ID}}}")));
    assert!(valid_case_ref(&format!("urn:uuid:{ID}")));
    assert!(valid_case_ref(&format!("URN:UUID:{ID}")));
    assert!(valid_case_ref("SUP-1"));
    assert!(valid_case_ref("SUP-98765432109876543210"));
    assert!(!valid_case_ref("SUP-0"));
    assert!(!valid_case_ref("SUP-01"));
    assert!(!valid_case_ref("SUP-"));
    assert!(!valid_case_ref("SUP-1a"));
    assert!(!valid_case_ref("sup-1"));
    assert!(!valid_case_ref(""));
    assert!(!valid_case_ref("936da01f_9abd-4d9d-80c7-02af85c822a8"));
    assert!(!valid_case_ref("936da01f-9abd-4d9d-80c7-02af85c822ag"));
}

#[test]
fn secret_references_are_plain_relative_paths() {
    assert!(valid_secret_reference("support-case/database-url"));
    assert!(valid_secret_reference("a"));
    assert!(valid_secret_reference("a/.b/..c/d"));
    assert!(!valid_secret_reference(""));
    assert!(!valid_secret_reference("/a"));
    assert!(!valid_secret_reference("a/"));
    assert!(!valid_secret_reference("a//b"));
    assert!(!valid_secret_reference("."));
    assert!(!valid_secret_reference(".."));
    assert!(!valid_secret_reference("a/./b"));
    assert!(!valid_secret_reference("a/../b"));
    assert!(!valid_secret_reference("a/b/.."));
    assert!(!valid_secret_reference("a b"));
    assert!(!valid_secret_reference(&"a".repeat(257)));
}

#[test]
fn caller_lists_are_exact_and_unique() {
    let one = vec!["support-api".to_owned()];
    let twice = vec!["support-api".to_owned(), "support-api".to_owned()];
    let slashed = vec!["support/api".to_owned()];
    let full: Vec<String> = (0..64).map(|i| format!("caller-{i}")).collect();
    let over: Vec<String> = (0..65).map(|i| format!("caller-{i}")).collect();
    assert_eq!(validate_callers(&one), Ok(()));
    assert_eq!(validate_callers(&full), Ok(()));
    assert_eq!(validate_callers(&over), Err(()));
    assert_eq!(validate_callers(&Vec::new()), Err(()));
    assert_eq!(validate_callers(&twice), Err(()));
    assert_eq!(validate_callers(&slashed), Err(()));
}

#[test]
fn mutations_name_a_case_a_revision_and_a_key() {
    assert_eq!(parse_mutation_request("org_1", ID, "7", "key"), Some(7));
    assert_eq!(parse_mutation_request("org_1", ID, "+7", "key"), Some(7));
    assert_eq!(parse_mutation_request("org_1", ID, "007", "key"), Some(7));
    assert_eq!(parse_mutation_request("org_1", ID, "0", "key"), None);
    assert_eq!(parse_mutation_request("org_1", ID, "-1", "key"), None);
    assert_eq!(parse_mutation_request("org_1", ID, "", "key"), None);
    assert_eq!(parse_mutation_request("org_1", ID, "+", "key"), None);
    assert_eq!(parse_mutation_request("org_1", "SUP-1", "7", "key"), None);
    assert_eq!(parse_mutation_request("", ID, "7", "key"), None);
    assert_eq!(parse_mutation_request("org_1", ID, "7", ""), None);
}

#[test]
fn integers_round_trip_as_decimal_texts() {
    for value in [1, 9, 10, 99, 100, 1_234_567_890, i64::MAX] {
        assert_eq!(format_integer(value), value.to_string());
        assert_eq!(parse_positive(&format_integer(value)), Some(value));
    }
    for value in [0, -1, -10, i64::MIN] {
        assert_eq!(format_integer(value), value.to_string());
        assert_eq!(parse_positive(&format_integer(value)), None);
    }
    assert_eq!(parse_positive("9223372036854775807"), Some(i64::MAX));
    assert_eq!(parse_positive("9223372036854775808"), None);
    assert_eq!(parse_positive("99999999999999999999999999"), None);
    assert_eq!(parse_positive("1 "), None);
    assert_eq!(parse_positive("1_0"), None);
    assert_eq!(parse_positive("\u{661}"), None);
}
