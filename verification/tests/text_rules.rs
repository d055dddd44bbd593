use token_info::domain::{get_cleaned_domain, is_valid_domain};
use token_info::text::{clean_description, clean_uri};

#[test]
fn clean_uri_keeps_a_clean_uri() {
    let uri = "https://example.com/meta.json?a=1&b=2%20~x_y-z";
    assert_eq!(clean_uri(uri), uri);
}

#[test]
fn clean_uri_drops_what_is_not_allowed() {
    assert_eq!(clean_uri("ht\u{0}tp://a\u{7f}b.c/\u{e9}d\u{1}"), "http://ab.c/d");
}

#[test]
fn clean_uri_keeps_white_space() {
    assert_eq!(clean_uri("a b\tc\nd\u{a0}e"), "a b\tc\nd\u{a0}e");
}

#[test]
fn clean_uri_of_empty_text_is_empty() {
    assert_eq!(clean_uri(""), "");
}

#[test]
fn clean_uri_twice_is_clean_uri_once() {
    let once = clean_uri("x\u{0}y\u{2603}z /:.-_?&=%~");
    assert_eq!(clean_uri(&once), once);
    assert_eq!(once, "xyz /:.-_?&=%~");
}

#[test]
fn clean_description_strips_control_codes() {
    assert_eq!(clean_description("a\u{8}b\u{0}c"), "abc");
}

#[test]
fn clean_description_keeps_everything_else_in_order() {
    assert_eq!(
        clean_description("Snow \u{2603}\r\n man\u{9f} \u{e9}t\u{e9}\u{7f}!"),
        "Snow \u{2603} man \u{e9}t\u{e9}!"
    );
}

#[test]
fn clean_description_without_control_codes_is_unchanged() {
    assert_eq!(clean_description("A plain description."), "A plain description.");
}

#[test]
fn domain_rule_accepts_host_names() {
    assert!(is_valid_domain("example.com"));
    assert!(is_valid_domain("sub.example.co"));
}

#[test]
fn domain_rule_rejects_other_texts() {
    assert!(!is_valid_domain("not a domain"));
    assert!(!is_valid_domain("missing-tld"));
    assert!(!is_valid_domain(""));
}

#[test]
fn domain_rule_wants_two_letters_at_the_end() {
    assert!(!is_valid_domain("example.c"));
    assert!(!is_valid_domain("example.c0m"));
    assert!(!is_valid_domain(".com"));
    assert!(!is_valid_domain("example.com\n"));
    assert!(is_valid_domain("a-b.9.xy"));
}

#[test]
fn cleaned_domain_is_the_host() {
    assert_eq!(
        get_cleaned_domain("https://sub.example.com:8443/path?q=1"),
        Some("sub.example.com".to_string())
    );
    assert_eq!(get_cleaned_domain("ftp://rms@example.com"), Some("example.com".to_string()));
}

#[test]
fn cleaned_domain_is_absent_without_a_host() {
    assert_eq!(get_cleaned_domain("not a url"), None);
    assert_eq!(get_cleaned_domain("data:text/plain,Stuff"), None);
    assert_eq!(get_cleaned_domain(""), None);
}
