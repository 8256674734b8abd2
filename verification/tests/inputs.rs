use request_bridge::bridge::check_inputs;
use request_bridge::error::CallError;
use request_bridge::method::Method;
use request_bridge::text::{begins_with, same_text};
use request_bridge::url::{names_scheme, with_default_scheme};

#[test]
fn it_works() {
    assert_eq!(2 + 2, 4);
}

#[test]
fn begins_with_compares_characters() {
    assert!(begins_with("http://a", "http://"));
    assert!(begins_with("abc", ""));
    assert!(begins_with("", ""));
    assert!(begins_with("abc", "abc"));
    assert!(!begins_with("ab", "abc"));
    assert!(!begins_with("", "a"));
    assert!(!begins_with("xbc", "abc"));
    assert!(!begins_with("abx", "abc"));
    assert!(begins_with("h\u{e9}llo w\u{f6}rld", "h\u{e9}llo"));
    assert!(!begins_with("h\u{e9}llo", "he"));
}

#[test]
fn same_text_is_exact() {
    assert!(same_text("", ""));
    assert!(same_text("GET", "GET"));
    assert!(!same_text("GET", "GETS"));
    assert!(!same_text("GETS", "GET"));
    assert!(!same_text("get", "GET"));
    assert!(same_text("na\u{ef}ve", "na\u{ef}ve"));
    assert!(!same_text("naive", "na\u{ef}ve"));
}

#[test]
fn four_methods_are_parsed() {
    assert_eq!(Method::parse("GET"), Some(Method::Get));
    assert_eq!(Method::parse("POST"), Some(Method::Post));
    assert_eq!(Method::parse("PUT"), Some(Method::Put));
    assert_eq!(Method::parse("DELETE"), Some(Method::Delete));
}

#[test]
fn other_tokens_are_not_methods() {
    assert_eq!(Method::parse("PATCH"), None);
    assert_eq!(Method::parse("get"), None);
    assert_eq!(Method::parse("Get"), None);
    assert_eq!(Method::parse(""), None);
    assert_eq!(Method::parse(" GET"), None);
    assert_eq!(Method::parse("GET "), None);
    assert_eq!(Method::parse("HEAD"), None);
    assert_eq!(Method::parse("DELETED"), None);
}

#[test]
fn tokens_read_back() {
    for method in [Method::Get, Method::Post, Method::Put, Method::Delete] {
        assert_eq!(Method::parse(method.token()), Some(method));
    }
    assert_eq!(Method::Get.token(), "GET");
    assert_eq!(Method::Post.token(), "POST");
    assert_eq!(Method::Put.token(), "PUT");
    assert_eq!(Method::Delete.token(), "DELETE");
}

#[test]
fn target_without_scheme_gets_http() {
    assert_eq!(with_default_scheme("example.com/api"), "http://example.com/api");
    assert_eq!(with_default_scheme("localhost:9200/_search"), "http://localhost:9200/_search");
}

#[test]
fn target_with_scheme_is_unchanged() {
    assert_eq!(with_default_scheme("https://example.com/api"), "https://example.com/api");
    assert_eq!(with_default_scheme("http://example.com/api"), "http://example.com/api");
    assert_eq!(with_default_scheme("http://"), "http://");
    assert_eq!(with_default_scheme("https://"), "https://");
}

#[test]
fn empty_target_passes_through() {
    assert_eq!(with_default_scheme(""), "http://");
}

#[test]
fn scheme_match_is_exact() {
    assert!(names_scheme("http://x"));
    assert!(names_scheme("https://x"));
    assert!(!names_scheme("HTTP://x"));
    assert!(!names_scheme("Https://x"));
    assert!(!names_scheme("http:/x"));
    assert!(!names_scheme("https:/x"));
    assert!(!names_scheme("ftp://x"));
    assert!(!names_scheme(" http://x"));
    assert!(!names_scheme("http"));
    assert_eq!(with_default_scheme("HTTP://x"), "http://HTTP://x");
    assert_eq!(with_default_scheme("ftp://x"), "http://ftp://x");
    assert_eq!(with_default_scheme("http:/x"), "http://http:/x");
}

#[test]
fn default_scheme_is_given_once() {
    for target in ["example.com", "http://a", "https://b", "", "\u{fc}ber.example/\u{e4}"] {
        let once = with_default_scheme(target);
        let twice = with_default_scheme(&once);
        assert_eq!(once, twice);
        assert!(names_scheme(&once));
    }
}

#[test]
fn valid_inputs_pass() {
    assert_eq!(
        check_inputs("GET", Some("example.com/api")),
        Ok((Method::Get, String::from("http://example.com/api")))
    );
    assert_eq!(
        check_inputs("DELETE", Some("https://example.com/x")),
        Ok((Method::Delete, String::from("https://example.com/x")))
    );
    assert_eq!(check_inputs("PUT", Some("")), Ok((Method::Put, String::from("http://"))));
}

#[test]
fn missing_target_is_refused() {
    assert_eq!(check_inputs("GET", None), Err(CallError::NullUrl));
}

#[test]
fn missing_target_is_found_before_bad_method() {
    assert_eq!(check_inputs("PATCH", None), Err(CallError::NullUrl));
}

#[test]
fn unrecognized_method_is_refused_with_its_token() {
    assert_eq!(
        check_inputs("PATCH", Some("example.com")),
        Err(CallError::UnrecognizedMethod { token: String::from("PATCH") })
    );
    assert_eq!(
        check_inputs("post", Some("example.com")),
        Err(CallError::UnrecognizedMethod { token: String::from("post") })
    );
}
