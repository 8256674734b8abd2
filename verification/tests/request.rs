use request_bridge::bridge::plan_request;
use request_bridge::method::Method;
use request_bridge::request::{encode_body, ClientConfig, Header, Request, TIMEOUT_SECS};

fn header(name: &str, value: &str) -> Header {
    Header { name: String::from(name), value: String::from(value) }
}

#[test]
fn client_for_level_zero() {
    assert_eq!(
        ClientConfig::for_level(0),
        ClientConfig { gzip: false, tcp_nodelay: true, timeout_secs: 3600 }
    );
}

#[test]
fn client_for_higher_levels() {
    for level in [1usize, 6, 9, 10, 255, 256, usize::MAX] {
        assert_eq!(
            ClientConfig::for_level(level),
            ClientConfig { gzip: true, tcp_nodelay: true, timeout_secs: 3600 }
        );
    }
}

#[test]
fn timeout_is_one_hour() {
    assert_eq!(TIMEOUT_SECS, 60 * 60);
}

#[test]
fn level_zero_keeps_the_text() {
    assert_eq!(encode_body("{\"a\":1}", 0), b"{\"a\":1}".to_vec());
    assert_eq!(encode_body("", 0), Vec::<u8>::new());
    assert_eq!(encode_body("\u{e9}", 0), vec![0xc3, 0xa9]);
    assert_eq!(encode_body("\u{20ac}\u{1f600}", 0), "\u{20ac}\u{1f600}".as_bytes().to_vec());
}

#[test]
fn deflate_of_a_known_text() {
    assert_eq!(
        encode_body("Deflate late", 1),
        vec![0x73, 0x49, 0x4d, 0xcb, 0x49, 0x2c, 0x49, 0x55, 0x00, 0x11, 0x00]
    );
}

#[test]
fn higher_levels_deflate() {
    let text = "{\"query\":{\"match_all\":{}},\"size\":10,\"note\":\"aaaaaaaaaaaaaaaaaaaaaaaaaaaaaaaa\"}";
    for level in [1usize, 2, 5, 6, 9, 10] {
        let bytes = encode_body(text, level);
        assert_ne!(bytes, text.as_bytes().to_vec());
        assert_eq!(bytes, miniz_oxide::deflate::compress_to_vec(text.as_bytes(), level as u8));
        assert_eq!(
            miniz_oxide::inflate::decompress_to_vec(&bytes).ok(),
            Some(text.as_bytes().to_vec())
        );
    }
}

#[test]
fn deflate_of_the_empty_text() {
    let bytes = encode_body("", 6);
    assert!(!bytes.is_empty());
    assert_eq!(bytes, miniz_oxide::deflate::compress_to_vec(b"", 6));
    assert_eq!(miniz_oxide::inflate::decompress_to_vec(&bytes).ok(), Some(Vec::new()));
}

#[test]
fn effort_is_the_low_byte_of_the_level() {
    let text = "abcabcabcabcabcabcabcabcabcabcabcabcabcabcabcabc";
    assert_eq!(encode_body(text, 256), miniz_oxide::deflate::compress_to_vec(text.as_bytes(), 0));
    assert_eq!(encode_body(text, 257), miniz_oxide::deflate::compress_to_vec(text.as_bytes(), 1));
    assert_eq!(encode_body(text, 255), miniz_oxide::deflate::compress_to_vec(text.as_bytes(), 255));
    assert_eq!(
        encode_body(text, 256 * 7 + 9),
        miniz_oxide::deflate::compress_to_vec(text.as_bytes(), 9)
    );
    assert_ne!(encode_body(text, 256), text.as_bytes().to_vec());
    assert_eq!(
        miniz_oxide::inflate::decompress_to_vec(&encode_body(text, 256)).ok(),
        Some(text.as_bytes().to_vec())
    );
}

#[test]
fn assemble_without_body() {
    let request = Request::assemble(Method::Get, String::from("http://h/p"), None, false);
    assert_eq!(
        request,
        Request {
            method: Method::Get,
            url: String::from("http://h/p"),
            headers: vec![header("Content-Type", "application/json")],
            body: None,
        }
    );
    let noted = Request::assemble(Method::Get, String::from("http://h/p"), None, true);
    assert_eq!(noted, request);
}

#[test]
fn assemble_with_plain_body() {
    let request = Request::assemble(Method::Post, String::from("http://h/p"), Some(vec![1, 2, 3]), false);
    assert_eq!(
        request,
        Request {
            method: Method::Post,
            url: String::from("http://h/p"),
            headers: vec![header("Content-Type", "application/json")],
            body: Some(vec![1, 2, 3]),
        }
    );
}

#[test]
fn assemble_with_deflated_body() {
    let request = Request::assemble(Method::Put, String::from("https://h/p"), Some(vec![9, 8]), true);
    assert_eq!(
        request,
        Request {
            method: Method::Put,
            url: String::from("https://h/p"),
            headers: vec![
                header("Content-Type", "application/json"),
                header("Content-Encoding", "deflate"),
            ],
            body: Some(vec![9, 8]),
        }
    );
}

#[test]
fn plan_without_compression() {
    let request = plan_request(Method::Post, String::from("http://h/i"), Some("{\"k\":\"v\"}"), 0);
    assert_eq!(request.method, Method::Post);
    assert_eq!(request.url, "http://h/i");
    assert_eq!(request.headers, vec![header("Content-Type", "application/json")]);
    assert_eq!(request.body, Some(b"{\"k\":\"v\"}".to_vec()));
}

#[test]
fn plan_with_compression() {
    let text = "{\"k\":\"vvvvvvvvvvvvvvvvvvvvvvvvvvvvvvvvvvvvvvvvvvvvvvvv\"}";
    let request = plan_request(Method::Post, String::from("http://h/i"), Some(text), 6);
    assert_eq!(
        request.headers,
        vec![header("Content-Type", "application/json"), header("Content-Encoding", "deflate")]
    );
    assert_eq!(request.body, Some(miniz_oxide::deflate::compress_to_vec(text.as_bytes(), 6)));
    assert_ne!(request.body, Some(text.as_bytes().to_vec()));
}

#[test]
fn plan_without_body_sets_no_encoding() {
    for level in [0usize, 1, 9] {
        let request = plan_request(Method::Delete, String::from("http://h/i"), None, level);
        assert_eq!(request.headers, vec![header("Content-Type", "application/json")]);
        assert_eq!(request.body, None);
    }
}

#[test]
fn content_type_is_json_even_for_deflated_bodies() {
    let request = plan_request(Method::Put, String::from("http://h/i"), Some("not json"), 3);
    assert_eq!(request.headers[0], header("Content-Type", "application/json"));
}
