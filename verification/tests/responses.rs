use http::header::{HeaderMap, HeaderName, HeaderValue};
use sigv4_client::error::RequestError;
use sigv4_client::headers::RawHeader;
use sigv4_client::pipeline::{complete, RawResponse};
use sigv4_client::response::{convert_headers, group_headers, normalize_response, ResponseHeaders};

fn raw(name: &str, value: &[u8]) -> RawHeader {
    RawHeader { name: name.to_string(), value: value.to_vec() }
}

fn values_of<'a>(headers: &'a ResponseHeaders, name: &str) -> Vec<&'a str> {
    headers.get(name).map(|vs| vs.iter().map(|v| v.as_str()).collect()).unwrap_or_default()
}

#[test]
fn repeated_headers_keep_all_values_in_order() {
    let mut map = HeaderMap::new();
    map.append("set-cookie", HeaderValue::from_static("a=1"));
    map.append("content-type", HeaderValue::from_static("text/plain"));
    map.append("set-cookie", HeaderValue::from_static("b=2"));
    map.append("Set-Cookie".parse::<HeaderName>().unwrap(), HeaderValue::from_static("a=1"));
    let grouped = convert_headers(&map);
    assert_eq!(grouped.entries.len(), 2);
    assert_eq!(values_of(&grouped, "set-cookie"), vec!["a=1", "b=2", "a=1"]);
    assert_eq!(values_of(&grouped, "content-type"), vec!["text/plain"]);
    assert!(grouped.get("Set-Cookie").is_none());
    assert!(grouped.get("missing").is_none());
}

#[test]
fn an_empty_header_map_gives_no_entries() {
    let grouped = convert_headers(&HeaderMap::new());
    assert!(grouped.entries.is_empty());
    assert!(grouped.get("anything").is_none());
}

#[test]
fn header_values_that_are_not_text_are_repaired() {
    let mut map = HeaderMap::new();
    map.append("x-bytes", HeaderValue::from_bytes(b"ok\xff\xfeend").unwrap());
    map.append("x-text", HeaderValue::from_bytes("gr\u{fc}n".as_bytes()).unwrap());
    let grouped = convert_headers(&map);
    assert_eq!(values_of(&grouped, "x-bytes"), vec!["ok\u{fffd}\u{fffd}end"]);
    assert_eq!(values_of(&grouped, "x-text"), vec!["gr\u{fc}n"]);
}

#[test]
fn grouping_plain_pairs() {
    let pairs = vec![
        raw("b", b"1"),
        raw("a", b"2"),
        raw("b", b"3"),
        raw("B", b"4"),
        raw("a", b""),
        raw("b", b"1"),
    ];
    let grouped = group_headers(&pairs);
    let names: Vec<&str> = grouped.entries.iter().map(|e| e.name.as_str()).collect();
    assert_eq!(names, vec!["b", "a", "B"]);
    assert_eq!(values_of(&grouped, "b"), vec!["1", "3", "1"]);
    assert_eq!(values_of(&grouped, "a"), vec!["2", ""]);
    assert_eq!(values_of(&grouped, "B"), vec!["4"]);
    let total: usize = grouped.entries.iter().map(|e| e.values.len()).sum();
    assert_eq!(total, pairs.len());
    assert!(group_headers(&Vec::new()).entries.is_empty());
}

#[test]
fn lossy_decoding_of_values() {
    let cases: [(&[u8], &str); 6] = [
        (b"", ""),
        (b"plain", "plain"),
        ("\u{e9}\u{2603}\u{1f600}".as_bytes(), "\u{e9}\u{2603}\u{1f600}"),
        (b"Hello \xF0\x90\x80World", "Hello \u{fffd}World"),
        (&[0xff], "\u{fffd}"),
        (&[0xc0, 0x80], "\u{fffd}\u{fffd}"),
    ];
    for (bytes, text) in cases {
        let grouped = group_headers(&vec![raw("x", bytes)]);
        assert_eq!(values_of(&grouped, "x"), vec![text]);
    }
}

#[test]
fn a_response_in_normal_form() {
    let mut map = HeaderMap::new();
    map.append("content-type", HeaderValue::from_static("application/json"));
    map.append("via", HeaderValue::from_static("1.1 a"));
    map.append("via", HeaderValue::from_static("1.1 b"));
    let payload = normalize_response("200 OK".to_string(), &map, b"{\"ok\":true}\n", 42);
    assert_eq!(payload.status, "200 OK");
    assert_eq!(payload.text, "{\"ok\":true}\n");
    assert_eq!(payload.size_bytes, 12);
    assert_eq!(payload.time_ms, 42);
    assert_eq!(values_of(&payload.headers, "via"), vec!["1.1 a", "1.1 b"]);
    assert_eq!(values_of(&payload.headers, "content-type"), vec!["application/json"]);
}

#[test]
fn a_body_that_is_not_text_is_repaired_and_sized_as_text() {
    let map = HeaderMap::new();
    let payload = normalize_response("500 Internal Server Error".to_string(), &map, &[0x66, 0xff, 0x6f], 0);
    assert_eq!(payload.text, "f\u{fffd}o");
    assert_eq!(payload.size_bytes, 5);
    let empty = normalize_response("204 No Content".to_string(), &map, b"", 7);
    assert_eq!(empty.text, "");
    assert_eq!(empty.size_bytes, 0);
    assert_eq!(empty.time_ms, 7);
    let wide = normalize_response("200 OK".to_string(), &map, "\u{2603}\u{1f600}".as_bytes(), 1);
    assert_eq!(wide.text, "\u{2603}\u{1f600}");
    assert_eq!(wide.size_bytes, 7);
    let cut = normalize_response("200 OK".to_string(), &map, &[0xe2, 0x98], 1);
    assert_eq!(cut.text, "\u{fffd}");
    assert_eq!(cut.size_bytes, 3);
}

#[test]
fn elapsed_time_is_cut_to_the_word() {
    let map = HeaderMap::new();
    let payload = normalize_response(String::new(), &map, b"", usize::MAX as u128);
    assert_eq!(payload.time_ms, usize::MAX);
    let wrapped = normalize_response(String::new(), &map, b"", usize::MAX as u128 + 6);
    assert_eq!(wrapped.time_ms, 5);
}

#[test]
fn a_call_ends_with_a_response_or_with_an_error() {
    let mut headers = HeaderMap::new();
    headers.append("x-a", HeaderValue::from_static("1"));
    let raw = RawResponse { status: "404 Not Found".to_string(), headers, body: b"gone".to_vec() };
    let payload = complete(Ok(raw), 15).unwrap();
    assert_eq!(payload.status, "404 Not Found");
    assert_eq!(payload.text, "gone");
    assert_eq!(payload.size_bytes, 4);
    assert_eq!(payload.time_ms, 15);
    assert_eq!(values_of(&payload.headers, "x-a"), vec!["1"]);

    let failed = complete(Err("connection refused".to_string()), 3).unwrap_err();
    assert_eq!(failed, RequestError::NetworkError("connection refused".to_string()));
    assert_eq!(failed.message(), "network error: connection refused");
}
