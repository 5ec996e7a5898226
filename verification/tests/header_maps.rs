use http::header::HeaderMap;
use sigv4_client::headers::{build_header_map, HeaderFault, RequestHeader};
use sigv4_client::text::{check_header_value, same_text};

fn header(key: &str, value: &str) -> RequestHeader {
    RequestHeader { key: key.to_string(), value: value.to_string() }
}

fn all_values(map: &HeaderMap, name: &str) -> Vec<Vec<u8>> {
    map.get_all(name).iter().map(|v| v.as_bytes().to_vec()).collect()
}

fn one(key: &str, value: &str) -> Result<HeaderMap, HeaderFault> {
    build_header_map(&vec![header(key, value)])
}

#[test]
fn an_empty_list_gives_an_empty_header_map() {
    let map = build_header_map(&Vec::new()).unwrap();
    assert_eq!(map.len(), 0);
    assert!(map.is_empty());
}

#[test]
fn the_name_goes_in_lowercase_and_the_value_as_it_is() {
    let user = vec![header("X-Mixed-Case", "  Value  "), header("x-mixed-case", "second"), header("Other", "gr\u{fc}n")];
    let map = build_header_map(&user).unwrap();
    assert_eq!(map.len(), 3);
    assert_eq!(all_values(&map, "x-mixed-case"), vec![b"  Value  ".to_vec(), b"second".to_vec()]);
    assert_eq!(all_values(&map, "other"), vec!["gr\u{fc}n".as_bytes().to_vec()]);
    assert!(map.keys().all(|k| k.as_str() == k.as_str().to_lowercase()));
}

#[test]
fn header_name_characters() {
    for byte in 0u8..128 {
        let c = byte as char;
        let allowed = c.is_ascii_alphanumeric() || "!\"#$%&'*+-.^_`|~".contains(c);
        let outcome = one(&format!("x{}", c), "v");
        assert_eq!(outcome.is_ok(), allowed, "{:?}", c);
        if !allowed {
            assert_eq!(outcome.unwrap_err(), HeaderFault::Name);
        }
    }
    assert!(one(&"a".repeat(65535), "v").is_ok());
    assert_eq!(one(&"a".repeat(65536), "v").unwrap_err(), HeaderFault::Name);
    assert_eq!(one("h\u{e9}", "v").unwrap_err(), HeaderFault::Name);
    assert_eq!(one("", "v").unwrap_err(), HeaderFault::Name);
    assert_eq!(one("bad name", "bad\nvalue").unwrap_err(), HeaderFault::Name);
}

#[test]
fn header_value_characters() {
    for byte in 0u8..128 {
        let c = byte as char;
        let allowed = c == '\t' || (byte >= 32 && byte != 127);
        let text = format!("a{}b", c);
        assert_eq!(check_header_value(&text), allowed, "{:?}", c);
        let outcome = one("x", &text);
        assert_eq!(outcome.is_ok(), allowed, "{:?}", c);
        if !allowed {
            assert_eq!(outcome.unwrap_err(), HeaderFault::Value);
        }
    }
    for text in ["", "plain", "\u{80}", "\u{ff}", "\u{2603}", "\u{10ffff}", "tab\there"] {
        assert!(check_header_value(text));
        assert!(one("x", text).is_ok());
    }
}

#[test]
fn building_a_header_map_from_a_list() {
    let user = vec![header("A", "1"), header("b", "2"), header("a", "3"), header("B", "4"), header("A", "1")];
    let map = build_header_map(&user).unwrap();
    assert_eq!(map.len(), 5);
    assert_eq!(all_values(&map, "a"), vec![b"1".to_vec(), b"3".to_vec(), b"1".to_vec()]);
    assert_eq!(all_values(&map, "b"), vec![b"2".to_vec(), b"4".to_vec()]);
    assert_eq!(build_header_map(&Vec::new()).unwrap().len(), 0);
}

#[test]
fn building_stops_at_the_first_fault() {
    let name = vec![header("ok", "1"), header("not ok", "\n"), header("x", "\n")];
    assert_eq!(build_header_map(&name).unwrap_err(), HeaderFault::Name);
    let value = vec![header("ok", "1"), header("x", "\n"), header("not ok", "2")];
    assert_eq!(build_header_map(&value).unwrap_err(), HeaderFault::Value);
}

#[test]
fn comparing_texts() {
    assert!(same_text("", ""));
    assert!(same_text("GET", "GET"));
    assert!(!same_text("GET", "GEt"));
    assert!(!same_text("GET", "GE"));
    assert!(!same_text("GE", "GET"));
    assert!(same_text("gr\u{fc}n", "gr\u{fc}n"));
    assert!(!same_text("gr\u{fc}n", "grun"));
}
