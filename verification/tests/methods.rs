use sigv4_client::method::Method;

#[test]
fn parses_the_nine_standard_verbs() {
    let table = [
        ("GET", Method::Get),
        ("POST", Method::Post),
        ("PUT", Method::Put),
        ("DELETE", Method::Delete),
        ("PATCH", Method::Patch),
        ("HEAD", Method::Head),
        ("OPTIONS", Method::Options),
        ("TRACE", Method::Trace),
        ("CONNECT", Method::Connect),
    ];
    for (text, method) in table {
        assert_eq!(Method::parse(text), Some(method));
        assert_eq!(method.as_str(), text);
        assert_eq!(Method::parse(method.as_str()), Some(method));
    }
}

#[test]
fn refuses_what_is_no_standard_verb() {
    for text in ["FETCH", "", "get", "Get", "GET ", " GET", "GETS", "G", "POST\n", "PÖST", "QUERY"] {
        assert_eq!(Method::parse(text), None, "{:?}", text);
    }
}
