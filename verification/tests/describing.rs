use sigv4_client::descriptor::{Credentials, RequestDescriptor};
use sigv4_client::error::RequestError;
use sigv4_client::headers::RequestHeader;
use sigv4_client::method::Method;
use sigv4_client::url::absolute_url;

fn credentials() -> Credentials {
    Credentials::new("key".to_string(), "secret".to_string(), String::new())
}

fn describe(method: &str, url: &str, headers: Vec<RequestHeader>) -> Result<RequestDescriptor, RequestError> {
    RequestDescriptor::new(
        method,
        url,
        headers,
        b"body".to_vec(),
        credentials(),
        "eu-west-1".to_string(),
        "execute-api".to_string(),
    )
}

#[test]
fn a_description_keeps_what_it_was_given() {
    let headers = vec![
        RequestHeader { key: "X-Dup".to_string(), value: "1".to_string() },
        RequestHeader { key: "x-dup".to_string(), value: "2".to_string() },
        RequestHeader { key: "not a name".to_string(), value: "\n".to_string() },
    ];
    let desc = describe("PATCH", "https://api.example.com:8443/v1/items?limit=5&q=a", headers).ok().unwrap();
    assert_eq!(desc.method, Method::Patch);
    assert_eq!(desc.url, "https://api.example.com:8443/v1/items?limit=5&q=a");
    assert_eq!(desc.target.scheme.as_deref(), Some("https"));
    assert_eq!(desc.target.host.as_deref(), Some("api.example.com"));
    assert_eq!(desc.target.path, "/v1/items");
    assert_eq!(desc.target.query.as_deref(), Some("limit=5&q=a"));
    assert_eq!(desc.headers.len(), 3);
    assert_eq!(desc.headers[0].key, "X-Dup");
    assert_eq!(desc.headers[1].key, "x-dup");
    assert_eq!(desc.headers[2].value, "\n");
    assert_eq!(desc.body, b"body");
    assert_eq!(desc.region, "eu-west-1");
    assert_eq!(desc.service, "execute-api");
    assert_eq!(desc.credentials.access_key, "key");
}

#[test]
fn the_method_is_judged_before_the_url() {
    assert_eq!(describe("FETCH", "https://example.com/", Vec::new()).err().unwrap(), RequestError::InvalidMethod);
    assert_eq!(describe("FETCH", "nonsense", Vec::new()).err().unwrap(), RequestError::InvalidMethod);
    assert_eq!(describe("GET", "nonsense", Vec::new()).err().unwrap(), RequestError::InvalidUrl);
    assert_eq!(describe("GET", "/relative", Vec::new()).err().unwrap(), RequestError::InvalidUrl);
    assert!(describe("GET", "http://example.com", Vec::new()).is_ok());
}

#[test]
fn url_parts() {
    let full = absolute_url("http://user:pw@example.com:8080/a/b%20c?x=1&y=2#frag").unwrap();
    assert_eq!(full.scheme.as_deref(), Some("http"));
    assert_eq!(full.host.as_deref(), Some("example.com"));
    assert_eq!(full.path, "/a/b%20c");
    assert_eq!(full.query.as_deref(), Some("x=1&y=2"));

    let bare = absolute_url("https://example.com").unwrap();
    assert_eq!(bare.scheme.as_deref(), Some("https"));
    assert_eq!(bare.path, "/");
    assert_eq!(bare.query, None);

    let empty_query = absolute_url("https://example.com/p?").unwrap();
    assert_eq!(empty_query.path, "/p");
    assert_eq!(empty_query.query.as_deref(), Some(""));

    assert!(absolute_url("http://").is_none());
    assert!(absolute_url("http://exa mple.com").is_none());
    let long = format!("http://example.com/{}", "a".repeat(70000));
    assert!(absolute_url(&long).is_none());
    let fits = format!("http://example.com/{}", "a".repeat(60000));
    assert_eq!(absolute_url(&fits).unwrap().path.len(), 60001);
}

#[test]
fn only_absolute_urls_are_targets() {
    assert!(absolute_url("https://example.com/path").is_some());
    assert!(absolute_url("http://[::1]:8080/").is_some());
    assert!(absolute_url("custom+scheme://host/").is_some());
    assert!(absolute_url("/path").is_none());
    assert!(absolute_url("example.com").is_none());
    assert!(absolute_url("http://:80/").is_none());
    assert!(absolute_url("://example.com").is_none());
    assert!(absolute_url("*").is_none());
    assert!(absolute_url("").is_none());
}
