//! The request target: an absolute URL, taken apart by the `http` crate.

use std::str::FromStr;
use vstd::prelude::*;

verus! {

/// The parts of a URL that parsed: scheme and host where it has them, the path,
/// and the query where it has one.
#[derive(Clone, Debug)]
pub struct UrlParts {
    pub scheme: Option<String>,
    pub host: Option<String>,
    pub path: String,
    pub query: Option<String>,
}

/// The parts as plain texts: scheme, host, path, query.
pub type PartsView = (Option<Seq<char>>, Option<Seq<char>>, Seq<char>, Option<Seq<char>>);

/// The text of an optional text.
pub open spec fn text_of(text: Option<String>) -> Option<Seq<char>> {
    match text {
        Some(t) => Some(t@),
        None => None,
    }
}

impl View for UrlParts {
    type V = PartsView;

    open spec fn view(&self) -> PartsView {
        (text_of(self.scheme), text_of(self.host), self.path@, text_of(self.query))
    }
}

/// How `http::Uri` reads `url`: nothing where it refuses the text, else the
/// scheme, the host, the path and the query that it finds in it.
pub uninterp spec fn parsed_uri(url: Seq<char>) -> Option<
    (Option<Seq<char>>, Option<Seq<char>>, Seq<char>, Option<Seq<char>>),
>;

/// True when `url` parses and names a host.
pub open spec fn has_host(url: Seq<char>) -> bool {
    parsed_uri(url) matches Some(parts) && parts.1 is Some
}

/// True when `url` can be the target of a request: it parses, and it has a
/// scheme and a host, neither of them empty.
pub open spec fn is_absolute_url(url: Seq<char>) -> bool {
    &&& parsed_uri(url) matches Some(parts)
    &&& parts.0 matches Some(scheme)
    &&& scheme.len() > 0
    &&& parts.1 matches Some(host)
    &&& host.len() > 0
}

/// Parses `url` with `http::Uri::from_str` and copies out what `scheme_str`,
/// `host`, `path` and `query` give.
///
/// Trusted: the result is what the parser makes of this text, and of nothing
/// else.
#[verifier::external_body]
fn parse_url(url: &str) -> (parts: Option<UrlParts>)
    ensures
        match parts {
            Some(p) => parsed_uri(url@) == Some(p@),
            None => parsed_uri(url@) is None,
        },
{
    let uri = http::Uri::from_str(url).ok()?;
    Some(
        UrlParts {
            scheme: uri.scheme_str().map(str::to_owned),
            host: uri.host().map(str::to_owned),
            path: uri.path().to_owned(),
            query: uri.query().map(str::to_owned),
        },
    )
}

/// Parses `url` and keeps the parts only of a URL that can be the target of a
/// request.
pub fn absolute_url(url: &str) -> (parts: Option<UrlParts>)
    ensures
        parts is Some <==> is_absolute_url(url@),
        parts matches Some(p) ==> parsed_uri(url@) == Some(p@),
{
    match parse_url(url) {
        Some(p) => {
            let absolute = match (&p.scheme, &p.host) {
                (Some(scheme), Some(host)) => !scheme.as_str().is_empty() && !host.as_str().is_empty(),
                _ => false,
            };
            if absolute {
                Some(p)
            } else {
                None
            }
        },
        None => None,
    }
}

} // verus!
