//! The description of one request: what the caller wants sent, checked as far
//! as it can be checked before any hashing, signing or sending.

use crate::error::RequestError;
use crate::headers::RequestHeader;
use crate::method::Method;
use crate::url::{absolute_url, is_absolute_url, parsed_uri, UrlParts};
use vstd::prelude::*;
use vstd::string::*;

verus! {

/// The credentials of one call. They are read, never changed, and go nowhere
/// but into the signature; they cannot be printed.
#[derive(Clone)]
pub struct Credentials {
    pub access_key: String,
    pub secret_key: String,
    pub session_token: Option<String>,
}

impl Credentials {
    /// The session token as an optional text: an empty token is no token.
    pub open spec fn token_of(session_token: Seq<char>) -> Option<Seq<char>> {
        if session_token.len() == 0 {
            None
        } else {
            Some(session_token)
        }
    }

    /// The session token as plain text, if there is one. An empty token counts
    /// as none.
    pub open spec fn token(&self) -> Option<Seq<char>> {
        match self.session_token {
            Some(t) => Credentials::token_of(t@),
            None => None,
        }
    }

    /// The session token, if there is one that is not empty.
    pub fn session_token(&self) -> (token: Option<&str>)
        ensures
            match token {
                Some(t) => self.token() == Some(t@),
                None => self.token() is None,
            },
    {
        match &self.session_token {
            Some(t) => if t.as_str().is_empty() {
                None
            } else {
                Some(t.as_str())
            },
            None => None,
        }
    }

    /// Takes the three credential texts as the caller has them. An empty
    /// session token means that there is none.
    pub fn new(access_key: String, secret_key: String, session_token: String) -> (credentials:
        Credentials)
        ensures
            credentials.access_key == access_key,
            credentials.secret_key == secret_key,
            credentials.session_token == (if session_token@.len() == 0 {
                None
            } else {
                Some(session_token)
            }),
            credentials.token() == Credentials::token_of(session_token@),
    {
        let session_token = if session_token.as_str().is_empty() {
            None
        } else {
            Some(session_token)
        };
        Credentials { access_key, secret_key, session_token }
    }
}

/// A request as the caller described it, with a recognised method and an
/// absolute URL. Headers and body are exactly what was given.
#[derive(Clone)]
pub struct RequestDescriptor {
    pub method: Method,
    pub url: String,
    pub target: UrlParts,
    pub headers: Vec<RequestHeader>,
    pub body: Vec<u8>,
    pub credentials: Credentials,
    pub region: String,
    pub service: String,
}

/// A described request as plain values: what hashing and signing depend on.
pub ghost struct DescriptorView {
    pub method: Method,
    pub url: Seq<char>,
    pub headers: Seq<(Seq<char>, Seq<char>)>,
    pub body: Seq<u8>,
    pub access_key: Seq<char>,
    pub secret_key: Seq<char>,
    pub token: Option<Seq<char>>,
    pub region: Seq<char>,
    pub service: Seq<char>,
}

impl View for RequestDescriptor {
    type V = DescriptorView;

    open spec fn view(&self) -> DescriptorView {
        DescriptorView {
            method: self.method,
            url: self.url@,
            headers: self.headers.deep_view(),
            body: self.body@,
            access_key: self.credentials.access_key@,
            secret_key: self.credentials.secret_key@,
            token: self.credentials.token(),
            region: self.region@,
            service: self.service@,
        }
    }
}

/// What describing a request gives: the method is judged first, then the URL;
/// everything else is taken as it is.
pub open spec fn described(
    method: Seq<char>,
    url: Seq<char>,
    headers: Seq<(Seq<char>, Seq<char>)>,
    body: Seq<u8>,
    access_key: Seq<char>,
    secret_key: Seq<char>,
    token: Option<Seq<char>>,
    region: Seq<char>,
    service: Seq<char>,
) -> Result<DescriptorView, RequestError> {
    match Method::named(method) {
        None => Err(RequestError::InvalidMethod),
        Some(verb) => if !is_absolute_url(url) {
            Err(RequestError::InvalidUrl)
        } else {
            Ok(
                DescriptorView {
                    method: verb,
                    url,
                    headers,
                    body,
                    access_key,
                    secret_key,
                    token,
                    region,
                    service,
                },
            )
        },
    }
}

impl RequestDescriptor {
    /// The URL is absolute, and `target` holds its parts.
    pub open spec fn wf(&self) -> bool {
        &&& is_absolute_url(self.url@)
        &&& parsed_uri(self.url@) == Some(self.target@)
    }

    /// Describes a request. The method must be one of the standard verbs and
    /// the URL absolute; the method is judged first. Headers are taken as they
    /// are: duplicates stay, the order stays, and no key changes its case.
    pub fn new(
        method: &str,
        url: &str,
        headers: Vec<RequestHeader>,
        body: Vec<u8>,
        credentials: Credentials,
        region: String,
        service: String,
    ) -> (made: Result<RequestDescriptor, RequestError>)
        ensures
            match made {
                Ok(d) => {
                    &&& d.wf()
                    &&& described(
                        method@,
                        url@,
                        headers.deep_view(),
                        body@,
                        credentials.access_key@,
                        credentials.secret_key@,
                        credentials.token(),
                        region@,
                        service@,
                    ) == Ok::<DescriptorView, RequestError>(d@)
                    &&& d.headers == headers
                    &&& d.body == body
                    &&& d.credentials == credentials
                    &&& d.region == region
                    &&& d.service == service
                },
                Err(e) => described(
                    method@,
                    url@,
                    headers.deep_view(),
                    body@,
                    credentials.access_key@,
                    credentials.secret_key@,
                    credentials.token(),
                    region@,
                    service@,
                ) == Err::<DescriptorView, RequestError>(e),
            },
    {
        let method = match Method::parse(method) {
            Some(m) => m,
            None => {
                return Err(RequestError::InvalidMethod);
            },
        };
        let target = match absolute_url(url) {
            Some(parts) => parts,
            None => {
                return Err(RequestError::InvalidUrl);
            },
        };
        Ok(
            RequestDescriptor {
                method,
                url: String::from_str(url),
                target,
                headers,
                body,
                credentials,
                region,
                service,
            },
        )
    }
}

} // verus!
