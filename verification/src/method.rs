//! The request method: one of the nine standard HTTP verbs.

use crate::text::same_text;
use vstd::prelude::*;

verus! {

/// A standard HTTP request method.
#[derive(Clone, Copy, Debug, PartialEq, Eq, Structural)]
pub enum Method {
    Get,
    Post,
    Put,
    Delete,
    Patch,
    Head,
    Options,
    Trace,
    Connect,
}

impl Method {
    /// The verb as it is written on the wire, in capitals.
    pub open spec fn name(self) -> Seq<char> {
        match self {
            Method::Get => "GET"@,
            Method::Post => "POST"@,
            Method::Put => "PUT"@,
            Method::Delete => "DELETE"@,
            Method::Patch => "PATCH"@,
            Method::Head => "HEAD"@,
            Method::Options => "OPTIONS"@,
            Method::Trace => "TRACE"@,
            Method::Connect => "CONNECT"@,
        }
    }

    /// The method whose wire form is `text`, if there is one.
    pub open spec fn named(text: Seq<char>) -> Option<Method> {
        if text == "GET"@ {
            Some(Method::Get)
        } else if text == "POST"@ {
            Some(Method::Post)
        } else if text == "PUT"@ {
            Some(Method::Put)
        } else if text == "DELETE"@ {
            Some(Method::Delete)
        } else if text == "PATCH"@ {
            Some(Method::Patch)
        } else if text == "HEAD"@ {
            Some(Method::Head)
        } else if text == "OPTIONS"@ {
            Some(Method::Options)
        } else if text == "TRACE"@ {
            Some(Method::Trace)
        } else if text == "CONNECT"@ {
            Some(Method::Connect)
        } else {
            None
        }
    }

    /// Reads a method from its wire form. The match is exact: capitals only,
    /// nothing before or after the verb.
    pub fn parse(text: &str) -> (method: Option<Method>)
        ensures
            method == Method::named(text@),
    {
        if same_text(text, "GET") {
            Some(Method::Get)
        } else if same_text(text, "POST") {
            Some(Method::Post)
        } else if same_text(text, "PUT") {
            Some(Method::Put)
        } else if same_text(text, "DELETE") {
            Some(Method::Delete)
        } else if same_text(text, "PATCH") {
            Some(Method::Patch)
        } else if same_text(text, "HEAD") {
            Some(Method::Head)
        } else if same_text(text, "OPTIONS") {
            Some(Method::Options)
        } else if same_text(text, "TRACE") {
            Some(Method::Trace)
        } else if same_text(text, "CONNECT") {
            Some(Method::Connect)
        } else {
            None
        }
    }

    /// The wire form of the method.
    pub fn as_str(self) -> (text: &'static str)
        ensures
            text@ == self.name(),
    {
        match self {
            Method::Get => "GET",
            Method::Post => "POST",
            Method::Put => "PUT",
            Method::Delete => "DELETE",
            Method::Patch => "PATCH",
            Method::Head => "HEAD",
            Method::Options => "OPTIONS",
            Method::Trace => "TRACE",
            Method::Connect => "CONNECT",
        }
    }
}

} // verus!
