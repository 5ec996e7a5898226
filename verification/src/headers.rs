//! Header lists of the library, and the header map of the `http` crate that
//! the signer reads and the transport hands back.

use crate::multimap::{lemma_multimap_push, multimap, multimap_push, relabel};
use crate::text::{is_header_name, is_header_value, lower_text, text_of_bytes};
use http::header::{HeaderMap, HeaderName, HeaderValue};
use std::str::FromStr;
use vstd::prelude::*;
use vstd::utf8::*;

verus! {

/// One header as the caller wrote it: the key with its own capitals, the value
/// with its own whitespace.
#[derive(Clone, Debug)]
pub struct RequestHeader {
    pub key: String,
    pub value: String,
}

impl View for RequestHeader {
    type V = (Seq<char>, Seq<char>);

    open spec fn view(&self) -> (Seq<char>, Seq<char>) {
        (self.key@, self.value@)
    }
}

impl DeepView for RequestHeader {
    type V = (Seq<char>, Seq<char>);

    open spec fn deep_view(&self) -> (Seq<char>, Seq<char>) {
        self@
    }
}

/// One header as a header map holds it: the name in lowercase, the value as
/// bytes that need not be text.
#[derive(Debug)]
pub struct RawHeader {
    pub name: String,
    pub value: Vec<u8>,
}

impl View for RawHeader {
    type V = (Seq<char>, Seq<u8>);

    open spec fn view(&self) -> (Seq<char>, Seq<u8>) {
        (self.name@, self.value@)
    }
}

impl DeepView for RawHeader {
    type V = (Seq<char>, Seq<u8>);

    open spec fn deep_view(&self) -> (Seq<char>, Seq<u8>) {
        self@
    }
}

/// Most headers that one request may carry.
///
/// A header map of the `http` crate gives up, by panicking, when it would need
/// more than 32768 slots, which takes several thousand names. Lists of at most
/// this length stay far below that, also with the few headers that signing
/// adds.
pub const MAX_HEADERS: usize = 1024;

#[verifier::external_type_specification]
#[verifier::external_body]
#[verifier::reject_recursive_types(T)]
pub struct ExHeaderMap<T>(HeaderMap<T>);

#[verifier::external_type_specification]
#[verifier::external_body]
pub struct ExHeaderValue(HeaderValue);

/// What a header map holds: its (name, value) pairs in the order in which
/// `http::HeaderMap::iter` walks them.
pub uninterp spec fn header_map_entries(map: HeaderMap<HeaderValue>) -> Seq<(Seq<char>, Seq<u8>)>;

/// Why a header could not be put into a header map.
#[derive(Clone, Copy, Debug, PartialEq, Eq, Structural)]
pub enum HeaderFault {
    /// The key is no header name.
    Name,
    /// The key is a header name, the value is no header value.
    Value,
}

/// What the caller's header stands for inside a header map: the name in
/// lowercase, the value as its UTF-8 bytes.
pub open spec fn wire_pair(header: (Seq<char>, Seq<char>)) -> (Seq<char>, Seq<u8>) {
    (lower_text(header.0), encode_utf8(header.1))
}

/// Calls `http::HeaderMap::new`.
///
/// Trusted: the new map holds nothing.
#[verifier::external_body]
fn new_header_map() -> (map: HeaderMap<HeaderValue>)
    ensures
        header_map_entries(map).len() == 0,
{
    HeaderMap::new()
}

/// Parses `key` with `http::header::HeaderName::from_str` and `value` with
/// `http::header::HeaderValue::from_str`, and on success hands both to
/// `http::HeaderMap::append`.
///
/// Trusted: the name is refused exactly when it is no header name, and then the
/// value is not looked at; the value is refused exactly when it is no header
/// value; a refusal leaves the map alone. Otherwise the map holds one more
/// pair, and the value stands last among the values of the lowercased name,
/// while the values of other names are untouched. A map that holds fewer than
/// `MAX_HEADERS` pairs is far from the size at which `append` gives up.
#[verifier::external_body]
fn append_header(map: &mut HeaderMap<HeaderValue>, key: &str, value: &str) -> (done: Result<
    (),
    HeaderFault,
>)
    requires
        header_map_entries(*old(map)).len() < MAX_HEADERS,
    ensures
        done == (if !is_header_name(key@) {
            Err::<(), HeaderFault>(HeaderFault::Name)
        } else if !is_header_value(value@) {
            Err::<(), HeaderFault>(HeaderFault::Value)
        } else {
            Ok::<(), HeaderFault>(())
        }),
        done is Err ==> header_map_entries(*final(map)) == header_map_entries(*old(map)),
        done is Ok ==> header_map_entries(*final(map)).len() == header_map_entries(*old(map)).len()
            + 1,
        done is Ok ==> multimap(header_map_entries(*final(map))) == multimap_push(
            multimap(header_map_entries(*old(map))),
            lower_text(key@),
            encode_utf8(value@),
        ),
{
    let name = HeaderName::from_str(key).map_err(|_| HeaderFault::Name)?;
    let value = HeaderValue::from_str(value).map_err(|_| HeaderFault::Value)?;
    map.append(name, value);
    Ok(())
}

/// Walks the map with `http::HeaderMap::iter` and copies each pair out.
///
/// Trusted: the result is what the map holds, pair for pair, in the order of
/// the walk.
#[verifier::external_body]
pub(crate) fn header_pairs(map: &HeaderMap<HeaderValue>) -> (pairs: Vec<RawHeader>)
    ensures
        pairs.deep_view() == header_map_entries(*map),
{
    map.iter().map(
        |(name, value)| RawHeader { name: name.as_str().to_owned(), value: value.as_bytes().to_vec() },
    ).collect()
}

/// The pairs of a header map with each value read as text.
pub open spec fn as_texts(entries: Seq<(Seq<char>, Seq<u8>)>) -> Seq<(Seq<char>, Seq<char>)> {
    relabel(entries, |bytes: Seq<u8>| text_of_bytes(bytes))
}

/// What the caller's headers stand for inside a header map, one for one.
pub open spec fn wire_pairs(headers: Seq<(Seq<char>, Seq<char>)>) -> Seq<(Seq<char>, Seq<u8>)> {
    headers.map_values(|header: (Seq<char>, Seq<char>)| wire_pair(header))
}

/// What is wrong with one header, if anything; the key is judged first.
pub open spec fn fault_of(header: (Seq<char>, Seq<char>)) -> Option<HeaderFault> {
    if !is_header_name(header.0) {
        Some(HeaderFault::Name)
    } else if !is_header_value(header.1) {
        Some(HeaderFault::Value)
    } else {
        None
    }
}

/// The fault of the first header that has one.
pub open spec fn first_fault(headers: Seq<(Seq<char>, Seq<char>)>) -> Option<HeaderFault>
    decreases headers.len(),
{
    if headers.len() == 0 {
        None
    } else {
        match first_fault(headers.drop_last()) {
            Some(fault) => Some(fault),
            None => fault_of(headers.last()),
        }
    }
}

/// A fault found among the first headers of a list is the first fault of the
/// whole list.
pub proof fn lemma_first_fault_prefix(headers: Seq<(Seq<char>, Seq<char>)>, n: int)
    requires
        0 <= n <= headers.len(),
        first_fault(headers.take(n)) is Some,
    ensures
        first_fault(headers) == first_fault(headers.take(n)),
    decreases headers.len() - n,
{
    if n < headers.len() {
        let longer = headers.take(n + 1);
        assert(longer.drop_last() =~= headers.take(n));
        lemma_first_fault_prefix(headers, n + 1);
    } else {
        assert(headers.take(n) =~= headers);
    }
}

/// Puts the caller's headers into a fresh header map, in their order, and
/// stops at the first header that cannot be sent.
pub fn build_header_map(headers: &Vec<RequestHeader>) -> (built: Result<
    HeaderMap<HeaderValue>,
    HeaderFault,
>)
    requires
        headers.len() <= MAX_HEADERS,
    ensures
        match built {
            Ok(map) => {
                &&& first_fault(headers.deep_view()) is None
                &&& header_map_entries(map).len() == headers.len()
                &&& multimap(header_map_entries(map)) == multimap(wire_pairs(headers.deep_view()))
            },
            Err(fault) => first_fault(headers.deep_view()) == Some(fault),
        },
{
    let ghost all = headers.deep_view();
    let mut map = new_header_map();
    let mut i: usize = 0;
    proof {
        assert(header_map_entries(map) =~= wire_pairs(all.take(0)));
    }
    while i < headers.len()
        invariant
            i <= headers.len() <= MAX_HEADERS,
            all == headers.deep_view(),
            first_fault(all.take(i as int)) is None,
            header_map_entries(map).len() == i,
            multimap(header_map_entries(map)) == multimap(wire_pairs(all.take(i as int))),
        decreases headers.len() - i,
    {
        let header = &headers[i];
        let ghost before = all.take(i as int);
        let ghost upto = all.take(i + 1);
        proof {
            assert(all[i as int] == header@);
            assert(upto.drop_last() =~= before);
            assert(upto.last() == header@);
            assert(wire_pairs(upto) =~= wire_pairs(before).push(wire_pair(header@)));
            lemma_multimap_push(wire_pairs(before), wire_pair(header@));
        }
        match append_header(&mut map, header.key.as_str(), header.value.as_str()) {
            Ok(()) => {},
            Err(fault) => {
                proof {
                    lemma_first_fault_prefix(all, i + 1);
                }
                return Err(fault);
            },
        }
        i = i + 1;
    }
    proof {
        assert(all.take(i as int) =~= all);
    }
    Ok(map)
}

} // verus!
