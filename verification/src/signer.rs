//! The signer: from a described request, its content hash and an instant to
//! the headers that carry an AWS Signature Version 4.

use crate::descriptor::{DescriptorView, RequestDescriptor};
use crate::error::RequestError;
use crate::headers::{
    as_texts, build_header_map, first_fault, header_map_entries, header_pairs, wire_pairs, HeaderFault,
    RawHeader, RequestHeader, MAX_HEADERS,
};
use crate::multimap::{lemma_values_named_relabel, multimap, values_named};
use crate::text::{check_header_value, decode_lossy, is_header_value, lemma_text_round_trip, text_of_bytes};
use crate::url::has_host;
use aws_sigv4::http_request::{
    PayloadChecksumKind, SignableBody, SignableRequest, SigningParams, SigningSettings,
};
use http::header::{HeaderMap, HeaderValue};
use std::str::FromStr;
use std::time::{Duration, UNIX_EPOCH};
use vstd::prelude::*;
use vstd::utf8::encode_utf8;

verus! {

/// The last instant that can be signed for, in seconds since the start of
/// 1970: the end of the year 9999.
pub const MAX_EPOCH_SECS: u64 = 253_402_300_799;

/// The headers that `aws_sigv4::http_request::sign` asks to add to a request,
/// in the order in which the header map it returns is walked; nothing where
/// it refuses to sign.
///
/// The arguments are all that the signature depends on: method, URL, the
/// request's headers as a multimap, the content hash, the credentials, the
/// scope, and the instant in whole seconds since the start of 1970.
pub uninterp spec fn sigv4_headers(
    method: Seq<char>,
    url: Seq<char>,
    headers: Map<Seq<char>, Seq<Seq<u8>>>,
    content_hash: Seq<char>,
    access_key: Seq<char>,
    secret_key: Seq<char>,
    session_token: Option<Seq<char>>,
    region: Seq<char>,
    service: Seq<char>,
    epoch_secs: u64,
) -> Option<Seq<(Seq<char>, Seq<u8>)>>;

/// The text of an optional borrowed text.
pub open spec fn token_text(token: Option<&str>) -> Option<Seq<char>> {
    match token {
        Some(t) => Some(t@),
        None => None,
    }
}

/// The bytes of an optional text.
pub open spec fn token_bytes(token: Option<Seq<char>>) -> Option<Seq<u8>> {
    match token {
        Some(t) => Some(encode_utf8(t)),
        None => None,
    }
}

/// The shape of a set of signing headers: one `authorization`, one
/// `x-amz-date`, one `x-amz-content-sha256` that holds the content hash, and
/// one `x-amz-security-token` that holds the session token exactly when there
/// is a session token; nothing else.
pub open spec fn is_signing_set<V>(pairs: Seq<(Seq<char>, V)>, content_hash: V, token: Option<V>) -> bool {
    &&& pairs.len() == (if token is Some {
        4int
    } else {
        3int
    })
    &&& values_named(pairs, "authorization"@).len() == 1
    &&& values_named(pairs, "x-amz-date"@).len() == 1
    &&& values_named(pairs, "x-amz-content-sha256"@) == seq![content_hash]
    &&& values_named(pairs, "x-amz-security-token"@) == (match token {
        Some(t) => seq![t],
        None => Seq::empty(),
    })
}

/// Builds the signing parameters (content hash header on, all else as
/// `SigningSettings::default` has it) and calls
/// `aws_sigv4::http_request::sign` with the content hash given beforehand.
///
/// Trusted: the headers that come back depend on the arguments alone. They
/// are the date, the authorization, the content hash as it was given, and the
/// session token where one was given, each once. The preconditions keep away
/// what the signer cannot take: a URL without a host, more headers than a
/// header map is asked to hold, an access key, region or service that cannot
/// stand in a header, and an instant after the year 9999.
#[verifier::external_body]
fn sigv4_sign(
    method: &str,
    url: &str,
    headers: &HeaderMap<HeaderValue>,
    content_hash: &str,
    access_key: &str,
    secret_key: &str,
    session_token: Option<&str>,
    region: &str,
    service: &str,
    epoch_secs: u64,
) -> (signed: Option<HeaderMap<HeaderValue>>)
    requires
        has_host(url@),
        header_map_entries(*headers).len() <= MAX_HEADERS,
        is_header_value(access_key@),
        is_header_value(region@),
        is_header_value(service@),
        epoch_secs <= MAX_EPOCH_SECS,
    ensures
        match signed {
            Some(map) => sigv4_headers(
                method@,
                url@,
                multimap(header_map_entries(*headers)),
                content_hash@,
                access_key@,
                secret_key@,
                token_text(session_token),
                region@,
                service@,
                epoch_secs,
            ) == Some(header_map_entries(map)),
            None => sigv4_headers(
                method@,
                url@,
                multimap(header_map_entries(*headers)),
                content_hash@,
                access_key@,
                secret_key@,
                token_text(session_token),
                region@,
                service@,
                epoch_secs,
            ) is None,
        },
        signed matches Some(map) ==> is_signing_set(
            header_map_entries(map),
            encode_utf8(content_hash@),
            token_bytes(token_text(session_token)),
        ),
{
    let method = http::Method::from_bytes(method.as_bytes()).ok()?;
    let uri = http::Uri::from_str(url).ok()?;
    let mut settings = SigningSettings::default();
    settings.payload_checksum_kind = PayloadChecksumKind::XAmzSha256;
    let time = UNIX_EPOCH + Duration::from_secs(epoch_secs);
    let mut params = SigningParams::builder().access_key(access_key).secret_key(secret_key).region(
        region,
    ).service_name(service).time(time).settings(settings);
    params.set_security_token(session_token);
    let params = params.build().ok()?;
    let body = SignableBody::Precomputed(content_hash.to_owned());
    let request = SignableRequest::new(&method, &uri, headers, body);
    aws_sigv4::http_request::sign(request, &params).ok()?.into_parts().0.take_headers()
}

/// What the signer's answer means for the call: no answer is a signing error,
/// an answer gives the headers to add.
pub open spec fn emission(signed: Option<Seq<(Seq<char>, Seq<u8>)>>) -> Result<
    Seq<(Seq<char>, Seq<char>)>,
    RequestError,
> {
    match signed {
        Some(entries) => Ok(as_texts(entries)),
        None => Err(RequestError::SigningError),
    }
}

/// A result of headers, with the headers as plain pairs of texts.
pub open spec fn headers_result(made: Result<Vec<RequestHeader>, RequestError>) -> Result<
    Seq<(Seq<char>, Seq<char>)>,
    RequestError,
> {
    match made {
        Ok(headers) => Ok(headers.deep_view()),
        Err(e) => Err(e),
    }
}

/// Signing headers that hold the hash and the token as bytes hold them as
/// texts once they are read as text.
pub proof fn lemma_emitted_signing_set(
    entries: Seq<(Seq<char>, Seq<u8>)>,
    content_hash: Seq<char>,
    token: Option<Seq<char>>,
)
    requires
        is_signing_set(entries, encode_utf8(content_hash), token_bytes(token)),
    ensures
        is_signing_set(as_texts(entries), content_hash, token),
{
    let read = |bytes: Seq<u8>| text_of_bytes(bytes);
    lemma_values_named_relabel(entries, read, "authorization"@);
    lemma_values_named_relabel(entries, read, "x-amz-date"@);
    lemma_values_named_relabel(entries, read, "x-amz-content-sha256"@);
    lemma_values_named_relabel(entries, read, "x-amz-security-token"@);
    lemma_text_round_trip(content_hash);
    assert(seq![encode_utf8(content_hash)].map_values(read) =~= seq![content_hash]);
    match token {
        Some(t) => {
            lemma_text_round_trip(t);
            assert(seq![encode_utf8(t)].map_values(read) =~= seq![t]);
        },
        None => {
            assert(Seq::<Seq<u8>>::empty().map_values(read) =~= Seq::<Seq<char>>::empty());
        },
    }
}

/// The pairs of an optional list of raw headers.
pub open spec fn raw_pairs(signed: Option<Vec<RawHeader>>) -> Option<Seq<(Seq<char>, Seq<u8>)>> {
    match signed {
        Some(pairs) => Some(pairs.deep_view()),
        None => None,
    }
}

/// Reads the signer's answer: its headers, each value as text, in their order;
/// a signing error where there is no answer.
pub fn emitted_headers(signed: Option<Vec<RawHeader>>) -> (made: Result<
    Vec<RequestHeader>,
    RequestError,
>)
    ensures
        headers_result(made) == emission(raw_pairs(signed)),
{
    let pairs = match signed {
        Some(pairs) => pairs,
        None => {
            return Err(RequestError::SigningError);
        },
    };
    let ghost entries = pairs.deep_view();
    let mut out: Vec<RequestHeader> = Vec::new();
    let mut i: usize = 0;
    while i < pairs.len()
        invariant
            i <= pairs.len(),
            pairs.deep_view() == entries,
            out.len() == i,
            forall|k: int| 0 <= k < i ==> (#[trigger] out[k])@ == as_texts(entries)[k],
        decreases pairs.len() - i,
    {
        let pair = &pairs[i];
        proof {
            assert(pairs.deep_view()[i as int] == pair@);
        }
        let header = RequestHeader { key: pair.name.clone(), value: decode_lossy(pair.value.as_slice()) };
        out.push(header);
        i = i + 1;
    }
    proof {
        assert(out.deep_view() =~= as_texts(entries));
    }
    Ok(out)
}

/// Whether the credentials, the scope and the instant can be signed with:
/// access key, secret key, region and service are not empty; access key,
/// region, service and session token can stand in a header; the instant is
/// not after `MAX_EPOCH_SECS`.
pub open spec fn can_sign(desc: DescriptorView, epoch_secs: u64) -> bool {
    &&& desc.access_key.len() > 0
    &&& desc.secret_key.len() > 0
    &&& desc.region.len() > 0
    &&& desc.service.len() > 0
    &&& is_header_value(desc.access_key)
    &&& is_header_value(desc.region)
    &&& is_header_value(desc.service)
    &&& (desc.token matches Some(t) ==> is_header_value(t))
    &&& epoch_secs <= MAX_EPOCH_SECS
}

/// What signing a described request gives. The user's headers are judged
/// first, in their order and each key before its value; then the credential
/// material; then the signer has the word, over the user's headers as they go
/// on the wire.
pub open spec fn signing_outcome(desc: DescriptorView, content_hash: Seq<char>, epoch_secs: u64) -> Result<
    Seq<(Seq<char>, Seq<char>)>,
    RequestError,
> {
    match first_fault(desc.headers) {
        Some(HeaderFault::Name) => Err(RequestError::InvalidHeaderName),
        Some(HeaderFault::Value) => Err(RequestError::InvalidHeaderValue),
        None => if !can_sign(desc, epoch_secs) {
            Err(RequestError::SigningError)
        } else {
            emission(
                sigv4_headers(
                    desc.method.name(),
                    desc.url,
                    multimap(wire_pairs(desc.headers)),
                    content_hash,
                    desc.access_key,
                    desc.secret_key,
                    desc.token,
                    desc.region,
                    desc.service,
                    epoch_secs,
                ),
            )
        },
    }
}

/// Tells whether the credentials, the scope and the instant can be signed
/// with.
pub fn check_can_sign(desc: &RequestDescriptor, epoch_secs: u64) -> (ok: bool)
    ensures
        ok == can_sign(desc@, epoch_secs),
{
    if desc.credentials.access_key.as_str().is_empty() || desc.credentials.secret_key.as_str().is_empty()
        || desc.region.as_str().is_empty() || desc.service.as_str().is_empty() {
        return false;
    }
    if !check_header_value(desc.credentials.access_key.as_str()) || !check_header_value(
        desc.region.as_str(),
    ) || !check_header_value(desc.service.as_str()) {
        return false;
    }
    let token_ok = match desc.credentials.session_token() {
        Some(t) => check_header_value(t),
        None => true,
    };
    token_ok && epoch_secs <= MAX_EPOCH_SECS
}

/// Computes the signing headers of a described request for a given content
/// hash and instant.
///
/// The headers to add are `authorization`, `x-amz-date`, `x-amz-content-sha256`
/// and, exactly when the credentials hold a session token,
/// `x-amz-security-token` with that token. The same arguments always give the
/// same headers.
pub fn sign(desc: &RequestDescriptor, content_hash: &str, epoch_secs: u64) -> (made: Result<
    Vec<RequestHeader>,
    RequestError,
>)
    requires
        desc.wf(),
        desc.headers.len() <= MAX_HEADERS,
    ensures
        headers_result(made) == signing_outcome(desc@, content_hash@, epoch_secs),
        made matches Ok(added) ==> is_signing_set(
            added.deep_view(),
            content_hash@,
            desc.credentials.token(),
        ),
{
    let map = match build_header_map(&desc.headers) {
        Ok(map) => map,
        Err(HeaderFault::Name) => {
            return Err(RequestError::InvalidHeaderName);
        },
        Err(HeaderFault::Value) => {
            return Err(RequestError::InvalidHeaderValue);
        },
    };
    if !check_can_sign(desc, epoch_secs) {
        return Err(RequestError::SigningError);
    }
    let signed = sigv4_sign(
        desc.method.as_str(),
        desc.url.as_str(),
        &map,
        content_hash,
        desc.credentials.access_key.as_str(),
        desc.credentials.secret_key.as_str(),
        desc.credentials.session_token(),
        desc.region.as_str(),
        desc.service.as_str(),
        epoch_secs,
    );
    let answer = match signed {
        Some(map) => {
            proof {
                lemma_emitted_signing_set(
                    header_map_entries(map),
                    content_hash@,
                    desc.credentials.token(),
                );
            }
            Some(header_pairs(&map))
        },
        None => None,
    };
    emitted_headers(answer)
}

/// Signing is a function of what is signed. Two described requests that
/// agree in method, URL, headers, credentials and scope get, for the same
/// content hash and the same instant, the same outcome: the same error, or the
/// same signing headers with the same `authorization` among them. The bodies
/// count only through the content hash.
pub proof fn lemma_signing_is_deterministic(
    a: DescriptorView,
    b: DescriptorView,
    content_hash: Seq<char>,
    epoch_secs: u64,
)
    requires
        a.method == b.method,
        a.url == b.url,
        a.headers == b.headers,
        a.access_key == b.access_key,
        a.secret_key == b.secret_key,
        a.token == b.token,
        a.region == b.region,
        a.service == b.service,
    ensures
        signing_outcome(a, content_hash, epoch_secs) == signing_outcome(b, content_hash, epoch_secs),
        signing_outcome(a, content_hash, epoch_secs) matches Ok(first) ==> (signing_outcome(
            b,
            content_hash,
            epoch_secs,
        ) matches Ok(second) && values_named(first, "authorization"@) == values_named(
            second,
            "authorization"@,
        )),
{
}

/// The signer reads the caller's headers as a multimap. Two header lists
/// without a fault that give the same values under the same lowercased names,
/// in the same order under each name, are signed alike: neither the case of a
/// key nor the order of headers with different names changes the signature.
pub proof fn lemma_signature_reads_headers_as_multimap(
    a: DescriptorView,
    b: DescriptorView,
    content_hash: Seq<char>,
    epoch_secs: u64,
)
    requires
        first_fault(a.headers) is None,
        first_fault(b.headers) is None,
        multimap(wire_pairs(a.headers)) == multimap(wire_pairs(b.headers)),
        a.method == b.method,
        a.url == b.url,
        a.access_key == b.access_key,
        a.secret_key == b.secret_key,
        a.token == b.token,
        a.region == b.region,
        a.service == b.service,
    ensures
        signing_outcome(a, content_hash, epoch_secs) == signing_outcome(b, content_hash, epoch_secs),
{
}

} // verus!
