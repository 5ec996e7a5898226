//! One call from end to end, as far as it can be decided without the network:
//! describe, hash, sign; and, once the transport has answered, normalise.

use crate::descriptor::{described, Credentials, DescriptorView, RequestDescriptor};
use crate::error::RequestError;
use crate::hash::{hex_text, is_lower_hex, payload_hash, sha256, DIGEST_LEN};
use crate::headers::{as_texts, header_map_entries, RequestHeader, MAX_HEADERS};
use crate::method::Method;
use crate::multimap::multimap;
use crate::response::{normalize_response, ResponsePayload};
use crate::signer::{is_signing_set, sign, signing_outcome};
use crate::text::text_of_bytes;
use http::header::{HeaderMap, HeaderValue};
use vstd::prelude::*;

verus! {

/// A request that is ready to be sent: the described request with its signing
/// headers behind the caller's own. The content hash is the hash of the body
/// that stands here.
#[derive(Debug)]
pub struct SignedRequest {
    pub method: Method,
    pub url: String,
    pub headers: Vec<RequestHeader>,
    pub body: Vec<u8>,
    pub content_hash: String,
}

/// A signed request as plain values.
pub ghost struct SignedView {
    pub method: Method,
    pub url: Seq<char>,
    pub headers: Seq<(Seq<char>, Seq<char>)>,
    pub body: Seq<u8>,
    pub content_hash: Seq<char>,
}

impl View for SignedRequest {
    type V = SignedView;

    open spec fn view(&self) -> SignedView {
        SignedView {
            method: self.method,
            url: self.url@,
            headers: self.headers.deep_view(),
            body: self.body@,
            content_hash: self.content_hash@,
        }
    }
}

impl SignedRequest {
    /// The content hash covers the body that will be sent.
    pub open spec fn wf(&self) -> bool {
        self.content_hash@ == hex_text(sha256(self.body@))
    }
}

/// What hashing and signing a described request gives: the request with the
/// hash of its body, and with the signing headers behind its own.
pub open spec fn signed_outcome(desc: DescriptorView, epoch_secs: u64) -> Result<
    SignedView,
    RequestError,
> {
    match signing_outcome(desc, hex_text(sha256(desc.body)), epoch_secs) {
        Ok(added) => Ok(
            SignedView {
                method: desc.method,
                url: desc.url,
                headers: desc.headers + added,
                body: desc.body,
                content_hash: hex_text(sha256(desc.body)),
            },
        ),
        Err(e) => Err(e),
    }
}

/// A result of a signed request, with the request as plain values.
pub open spec fn signed_result(made: Result<SignedRequest, RequestError>) -> Result<
    SignedView,
    RequestError,
> {
    match made {
        Ok(signed) => Ok(signed@),
        Err(e) => Err(e),
    }
}

/// What preparing a request from a caller's texts gives.
pub open spec fn prepared(
    method: Seq<char>,
    url: Seq<char>,
    headers: Seq<(Seq<char>, Seq<char>)>,
    body: Seq<u8>,
    access_key: Seq<char>,
    secret_key: Seq<char>,
    session_token: Seq<char>,
    region: Seq<char>,
    service: Seq<char>,
    epoch_secs: u64,
) -> Result<SignedView, RequestError> {
    match described(
        method,
        url,
        headers,
        body,
        access_key,
        secret_key,
        Credentials::token_of(session_token),
        region,
        service,
    ) {
        Ok(desc) => signed_outcome(desc, epoch_secs),
        Err(e) => Err(e),
    }
}

/// A described request whose body has been hashed. The hash is taken once,
/// and from here on it travels with the body that it covers.
#[derive(Clone)]
pub struct HashedRequest {
    pub request: RequestDescriptor,
    pub content_hash: String,
}

impl HashedRequest {
    /// The request is well formed, and the content hash covers its body.
    pub open spec fn wf(&self) -> bool {
        &&& self.request.wf()
        &&& self.content_hash@ == hex_text(sha256(self.request.body@))
    }
}

/// Hashes the body of a described request. Nothing of the request changes.
pub fn hash_request(desc: RequestDescriptor) -> (hashed: HashedRequest)
    ensures
        hashed.request == desc,
        hashed.content_hash@ == hex_text(sha256(desc.body@)),
        hashed.content_hash@.len() == 2 * DIGEST_LEN,
        forall|i: int|
            0 <= i < hashed.content_hash@.len() ==> is_lower_hex(#[trigger] hashed.content_hash@[i]),
{
    let content_hash = payload_hash(desc.body.as_slice());
    HashedRequest { request: desc, content_hash }
}

/// Signs a hashed request for the given instant. The body and its hash are
/// handed on untouched; the caller's headers stay first, as they were given,
/// and the signing headers follow.
pub fn sign_hashed(hashed: HashedRequest, epoch_secs: u64) -> (made: Result<
    SignedRequest,
    RequestError,
>)
    requires
        hashed.wf(),
        hashed.request.headers.len() <= MAX_HEADERS,
    ensures
        signed_result(made) == signed_outcome(hashed.request@, epoch_secs),
        made matches Ok(signed) ==> {
            &&& signed.wf()
            &&& signed.body == hashed.request.body
            &&& signed.content_hash == hashed.content_hash
            &&& is_signing_set(
                signed.headers.deep_view().skip(hashed.request.headers.len() as int),
                signed.content_hash@,
                hashed.request.credentials.token(),
            )
        },
{
    let HashedRequest { request: desc, content_hash } = hashed;
    let mut added = match sign(&desc, content_hash.as_str(), epoch_secs) {
        Ok(added) => added,
        Err(e) => {
            return Err(e);
        },
    };
    let ghost user = desc.headers.deep_view();
    let ghost extra = added.deep_view();
    let RequestDescriptor { method, url, target: _, headers, body, credentials: _, region: _, service: _ } =
        desc;
    let mut headers = headers;
    headers.append(&mut added);
    proof {
        assert(headers.deep_view() =~= user + extra);
        assert((user + extra).skip(user.len() as int) =~= extra);
    }
    Ok(SignedRequest { method, url, headers, body, content_hash })
}

/// Hashes the body of a described request and signs the request for the given
/// instant.
pub fn sign_request(desc: RequestDescriptor, epoch_secs: u64) -> (made: Result<
    SignedRequest,
    RequestError,
>)
    requires
        desc.wf(),
        desc.headers.len() <= MAX_HEADERS,
    ensures
        signed_result(made) == signed_outcome(desc@, epoch_secs),
        made matches Ok(signed) ==> {
            &&& signed.wf()
            &&& signed.body == desc.body
            &&& signed.content_hash@.len() == 2 * DIGEST_LEN
            &&& forall|i: int|
                0 <= i < signed.content_hash@.len() ==> is_lower_hex(
                    #[trigger] signed.content_hash@[i],
                )
            &&& is_signing_set(
                signed.headers.deep_view().skip(desc.headers.len() as int),
                signed.content_hash@,
                desc.credentials.token(),
            )
        },
{
    sign_hashed(hash_request(desc), epoch_secs)
}

/// Describes, hashes and signs a request in one go, from the texts that a
/// caller has: the pure part of sending a request. An empty session token
/// means that there is none.
///
/// Nothing is hashed or signed for a method that is not a standard verb or a
/// URL that is not absolute: those are refused first, in this order. In the
/// request that comes back, the signing headers stand behind the caller's
/// headers, and `x-amz-security-token` is among them exactly when a session
/// token was given.
pub fn prepare(
    method: &str,
    url: &str,
    headers: Vec<RequestHeader>,
    body: Vec<u8>,
    access_key: String,
    secret_key: String,
    session_token: String,
    region: String,
    service: String,
    epoch_secs: u64,
) -> (made: Result<SignedRequest, RequestError>)
    requires
        headers.len() <= MAX_HEADERS,
    ensures
        signed_result(made) == prepared(
            method@,
            url@,
            headers.deep_view(),
            body@,
            access_key@,
            secret_key@,
            session_token@,
            region@,
            service@,
            epoch_secs,
        ),
        made matches Ok(signed) ==> {
            &&& signed.wf()
            &&& signed.body == body
            &&& is_signing_set(
                signed.headers.deep_view().skip(headers.len() as int),
                signed.content_hash@,
                Credentials::token_of(session_token@),
            )
        },
{
    let credentials = Credentials::new(access_key, secret_key, session_token);
    let desc = match RequestDescriptor::new(method, url, headers, body, credentials, region, service) {
        Ok(desc) => desc,
        Err(e) => {
            return Err(e);
        },
    };
    sign_request(desc, epoch_secs)
}

/// What the transport delivered: the status as text, the headers as they
/// came, and the body as it came.
#[derive(Debug)]
pub struct RawResponse {
    pub status: String,
    pub headers: HeaderMap<HeaderValue>,
    pub body: Vec<u8>,
}

/// Ends a call with what the transport made of it. A response is normalised;
/// a failure becomes a network error that carries the cause. There is never
/// a response beside an error.
pub fn complete(outcome: Result<RawResponse, String>, elapsed_ms: u128) -> (ended: Result<
    ResponsePayload,
    RequestError,
>)
    ensures
        match outcome {
            Ok(raw) => {
                &&& ended matches Ok(payload)
                &&& payload.status == raw.status
                &&& payload.headers.wf()
                &&& payload.headers@ == multimap(as_texts(header_map_entries(raw.headers)))
                &&& payload.text@ == text_of_bytes(raw.body@)
                &&& payload.size_bytes == vstd::utf8::encode_utf8(payload.text@).len()
                &&& payload.time_ms == #[verifier::truncate]
                (elapsed_ms as usize)
            },
            Err(cause) => ended == Err::<ResponsePayload, RequestError>(
                RequestError::NetworkError(cause),
            ),
        },
{
    match outcome {
        Ok(raw) => {
            let RawResponse { status, headers, body } = raw;
            Ok(normalize_response(status, &headers, body.as_slice(), elapsed_ms))
        },
        Err(cause) => Err(RequestError::NetworkError(cause)),
    }
}

} // verus!
