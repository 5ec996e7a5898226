//! Building, hashing and signing of HTTP requests with AWS Signature
//! Version 4, and the normal form of the responses that come back.
//!
//! The crate holds everything about one call that can be decided without
//! touching the network: a request is described, its payload is hashed, the
//! signing headers are computed for a given instant, and whatever the transport
//! hands back is turned into a stable shape.
//!
//! - [`descriptor`]: the described request and its credentials;
//! - [`hash`]: the content hash of a body;
//! - [`signer`]: the signing headers, through the `aws-sigv4` crate;
//! - [`pipeline`]: the steps of one call, each with its own type;
//! - [`response`]: the normal form of a response;
//! - [`stage`]: the stages of a call and the steps between them;
//! - [`headers`], [`multimap`], [`method`], [`url`], [`text`], [`error`]: what
//!   the others are made of.
//!
//! Sending and receiving, the clock and the file system are left to the
//! application around the library.

pub mod descriptor;
pub mod error;
pub mod hash;
pub mod headers;
pub mod method;
pub mod multimap;
pub mod pipeline;
pub mod response;
pub mod signer;
pub mod stage;
pub mod text;
pub mod url;
