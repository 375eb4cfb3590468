//! The engine's HTTP messages.
//!
//! `oauth2::HttpRequest` and `oauth2::HttpResponse` are the `http` crate's `Request` and
//! `Response` with a `Vec<u8>` body. The adapter never opens one: it hands each message on as a
//! whole. The declarations below therefore tell the verifier that the two types exist and
//! nothing about what is inside them, so that every statement this crate proves about a message
//! is a statement about the whole of it: method, URI, version, status, each header in its
//! place, each byte of the body.
use vstd::prelude::*;

verus! {

/// Declares `http::Request`, the type behind `oauth2::HttpRequest`, as re-exported by
/// `oauth2`. Trusted: the type is taken as opaque and nothing is claimed of its contents.
#[verifier::external_type_specification]
#[verifier::external_body]
#[verifier::reject_recursive_types(T)]
pub struct ExRequest<T>(oauth2::http::Request<T>);

/// Declares `http::Response`, the type behind `oauth2::HttpResponse`, as re-exported by
/// `oauth2`. Trusted: the type is taken as opaque and nothing is claimed of its contents.
#[verifier::external_type_specification]
#[verifier::external_body]
#[verifier::reject_recursive_types(T)]
pub struct ExResponse<T>(oauth2::http::Response<T>);

} // verus!
