//! The remote endpoint of a session, given as a URL.
//!
//! Whether a text is a URL is hyper's decision. The crate asks hyper and keeps
//! the answer under a name, so that contracts can speak of it.

use vstd::prelude::*;
use crate::error::SessionError;

verus! {

/// hyper's URI type, carried as an opaque value.
#[verifier::external_type_specification]
#[verifier::external_body]
pub struct ExUri(hyper::Uri);

/// The error of hyper's URI parser, carried as an opaque value.
#[verifier::external_type_specification]
#[verifier::external_body]
pub struct ExInvalidUri(hyper::http::uri::InvalidUri);

/// Whether hyper's URI parser accepts `text`. The parser reads nothing but the
/// text, so the answer is a function of it.
pub uninterp spec fn uri_well_formed(text: Seq<char>) -> bool;

/// `str::parse::<hyper::Uri>` runs hyper's URI parser (`Uri::from_str`) on the
/// text. The parser returns an error for what it does not accept and never
/// panics; the contract names its verdict and says nothing of the parts of the
/// URI it returns.
#[verifier::external_body]
fn parse_uri(text: &str) -> (parsed: Result<hyper::Uri, hyper::http::uri::InvalidUri>)
    ensures
        parsed.is_ok() == uri_well_formed(text@),
{
    text.parse::<hyper::Uri>()
}

/// Parses the URL of a remote endpoint. A text that hyper refuses is a
/// transport error: no transport can be set up to it.
pub fn parse_endpoint(url: &str) -> (parsed: Result<hyper::Uri, SessionError>)
    ensures
        parsed.is_ok() == uri_well_formed(url@),
        parsed is Err ==> parsed->Err_0 == SessionError::TransportError,
{
    match parse_uri(url) {
        Ok(uri) => Ok(uri),
        Err(_) => Err(SessionError::TransportError),
    }
}

} // verus!
