//! The address of the remote endpoint.

use vstd::prelude::*;

verus! {

/// `url::Url`, a parsed address, carried as an opaque value.
#[verifier::external_type_specification]
#[verifier::external_body]
pub struct ExUrl(url::Url);

/// `url::ParseError`, carried as an opaque value.
#[verifier::external_type_specification]
#[verifier::external_body]
pub struct ExParseError(url::ParseError);

/// The URL that `url::Url::parse` reads from a string, or `None` where it
/// rejects the string.
pub uninterp spec fn parsed_url(address: Seq<char>) -> Option<url::Url>;

/// Calls `url::Url::parse`. Trusted: the URL returned is the one that
/// `parsed_url` names for the string, and an error comes exactly where
/// `parsed_url` is `None`.
#[verifier::external_body]
pub(crate) fn parse_url(address: &str) -> (r: Result<url::Url, url::ParseError>)
    ensures
        match r {
            Ok(url) => parsed_url(address@) == Some(url),
            Err(_) => parsed_url(address@) is None,
        },
{
    url::Url::parse(address)
}

} // verus!
