//! The URI itself, which the `http` crate parses and holds.

use vstd::prelude::*;

verus! {

/// A parsed URI, as the `http` crate holds it.
#[verifier::external_type_specification]
#[verifier::external_body]
pub struct ExUri(http::Uri);

/// The error of the `http` crate, here: why something is no URI.
#[verifier::external_type_specification]
#[verifier::external_body]
pub struct ExHttpError(http::Error);

/// What the URI builder of the `http` crate makes of a scheme, an authority
/// and a path with query: the URI, or the error of the first part that it
/// does not accept.
pub uninterp spec fn uri_from_parts(
    scheme: Seq<char>,
    authority: Seq<char>,
    path_and_query: Seq<char>,
) -> Result<http::Uri, http::Error>;

/// Hands the three parts to a new `http::uri::Builder` (`scheme`,
/// `authority`, `path_and_query`) and lets it `build`.
///
/// Believed, not proved: the builder returns for every three texts, and what
/// it returns depends on the texts alone, so that it is `uri_from_parts` of
/// them. Which texts it accepts is not stated.
#[verifier::external_body]
pub(crate) fn assemble_uri(scheme: &str, authority: &str, path_and_query: String) -> (res: Result<
    http::Uri,
    http::Error,
>)
    ensures
        res == uri_from_parts(scheme@, authority@, path_and_query@),
{
    http::uri::Builder::new().scheme(scheme).authority(authority).path_and_query(
        path_and_query,
    ).build()
}

} // verus!
