//! What can go wrong with routes.

use vstd::prelude::*;

verus! {

/// Why a route could not be built.
#[derive(Debug)]
pub enum RouteError {
    /// The URI builder did not accept the scheme, the host, or the path with
    /// the query. Its own error says which, and why.
    InvalidUri(http::Error),
}

impl RouteError {
    /// The error of the URI builder.
    pub fn into_inner(self) -> (res: http::Error)
        ensures
            self == RouteError::InvalidUri(res),
    {
        match self {
            RouteError::InvalidUri(e) => e,
        }
    }
}

} // verus!
