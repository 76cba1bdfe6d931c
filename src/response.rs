//! The two shapes that an authorization server may send to the redirect URL.
use vstd::prelude::*;

verus! {

/// The parameters of a successful redirect.
pub struct CodeGrantResponse {
    /// Code used to perform the token exchange.
    pub code: String,
    /// State from the grant request. Must be verified by the caller.
    pub state: String,
}

/// A standard OAuth2 error response.
pub struct BasicErrorResponse {
    /// The error code, such as `access_denied`.
    pub error: String,
    /// A human-readable explanation, if the server sent one.
    pub error_description: Option<String>,
    /// A page about the error, if the server sent one.
    pub error_uri: Option<String>,
}

/// The view of an optional string.
pub open spec fn opt_view(o: Option<String>) -> Option<Seq<char>> {
    match o {
        Some(s) => Some(s@),
        None => None,
    }
}

} // verus!
