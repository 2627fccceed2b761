//! What the serving layer hands to the resolution of a request.

use vstd::prelude::*;
use crate::clients::{pairs, Pairs};

verus! {

/// The credential that came with a client's request, to be handed on to the
/// remote service as it is.
#[derive(Debug)]
pub struct AuthHeader(pub String);

/// The headers that carry a credential: one header `authorization`.
pub open spec fn auth_headers(credential: Seq<char>) -> Seq<(Seq<char>, Seq<char>)> {
    seq![("authorization"@, credential)]
}

/// The headers of every call that is made for a request: those that carry
/// its credential, and none at all where it brought no credential.
pub open spec fn forwarded(auth: Option<AuthHeader>) -> Option<Seq<(Seq<char>, Seq<char>)>> {
    match auth {
        Some(auth) => Some(auth_headers(auth.0@)),
        None => None,
    }
}

impl AuthHeader {
    pub fn new(credential: String) -> (r: Self)
        ensures
            r.0 == credential,
    {
        AuthHeader(credential)
    }

    /// The headers that carry this credential.
    pub fn as_header_map(&self) -> (r: Pairs)
        ensures
            pairs(r@) == auth_headers(self.0@),
    {
        let mut headers: Pairs = Vec::new();
        headers.push(("authorization".to_owned(), self.0.clone()));
        headers
    }
}

/// The headers for the calls of a request.
pub fn headers_for(auth: &Option<AuthHeader>) -> (r: Option<Pairs>)
    ensures
        crate::clients::optional_pairs(r) == forwarded(*auth),
{
    match auth {
        Some(auth) => Some(auth.as_header_map()),
        None => None,
    }
}

} // verus!
