//! The target as a part of a request.
use crate::convert::IntoRequestParts;
use crate::error::Error;
use crate::message::RequestParts;
use crate::uri::Uri;
use vstd::prelude::*;

verus! {

impl<E> IntoRequestParts<E> for Uri {
    /// The target of the request becomes this one. Nothing else changes.
    open spec fn amends(self, parts: RequestParts, out: Result<RequestParts, Error<E>>) -> bool {
        out == Ok::<RequestParts, Error<E>>(RequestParts { uri: self, ..parts })
    }

    fn into_request_parts(self, parts: RequestParts) -> (out: Result<RequestParts, Error<E>>) {
        let mut parts = parts;
        parts.uri = self;
        Ok(parts)
    }
}

} // verus!
