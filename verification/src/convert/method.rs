//! The method as a part of a request.
use crate::convert::IntoRequestParts;
use crate::error::Error;
use crate::message::RequestParts;
use crate::method::Method;
use vstd::prelude::*;

verus! {

impl<E> IntoRequestParts<E> for Method {
    /// The method of the request becomes this one. Nothing else changes.
    open spec fn amends(self, parts: RequestParts, out: Result<RequestParts, Error<E>>) -> bool {
        out == Ok::<RequestParts, Error<E>>(RequestParts { method: self, ..parts })
    }

    fn into_request_parts(self, parts: RequestParts) -> (out: Result<RequestParts, Error<E>>) {
        let mut parts = parts;
        parts.method = self;
        Ok(parts)
    }
}

} // verus!
