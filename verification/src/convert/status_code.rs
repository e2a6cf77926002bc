//! The status code as a part of a response.
use crate::convert::FromResponseParts;
use crate::error::Error;
use crate::message::ResponseParts;
use crate::status::StatusCode;
use vstd::prelude::*;

verus! {

impl<E> FromResponseParts<E> for StatusCode {
    /// The value is the status of the response, and the parts stay as they
    /// are.
    open spec fn extracts(
        before: ResponseParts,
        after: ResponseParts,
        out: Result<Self, Error<E>>,
    ) -> bool {
        after == before && out == Ok::<StatusCode, Error<E>>(before.status)
    }

    fn from_response_parts(parts: &mut ResponseParts) -> (out: Result<Self, Error<E>>) {
        Ok(parts.status)
    }
}

} // verus!
