//! A body handed through as it is, for callers that read or write it
//! themselves.
use crate::body::Body;
use crate::convert::{FromResponse, IntoRequest};
use crate::error::Error;
use crate::message::{Request, Response};
use vstd::prelude::*;

verus! {

impl<E> IntoRequest<E> for Body<E> {
    /// The request is blank and has this very body.
    open spec fn builds(self, out: Result<Request<E>, Error<E>>) -> bool {
        &&& out matches Ok(request)
        &&& request.parts.is_blank()
        &&& request.body == self
    }

    fn into_request(self) -> (out: Result<Request<E>, Error<E>>) {
        Ok(Request::new(self))
    }
}

impl<E> FromResponse<E> for Body<E> {
    /// The value is the body of the response, untouched.
    open spec fn decodes(response: Response<E>, out: Result<Self, Error<E>>) -> bool {
        out == Ok::<Body<E>, Error<E>>(response.body)
    }

    fn from_response(response: Response<E>) -> (out: Result<Self, Error<E>>) {
        Ok(response.body)
    }
}

} // verus!
