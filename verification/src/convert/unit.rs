//! The empty value: a request without a body, and a response whose body is
//! of no interest.
use crate::body::Body;
use crate::convert::{FromResponse, IntoRequest};
use crate::error::Error;
use crate::message::{Request, Response};
use vstd::prelude::*;

verus! {

impl<E> IntoRequest<E> for () {
    /// The request is blank and its body has no chunk.
    open spec fn builds(self, out: Result<Request<E>, Error<E>>) -> bool {
        &&& out matches Ok(request)
        &&& request.parts.is_blank()
        &&& request.body.chunks() == Seq::<Seq<u8>>::empty()
        &&& request.body.failure() is None
    }

    fn into_request(self) -> (out: Result<Request<E>, Error<E>>) {
        Ok(Request::new(Body::empty()))
    }
}

impl<E> FromResponse<E> for () {
    /// Any response will do.
    open spec fn decodes(response: Response<E>, out: Result<Self, Error<E>>) -> bool {
        out == Ok::<(), Error<E>>(())
    }

    fn from_response(response: Response<E>) -> (out: Result<Self, Error<E>>) {
        Ok(())
    }
}

} // verus!
