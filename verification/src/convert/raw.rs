//! A buffer of bytes as the whole body of a message.
use crate::body::Body;
use crate::buffer::octets;
use crate::convert::{FromResponse, IntoRequest};
use crate::error::Error;
use crate::message::{Request, Response};
use bytes::Bytes;
use vstd::prelude::*;

verus! {

/// Whether `request` is blank but for a body that holds `data` in one
/// chunk, or in none where there is no data.
pub open spec fn carries<E>(request: Request<E>, data: Seq<u8>) -> bool {
    &&& request.parts.is_blank()
    &&& request.body.chunks() == if data.len() == 0 {
        Seq::<Seq<u8>>::empty()
    } else {
        seq![data]
    }
    &&& request.body.payload() == data
    &&& request.body.failure() is None
}

/// Whether `out` is what reading `body` to its end gives: all its bytes, or
/// the failure it ends in as a failure of the service.
pub open spec fn drains<E>(body: Body<E>, out: Result<Bytes, Error<E>>) -> bool {
    match body.failure() {
        Some(failure) => out == Err::<Bytes, Error<E>>(Error::Service(failure)),
        None => out is Ok && octets(out->Ok_0) == body.payload(),
    }
}

/// Reads `body` to its end.
pub fn drain<E>(body: Body<E>) -> (out: Result<Bytes, Error<E>>)
    ensures
        drains(body, out),
{
    match body.collect() {
        Ok(data) => Ok(data),
        Err(failure) => Err(Error::Service(failure)),
    }
}

impl<E> IntoRequest<E> for Bytes {
    /// The request is blank and carries the bytes.
    open spec fn builds(self, out: Result<Request<E>, Error<E>>) -> bool {
        out is Ok && carries(out->Ok_0, octets(self))
    }

    fn into_request(self) -> (out: Result<Request<E>, Error<E>>) {
        Ok(Request::new(Body::full(self)))
    }
}

impl<E> FromResponse<E> for Bytes {
    /// The bytes are those of the whole body.
    open spec fn decodes(response: Response<E>, out: Result<Self, Error<E>>) -> bool {
        drains(response.body, out)
    }

    fn from_response(response: Response<E>) -> (out: Result<Self, Error<E>>) {
        drain(response.body)
    }
}

} // verus!
