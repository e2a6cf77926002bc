//! What a client decides when it sends a value.
//!
//! Sending is three steps. The value is made into a request. The request is
//! handed to the transport, once. What the transport answers is made into
//! the value that was asked for, or into an error. The first and the last
//! step are decided here; the second is the caller's, and all this module
//! knows of it is the answer.
use crate::buffer::octets;
use crate::convert::{FromResponse, IntoRequest};
use crate::error::Error;
use crate::message::{Request, Response};
use crate::status::{is_success_code, StatusCode};
use bytes::Bytes;
use vstd::prelude::*;

verus! {

/// Whether `out` is what becomes of a response that does not report
/// success: an error that holds its status and all the bytes of its body,
/// or, where the body breaks off, the failure it ends in.
pub open spec fn refuses<E, U>(response: Response<E>, out: Result<U, Error<E>>) -> bool {
    match response.body.failure() {
        Some(failure) => out == Err::<U, Error<E>>(Error::Service(failure)),
        None => {
            &&& out matches Err(Error::Http { status, body })
            &&& status == response.parts.status
            &&& octets(body) == response.body.payload()
        },
    }
}

/// Whether `out` is what becomes of the transport's `answer` when a value of
/// type `U` was asked for.
///
/// A failure of the transport is the outcome as it stands. A response that
/// reports success is read as a `U`. Any other response is an error.
pub open spec fn settles<E, U: FromResponse<E>>(
    answer: Result<Response<E>, E>,
    out: Result<U, Error<E>>,
) -> bool {
    match answer {
        Ok(response) => if is_success_code(response.parts.status@) {
            U::decodes(response, out)
        } else {
            refuses(response, out)
        },
        Err(failure) => out == Err::<U, Error<E>>(Error::Service(failure)),
    }
}

/// The request to hand to the transport for `value`, or the error that ends
/// the sending before anything is handed over.
pub fn outgoing<E, T: IntoRequest<E>>(value: T) -> (out: Result<Request<E>, Error<E>>)
    ensures
        value.builds(out),
{
    value.into_request()
}

/// The outcome of sending, from what the transport answered.
pub fn incoming<E, U: FromResponse<E>>(answer: Result<Response<E>, E>) -> (out: Result<
    U,
    Error<E>,
>)
    ensures
        settles(answer, out),
{
    match answer {
        Ok(response) => {
            if response.parts.status.is_success() {
                U::from_response(response)
            } else {
                match <(StatusCode, Bytes)>::from_response(response) {
                    Ok((status, body)) => Err(Error::Http { status, body }),
                    Err(error) => Err(error),
                }
            }
        },
        Err(failure) => Err(Error::Service(failure)),
    }
}

} // verus!
