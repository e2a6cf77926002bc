//! A value sent and received as JSON.
use crate::buffer::{bytes_from_vec, bytes_slice};
use crate::convert::raw::{carries, drain};
use crate::convert::{FromResponse, IntoRequest};
use crate::error::Error;
use crate::json::{FromJson, ToJson};
use crate::message::{Request, Response};
use serde_json::Error as JsonError;
use vstd::prelude::*;

verus! {

/// A value whose wire form is JSON.
#[derive(Clone, Copy, Debug)]
pub struct Json<T>(pub T);

/// Whether `out` is the request that `written` leads to: one that carries
/// the text, or the refusal to write as a JSON error.
pub open spec fn json_request<E>(
    written: Result<Vec<u8>, JsonError>,
    out: Result<Request<E>, Error<E>>,
) -> bool {
    match written {
        Ok(text) => out is Ok && carries(out->Ok_0, text@),
        Err(refusal) => out == Err::<Request<E>, Error<E>>(Error::Json(refusal)),
    }
}

/// Whether `out` is the value that `read` leads to: the value itself, or the
/// refusal to read as a JSON error.
pub open spec fn json_value<E, T>(
    read: Result<T, JsonError>,
    out: Result<Json<T>, Error<E>>,
) -> bool {
    match read {
        Ok(value) => out == Ok::<Json<T>, Error<E>>(Json(value)),
        Err(refusal) => out == Err::<Json<T>, Error<E>>(Error::Json(refusal)),
    }
}

impl<T> Json<T> {
    /// The request for a value that was written as `written`.
    pub fn request_of<E>(written: Result<Vec<u8>, JsonError>) -> (out: Result<
        Request<E>,
        Error<E>,
    >)
        ensures
            json_request(written, out),
    {
        match written {
            Ok(text) => bytes_from_vec(text).into_request(),
            Err(refusal) => Err(Error::Json(refusal)),
        }
    }

    /// The value that was read as `read`.
    pub fn value_of<E>(read: Result<T, JsonError>) -> (out: Result<Json<T>, Error<E>>)
        ensures
            json_value(read, out),
    {
        match read {
            Ok(value) => Ok(Json(value)),
            Err(refusal) => Err(Error::Json(refusal)),
        }
    }
}

impl<E, T: ToJson> IntoRequest<E> for Json<T> {
    /// The request is the one that follows from how the value was written.
    open spec fn builds(self, out: Result<Request<E>, Error<E>>) -> bool {
        exists|written: Result<Vec<u8>, JsonError>|
            self.0.writes(written) && #[trigger] json_request(written, out)
    }

    fn into_request(self) -> (out: Result<Request<E>, Error<E>>) {
        let written = self.0.to_json();
        let out = Json::<T>::request_of(written);
        assert(self.0.writes(written) && json_request(written, out));
        out
    }
}

impl<E, T: FromJson> FromResponse<E> for Json<T> {
    /// A body that breaks off is a failure of the service. Else the value
    /// is the one that follows from how the whole body was read.
    open spec fn decodes(response: Response<E>, out: Result<Self, Error<E>>) -> bool {
        match response.body.failure() {
            Some(failure) => out == Err::<Json<T>, Error<E>>(Error::Service(failure)),
            None => exists|read: Result<T, JsonError>|
                T::reads(response.body.payload(), read) && #[trigger] json_value(read, out),
        }
    }

    fn from_response(response: Response<E>) -> (out: Result<Self, Error<E>>) {
        match drain(response.body) {
            Ok(text) => {
                let read = T::from_json(bytes_slice(&text));
                let out = Json::<T>::value_of(read);
                assert(T::reads(response.body.payload(), read) && json_value(read, out));
                out
            },
            Err(error) => Err(error),
        }
    }
}

} // verus!
