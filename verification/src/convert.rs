//! The four ways in which a value and a message meet.
//!
//! A value that can become a whole request is an [`IntoRequest`]; one that
//! only changes the parts of a request is an [`IntoRequestParts`]. In the
//! other direction, a value read from a whole response is a
//! [`FromResponse`], and one read from its parts alone is a
//! [`FromResponseParts`].
//!
//! Each trait pairs its method with a predicate that says which outcomes the
//! method may have. An implementation states its own predicate, and the
//! method is held to it. Where an implementation states none, nothing is
//! promised of its outcomes.
use crate::error::Error;
use crate::message::{Request, RequestParts, Response, ResponseParts};
use vstd::prelude::*;

pub mod body;
pub mod json;
pub mod method;
pub mod nested;
pub mod raw;
pub mod status_code;
pub mod tuple;
pub mod typed_header;
pub mod unit;
pub mod uri;

verus! {

/// A value that can be made into a request.
pub trait IntoRequest<E>: Sized {
    /// Whether `out` is an outcome that making this value into a request may
    /// have.
    open spec fn builds(self, out: Result<Request<E>, Error<E>>) -> bool {
        true
    }

    /// Makes the value into a request.
    fn into_request(self) -> (out: Result<Request<E>, Error<E>>)
        ensures
            self.builds(out),
    ;
}

/// A value that can be written into the parts of a request.
pub trait IntoRequestParts<E>: Sized {
    /// Whether `out` is an outcome that writing this value into `parts` may
    /// have.
    open spec fn amends(self, parts: RequestParts, out: Result<RequestParts, Error<E>>) -> bool {
        true
    }

    /// Writes the value into `parts`.
    fn into_request_parts(self, parts: RequestParts) -> (out: Result<RequestParts, Error<E>>)
        ensures
            self.amends(parts, out),
    ;
}

/// A value that can be read from a response.
pub trait FromResponse<E>: Sized {
    /// Whether `out` is an outcome that reading a value of this type from
    /// `response` may have.
    open spec fn decodes(response: Response<E>, out: Result<Self, Error<E>>) -> bool {
        true
    }

    /// Reads a value from `response`.
    fn from_response(response: Response<E>) -> (out: Result<Self, Error<E>>)
        ensures
            Self::decodes(response, out),
    ;
}

/// A value that can be read from the parts of a response.
pub trait FromResponseParts<E>: Sized {
    /// Whether reading a value of this type from parts that are `before` may
    /// leave them as `after` and have the outcome `out`.
    open spec fn extracts(
        before: ResponseParts,
        after: ResponseParts,
        out: Result<Self, Error<E>>,
    ) -> bool {
        true
    }

    /// Reads a value from `parts`.
    fn from_response_parts(parts: &mut ResponseParts) -> (out: Result<Self, Error<E>>)
        ensures
            Self::extracts(*old(parts), *final(parts), out),
    ;
}

} // verus!
