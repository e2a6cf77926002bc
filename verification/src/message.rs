//! Requests and responses: the parts that describe a message, and its body.
use crate::body::Body;
use crate::header::{replaced, value_octets, Fields, HeaderMap, HeaderName, HeaderValue};
use crate::method::Method;
use crate::status::StatusCode;
use crate::syntax::{extension_count, no_extensions};
use crate::uri::Uri;
use vstd::prelude::*;

verus! {

/// The protocol version of a message.
#[derive(Clone, Copy, Debug, PartialEq, Eq)]
pub enum Version {
    Http09,
    Http10,
    Http11,
    Http2,
    Http3,
}

/// All of a request but its body.
#[derive(Debug)]
pub struct RequestParts {
    pub method: Method,
    pub uri: Uri,
    pub version: Version,
    pub headers: HeaderMap,
    pub extensions: http::Extensions,
}

/// A request: its parts and its body.
#[derive(Debug)]
pub struct Request<E> {
    pub parts: RequestParts,
    pub body: Body<E>,
}

/// All of a response but its body.
#[derive(Debug)]
pub struct ResponseParts {
    pub status: StatusCode,
    pub version: Version,
    pub headers: HeaderMap,
    pub extensions: http::Extensions,
}

/// A response: its parts and its body.
#[derive(Debug)]
pub struct Response<E> {
    pub parts: ResponseParts,
    pub body: Body<E>,
}

/// Whether `after` is `before` with `values` in the place of the header
/// fields that went by `name`, and nothing else changed.
pub open spec fn header_set(
    before: RequestParts,
    name: Seq<u8>,
    values: Seq<Seq<u8>>,
    after: RequestParts,
) -> bool {
    &&& after.method == before.method
    &&& after.uri == before.uri
    &&& after.version == before.version
    &&& after.extensions == before.extensions
    &&& after.headers@ == replaced(before.headers@, name, values)
}

impl RequestParts {
    /// Whether these are the parts of a request that nothing has been said
    /// about yet: `GET /` over HTTP/1.1, without header fields or extensions.
    pub open spec fn is_blank(&self) -> bool {
        &&& self.method == Method::Get
        &&& self.uri@ == "/"@
        &&& self.version == Version::Http11
        &&& self.headers@ == Fields::empty()
        &&& extension_count(self.extensions) == 0
    }

    /// The parts of a request that nothing has been said about yet.
    pub fn new() -> (parts: RequestParts)
        ensures
            parts.is_blank(),
    {
        RequestParts {
            method: Method::Get,
            uri: Uri::root(),
            version: Version::Http11,
            headers: HeaderMap::new(),
            extensions: no_extensions(),
        }
    }

    /// Puts `values` in the place of the header fields that go by `name`.
    pub fn set_header(self, name: HeaderName, values: Vec<HeaderValue>) -> (out: RequestParts)
        ensures
            header_set(self, name@, value_octets(values@), out),
    {
        let mut parts = self;
        parts.headers.replace(name, values);
        parts
    }
}

impl<E> Request<E> {
    /// A request with the given body, and nothing else said about it.
    pub fn new(body: Body<E>) -> (request: Request<E>)
        ensures
            request.parts.is_blank(),
            request.body == body,
    {
        Request { parts: RequestParts::new(), body }
    }
}

impl ResponseParts {
    /// Whether these are the parts of a response of which only the status is
    /// known: HTTP/1.1, without header fields or extensions.
    pub open spec fn is_bare(&self, status: StatusCode) -> bool {
        &&& self.status == status
        &&& self.version == Version::Http11
        &&& self.headers@ == Fields::empty()
        &&& extension_count(self.extensions) == 0
    }

    /// The parts of a response of which only the status is known.
    pub fn new(status: StatusCode) -> (parts: ResponseParts)
        ensures
            parts.is_bare(status),
    {
        ResponseParts {
            status,
            version: Version::Http11,
            headers: HeaderMap::new(),
            extensions: no_extensions(),
        }
    }
}

} // verus!
