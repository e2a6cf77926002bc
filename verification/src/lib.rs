//! Typed values on the one side, HTTP messages on the other.
//!
//! A request is described by the values it is made of: a method, a target,
//! headers, and last a value for its body. A response is read into values
//! in the same manner. Each kind of value says by a trait how it is written
//! into a message or read from one, and tuples put several of them together.
//!
//! The library does not talk to the network. It builds the request that is
//! to be sent, and it decides what an answer means: the value that was asked
//! for, or an error that tells a failing transport from a refusing server
//! and from a body that does not read.
pub mod body;
pub mod buffer;
pub mod client;
pub mod compare;
pub mod convert;
pub mod error;
pub mod header;
pub mod json;
pub mod laws;
pub mod message;
pub mod method;
pub mod status;
pub mod syntax;
pub mod uri;

pub use crate::body::{Body, Progress, Reading};
pub use crate::convert::json::Json;
pub use crate::convert::typed_header::TypedHeader;
pub use crate::convert::{FromResponse, FromResponseParts, IntoRequest, IntoRequestParts};
pub use crate::error::Error;
pub use crate::header::{Header, HeaderMap, HeaderName, HeaderValue};
pub use crate::json::{FromJson, ToJson};
pub use crate::message::{Request, RequestParts, Response, ResponseParts, Version};
pub use crate::method::Method;
pub use crate::status::StatusCode;
pub use crate::uri::Uri;

