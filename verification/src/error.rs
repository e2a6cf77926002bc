//! What can go wrong between a value and the wire.
use crate::status::StatusCode;
use bytes::Bytes;
use serde_json::Error as JsonError;
use vstd::prelude::*;

verus! {

#[verifier::external_type_specification]
#[verifier::external_body]
pub struct ExJsonError(JsonError);

/// Why a request did not end in the value that was asked for.
///
/// `E` is the kind of failure that the transport reports.
#[derive(Debug)]
pub enum Error<E> {
    /// The transport failed, or a body broke off while it was read.
    Service(E),
    /// The response arrived, with a status that is not one of success.
    Http { status: StatusCode, body: Bytes },
    /// A value could not be written as JSON, or read from it.
    Json(JsonError),
}

} // verus!
