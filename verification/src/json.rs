//! Values that have a JSON form.
//!
//! How a value is written as JSON, and read from it, is not this library's
//! business: the value's type says so by implementing [`ToJson`] and
//! [`FromJson`]. The library only decides what happens with the bytes, and
//! with a refusal.
use serde_json::Error as JsonError;
use vstd::prelude::*;

verus! {

#[verifier::external_type_specification]
#[verifier::external_body]
pub struct ExJsonValue(serde_json::Value);

/// A value that can be written as JSON.
pub trait ToJson {
    /// Whether `out` is an outcome that writing this value may have.
    open spec fn writes(&self, out: Result<Vec<u8>, JsonError>) -> bool {
        true
    }

    /// Writes the value as JSON.
    fn to_json(&self) -> (out: Result<Vec<u8>, JsonError>)
        ensures
            self.writes(out),
    ;
}

/// A value that can be read from JSON.
pub trait FromJson: Sized {
    /// Whether `out` is an outcome that reading a value of this type from
    /// `text` may have.
    open spec fn reads(text: Seq<u8>, out: Result<Self, JsonError>) -> bool {
        true
    }

    /// Reads a value from the JSON `text`.
    fn from_json(text: &[u8]) -> (out: Result<Self, JsonError>)
        ensures
            Self::reads(text@, out),
    ;
}

/// Whether `serde_json` reads these bytes as one JSON value.
pub uninterp spec fn json_accepted(text: Seq<u8>) -> bool;

/// The JSON text that `serde_json` writes for a value, where it writes
/// one. A value holds its members in one order only, and numbers are
/// written in one way only, so what is written depends on the value alone:
/// it is the same text every time, in every process and on every machine.
/// Whether there is a value for which nothing is written is left open.
pub uninterp spec fn json_written(value: serde_json::Value) -> Option<Seq<u8>>;

/// `serde_json::from_slice`, for a `serde_json::Value`: whether it succeeds
/// depends on the bytes alone.
#[verifier::external_body]
fn value_from_slice(text: &[u8]) -> (out: Result<serde_json::Value, JsonError>)
    ensures
        out is Ok <==> json_accepted(text@),
{
    serde_json::from_slice(text)
}

impl ToJson for serde_json::Value {
    fn to_json(&self) -> (out: Result<Vec<u8>, JsonError>) {
        value_to_vec(self)
    }

    /// The value is written as the text that `serde_json` writes for it,
    /// and refused where `serde_json` writes none.
    open spec fn writes(&self, out: Result<Vec<u8>, JsonError>) -> bool {
        match out {
            Ok(text) => json_written(*self) == Some(text@),
            Err(_) => json_written(*self) is None,
        }
    }
}

impl FromJson for serde_json::Value {
    /// The text is read where `serde_json` takes it for a JSON value, and
    /// refused where it does not.
    open spec fn reads(text: Seq<u8>, out: Result<Self, JsonError>) -> bool {
        out is Ok <==> json_accepted(text)
    }

    fn from_json(text: &[u8]) -> (out: Result<Self, JsonError>) {
        value_from_slice(text)
    }
}

/// `serde_json::to_vec`, for a `serde_json::Value`: it returns the text
/// that `serde_json` writes for the value, or an error where it writes
/// none. That it succeeds is not claimed.
#[verifier::external_body]
fn value_to_vec(value: &serde_json::Value) -> (out: Result<Vec<u8>, JsonError>)
    ensures
        match out {
            Ok(text) => json_written(*value) == Some(text@),
            Err(_) => json_written(*value) is None,
        },
{
    serde_json::to_vec(value)
}

} // verus!
