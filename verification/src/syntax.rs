//! What the `http` crate accepts as a method, a target, a header name and a
//! header value.
//!
//! The library keeps these as plain text and bytes. Whether some text is
//! well formed is decided by the `http` crate alone: each function here asks
//! it, and gives the answer a name that contracts elsewhere can speak of.
//! Each answer depends on the given bytes only. None of these contracts is
//! proved.
use vstd::prelude::*;

verus! {

#[verifier::external_type_specification]
#[verifier::external_body]
pub struct ExExtensions(http::Extensions);

/// Whether `http::Method::from_bytes` accepts these bytes.
pub uninterp spec fn method_accepted(name: Seq<u8>) -> bool;

/// Whether `http::Uri` parses this text.
pub uninterp spec fn uri_accepted(text: Seq<char>) -> bool;

/// The name that `http::header::HeaderName::from_bytes` makes of these
/// bytes, where it accepts them.
pub uninterp spec fn header_name_form(name: Seq<u8>) -> Option<Seq<u8>>;

/// Whether `http::header::HeaderValue::from_bytes` accepts these bytes.
pub uninterp spec fn header_value_accepted(value: Seq<u8>) -> bool;

/// How many values an extension bag holds.
pub uninterp spec fn extension_count(bag: http::Extensions) -> nat;

/// `http::Method::from_bytes`: whether it accepts `name`.
#[verifier::external_body]
pub(crate) fn accepts_method(name: &[u8]) -> (accepted: bool)
    ensures
        accepted == method_accepted(name@),
{
    http::Method::from_bytes(name).is_ok()
}

/// `http::Uri`'s `FromStr`: whether it parses `text`.
#[verifier::external_body]
pub(crate) fn accepts_uri(text: &str) -> (accepted: bool)
    ensures
        accepted == uri_accepted(text@),
{
    text.parse::<http::Uri>().is_ok()
}

/// `http::header::HeaderName::from_bytes`: the bytes of the name it makes
/// of `name`, or nothing where it refuses `name`.
#[verifier::external_body]
pub(crate) fn forms_header_name(name: &[u8]) -> (form: Option<Vec<u8>>)
    ensures
        match form {
            Some(bytes) => header_name_form(name@) == Some(bytes@),
            None => header_name_form(name@) is None,
        },
{
    match http::header::HeaderName::from_bytes(name) {
        Ok(parsed) => Some(parsed.as_str().as_bytes().to_vec()),
        Err(_) => None,
    }
}

/// `http::header::HeaderValue::from_bytes`: whether it accepts `value`.
#[verifier::external_body]
pub(crate) fn accepts_header_value(value: &[u8]) -> (accepted: bool)
    ensures
        accepted == header_value_accepted(value@),
{
    http::header::HeaderValue::from_bytes(value).is_ok()
}

/// `http::Extensions::new`: a bag that holds nothing.
#[verifier::external_body]
pub(crate) fn no_extensions() -> (bag: http::Extensions)
    ensures
        extension_count(bag) == 0,
{
    http::Extensions::new()
}

} // verus!
