//! The `User-Agent` header of the `headers` crate.
//!
//! A client says who it is with this header, and some services answer no
//! one who does not. So that it can be sent and read without more ado, the
//! header of the `headers` crate is a [`Header`] as it stands. What that
//! crate does with it is not proved here: the contracts below restate what
//! its source shows.
use crate::header::{value_octets, Header, HeaderName, HeaderValue};
use crate::syntax::{header_name_form, header_value_accepted};
use headers::UserAgent;
use vstd::prelude::*;

verus! {

#[verifier::external_type_specification]
#[verifier::external_body]
pub struct ExUserAgent(headers::UserAgent);

/// The name `user-agent`, as its ASCII codes.
pub open spec fn user_agent() -> Seq<u8> {
    seq![117u8, 115, 101, 114, 45, 97, 103, 101, 110, 116]
}

/// Whether the `headers` crate reads a `UserAgent` from fields with these
/// values.
pub uninterp spec fn user_agent_accepted(values: Seq<Seq<u8>>) -> bool;

/// `<UserAgent as headers::Header>::name`: the name is `user-agent`, and
/// the `http` crate gives that name the form it has.
#[verifier::external_body]
fn user_agent_name() -> (name: Vec<u8>)
    ensures
        name@ == user_agent(),
        header_name_form(name@) == Some(name@),
{
    <UserAgent as headers::Header>::name().as_str().as_bytes().to_vec()
}

/// `<UserAgent as headers::Header>::encode`: the header is written as one
/// value, whose bytes the `http` crate accepts as a header value.
#[verifier::external_body]
fn user_agent_values(agent: &UserAgent) -> (values: Vec<Vec<u8>>)
    ensures
        values@.len() == 1,
        forall|index: int|
            0 <= index < values@.len() ==> header_value_accepted(#[trigger] values@[index]@),
{
    let mut wire: Vec<http::HeaderValue> = Vec::new();
    headers::Header::encode(agent, &mut wire);
    wire.iter().map(|value| value.as_bytes().to_vec()).collect()
}

/// `<UserAgent as headers::Header>::decode`: whether it reads a header
/// depends on the bytes of the values alone.
#[verifier::external_body]
fn user_agent_of(values: &Vec<HeaderValue>) -> (out: Option<UserAgent>)
    ensures
        out is Some <==> user_agent_accepted(value_octets(values@)),
{
    let wire: Option<Vec<http::HeaderValue>> =
        values.iter().map(|value| http::HeaderValue::from_bytes(value.as_bytes()).ok()).collect();
    <UserAgent as headers::Header>::decode(&mut wire?.iter()).ok()
}

impl Header for UserAgent {
    /// The field goes by `user-agent`.
    open spec fn names(name: Seq<u8>) -> bool {
        name == user_agent()
    }

    fn name() -> (name: HeaderName) {
        HeaderName::from_form(user_agent_name())
    }

    /// The header is written as one value.
    open spec fn encodes(&self, values: Seq<Seq<u8>>) -> bool {
        values.len() == 1
    }

    fn encode(&self) -> (values: Vec<HeaderValue>) {
        let mut written = user_agent_values(self);
        let mut values: Vec<HeaderValue> = Vec::new();
        match written.pop() {
            Some(bytes) => {
                values.push(HeaderValue::from_accepted(bytes));
            },
            None => {},
        }
        assert(value_octets(values@).len() == 1);
        values
    }

    /// The header is read where the `headers` crate reads one from the
    /// values.
    open spec fn decodes(values: Seq<Seq<u8>>, out: Option<Self>) -> bool {
        out is Some <==> user_agent_accepted(values)
    }

    fn decode(values: &Vec<HeaderValue>) -> (out: Option<Self>) {
        user_agent_of(values)
    }
}

} // verus!
