//! A header as a part of a message.
use crate::convert::{FromResponseParts, IntoRequestParts};
use crate::error::Error;
use crate::header::{value_octets, values_of, Header};
use crate::message::{header_set, RequestParts, ResponseParts};
use vstd::prelude::*;

verus! {

/// A header that is written into a request, or read from a response.
#[derive(Clone, Copy, Debug)]
pub struct TypedHeader<T>(pub T);

/// Whether `out` is what a header makes of `values`, the values of its
/// fields, after they were read as `read`: nothing where there is no value,
/// else what was read.
pub open spec fn header_found<T>(
    values: Seq<Seq<u8>>,
    read: Option<T>,
    out: Option<TypedHeader<T>>,
) -> bool {
    if values.len() == 0 {
        out is None
    } else {
        match read {
            Some(header) => out == Some(TypedHeader(header)),
            None => out is None,
        }
    }
}

impl<T> TypedHeader<T> {
    /// The header that was read as `read`.
    pub fn found(read: Option<T>) -> (out: Option<TypedHeader<T>>)
        ensures
            out == match read {
                Some(header) => Some(TypedHeader(header)),
                None => None,
            },
    {
        match read {
            Some(header) => Some(TypedHeader(header)),
            None => None,
        }
    }
}

impl<E, T: Header> IntoRequestParts<E> for TypedHeader<T> {
    /// The values that the header is written as take the place of the
    /// fields that go by its name. Nothing else changes.
    open spec fn amends(self, parts: RequestParts, out: Result<RequestParts, Error<E>>) -> bool {
        &&& out is Ok
        &&& exists|name: Seq<u8>, values: Seq<Seq<u8>>|
            T::names(name) && self.0.encodes(values) && #[trigger] header_set(
                parts,
                name,
                values,
                out->Ok_0,
            )
    }

    fn into_request_parts(self, parts: RequestParts) -> (out: Result<RequestParts, Error<E>>) {
        let name = T::name();
        let values = self.0.encode();
        let out = Ok(parts.set_header(name, values));
        assert(T::names(name@) && self.0.encodes(value_octets(values@)) && header_set(
            parts,
            name@,
            value_octets(values@),
            out->Ok_0,
        ));
        out
    }
}

impl<E, T: Header> FromResponseParts<E> for Option<TypedHeader<T>> {
    /// The parts stay as they are, and reading never fails. The value is
    /// the header read from the fields that go by its name. There is none
    /// where there is no such field, or where the fields do not read as the
    /// header.
    open spec fn extracts(
        before: ResponseParts,
        after: ResponseParts,
        out: Result<Self, Error<E>>,
    ) -> bool {
        &&& after == before
        &&& out is Ok
        &&& exists|name: Seq<u8>, read: Option<T>|
            T::names(name) && (values_of(before.headers@, name).len() > 0 ==> T::decodes(
                values_of(before.headers@, name),
                read,
            )) && #[trigger] header_found(values_of(before.headers@, name), read, out->Ok_0)
    }

    fn from_response_parts(parts: &mut ResponseParts) -> (out: Result<Self, Error<E>>) {
        let name = T::name();
        let values = parts.headers.get_all(&name);
        let ghost held = values_of(parts.headers@, name@);
        assert(value_octets(values@).len() == values@.len());
        if values.len() == 0 {
            let out = Ok(None);
            assert(T::names(name@) && header_found(held, None::<T>, out->Ok_0));
            out
        } else {
            let read = T::decode(&values);
            let out = Ok(TypedHeader::found(read));
            assert(T::names(name@) && T::decodes(held, read) && header_found(
                held,
                read,
                out->Ok_0,
            ));
            out
        }
    }
}

} // verus!
