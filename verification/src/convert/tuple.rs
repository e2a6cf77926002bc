//! Several values as one: parts first, and the value for the body last.
//!
//! A pair is the smallest composite. Its first value is written into, or
//! read from, the parts of the message; its second value stands for the
//! rest of it.
//!
//! On the way out, the value for the body builds the request first, and the
//! parts are then written into it from left to right. On the way in, the
//! parts are read from left to right, and the value for the body is read
//! last. The first failure ends a conversion, and is its outcome.
use crate::convert::{FromResponse, FromResponseParts, IntoRequest, IntoRequestParts};
use crate::error::Error;
use crate::message::{Request, RequestParts, Response, ResponseParts};
use vstd::prelude::*;

verus! {

impl<E, T: IntoRequestParts<E>, U: IntoRequest<E>> IntoRequest<E> for (T, U) {
    /// The second value builds the request, and the first is written into
    /// its parts. The body is the one that the second value gave.
    open spec fn builds(self, out: Result<Request<E>, Error<E>>) -> bool {
        ||| out is Err && self.1.builds(Err(out->Err_0))
        ||| exists|base: Request<E>|
            {
                &&& #[trigger] self.1.builds(Ok(base))
                &&& match out {
                    Ok(request) => self.0.amends(base.parts, Ok(request.parts)) && request.body
                        == base.body,
                    Err(error) => self.0.amends(base.parts, Err(error)),
                }
            }
    }

    fn into_request(self) -> (out: Result<Request<E>, Error<E>>) {
        let (first, rest) = self;
        let built = rest.into_request();
        match built {
            Ok(base) => {
                let ghost witness = base;
                let Request { parts, body } = base;
                match first.into_request_parts(parts) {
                    Ok(parts) => {
                        let out = Ok(Request { parts, body });
                        assert(self.1.builds(Ok(witness)));
                        out
                    },
                    Err(error) => {
                        assert(self.1.builds(Ok(witness)));
                        Err(error)
                    },
                }
            },
            Err(error) => Err(error),
        }
    }
}

impl<E, T: IntoRequestParts<E>, U: IntoRequestParts<E>> IntoRequestParts<E> for (T, U) {
    /// The first value is written into the parts, and the second into what
    /// the first made of them.
    open spec fn amends(self, parts: RequestParts, out: Result<RequestParts, Error<E>>) -> bool {
        ||| out is Err && self.0.amends(parts, Err(out->Err_0))
        ||| exists|between: RequestParts|
            #[trigger] self.0.amends(parts, Ok(between)) && self.1.amends(between, out)
    }

    fn into_request_parts(self, parts: RequestParts) -> (out: Result<RequestParts, Error<E>>) {
        let (first, second) = self;
        match first.into_request_parts(parts) {
            Ok(between) => {
                let ghost witness = between;
                let out = second.into_request_parts(between);
                assert(self.0.amends(parts, Ok(witness)) && self.1.amends(witness, out));
                out
            },
            Err(error) => Err(error),
        }
    }
}

impl<E, T: FromResponseParts<E>, U: FromResponse<E>> FromResponse<E> for (T, U) {
    /// The first value is read from the parts, and the second from the
    /// response as the first left it.
    open spec fn decodes(response: Response<E>, out: Result<Self, Error<E>>) -> bool {
        ||| out is Ok && exists|after: ResponseParts|
            {
                &&& #[trigger] T::extracts(response.parts, after, Ok(out->Ok_0.0))
                &&& U::decodes(Response { parts: after, body: response.body }, Ok(out->Ok_0.1))
            }
        ||| out is Err && exists|after: ResponseParts|
            #[trigger] T::extracts(response.parts, after, Err(out->Err_0))
        ||| out is Err && exists|after: ResponseParts, first: T|
            {
                &&& #[trigger] T::extracts(response.parts, after, Ok(first))
                &&& U::decodes(Response { parts: after, body: response.body }, Err(out->Err_0))
            }
    }

    fn from_response(response: Response<E>) -> (out: Result<Self, Error<E>>) {
        let Response { parts, body } = response;
        let mut parts = parts;
        let read = T::from_response_parts(&mut parts);
        let ghost after = parts;
        match read {
            Ok(first) => {
                let rest = Response { parts, body };
                assert(rest == Response { parts: after, body: response.body });
                match U::from_response(rest) {
                    Ok(second) => {
                        let out = Ok((first, second));
                        assert(T::extracts(response.parts, after, Ok(out->Ok_0.0)));
                        out
                    },
                    Err(error) => {
                        let out = Err(error);
                        assert(T::extracts(response.parts, after, Ok(first)) && U::decodes(
                            Response { parts: after, body: response.body },
                            Err(out->Err_0),
                        ));
                        out
                    },
                }
            },
            Err(error) => {
                let out = Err(error);
                assert(T::extracts(response.parts, after, Err(out->Err_0)));
                out
            },
        }
    }
}

impl<E, T: FromResponseParts<E>, U: FromResponseParts<E>> FromResponseParts<E> for (T, U) {
    /// The first value is read from the parts, and the second from the
    /// parts as the first left them.
    open spec fn extracts(
        before: ResponseParts,
        after: ResponseParts,
        out: Result<Self, Error<E>>,
    ) -> bool {
        ||| out is Ok && exists|between: ResponseParts|
            {
                &&& #[trigger] T::extracts(before, between, Ok(out->Ok_0.0))
                &&& U::extracts(between, after, Ok(out->Ok_0.1))
            }
        ||| out is Err && T::extracts(before, after, Err(out->Err_0))
        ||| out is Err && exists|between: ResponseParts, first: T|
            {
                &&& #[trigger] T::extracts(before, between, Ok(first))
                &&& U::extracts(between, after, Err(out->Err_0))
            }
    }

    fn from_response_parts(parts: &mut ResponseParts) -> (out: Result<Self, Error<E>>) {
        let read = T::from_response_parts(parts);
        let ghost between = *parts;
        match read {
            Ok(first) => {
                let ghost witness = first;
                match U::from_response_parts(parts) {
                    Ok(second) => {
                        let out = Ok((first, second));
                        assert(T::extracts(*old(parts), between, Ok(out->Ok_0.0)));
                        out
                    },
                    Err(error) => {
                        assert(T::extracts(*old(parts), between, Ok(witness)));
                        Err(error)
                    },
                }
            },
            Err(error) => Err(error),
        }
    }
}

} // verus!
