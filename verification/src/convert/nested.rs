//! Composites of three values and more, as pairs within pairs.
//!
//! Parts are written and read from left to right, as in a pair. So a
//! composite of parts is its first value followed by all the others as one;
//! a composite that is read from a response likewise; and a composite that
//! builds a request is all its values but the last as one composite of
//! parts, followed by the last.
use crate::convert::{FromResponse, FromResponseParts, IntoRequest, IntoRequestParts};
use crate::error::Error;
use crate::message::{Request, RequestParts, Response, ResponseParts};
use vstd::prelude::*;

verus! {

impl<
    E,
    T1: IntoRequestParts<E>,
    T2: IntoRequestParts<E>,
    T3: IntoRequest<E>,
> IntoRequest<E> for (T1, T2, T3) {
    /// As the pair of all the values but the last, and the last.
    open spec fn builds(self, out: Result<Request<E>, Error<E>>) -> bool {
        ((self.0, self.1), self.2).builds(out)
    }

    fn into_request(self) -> (out: Result<Request<E>, Error<E>>) {
        let (v1, v2, v3) = self;
        ((v1, v2), v3).into_request()
    }
}

impl<
    E,
    T1: IntoRequestParts<E>,
    T2: IntoRequestParts<E>,
    T3: IntoRequestParts<E>,
> IntoRequestParts<E> for (T1, T2, T3) {
    /// As the pair of the first value and all the others.
    open spec fn amends(self, parts: RequestParts, out: Result<RequestParts, Error<E>>) -> bool {
        (self.0, (self.1, self.2)).amends(parts, out)
    }

    fn into_request_parts(self, parts: RequestParts) -> (out: Result<RequestParts, Error<E>>) {
        let (v1, v2, v3) = self;
        (v1, (v2, v3)).into_request_parts(parts)
    }
}

impl<
    E,
    T1: FromResponseParts<E>,
    T2: FromResponseParts<E>,
    T3: FromResponse<E>,
> FromResponse<E> for (T1, T2, T3) {
    /// As the pair of the first value and all the others.
    open spec fn decodes(response: Response<E>, out: Result<Self, Error<E>>) -> bool {
        <(T1, (T2, T3))>::decodes(
            response,
            match out {
                Ok(all) => Ok((all.0, (all.1, all.2))),
                Err(error) => Err(error),
            },
        )
    }

    fn from_response(response: Response<E>) -> (out: Result<Self, Error<E>>) {
        match <(T1, (T2, T3))>::from_response(response) {
            Ok((v1, (v2, v3))) => Ok((v1, v2, v3)),
            Err(error) => Err(error),
        }
    }
}

impl<
    E,
    T1: FromResponseParts<E>,
    T2: FromResponseParts<E>,
    T3: FromResponseParts<E>,
> FromResponseParts<E> for (T1, T2, T3) {
    /// As the pair of the first value and all the others.
    open spec fn extracts(
        before: ResponseParts,
        after: ResponseParts,
        out: Result<Self, Error<E>>,
    ) -> bool {
        <(T1, (T2, T3))>::extracts(
            before,
            after,
            match out {
                Ok(all) => Ok((all.0, (all.1, all.2))),
                Err(error) => Err(error),
            },
        )
    }

    fn from_response_parts(parts: &mut ResponseParts) -> (out: Result<Self, Error<E>>) {
        match <(T1, (T2, T3))>::from_response_parts(parts) {
            Ok((v1, (v2, v3))) => Ok((v1, v2, v3)),
            Err(error) => Err(error),
        }
    }
}

impl<
    E,
    T1: IntoRequestParts<E>,
    T2: IntoRequestParts<E>,
    T3: IntoRequestParts<E>,
    T4: IntoRequest<E>,
> IntoRequest<E> for (T1, T2, T3, T4) {
    /// As the pair of all the values but the last, and the last.
    open spec fn builds(self, out: Result<Request<E>, Error<E>>) -> bool {
        ((self.0, self.1, self.2), self.3).builds(out)
    }

    fn into_request(self) -> (out: Result<Request<E>, Error<E>>) {
        let (v1, v2, v3, v4) = self;
        ((v1, v2, v3), v4).into_request()
    }
}

impl<
    E,
    T1: IntoRequestParts<E>,
    T2: IntoRequestParts<E>,
    T3: IntoRequestParts<E>,
    T4: IntoRequestParts<E>,
> IntoRequestParts<E> for (T1, T2, T3, T4) {
    /// As the pair of the first value and all the others.
    open spec fn amends(self, parts: RequestParts, out: Result<RequestParts, Error<E>>) -> bool {
        (self.0, (self.1, self.2, self.3)).amends(parts, out)
    }

    fn into_request_parts(self, parts: RequestParts) -> (out: Result<RequestParts, Error<E>>) {
        let (v1, v2, v3, v4) = self;
        (v1, (v2, v3, v4)).into_request_parts(parts)
    }
}

impl<
    E,
    T1: FromResponseParts<E>,
    T2: FromResponseParts<E>,
    T3: FromResponseParts<E>,
    T4: FromResponse<E>,
> FromResponse<E> for (T1, T2, T3, T4) {
    /// As the pair of the first value and all the others.
    open spec fn decodes(response: Response<E>, out: Result<Self, Error<E>>) -> bool {
        <(T1, (T2, T3, T4))>::decodes(
            response,
            match out {
                Ok(all) => Ok((all.0, (all.1, all.2, all.3))),
                Err(error) => Err(error),
            },
        )
    }

    fn from_response(response: Response<E>) -> (out: Result<Self, Error<E>>) {
        match <(T1, (T2, T3, T4))>::from_response(response) {
            Ok((v1, (v2, v3, v4))) => Ok((v1, v2, v3, v4)),
            Err(error) => Err(error),
        }
    }
}

impl<
    E,
    T1: FromResponseParts<E>,
    T2: FromResponseParts<E>,
    T3: FromResponseParts<E>,
    T4: FromResponseParts<E>,
> FromResponseParts<E> for (T1, T2, T3, T4) {
    /// As the pair of the first value and all the others.
    open spec fn extracts(
        before: ResponseParts,
        after: ResponseParts,
        out: Result<Self, Error<E>>,
    ) -> bool {
        <(T1, (T2, T3, T4))>::extracts(
            before,
            after,
            match out {
                Ok(all) => Ok((all.0, (all.1, all.2, all.3))),
                Err(error) => Err(error),
            },
        )
    }

    fn from_response_parts(parts: &mut ResponseParts) -> (out: Result<Self, Error<E>>) {
        match <(T1, (T2, T3, T4))>::from_response_parts(parts) {
            Ok((v1, (v2, v3, v4))) => Ok((v1, v2, v3, v4)),
            Err(error) => Err(error),
        }
    }
}

impl<
    E,
    T1: IntoRequestParts<E>,
    T2: IntoRequestParts<E>,
    T3: IntoRequestParts<E>,
    T4: IntoRequestParts<E>,
    T5: IntoRequest<E>,
> IntoRequest<E> for (T1, T2, T3, T4, T5) {
    /// As the pair of all the values but the last, and the last.
    open spec fn builds(self, out: Result<Request<E>, Error<E>>) -> bool {
        ((self.0, self.1, self.2, self.3), self.4).builds(out)
    }

    fn into_request(self) -> (out: Result<Request<E>, Error<E>>) {
        let (v1, v2, v3, v4, v5) = self;
        ((v1, v2, v3, v4), v5).into_request()
    }
}

impl<
    E,
    T1: IntoRequestParts<E>,
    T2: IntoRequestParts<E>,
    T3: IntoRequestParts<E>,
    T4: IntoRequestParts<E>,
    T5: IntoRequestParts<E>,
> IntoRequestParts<E> for (T1, T2, T3, T4, T5) {
    /// As the pair of the first value and all the others.
    open spec fn amends(self, parts: RequestParts, out: Result<RequestParts, Error<E>>) -> bool {
        (self.0, (self.1, self.2, self.3, self.4)).amends(parts, out)
    }

    fn into_request_parts(self, parts: RequestParts) -> (out: Result<RequestParts, Error<E>>) {
        let (v1, v2, v3, v4, v5) = self;
        (v1, (v2, v3, v4, v5)).into_request_parts(parts)
    }
}

impl<
    E,
    T1: FromResponseParts<E>,
    T2: FromResponseParts<E>,
    T3: FromResponseParts<E>,
    T4: FromResponseParts<E>,
    T5: FromResponse<E>,
> FromResponse<E> for (T1, T2, T3, T4, T5) {
    /// As the pair of the first value and all the others.
    open spec fn decodes(response: Response<E>, out: Result<Self, Error<E>>) -> bool {
        <(T1, (T2, T3, T4, T5))>::decodes(
            response,
            match out {
                Ok(all) => Ok((all.0, (all.1, all.2, all.3, all.4))),
                Err(error) => Err(error),
            },
        )
    }

    fn from_response(response: Response<E>) -> (out: Result<Self, Error<E>>) {
        match <(T1, (T2, T3, T4, T5))>::from_response(response) {
            Ok((v1, (v2, v3, v4, v5))) => Ok((v1, v2, v3, v4, v5)),
            Err(error) => Err(error),
        }
    }
}

impl<
    E,
    T1: FromResponseParts<E>,
    T2: FromResponseParts<E>,
    T3: FromResponseParts<E>,
    T4: FromResponseParts<E>,
    T5: FromResponseParts<E>,
> FromResponseParts<E> for (T1, T2, T3, T4, T5) {
    /// As the pair of the first value and all the others.
    open spec fn extracts(
        before: ResponseParts,
        after: ResponseParts,
        out: Result<Self, Error<E>>,
    ) -> bool {
        <(T1, (T2, T3, T4, T5))>::extracts(
            before,
            after,
            match out {
                Ok(all) => Ok((all.0, (all.1, all.2, all.3, all.4))),
                Err(error) => Err(error),
            },
        )
    }

    fn from_response_parts(parts: &mut ResponseParts) -> (out: Result<Self, Error<E>>) {
        match <(T1, (T2, T3, T4, T5))>::from_response_parts(parts) {
            Ok((v1, (v2, v3, v4, v5))) => Ok((v1, v2, v3, v4, v5)),
            Err(error) => Err(error),
        }
    }
}

impl<
    E,
    T1: IntoRequestParts<E>,
    T2: IntoRequestParts<E>,
    T3: IntoRequestParts<E>,
    T4: IntoRequestParts<E>,
    T5: IntoRequestParts<E>,
    T6: IntoRequest<E>,
> IntoRequest<E> for (T1, T2, T3, T4, T5, T6) {
    /// As the pair of all the values but the last, and the last.
    open spec fn builds(self, out: Result<Request<E>, Error<E>>) -> bool {
        ((self.0, self.1, self.2, self.3, self.4), self.5).builds(out)
    }

    fn into_request(self) -> (out: Result<Request<E>, Error<E>>) {
        let (v1, v2, v3, v4, v5, v6) = self;
        ((v1, v2, v3, v4, v5), v6).into_request()
    }
}

impl<
    E,
    T1: IntoRequestParts<E>,
    T2: IntoRequestParts<E>,
    T3: IntoRequestParts<E>,
    T4: IntoRequestParts<E>,
    T5: IntoRequestParts<E>,
    T6: IntoRequestParts<E>,
> IntoRequestParts<E> for (T1, T2, T3, T4, T5, T6) {
    /// As the pair of the first value and all the others.
    open spec fn amends(self, parts: RequestParts, out: Result<RequestParts, Error<E>>) -> bool {
        (self.0, (self.1, self.2, self.3, self.4, self.5)).amends(parts, out)
    }

    fn into_request_parts(self, parts: RequestParts) -> (out: Result<RequestParts, Error<E>>) {
        let (v1, v2, v3, v4, v5, v6) = self;
        (v1, (v2, v3, v4, v5, v6)).into_request_parts(parts)
    }
}

impl<
    E,
    T1: FromResponseParts<E>,
    T2: FromResponseParts<E>,
    T3: FromResponseParts<E>,
    T4: FromResponseParts<E>,
    T5: FromResponseParts<E>,
    T6: FromResponse<E>,
> FromResponse<E> for (T1, T2, T3, T4, T5, T6) {
    /// As the pair of the first value and all the others.
    open spec fn decodes(response: Response<E>, out: Result<Self, Error<E>>) -> bool {
        <(T1, (T2, T3, T4, T5, T6))>::decodes(
            response,
            match out {
                Ok(all) => Ok((all.0, (all.1, all.2, all.3, all.4, all.5))),
                Err(error) => Err(error),
            },
        )
    }

    fn from_response(response: Response<E>) -> (out: Result<Self, Error<E>>) {
        match <(T1, (T2, T3, T4, T5, T6))>::from_response(response) {
            Ok((v1, (v2, v3, v4, v5, v6))) => Ok((v1, v2, v3, v4, v5, v6)),
            Err(error) => Err(error),
        }
    }
}

impl<
    E,
    T1: FromResponseParts<E>,
    T2: FromResponseParts<E>,
    T3: FromResponseParts<E>,
    T4: FromResponseParts<E>,
    T5: FromResponseParts<E>,
    T6: FromResponseParts<E>,
> FromResponseParts<E> for (T1, T2, T3, T4, T5, T6) {
    /// As the pair of the first value and all the others.
    open spec fn extracts(
        before: ResponseParts,
        after: ResponseParts,
        out: Result<Self, Error<E>>,
    ) -> bool {
        <(T1, (T2, T3, T4, T5, T6))>::extracts(
            before,
            after,
            match out {
                Ok(all) => Ok((all.0, (all.1, all.2, all.3, all.4, all.5))),
                Err(error) => Err(error),
            },
        )
    }

    fn from_response_parts(parts: &mut ResponseParts) -> (out: Result<Self, Error<E>>) {
        match <(T1, (T2, T3, T4, T5, T6))>::from_response_parts(parts) {
            Ok((v1, (v2, v3, v4, v5, v6))) => Ok((v1, v2, v3, v4, v5, v6)),
            Err(error) => Err(error),
        }
    }
}

impl<
    E,
    T1: IntoRequestParts<E>,
    T2: IntoRequestParts<E>,
    T3: IntoRequestParts<E>,
    T4: IntoRequestParts<E>,
    T5: IntoRequestParts<E>,
    T6: IntoRequestParts<E>,
    T7: IntoRequest<E>,
> IntoRequest<E> for (T1, T2, T3, T4, T5, T6, T7) {
    /// As the pair of all the values but the last, and the last.
    open spec fn builds(self, out: Result<Request<E>, Error<E>>) -> bool {
        ((self.0, self.1, self.2, self.3, self.4, self.5), self.6).builds(out)
    }

    fn into_request(self) -> (out: Result<Request<E>, Error<E>>) {
        let (v1, v2, v3, v4, v5, v6, v7) = self;
        ((v1, v2, v3, v4, v5, v6), v7).into_request()
    }
}

impl<
    E,
    T1: IntoRequestParts<E>,
    T2: IntoRequestParts<E>,
    T3: IntoRequestParts<E>,
    T4: IntoRequestParts<E>,
    T5: IntoRequestParts<E>,
    T6: IntoRequestParts<E>,
    T7: IntoRequestParts<E>,
> IntoRequestParts<E> for (T1, T2, T3, T4, T5, T6, T7) {
    /// As the pair of the first value and all the others.
    open spec fn amends(self, parts: RequestParts, out: Result<RequestParts, Error<E>>) -> bool {
        (self.0, (self.1, self.2, self.3, self.4, self.5, self.6)).amends(parts, out)
    }

    fn into_request_parts(self, parts: RequestParts) -> (out: Result<RequestParts, Error<E>>) {
        let (v1, v2, v3, v4, v5, v6, v7) = self;
        (v1, (v2, v3, v4, v5, v6, v7)).into_request_parts(parts)
    }
}

impl<
    E,
    T1: FromResponseParts<E>,
    T2: FromResponseParts<E>,
    T3: FromResponseParts<E>,
    T4: FromResponseParts<E>,
    T5: FromResponseParts<E>,
    T6: FromResponseParts<E>,
    T7: FromResponse<E>,
> FromResponse<E> for (T1, T2, T3, T4, T5, T6, T7) {
    /// As the pair of the first value and all the others.
    open spec fn decodes(response: Response<E>, out: Result<Self, Error<E>>) -> bool {
        <(T1, (T2, T3, T4, T5, T6, T7))>::decodes(
            response,
            match out {
                Ok(all) => Ok((all.0, (all.1, all.2, all.3, all.4, all.5, all.6))),
                Err(error) => Err(error),
            },
        )
    }

    fn from_response(response: Response<E>) -> (out: Result<Self, Error<E>>) {
        match <(T1, (T2, T3, T4, T5, T6, T7))>::from_response(response) {
            Ok((v1, (v2, v3, v4, v5, v6, v7))) => Ok((v1, v2, v3, v4, v5, v6, v7)),
            Err(error) => Err(error),
        }
    }
}

impl<
    E,
    T1: FromResponseParts<E>,
    T2: FromResponseParts<E>,
    T3: FromResponseParts<E>,
    T4: FromResponseParts<E>,
    T5: FromResponseParts<E>,
    T6: FromResponseParts<E>,
    T7: FromResponseParts<E>,
> FromResponseParts<E> for (T1, T2, T3, T4, T5, T6, T7) {
    /// As the pair of the first value and all the others.
    open spec fn extracts(
        before: ResponseParts,
        after: ResponseParts,
        out: Result<Self, Error<E>>,
    ) -> bool {
        <(T1, (T2, T3, T4, T5, T6, T7))>::extracts(
            before,
            after,
            match out {
                Ok(all) => Ok((all.0, (all.1, all.2, all.3, all.4, all.5, all.6))),
                Err(error) => Err(error),
            },
        )
    }

    fn from_response_parts(parts: &mut ResponseParts) -> (out: Result<Self, Error<E>>) {
        match <(T1, (T2, T3, T4, T5, T6, T7))>::from_response_parts(parts) {
            Ok((v1, (v2, v3, v4, v5, v6, v7))) => Ok((v1, v2, v3, v4, v5, v6, v7)),
            Err(error) => Err(error),
        }
    }
}

impl<
    E,
    T1: IntoRequestParts<E>,
    T2: IntoRequestParts<E>,
    T3: IntoRequestParts<E>,
    T4: IntoRequestParts<E>,
    T5: IntoRequestParts<E>,
    T6: IntoRequestParts<E>,
    T7: IntoRequestParts<E>,
    T8: IntoRequest<E>,
> IntoRequest<E> for (T1, T2, T3, T4, T5, T6, T7, T8) {
    /// As the pair of all the values but the last, and the last.
    open spec fn builds(self, out: Result<Request<E>, Error<E>>) -> bool {
        ((self.0, self.1, self.2, self.3, self.4, self.5, self.6), self.7).builds(out)
    }

    fn into_request(self) -> (out: Result<Request<E>, Error<E>>) {
        let (v1, v2, v3, v4, v5, v6, v7, v8) = self;
        ((v1, v2, v3, v4, v5, v6, v7), v8).into_request()
    }
}

impl<
    E,
    T1: IntoRequestParts<E>,
    T2: IntoRequestParts<E>,
    T3: IntoRequestParts<E>,
    T4: IntoRequestParts<E>,
    T5: IntoRequestParts<E>,
    T6: IntoRequestParts<E>,
    T7: IntoRequestParts<E>,
    T8: IntoRequestParts<E>,
> IntoRequestParts<E> for (T1, T2, T3, T4, T5, T6, T7, T8) {
    /// As the pair of the first value and all the others.
    open spec fn amends(self, parts: RequestParts, out: Result<RequestParts, Error<E>>) -> bool {
        (self.0, (self.1, self.2, self.3, self.4, self.5, self.6, self.7)).amends(parts, out)
    }

    fn into_request_parts(self, parts: RequestParts) -> (out: Result<RequestParts, Error<E>>) {
        let (v1, v2, v3, v4, v5, v6, v7, v8) = self;
        (v1, (v2, v3, v4, v5, v6, v7, v8)).into_request_parts(parts)
    }
}

impl<
    E,
    T1: FromResponseParts<E>,
    T2: FromResponseParts<E>,
    T3: FromResponseParts<E>,
    T4: FromResponseParts<E>,
    T5: FromResponseParts<E>,
    T6: FromResponseParts<E>,
    T7: FromResponseParts<E>,
    T8: FromResponse<E>,
> FromResponse<E> for (T1, T2, T3, T4, T5, T6, T7, T8) {
    /// As the pair of the first value and all the others.
    open spec fn decodes(response: Response<E>, out: Result<Self, Error<E>>) -> bool {
        <(T1, (T2, T3, T4, T5, T6, T7, T8))>::decodes(
            response,
            match out {
                Ok(all) => Ok((all.0, (all.1, all.2, all.3, all.4, all.5, all.6, all.7))),
                Err(error) => Err(error),
            },
        )
    }

    fn from_response(response: Response<E>) -> (out: Result<Self, Error<E>>) {
        match <(T1, (T2, T3, T4, T5, T6, T7, T8))>::from_response(response) {
            Ok((v1, (v2, v3, v4, v5, v6, v7, v8))) => Ok((v1, v2, v3, v4, v5, v6, v7, v8)),
            Err(error) => Err(error),
        }
    }
}

impl<
    E,
    T1: FromResponseParts<E>,
    T2: FromResponseParts<E>,
    T3: FromResponseParts<E>,
    T4: FromResponseParts<E>,
    T5: FromResponseParts<E>,
    T6: FromResponseParts<E>,
    T7: FromResponseParts<E>,
    T8: FromResponseParts<E>,
> FromResponseParts<E> for (T1, T2, T3, T4, T5, T6, T7, T8) {
    /// As the pair of the first value and all the others.
    open spec fn extracts(
        before: ResponseParts,
        after: ResponseParts,
        out: Result<Self, Error<E>>,
    ) -> bool {
        <(T1, (T2, T3, T4, T5, T6, T7, T8))>::extracts(
            before,
            after,
            match out {
                Ok(all) => Ok((all.0, (all.1, all.2, all.3, all.4, all.5, all.6, all.7))),
                Err(error) => Err(error),
            },
        )
    }

    fn from_response_parts(parts: &mut ResponseParts) -> (out: Result<Self, Error<E>>) {
        match <(T1, (T2, T3, T4, T5, T6, T7, T8))>::from_response_parts(parts) {
            Ok((v1, (v2, v3, v4, v5, v6, v7, v8))) => Ok((v1, v2, v3, v4, v5, v6, v7, v8)),
            Err(error) => Err(error),
        }
    }
}

impl<
    E,
    T1: IntoRequestParts<E>,
    T2: IntoRequestParts<E>,
    T3: IntoRequestParts<E>,
    T4: IntoRequestParts<E>,
    T5: IntoRequestParts<E>,
    T6: IntoRequestParts<E>,
    T7: IntoRequestParts<E>,
    T8: IntoRequestParts<E>,
    T9: IntoRequest<E>,
> IntoRequest<E> for (T1, T2, T3, T4, T5, T6, T7, T8, T9) {
    /// As the pair of all the values but the last, and the last.
    open spec fn builds(self, out: Result<Request<E>, Error<E>>) -> bool {
        ((self.0, self.1, self.2, self.3, self.4, self.5, self.6, self.7), self.8).builds(out)
    }

    fn into_request(self) -> (out: Result<Request<E>, Error<E>>) {
        let (v1, v2, v3, v4, v5, v6, v7, v8, v9) = self;
        ((v1, v2, v3, v4, v5, v6, v7, v8), v9).into_request()
    }
}

impl<
    E,
    T1: IntoRequestParts<E>,
    T2: IntoRequestParts<E>,
    T3: IntoRequestParts<E>,
    T4: IntoRequestParts<E>,
    T5: IntoRequestParts<E>,
    T6: IntoRequestParts<E>,
    T7: IntoRequestParts<E>,
    T8: IntoRequestParts<E>,
    T9: IntoRequestParts<E>,
> IntoRequestParts<E> for (T1, T2, T3, T4, T5, T6, T7, T8, T9) {
    /// As the pair of the first value and all the others.
    open spec fn amends(self, parts: RequestParts, out: Result<RequestParts, Error<E>>) -> bool {
        (self.0, (self.1, self.2, self.3, self.4, self.5, self.6, self.7, self.8)).amends(parts, out)
    }

    fn into_request_parts(self, parts: RequestParts) -> (out: Result<RequestParts, Error<E>>) {
        let (v1, v2, v3, v4, v5, v6, v7, v8, v9) = self;
        (v1, (v2, v3, v4, v5, v6, v7, v8, v9)).into_request_parts(parts)
    }
}

impl<
    E,
    T1: FromResponseParts<E>,
    T2: FromResponseParts<E>,
    T3: FromResponseParts<E>,
    T4: FromResponseParts<E>,
    T5: FromResponseParts<E>,
    T6: FromResponseParts<E>,
    T7: FromResponseParts<E>,
    T8: FromResponseParts<E>,
    T9: FromResponse<E>,
> FromResponse<E> for (T1, T2, T3, T4, T5, T6, T7, T8, T9) {
    /// As the pair of the first value and all the others.
    open spec fn decodes(response: Response<E>, out: Result<Self, Error<E>>) -> bool {
        <(T1, (T2, T3, T4, T5, T6, T7, T8, T9))>::decodes(
            response,
            match out {
                Ok(all) => Ok((all.0, (all.1, all.2, all.3, all.4, all.5, all.6, all.7, all.8))),
                Err(error) => Err(error),
            },
        )
    }

    fn from_response(response: Response<E>) -> (out: Result<Self, Error<E>>) {
        match <(T1, (T2, T3, T4, T5, T6, T7, T8, T9))>::from_response(response) {
            Ok((v1, (v2, v3, v4, v5, v6, v7, v8, v9))) => Ok((v1, v2, v3, v4, v5, v6, v7, v8, v9)),
            Err(error) => Err(error),
        }
    }
}

impl<
    E,
    T1: FromResponseParts<E>,
    T2: FromResponseParts<E>,
    T3: FromResponseParts<E>,
    T4: FromResponseParts<E>,
    T5: FromResponseParts<E>,
    T6: FromResponseParts<E>,
    T7: FromResponseParts<E>,
    T8: FromResponseParts<E>,
    T9: FromResponseParts<E>,
> FromResponseParts<E> for (T1, T2, T3, T4, T5, T6, T7, T8, T9) {
    /// As the pair of the first value and all the others.
    open spec fn extracts(
        before: ResponseParts,
        after: ResponseParts,
        out: Result<Self, Error<E>>,
    ) -> bool {
        <(T1, (T2, T3, T4, T5, T6, T7, T8, T9))>::extracts(
            before,
            after,
            match out {
                Ok(all) => Ok((all.0, (all.1, all.2, all.3, all.4, all.5, all.6, all.7, all.8))),
                Err(error) => Err(error),
            },
        )
    }

    fn from_response_parts(parts: &mut ResponseParts) -> (out: Result<Self, Error<E>>) {
        match <(T1, (T2, T3, T4, T5, T6, T7, T8, T9))>::from_response_parts(parts) {
            Ok((v1, (v2, v3, v4, v5, v6, v7, v8, v9))) => Ok((v1, v2, v3, v4, v5, v6, v7, v8, v9)),
            Err(error) => Err(error),
        }
    }
}

impl<
    E,
    T1: IntoRequestParts<E>,
    T2: IntoRequestParts<E>,
    T3: IntoRequestParts<E>,
    T4: IntoRequestParts<E>,
    T5: IntoRequestParts<E>,
    T6: IntoRequestParts<E>,
    T7: IntoRequestParts<E>,
    T8: IntoRequestParts<E>,
    T9: IntoRequestParts<E>,
    T10: IntoRequest<E>,
> IntoRequest<E> for (T1, T2, T3, T4, T5, T6, T7, T8, T9, T10) {
    /// As the pair of all the values but the last, and the last.
    open spec fn builds(self, out: Result<Request<E>, Error<E>>) -> bool {
        ((self.0, self.1, self.2, self.3, self.4, self.5, self.6, self.7, self.8), self.9).builds(out)
    }

    fn into_request(self) -> (out: Result<Request<E>, Error<E>>) {
        let (v1, v2, v3, v4, v5, v6, v7, v8, v9, v10) = self;
        ((v1, v2, v3, v4, v5, v6, v7, v8, v9), v10).into_request()
    }
}

impl<
    E,
    T1: IntoRequestParts<E>,
    T2: IntoRequestParts<E>,
    T3: IntoRequestParts<E>,
    T4: IntoRequestParts<E>,
    T5: IntoRequestParts<E>,
    T6: IntoRequestParts<E>,
    T7: IntoRequestParts<E>,
    T8: IntoRequestParts<E>,
    T9: IntoRequestParts<E>,
    T10: IntoRequestParts<E>,
> IntoRequestParts<E> for (T1, T2, T3, T4, T5, T6, T7, T8, T9, T10) {
    /// As the pair of the first value and all the others.
    open spec fn amends(self, parts: RequestParts, out: Result<RequestParts, Error<E>>) -> bool {
        (self.0, (self.1, self.2, self.3, self.4, self.5, self.6, self.7, self.8, self.9)).amends(parts, out)
    }

    fn into_request_parts(self, parts: RequestParts) -> (out: Result<RequestParts, Error<E>>) {
        let (v1, v2, v3, v4, v5, v6, v7, v8, v9, v10) = self;
        (v1, (v2, v3, v4, v5, v6, v7, v8, v9, v10)).into_request_parts(parts)
    }
}

impl<
    E,
    T1: FromResponseParts<E>,
    T2: FromResponseParts<E>,
    T3: FromResponseParts<E>,
    T4: FromResponseParts<E>,
    T5: FromResponseParts<E>,
    T6: FromResponseParts<E>,
    T7: FromResponseParts<E>,
    T8: FromResponseParts<E>,
    T9: FromResponseParts<E>,
    T10: FromResponse<E>,
> FromResponse<E> for (T1, T2, T3, T4, T5, T6, T7, T8, T9, T10) {
    /// As the pair of the first value and all the others.
    open spec fn decodes(response: Response<E>, out: Result<Self, Error<E>>) -> bool {
        <(T1, (T2, T3, T4, T5, T6, T7, T8, T9, T10))>::decodes(
            response,
            match out {
                Ok(all) => Ok((all.0, (all.1, all.2, all.3, all.4, all.5, all.6, all.7, all.8, all.9))),
                Err(error) => Err(error),
            },
        )
    }

    fn from_response(response: Response<E>) -> (out: Result<Self, Error<E>>) {
        match <(T1, (T2, T3, T4, T5, T6, T7, T8, T9, T10))>::from_response(response) {
            Ok((v1, (v2, v3, v4, v5, v6, v7, v8, v9, v10))) => Ok((v1, v2, v3, v4, v5, v6, v7, v8, v9, v10)),
            Err(error) => Err(error),
        }
    }
}

impl<
    E,
    T1: FromResponseParts<E>,
    T2: FromResponseParts<E>,
    T3: FromResponseParts<E>,
    T4: FromResponseParts<E>,
    T5: FromResponseParts<E>,
    T6: FromResponseParts<E>,
    T7: FromResponseParts<E>,
    T8: FromResponseParts<E>,
    T9: FromResponseParts<E>,
    T10: FromResponseParts<E>,
> FromResponseParts<E> for (T1, T2, T3, T4, T5, T6, T7, T8, T9, T10) {
    /// As the pair of the first value and all the others.
    open spec fn extracts(
        before: ResponseParts,
        after: ResponseParts,
        out: Result<Self, Error<E>>,
    ) -> bool {
        <(T1, (T2, T3, T4, T5, T6, T7, T8, T9, T10))>::extracts(
            before,
            after,
            match out {
                Ok(all) => Ok((all.0, (all.1, all.2, all.3, all.4, all.5, all.6, all.7, all.8, all.9))),
                Err(error) => Err(error),
            },
        )
    }

    fn from_response_parts(parts: &mut ResponseParts) -> (out: Result<Self, Error<E>>) {
        match <(T1, (T2, T3, T4, T5, T6, T7, T8, T9, T10))>::from_response_parts(parts) {
            Ok((v1, (v2, v3, v4, v5, v6, v7, v8, v9, v10))) => Ok((v1, v2, v3, v4, v5, v6, v7, v8, v9, v10)),
            Err(error) => Err(error),
        }
    }
}

impl<
    E,
    T1: IntoRequestParts<E>,
    T2: IntoRequestParts<E>,
    T3: IntoRequestParts<E>,
    T4: IntoRequestParts<E>,
    T5: IntoRequestParts<E>,
    T6: IntoRequestParts<E>,
    T7: IntoRequestParts<E>,
    T8: IntoRequestParts<E>,
    T9: IntoRequestParts<E>,
    T10: IntoRequestParts<E>,
    T11: IntoRequest<E>,
> IntoRequest<E> for (T1, T2, T3, T4, T5, T6, T7, T8, T9, T10, T11) {
    /// As the pair of all the values but the last, and the last.
    open spec fn builds(self, out: Result<Request<E>, Error<E>>) -> bool {
        ((self.0, self.1, self.2, self.3, self.4, self.5, self.6, self.7, self.8, self.9), self.10).builds(out)
    }

    fn into_request(self) -> (out: Result<Request<E>, Error<E>>) {
        let (v1, v2, v3, v4, v5, v6, v7, v8, v9, v10, v11) = self;
        ((v1, v2, v3, v4, v5, v6, v7, v8, v9, v10), v11).into_request()
    }
}

impl<
    E,
    T1: IntoRequestParts<E>,
    T2: IntoRequestParts<E>,
    T3: IntoRequestParts<E>,
    T4: IntoRequestParts<E>,
    T5: IntoRequestParts<E>,
    T6: IntoRequestParts<E>,
    T7: IntoRequestParts<E>,
    T8: IntoRequestParts<E>,
    T9: IntoRequestParts<E>,
    T10: IntoRequestParts<E>,
    T11: IntoRequestParts<E>,
> IntoRequestParts<E> for (T1, T2, T3, T4, T5, T6, T7, T8, T9, T10, T11) {
    /// As the pair of the first value and all the others.
    open spec fn amends(self, parts: RequestParts, out: Result<RequestParts, Error<E>>) -> bool {
        (self.0, (self.1, self.2, self.3, self.4, self.5, self.6, self.7, self.8, self.9, self.10)).amends(parts, out)
    }

    fn into_request_parts(self, parts: RequestParts) -> (out: Result<RequestParts, Error<E>>) {
        let (v1, v2, v3, v4, v5, v6, v7, v8, v9, v10, v11) = self;
        (v1, (v2, v3, v4, v5, v6, v7, v8, v9, v10, v11)).into_request_parts(parts)
    }
}

impl<
    E,
    T1: FromResponseParts<E>,
    T2: FromResponseParts<E>,
    T3: FromResponseParts<E>,
    T4: FromResponseParts<E>,
    T5: FromResponseParts<E>,
    T6: FromResponseParts<E>,
    T7: FromResponseParts<E>,
    T8: FromResponseParts<E>,
    T9: FromResponseParts<E>,
    T10: FromResponseParts<E>,
    T11: FromResponse<E>,
> FromResponse<E> for (T1, T2, T3, T4, T5, T6, T7, T8, T9, T10, T11) {
    /// As the pair of the first value and all the others.
    open spec fn decodes(response: Response<E>, out: Result<Self, Error<E>>) -> bool {
        <(T1, (T2, T3, T4, T5, T6, T7, T8, T9, T10, T11))>::decodes(
            response,
            match out {
                Ok(all) => Ok((all.0, (all.1, all.2, all.3, all.4, all.5, all.6, all.7, all.8, all.9, all.10))),
                Err(error) => Err(error),
            },
        )
    }

    fn from_response(response: Response<E>) -> (out: Result<Self, Error<E>>) {
        match <(T1, (T2, T3, T4, T5, T6, T7, T8, T9, T10, T11))>::from_response(response) {
            Ok((v1, (v2, v3, v4, v5, v6, v7, v8, v9, v10, v11))) => Ok((v1, v2, v3, v4, v5, v6, v7, v8, v9, v10, v11)),
            Err(error) => Err(error),
        }
    }
}

impl<
    E,
    T1: FromResponseParts<E>,
    T2: FromResponseParts<E>,
    T3: FromResponseParts<E>,
    T4: FromResponseParts<E>,
    T5: FromResponseParts<E>,
    T6: FromResponseParts<E>,
    T7: FromResponseParts<E>,
    T8: FromResponseParts<E>,
    T9: FromResponseParts<E>,
    T10: FromResponseParts<E>,
    T11: FromResponseParts<E>,
> FromResponseParts<E> for (T1, T2, T3, T4, T5, T6, T7, T8, T9, T10, T11) {
    /// As the pair of the first value and all the others.
    open spec fn extracts(
        before: ResponseParts,
        after: ResponseParts,
        out: Result<Self, Error<E>>,
    ) -> bool {
        <(T1, (T2, T3, T4, T5, T6, T7, T8, T9, T10, T11))>::extracts(
            before,
            after,
            match out {
                Ok(all) => Ok((all.0, (all.1, all.2, all.3, all.4, all.5, all.6, all.7, all.8, all.9, all.10))),
                Err(error) => Err(error),
            },
        )
    }

    fn from_response_parts(parts: &mut ResponseParts) -> (out: Result<Self, Error<E>>) {
        match <(T1, (T2, T3, T4, T5, T6, T7, T8, T9, T10, T11))>::from_response_parts(parts) {
            Ok((v1, (v2, v3, v4, v5, v6, v7, v8, v9, v10, v11))) => Ok((v1, v2, v3, v4, v5, v6, v7, v8, v9, v10, v11)),
            Err(error) => Err(error),
        }
    }
}

impl<
    E,
    T1: IntoRequestParts<E>,
    T2: IntoRequestParts<E>,
    T3: IntoRequestParts<E>,
    T4: IntoRequestParts<E>,
    T5: IntoRequestParts<E>,
    T6: IntoRequestParts<E>,
    T7: IntoRequestParts<E>,
    T8: IntoRequestParts<E>,
    T9: IntoRequestParts<E>,
    T10: IntoRequestParts<E>,
    T11: IntoRequestParts<E>,
    T12: IntoRequest<E>,
> IntoRequest<E> for (T1, T2, T3, T4, T5, T6, T7, T8, T9, T10, T11, T12) {
    /// As the pair of all the values but the last, and the last.
    open spec fn builds(self, out: Result<Request<E>, Error<E>>) -> bool {
        ((self.0, self.1, self.2, self.3, self.4, self.5, self.6, self.7, self.8, self.9, self.10), self.11).builds(out)
    }

    fn into_request(self) -> (out: Result<Request<E>, Error<E>>) {
        let (v1, v2, v3, v4, v5, v6, v7, v8, v9, v10, v11, v12) = self;
        ((v1, v2, v3, v4, v5, v6, v7, v8, v9, v10, v11), v12).into_request()
    }
}

impl<
    E,
    T1: IntoRequestParts<E>,
    T2: IntoRequestParts<E>,
    T3: IntoRequestParts<E>,
    T4: IntoRequestParts<E>,
    T5: IntoRequestParts<E>,
    T6: IntoRequestParts<E>,
    T7: IntoRequestParts<E>,
    T8: IntoRequestParts<E>,
    T9: IntoRequestParts<E>,
    T10: IntoRequestParts<E>,
    T11: IntoRequestParts<E>,
    T12: IntoRequestParts<E>,
> IntoRequestParts<E> for (T1, T2, T3, T4, T5, T6, T7, T8, T9, T10, T11, T12) {
    /// As the pair of the first value and all the others.
    open spec fn amends(self, parts: RequestParts, out: Result<RequestParts, Error<E>>) -> bool {
        (self.0, (self.1, self.2, self.3, self.4, self.5, self.6, self.7, self.8, self.9, self.10, self.11)).amends(parts, out)
    }

    fn into_request_parts(self, parts: RequestParts) -> (out: Result<RequestParts, Error<E>>) {
        let (v1, v2, v3, v4, v5, v6, v7, v8, v9, v10, v11, v12) = self;
        (v1, (v2, v3, v4, v5, v6, v7, v8, v9, v10, v11, v12)).into_request_parts(parts)
    }
}

impl<
    E,
    T1: FromResponseParts<E>,
    T2: FromResponseParts<E>,
    T3: FromResponseParts<E>,
    T4: FromResponseParts<E>,
    T5: FromResponseParts<E>,
    T6: FromResponseParts<E>,
    T7: FromResponseParts<E>,
    T8: FromResponseParts<E>,
    T9: FromResponseParts<E>,
    T10: FromResponseParts<E>,
    T11: FromResponseParts<E>,
    T12: FromResponse<E>,
> FromResponse<E> for (T1, T2, T3, T4, T5, T6, T7, T8, T9, T10, T11, T12) {
    /// As the pair of the first value and all the others.
    open spec fn decodes(response: Response<E>, out: Result<Self, Error<E>>) -> bool {
        <(T1, (T2, T3, T4, T5, T6, T7, T8, T9, T10, T11, T12))>::decodes(
            response,
            match out {
                Ok(all) => Ok((all.0, (all.1, all.2, all.3, all.4, all.5, all.6, all.7, all.8, all.9, all.10, all.11))),
                Err(error) => Err(error),
            },
        )
    }

    fn from_response(response: Response<E>) -> (out: Result<Self, Error<E>>) {
        match <(T1, (T2, T3, T4, T5, T6, T7, T8, T9, T10, T11, T12))>::from_response(response) {
            Ok((v1, (v2, v3, v4, v5, v6, v7, v8, v9, v10, v11, v12))) => Ok((v1, v2, v3, v4, v5, v6, v7, v8, v9, v10, v11, v12)),
            Err(error) => Err(error),
        }
    }
}

impl<
    E,
    T1: FromResponseParts<E>,
    T2: FromResponseParts<E>,
    T3: FromResponseParts<E>,
    T4: FromResponseParts<E>,
    T5: FromResponseParts<E>,
    T6: FromResponseParts<E>,
    T7: FromResponseParts<E>,
    T8: FromResponseParts<E>,
    T9: FromResponseParts<E>,
    T10: FromResponseParts<E>,
    T11: FromResponseParts<E>,
    T12: FromResponseParts<E>,
> FromResponseParts<E> for (T1, T2, T3, T4, T5, T6, T7, T8, T9, T10, T11, T12) {
    /// As the pair of the first value and all the others.
    open spec fn extracts(
        before: ResponseParts,
        after: ResponseParts,
        out: Result<Self, Error<E>>,
    ) -> bool {
        <(T1, (T2, T3, T4, T5, T6, T7, T8, T9, T10, T11, T12))>::extracts(
            before,
            after,
            match out {
                Ok(all) => Ok((all.0, (all.1, all.2, all.3, all.4, all.5, all.6, all.7, all.8, all.9, all.10, all.11))),
                Err(error) => Err(error),
            },
        )
    }

    fn from_response_parts(parts: &mut ResponseParts) -> (out: Result<Self, Error<E>>) {
        match <(T1, (T2, T3, T4, T5, T6, T7, T8, T9, T10, T11, T12))>::from_response_parts(parts) {
            Ok((v1, (v2, v3, v4, v5, v6, v7, v8, v9, v10, v11, v12))) => Ok((v1, v2, v3, v4, v5, v6, v7, v8, v9, v10, v11, v12)),
            Err(error) => Err(error),
        }
    }
}

impl<
    E,
    T1: IntoRequestParts<E>,
    T2: IntoRequestParts<E>,
    T3: IntoRequestParts<E>,
    T4: IntoRequestParts<E>,
    T5: IntoRequestParts<E>,
    T6: IntoRequestParts<E>,
    T7: IntoRequestParts<E>,
    T8: IntoRequestParts<E>,
    T9: IntoRequestParts<E>,
    T10: IntoRequestParts<E>,
    T11: IntoRequestParts<E>,
    T12: IntoRequestParts<E>,
    T13: IntoRequest<E>,
> IntoRequest<E> for (T1, T2, T3, T4, T5, T6, T7, T8, T9, T10, T11, T12, T13) {
    /// As the pair of all the values but the last, and the last.
    open spec fn builds(self, out: Result<Request<E>, Error<E>>) -> bool {
        ((self.0, self.1, self.2, self.3, self.4, self.5, self.6, self.7, self.8, self.9, self.10, self.11), self.12).builds(out)
    }

    fn into_request(self) -> (out: Result<Request<E>, Error<E>>) {
        let (v1, v2, v3, v4, v5, v6, v7, v8, v9, v10, v11, v12, v13) = self;
        ((v1, v2, v3, v4, v5, v6, v7, v8, v9, v10, v11, v12), v13).into_request()
    }
}

impl<
    E,
    T1: IntoRequestParts<E>,
    T2: IntoRequestParts<E>,
    T3: IntoRequestParts<E>,
    T4: IntoRequestParts<E>,
    T5: IntoRequestParts<E>,
    T6: IntoRequestParts<E>,
    T7: IntoRequestParts<E>,
    T8: IntoRequestParts<E>,
    T9: IntoRequestParts<E>,
    T10: IntoRequestParts<E>,
    T11: IntoRequestParts<E>,
    T12: IntoRequestParts<E>,
    T13: IntoRequestParts<E>,
> IntoRequestParts<E> for (T1, T2, T3, T4, T5, T6, T7, T8, T9, T10, T11, T12, T13) {
    /// As the pair of the first value and all the others.
    open spec fn amends(self, parts: RequestParts, out: Result<RequestParts, Error<E>>) -> bool {
        (self.0, (self.1, self.2, self.3, self.4, self.5, self.6, self.7, self.8, self.9, self.10, self.11, self.12)).amends(parts, out)
    }

    fn into_request_parts(self, parts: RequestParts) -> (out: Result<RequestParts, Error<E>>) {
        let (v1, v2, v3, v4, v5, v6, v7, v8, v9, v10, v11, v12, v13) = self;
        (v1, (v2, v3, v4, v5, v6, v7, v8, v9, v10, v11, v12, v13)).into_request_parts(parts)
    }
}

impl<
    E,
    T1: FromResponseParts<E>,
    T2: FromResponseParts<E>,
    T3: FromResponseParts<E>,
    T4: FromResponseParts<E>,
    T5: FromResponseParts<E>,
    T6: FromResponseParts<E>,
    T7: FromResponseParts<E>,
    T8: FromResponseParts<E>,
    T9: FromResponseParts<E>,
    T10: FromResponseParts<E>,
    T11: FromResponseParts<E>,
    T12: FromResponseParts<E>,
    T13: FromResponse<E>,
> FromResponse<E> for (T1, T2, T3, T4, T5, T6, T7, T8, T9, T10, T11, T12, T13) {
    /// As the pair of the first value and all the others.
    open spec fn decodes(response: Response<E>, out: Result<Self, Error<E>>) -> bool {
        <(T1, (T2, T3, T4, T5, T6, T7, T8, T9, T10, T11, T12, T13))>::decodes(
            response,
            match out {
                Ok(all) => Ok((all.0, (all.1, all.2, all.3, all.4, all.5, all.6, all.7, all.8, all.9, all.10, all.11, all.12))),
                Err(error) => Err(error),
            },
        )
    }

    fn from_response(response: Response<E>) -> (out: Result<Self, Error<E>>) {
        match <(T1, (T2, T3, T4, T5, T6, T7, T8, T9, T10, T11, T12, T13))>::from_response(response) {
            Ok((v1, (v2, v3, v4, v5, v6, v7, v8, v9, v10, v11, v12, v13))) => Ok((v1, v2, v3, v4, v5, v6, v7, v8, v9, v10, v11, v12, v13)),
            Err(error) => Err(error),
        }
    }
}

impl<
    E,
    T1: FromResponseParts<E>,
    T2: FromResponseParts<E>,
    T3: FromResponseParts<E>,
    T4: FromResponseParts<E>,
    T5: FromResponseParts<E>,
    T6: FromResponseParts<E>,
    T7: FromResponseParts<E>,
    T8: FromResponseParts<E>,
    T9: FromResponseParts<E>,
    T10: FromResponseParts<E>,
    T11: FromResponseParts<E>,
    T12: FromResponseParts<E>,
    T13: FromResponseParts<E>,
> FromResponseParts<E> for (T1, T2, T3, T4, T5, T6, T7, T8, T9, T10, T11, T12, T13) {
    /// As the pair of the first value and all the others.
    open spec fn extracts(
        before: ResponseParts,
        after: ResponseParts,
        out: Result<Self, Error<E>>,
    ) -> bool {
        <(T1, (T2, T3, T4, T5, T6, T7, T8, T9, T10, T11, T12, T13))>::extracts(
            before,
            after,
            match out {
                Ok(all) => Ok((all.0, (all.1, all.2, all.3, all.4, all.5, all.6, all.7, all.8, all.9, all.10, all.11, all.12))),
                Err(error) => Err(error),
            },
        )
    }

    fn from_response_parts(parts: &mut ResponseParts) -> (out: Result<Self, Error<E>>) {
        match <(T1, (T2, T3, T4, T5, T6, T7, T8, T9, T10, T11, T12, T13))>::from_response_parts(parts) {
            Ok((v1, (v2, v3, v4, v5, v6, v7, v8, v9, v10, v11, v12, v13))) => Ok((v1, v2, v3, v4, v5, v6, v7, v8, v9, v10, v11, v12, v13)),
            Err(error) => Err(error),
        }
    }
}

impl<
    E,
    T1: IntoRequestParts<E>,
    T2: IntoRequestParts<E>,
    T3: IntoRequestParts<E>,
    T4: IntoRequestParts<E>,
    T5: IntoRequestParts<E>,
    T6: IntoRequestParts<E>,
    T7: IntoRequestParts<E>,
    T8: IntoRequestParts<E>,
    T9: IntoRequestParts<E>,
    T10: IntoRequestParts<E>,
    T11: IntoRequestParts<E>,
    T12: IntoRequestParts<E>,
    T13: IntoRequestParts<E>,
    T14: IntoRequest<E>,
> IntoRequest<E> for (T1, T2, T3, T4, T5, T6, T7, T8, T9, T10, T11, T12, T13, T14) {
    /// As the pair of all the values but the last, and the last.
    open spec fn builds(self, out: Result<Request<E>, Error<E>>) -> bool {
        ((self.0, self.1, self.2, self.3, self.4, self.5, self.6, self.7, self.8, self.9, self.10, self.11, self.12), self.13).builds(out)
    }

    fn into_request(self) -> (out: Result<Request<E>, Error<E>>) {
        let (v1, v2, v3, v4, v5, v6, v7, v8, v9, v10, v11, v12, v13, v14) = self;
        ((v1, v2, v3, v4, v5, v6, v7, v8, v9, v10, v11, v12, v13), v14).into_request()
    }
}

impl<
    E,
    T1: IntoRequestParts<E>,
    T2: IntoRequestParts<E>,
    T3: IntoRequestParts<E>,
    T4: IntoRequestParts<E>,
    T5: IntoRequestParts<E>,
    T6: IntoRequestParts<E>,
    T7: IntoRequestParts<E>,
    T8: IntoRequestParts<E>,
    T9: IntoRequestParts<E>,
    T10: IntoRequestParts<E>,
    T11: IntoRequestParts<E>,
    T12: IntoRequestParts<E>,
    T13: IntoRequestParts<E>,
    T14: IntoRequestParts<E>,
> IntoRequestParts<E> for (T1, T2, T3, T4, T5, T6, T7, T8, T9, T10, T11, T12, T13, T14) {
    /// As the pair of the first value and all the others.
    open spec fn amends(self, parts: RequestParts, out: Result<RequestParts, Error<E>>) -> bool {
        (self.0, (self.1, self.2, self.3, self.4, self.5, self.6, self.7, self.8, self.9, self.10, self.11, self.12, self.13)).amends(parts, out)
    }

    fn into_request_parts(self, parts: RequestParts) -> (out: Result<RequestParts, Error<E>>) {
        let (v1, v2, v3, v4, v5, v6, v7, v8, v9, v10, v11, v12, v13, v14) = self;
        (v1, (v2, v3, v4, v5, v6, v7, v8, v9, v10, v11, v12, v13, v14)).into_request_parts(parts)
    }
}

impl<
    E,
    T1: FromResponseParts<E>,
    T2: FromResponseParts<E>,
    T3: FromResponseParts<E>,
    T4: FromResponseParts<E>,
    T5: FromResponseParts<E>,
    T6: FromResponseParts<E>,
    T7: FromResponseParts<E>,
    T8: FromResponseParts<E>,
    T9: FromResponseParts<E>,
    T10: FromResponseParts<E>,
    T11: FromResponseParts<E>,
    T12: FromResponseParts<E>,
    T13: FromResponseParts<E>,
    T14: FromResponse<E>,
> FromResponse<E> for (T1, T2, T3, T4, T5, T6, T7, T8, T9, T10, T11, T12, T13, T14) {
    /// As the pair of the first value and all the others.
    open spec fn decodes(response: Response<E>, out: Result<Self, Error<E>>) -> bool {
        <(T1, (T2, T3, T4, T5, T6, T7, T8, T9, T10, T11, T12, T13, T14))>::decodes(
            response,
            match out {
                Ok(all) => Ok((all.0, (all.1, all.2, all.3, all.4, all.5, all.6, all.7, all.8, all.9, all.10, all.11, all.12, all.13))),
                Err(error) => Err(error),
            },
        )
    }

    fn from_response(response: Response<E>) -> (out: Result<Self, Error<E>>) {
        match <(T1, (T2, T3, T4, T5, T6, T7, T8, T9, T10, T11, T12, T13, T14))>::from_response(response) {
            Ok((v1, (v2, v3, v4, v5, v6, v7, v8, v9, v10, v11, v12, v13, v14))) => Ok((v1, v2, v3, v4, v5, v6, v7, v8, v9, v10, v11, v12, v13, v14)),
            Err(error) => Err(error),
        }
    }
}

impl<
    E,
    T1: FromResponseParts<E>,
    T2: FromResponseParts<E>,
    T3: FromResponseParts<E>,
    T4: FromResponseParts<E>,
    T5: FromResponseParts<E>,
    T6: FromResponseParts<E>,
    T7: FromResponseParts<E>,
    T8: FromResponseParts<E>,
    T9: FromResponseParts<E>,
    T10: FromResponseParts<E>,
    T11: FromResponseParts<E>,
    T12: FromResponseParts<E>,
    T13: FromResponseParts<E>,
    T14: FromResponseParts<E>,
> FromResponseParts<E> for (T1, T2, T3, T4, T5, T6, T7, T8, T9, T10, T11, T12, T13, T14) {
    /// As the pair of the first value and all the others.
    open spec fn extracts(
        before: ResponseParts,
        after: ResponseParts,
        out: Result<Self, Error<E>>,
    ) -> bool {
        <(T1, (T2, T3, T4, T5, T6, T7, T8, T9, T10, T11, T12, T13, T14))>::extracts(
            before,
            after,
            match out {
                Ok(all) => Ok((all.0, (all.1, all.2, all.3, all.4, all.5, all.6, all.7, all.8, all.9, all.10, all.11, all.12, all.13))),
                Err(error) => Err(error),
            },
        )
    }

    fn from_response_parts(parts: &mut ResponseParts) -> (out: Result<Self, Error<E>>) {
        match <(T1, (T2, T3, T4, T5, T6, T7, T8, T9, T10, T11, T12, T13, T14))>::from_response_parts(parts) {
            Ok((v1, (v2, v3, v4, v5, v6, v7, v8, v9, v10, v11, v12, v13, v14))) => Ok((v1, v2, v3, v4, v5, v6, v7, v8, v9, v10, v11, v12, v13, v14)),
            Err(error) => Err(error),
        }
    }
}

impl<
    E,
    T1: IntoRequestParts<E>,
    T2: IntoRequestParts<E>,
    T3: IntoRequestParts<E>,
    T4: IntoRequestParts<E>,
    T5: IntoRequestParts<E>,
    T6: IntoRequestParts<E>,
    T7: IntoRequestParts<E>,
    T8: IntoRequestParts<E>,
    T9: IntoRequestParts<E>,
    T10: IntoRequestParts<E>,
    T11: IntoRequestParts<E>,
    T12: IntoRequestParts<E>,
    T13: IntoRequestParts<E>,
    T14: IntoRequestParts<E>,
    T15: IntoRequest<E>,
> IntoRequest<E> for (T1, T2, T3, T4, T5, T6, T7, T8, T9, T10, T11, T12, T13, T14, T15) {
    /// As the pair of all the values but the last, and the last.
    open spec fn builds(self, out: Result<Request<E>, Error<E>>) -> bool {
        ((self.0, self.1, self.2, self.3, self.4, self.5, self.6, self.7, self.8, self.9, self.10, self.11, self.12, self.13), self.14).builds(out)
    }

    fn into_request(self) -> (out: Result<Request<E>, Error<E>>) {
        let (v1, v2, v3, v4, v5, v6, v7, v8, v9, v10, v11, v12, v13, v14, v15) = self;
        ((v1, v2, v3, v4, v5, v6, v7, v8, v9, v10, v11, v12, v13, v14), v15).into_request()
    }
}

impl<
    E,
    T1: IntoRequestParts<E>,
    T2: IntoRequestParts<E>,
    T3: IntoRequestParts<E>,
    T4: IntoRequestParts<E>,
    T5: IntoRequestParts<E>,
    T6: IntoRequestParts<E>,
    T7: IntoRequestParts<E>,
    T8: IntoRequestParts<E>,
    T9: IntoRequestParts<E>,
    T10: IntoRequestParts<E>,
    T11: IntoRequestParts<E>,
    T12: IntoRequestParts<E>,
    T13: IntoRequestParts<E>,
    T14: IntoRequestParts<E>,
    T15: IntoRequestParts<E>,
> IntoRequestParts<E> for (T1, T2, T3, T4, T5, T6, T7, T8, T9, T10, T11, T12, T13, T14, T15) {
    /// As the pair of the first value and all the others.
    open spec fn amends(self, parts: RequestParts, out: Result<RequestParts, Error<E>>) -> bool {
        (self.0, (self.1, self.2, self.3, self.4, self.5, self.6, self.7, self.8, self.9, self.10, self.11, self.12, self.13, self.14)).amends(parts, out)
    }

    fn into_request_parts(self, parts: RequestParts) -> (out: Result<RequestParts, Error<E>>) {
        let (v1, v2, v3, v4, v5, v6, v7, v8, v9, v10, v11, v12, v13, v14, v15) = self;
        (v1, (v2, v3, v4, v5, v6, v7, v8, v9, v10, v11, v12, v13, v14, v15)).into_request_parts(parts)
    }
}

impl<
    E,
    T1: FromResponseParts<E>,
    T2: FromResponseParts<E>,
    T3: FromResponseParts<E>,
    T4: FromResponseParts<E>,
    T5: FromResponseParts<E>,
    T6: FromResponseParts<E>,
    T7: FromResponseParts<E>,
    T8: FromResponseParts<E>,
    T9: FromResponseParts<E>,
    T10: FromResponseParts<E>,
    T11: FromResponseParts<E>,
    T12: FromResponseParts<E>,
    T13: FromResponseParts<E>,
    T14: FromResponseParts<E>,
    T15: FromResponse<E>,
> FromResponse<E> for (T1, T2, T3, T4, T5, T6, T7, T8, T9, T10, T11, T12, T13, T14, T15) {
    /// As the pair of the first value and all the others.
    open spec fn decodes(response: Response<E>, out: Result<Self, Error<E>>) -> bool {
        <(T1, (T2, T3, T4, T5, T6, T7, T8, T9, T10, T11, T12, T13, T14, T15))>::decodes(
            response,
            match out {
                Ok(all) => Ok((all.0, (all.1, all.2, all.3, all.4, all.5, all.6, all.7, all.8, all.9, all.10, all.11, all.12, all.13, all.14))),
                Err(error) => Err(error),
            },
        )
    }

    fn from_response(response: Response<E>) -> (out: Result<Self, Error<E>>) {
        match <(T1, (T2, T3, T4, T5, T6, T7, T8, T9, T10, T11, T12, T13, T14, T15))>::from_response(response) {
            Ok((v1, (v2, v3, v4, v5, v6, v7, v8, v9, v10, v11, v12, v13, v14, v15))) => Ok((v1, v2, v3, v4, v5, v6, v7, v8, v9, v10, v11, v12, v13, v14, v15)),
            Err(error) => Err(error),
        }
    }
}

impl<
    E,
    T1: FromResponseParts<E>,
    T2: FromResponseParts<E>,
    T3: FromResponseParts<E>,
    T4: FromResponseParts<E>,
    T5: FromResponseParts<E>,
    T6: FromResponseParts<E>,
    T7: FromResponseParts<E>,
    T8: FromResponseParts<E>,
    T9: FromResponseParts<E>,
    T10: FromResponseParts<E>,
    T11: FromResponseParts<E>,
    T12: FromResponseParts<E>,
    T13: FromResponseParts<E>,
    T14: FromResponseParts<E>,
    T15: FromResponseParts<E>,
> FromResponseParts<E> for (T1, T2, T3, T4, T5, T6, T7, T8, T9, T10, T11, T12, T13, T14, T15) {
    /// As the pair of the first value and all the others.
    open spec fn extracts(
        before: ResponseParts,
        after: ResponseParts,
        out: Result<Self, Error<E>>,
    ) -> bool {
        <(T1, (T2, T3, T4, T5, T6, T7, T8, T9, T10, T11, T12, T13, T14, T15))>::extracts(
            before,
            after,
            match out {
                Ok(all) => Ok((all.0, (all.1, all.2, all.3, all.4, all.5, all.6, all.7, all.8, all.9, all.10, all.11, all.12, all.13, all.14))),
                Err(error) => Err(error),
            },
        )
    }

    fn from_response_parts(parts: &mut ResponseParts) -> (out: Result<Self, Error<E>>) {
        match <(T1, (T2, T3, T4, T5, T6, T7, T8, T9, T10, T11, T12, T13, T14, T15))>::from_response_parts(parts) {
            Ok((v1, (v2, v3, v4, v5, v6, v7, v8, v9, v10, v11, v12, v13, v14, v15))) => Ok((v1, v2, v3, v4, v5, v6, v7, v8, v9, v10, v11, v12, v13, v14, v15)),
            Err(error) => Err(error),
        }
    }
}

impl<
    E,
    T1: IntoRequestParts<E>,
    T2: IntoRequestParts<E>,
    T3: IntoRequestParts<E>,
    T4: IntoRequestParts<E>,
    T5: IntoRequestParts<E>,
    T6: IntoRequestParts<E>,
    T7: IntoRequestParts<E>,
    T8: IntoRequestParts<E>,
    T9: IntoRequestParts<E>,
    T10: IntoRequestParts<E>,
    T11: IntoRequestParts<E>,
    T12: IntoRequestParts<E>,
    T13: IntoRequestParts<E>,
    T14: IntoRequestParts<E>,
    T15: IntoRequestParts<E>,
    T16: IntoRequest<E>,
> IntoRequest<E> for (T1, T2, T3, T4, T5, T6, T7, T8, T9, T10, T11, T12, T13, T14, T15, T16) {
    /// As the pair of all the values but the last, and the last.
    open spec fn builds(self, out: Result<Request<E>, Error<E>>) -> bool {
        ((self.0, self.1, self.2, self.3, self.4, self.5, self.6, self.7, self.8, self.9, self.10, self.11, self.12, self.13, self.14), self.15).builds(out)
    }

    fn into_request(self) -> (out: Result<Request<E>, Error<E>>) {
        let (v1, v2, v3, v4, v5, v6, v7, v8, v9, v10, v11, v12, v13, v14, v15, v16) = self;
        ((v1, v2, v3, v4, v5, v6, v7, v8, v9, v10, v11, v12, v13, v14, v15), v16).into_request()
    }
}

impl<
    E,
    T1: IntoRequestParts<E>,
    T2: IntoRequestParts<E>,
    T3: IntoRequestParts<E>,
    T4: IntoRequestParts<E>,
    T5: IntoRequestParts<E>,
    T6: IntoRequestParts<E>,
    T7: IntoRequestParts<E>,
    T8: IntoRequestParts<E>,
    T9: IntoRequestParts<E>,
    T10: IntoRequestParts<E>,
    T11: IntoRequestParts<E>,
    T12: IntoRequestParts<E>,
    T13: IntoRequestParts<E>,
    T14: IntoRequestParts<E>,
    T15: IntoRequestParts<E>,
    T16: IntoRequestParts<E>,
> IntoRequestParts<E> for (T1, T2, T3, T4, T5, T6, T7, T8, T9, T10, T11, T12, T13, T14, T15, T16) {
    /// As the pair of the first value and all the others.
    open spec fn amends(self, parts: RequestParts, out: Result<RequestParts, Error<E>>) -> bool {
        (self.0, (self.1, self.2, self.3, self.4, self.5, self.6, self.7, self.8, self.9, self.10, self.11, self.12, self.13, self.14, self.15)).amends(parts, out)
    }

    fn into_request_parts(self, parts: RequestParts) -> (out: Result<RequestParts, Error<E>>) {
        let (v1, v2, v3, v4, v5, v6, v7, v8, v9, v10, v11, v12, v13, v14, v15, v16) = self;
        (v1, (v2, v3, v4, v5, v6, v7, v8, v9, v10, v11, v12, v13, v14, v15, v16)).into_request_parts(parts)
    }
}

impl<
    E,
    T1: FromResponseParts<E>,
    T2: FromResponseParts<E>,
    T3: FromResponseParts<E>,
    T4: FromResponseParts<E>,
    T5: FromResponseParts<E>,
    T6: FromResponseParts<E>,
    T7: FromResponseParts<E>,
    T8: FromResponseParts<E>,
    T9: FromResponseParts<E>,
    T10: FromResponseParts<E>,
    T11: FromResponseParts<E>,
    T12: FromResponseParts<E>,
    T13: FromResponseParts<E>,
    T14: FromResponseParts<E>,
    T15: FromResponseParts<E>,
    T16: FromResponse<E>,
> FromResponse<E> for (T1, T2, T3, T4, T5, T6, T7, T8, T9, T10, T11, T12, T13, T14, T15, T16) {
    /// As the pair of the first value and all the others.
    open spec fn decodes(response: Response<E>, out: Result<Self, Error<E>>) -> bool {
        <(T1, (T2, T3, T4, T5, T6, T7, T8, T9, T10, T11, T12, T13, T14, T15, T16))>::decodes(
            response,
            match out {
                Ok(all) => Ok((all.0, (all.1, all.2, all.3, all.4, all.5, all.6, all.7, all.8, all.9, all.10, all.11, all.12, all.13, all.14, all.15))),
                Err(error) => Err(error),
            },
        )
    }

    fn from_response(response: Response<E>) -> (out: Result<Self, Error<E>>) {
        match <(T1, (T2, T3, T4, T5, T6, T7, T8, T9, T10, T11, T12, T13, T14, T15, T16))>::from_response(response) {
            Ok((v1, (v2, v3, v4, v5, v6, v7, v8, v9, v10, v11, v12, v13, v14, v15, v16))) => Ok((v1, v2, v3, v4, v5, v6, v7, v8, v9, v10, v11, v12, v13, v14, v15, v16)),
            Err(error) => Err(error),
        }
    }
}

impl<
    E,
    T1: FromResponseParts<E>,
    T2: FromResponseParts<E>,
    T3: FromResponseParts<E>,
    T4: FromResponseParts<E>,
    T5: FromResponseParts<E>,
    T6: FromResponseParts<E>,
    T7: FromResponseParts<E>,
    T8: FromResponseParts<E>,
    T9: FromResponseParts<E>,
    T10: FromResponseParts<E>,
    T11: FromResponseParts<E>,
    T12: FromResponseParts<E>,
    T13: FromResponseParts<E>,
    T14: FromResponseParts<E>,
    T15: FromResponseParts<E>,
    T16: FromResponseParts<E>,
> FromResponseParts<E> for (T1, T2, T3, T4, T5, T6, T7, T8, T9, T10, T11, T12, T13, T14, T15, T16) {
    /// As the pair of the first value and all the others.
    open spec fn extracts(
        before: ResponseParts,
        after: ResponseParts,
        out: Result<Self, Error<E>>,
    ) -> bool {
        <(T1, (T2, T3, T4, T5, T6, T7, T8, T9, T10, T11, T12, T13, T14, T15, T16))>::extracts(
            before,
            after,
            match out {
                Ok(all) => Ok((all.0, (all.1, all.2, all.3, all.4, all.5, all.6, all.7, all.8, all.9, all.10, all.11, all.12, all.13, all.14, all.15))),
                Err(error) => Err(error),
            },
        )
    }

    fn from_response_parts(parts: &mut ResponseParts) -> (out: Result<Self, Error<E>>) {
        match <(T1, (T2, T3, T4, T5, T6, T7, T8, T9, T10, T11, T12, T13, T14, T15, T16))>::from_response_parts(parts) {
            Ok((v1, (v2, v3, v4, v5, v6, v7, v8, v9, v10, v11, v12, v13, v14, v15, v16))) => Ok((v1, v2, v3, v4, v5, v6, v7, v8, v9, v10, v11, v12, v13, v14, v15, v16)),
            Err(error) => Err(error),
        }
    }
}


} // verus!
