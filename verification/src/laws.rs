//! What holds of the conversions, whatever the values.
//!
//! Each statement here is about the predicates that the conversions are held
//! to, and so about every outcome that they can have.
use crate::body::{proceeds, yields, Body, Progress};
use crate::buffer::octets;
use crate::client::settles;
use crate::convert::json::Json;
use crate::convert::typed_header::TypedHeader;
use crate::convert::{FromResponse, FromResponseParts, IntoRequest, IntoRequestParts};
use crate::error::Error;
use crate::header::{replaced, Header};
use crate::json::{json_accepted, FromJson, ToJson};
use crate::message::{header_set, Request, RequestParts, Response, ResponseParts};
use crate::method::Method;
use crate::status::{is_success_code, StatusCode};
use crate::uri::Uri;
use bytes::Bytes;
use serde_json::Error as JsonError;
use vstd::prelude::*;

verus! {

/// Sending the empty value hands the transport a blank request whose body
/// has no byte, and any response that reports success settles the sending
/// with the empty value.
pub proof fn lemma_unit_exchange<E>(
    built: Result<Request<E>, Error<E>>,
    response: Response<E>,
    out: Result<(), Error<E>>,
)
    requires
        ().builds(built),
        is_success_code(response.parts.status@),
        settles(Ok(response), out),
    ensures
        built is Ok,
        built->Ok_0.parts.is_blank(),
        built->Ok_0.body.chunks().len() == 0,
        built->Ok_0.body.payload().len() == 0,
        built->Ok_0.body.failure() is None,
        out == Ok::<(), Error<E>>(()),
{
    assert(built->Ok_0.body.chunks() =~= Seq::<Seq<u8>>::empty());
}

/// A buffer of bytes that is made into a request, and read back from a
/// response with the body of that request, comes back with the same bytes.
pub proof fn lemma_bytes_round_trip<E>(
    data: Bytes,
    built: Result<Request<E>, Error<E>>,
    response: Response<E>,
    out: Result<Bytes, Error<E>>,
)
    requires
        data.builds(built),
        response.body == built->Ok_0.body,
        <Bytes as FromResponse<E>>::decodes(response, out),
    ensures
        built is Ok,
        out is Ok,
        octets(out->Ok_0) == octets(data),
{
}

/// A chunk that a body yields and a reading takes moves from the one to the
/// other: the chunks read and the chunks still to come are together what
/// they were, and the body ends as it did. The reading cannot go on only
/// where the bytes read no longer fit into one buffer.
pub proof fn lemma_chunk_passes<E>(
    body: Body<E>,
    yielded: Option<Result<Bytes, E>>,
    rest: Body<E>,
    read: Seq<Seq<u8>>,
    out: Option<Progress<E>>,
)
    requires
        body.chunks().len() > 0,
        yields(body, yielded, rest),
        proceeds(read, yielded, out),
    ensures
        out is None <==> read.flatten().len() + body.chunks().first().len() > usize::MAX,
        out is Some ==> {
            &&& out->Some_0 is More
            &&& out->Some_0->More_0.chunks() + rest.chunks() == read + body.chunks()
            &&& rest.failure() == body.failure()
        },
{
    if out is Some {
        let first = body.chunks().first();
        assert(read.push(first) + body.chunks().drop_first() =~= read + body.chunks());
    }
}

/// What a body yields once its chunks are through completes the reading:
/// the body that was read has the chunks read until then, and ends as the
/// body that was yielding did.
pub proof fn lemma_end_passes<E>(
    body: Body<E>,
    yielded: Option<Result<Bytes, E>>,
    rest: Body<E>,
    read: Seq<Seq<u8>>,
    out: Option<Progress<E>>,
)
    requires
        body.chunks().len() == 0,
        yields(body, yielded, rest),
        proceeds(read, yielded, out),
    ensures
        out is Some,
        out->Some_0 is Done,
        out->Some_0->Done_0.chunks() == read + body.chunks(),
        out->Some_0->Done_0.failure() == body.failure(),
        rest.chunks().len() == 0,
        rest.failure() is None,
{
    assert(read + body.chunks() =~= read);
}

/// Whether what is written for `value` always reads back as `value`.
pub open spec fn reads_back<T: ToJson + FromJson>(value: T) -> bool {
    forall|written: Result<Vec<u8>, JsonError>| #[trigger]
        value.writes(written) ==> {
            &&& written is Ok
            &&& forall|read: Result<T, JsonError>| #[trigger]
                T::reads(written->Ok_0@, read) ==> read == Ok::<T, JsonError>(value)
        }
}

/// A value that is sent as JSON, and read back from a response with the body
/// of that request, comes back as it was, provided that what is written for
/// the value reads back as the value.
pub proof fn lemma_json_round_trip<E, T: ToJson + FromJson>(
    value: T,
    built: Result<Request<E>, Error<E>>,
    response: Response<E>,
    out: Result<Json<T>, Error<E>>,
)
    requires
        reads_back(value),
        Json(value).builds(built),
        response.body == built->Ok_0.body,
        <Json<T> as FromResponse<E>>::decodes(response, out),
    ensures
        built is Ok,
        out == Ok::<Json<T>, Error<E>>(Json(value)),
{
}

/// A value that cannot be written as JSON ends the conversion with a JSON
/// error, and nothing else does.
pub proof fn lemma_json_unwritten<E, T: ToJson>(value: T, out: Result<Request<E>, Error<E>>)
    requires
        Json(value).builds(out),
        out is Err,
    ensures
        out->Err_0 is Json,
        value.writes(Err(out->Err_0->Json_0)),
{
}

/// A whole body that does not read as a value ends in a JSON error, not in
/// a failure of the service.
pub proof fn lemma_json_unread<E, T: FromJson>(response: Response<E>, out: Result<Json<T>, Error<E>>)
    requires
        response.body.failure() is None,
        forall|read: Result<T, JsonError>| #[trigger]
            T::reads(response.body.payload(), read) ==> read is Err,
        <Json<T> as FromResponse<E>>::decodes(response, out),
    ensures
        out is Err,
        out->Err_0 is Json,
{
}

/// Bytes that `serde_json` does not take for a JSON value are never read as
/// one: a whole body of such bytes ends in a JSON error.
pub proof fn lemma_malformed_json<E>(
    response: Response<E>,
    out: Result<Json<serde_json::Value>, Error<E>>,
)
    requires
        response.body.failure() is None,
        !json_accepted(response.body.payload()),
        <Json<serde_json::Value> as FromResponse<E>>::decodes(response, out),
    ensures
        out is Err,
        out->Err_0 is Json,
{
}

/// A response that does not report success never settles a sending with a
/// value, whatever was asked for. The error holds the status and all the
/// bytes of the body, unless the body broke off.
pub proof fn lemma_refused<E, U: FromResponse<E>>(response: Response<E>, out: Result<U, Error<E>>)
    requires
        !is_success_code(response.parts.status@),
        settles(Ok(response), out),
    ensures
        out is Err,
        response.body.failure() is None ==> {
            &&& out->Err_0 is Http
            &&& out->Err_0->status == response.parts.status
            &&& octets(out->Err_0->body) == response.body.payload()
        },
        response.body.failure() is Some ==> out->Err_0 == Error::<E>::Service(
            response.body.failure()->Some_0,
        ),
{
}

/// In a pair, the body of the request is the one that the second value
/// gave: the first value has no hand in it.
pub proof fn lemma_part_leaves_the_body<E, T: IntoRequestParts<E>, U: IntoRequest<E>>(
    part: T,
    body: U,
    request: Request<E>,
)
    requires
        (part, body).builds(Ok(request)),
    ensures
        exists|base: Request<E>|
            {
                &&& #[trigger] body.builds(Ok(base))
                &&& part.amends(base.parts, Ok(request.parts))
                &&& request.body == base.body
            },
{
}

/// In a pair, the second value is read from the very body of the response:
/// reading the first value has no hand in it.
pub proof fn lemma_part_is_read_beside_the_body<E, T: FromResponseParts<E>, U: FromResponse<E>>(
    response: Response<E>,
    first: T,
    second: U,
)
    requires
        <(T, U) as FromResponse<E>>::decodes(response, Ok((first, second))),
    ensures
        exists|after: ResponseParts|
            {
                &&& #[trigger] T::extracts(response.parts, after, Ok(first))
                &&& U::decodes(Response { parts: after, body: response.body }, Ok(second))
            },
{
}

/// The status and a header are read to the same values in either order, and
/// reading them leaves the parts as they were.
pub proof fn lemma_status_and_header_in_any_order<E, T: Header>(
    before: ResponseParts,
    after: ResponseParts,
    status: StatusCode,
    header: Option<TypedHeader<T>>,
)
    ensures
        <(StatusCode, Option<TypedHeader<T>>) as FromResponseParts<E>>::extracts(
            before,
            after,
            Ok((status, header)),
        ) <==> <(Option<TypedHeader<T>>, StatusCode) as FromResponseParts<E>>::extracts(
            before,
            after,
            Ok((header, status)),
        ),
        <(StatusCode, Option<TypedHeader<T>>) as FromResponseParts<E>>::extracts(
            before,
            after,
            Ok((status, header)),
        ) ==> after == before && status == before.status,
{
    let forth = <(StatusCode, Option<TypedHeader<T>>) as FromResponseParts<E>>::extracts(
        before,
        after,
        Ok((status, header)),
    );
    let back = <(Option<TypedHeader<T>>, StatusCode) as FromResponseParts<E>>::extracts(
        before,
        after,
        Ok((header, status)),
    );
    if forth {
        let between = choose|between: ResponseParts|
            {
                &&& #[trigger] <StatusCode as FromResponseParts<E>>::extracts(
                    before,
                    between,
                    Ok(status),
                )
                &&& <Option<TypedHeader<T>> as FromResponseParts<E>>::extracts(
                    between,
                    after,
                    Ok(header),
                )
            };
        let swapped: Result<(Option<TypedHeader<T>>, StatusCode), Error<E>> = Ok(
            (header, status),
        );
        assert(<Option<TypedHeader<T>> as FromResponseParts<E>>::extracts(
            before,
            before,
            Ok(swapped->Ok_0.0),
        ));
        assert(<StatusCode as FromResponseParts<E>>::extracts(
            before,
            after,
            Ok(swapped->Ok_0.1),
        ));
    }
    if back {
        let between = choose|between: ResponseParts|
            {
                &&& #[trigger] <Option<TypedHeader<T>> as FromResponseParts<E>>::extracts(
                    before,
                    between,
                    Ok(header),
                )
                &&& <StatusCode as FromResponseParts<E>>::extracts(between, after, Ok(status))
            };
        let swapped: Result<(StatusCode, Option<TypedHeader<T>>), Error<E>> = Ok(
            (status, header),
        );
        assert(<StatusCode as FromResponseParts<E>>::extracts(
            before,
            before,
            Ok(swapped->Ok_0.0),
        ));
        assert(<Option<TypedHeader<T>> as FromResponseParts<E>>::extracts(
            before,
            after,
            Ok(swapped->Ok_0.1),
        ));
    }
}

/// Whether `request` is `base` with the method, the target and one header
/// set as given: nothing else differs, and the body is the same.
pub open spec fn dressed<E>(
    base: Request<E>,
    method: Method,
    uri: Uri,
    name: Seq<u8>,
    values: Seq<Seq<u8>>,
    request: Request<E>,
) -> bool {
    &&& request.parts.method == method
    &&& request.parts.uri == uri
    &&& request.parts.version == base.parts.version
    &&& request.parts.extensions == base.parts.extensions
    &&& request.parts.headers@ == replaced(base.parts.headers@, name, values)
    &&& request.body == base.body
}

/// Whether `out` is what a method, a target, a header and a value for the
/// body come to together: the request that the last of them builds, with
/// the method, the target and the header set; or the error with which the
/// last of them fails.
pub open spec fn composed<E, T: Header, R: IntoRequest<E>>(
    method: Method,
    uri: Uri,
    header: TypedHeader<T>,
    body: R,
    out: Result<Request<E>, Error<E>>,
) -> bool {
    match out {
        Ok(request) => exists|base: Request<E>, name: Seq<u8>, values: Seq<Seq<u8>>|
            {
                &&& #[trigger] dressed(base, method, uri, name, values, request)
                &&& body.builds(Ok(base))
                &&& T::names(name)
                &&& header.0.encodes(values)
            },
        Err(error) => body.builds(Err(error)),
    }
}

/// Whether `request` comes from `base`, the request that `body` builds, by
/// writing the three parts into it one after the other, with `one` and
/// `two` as the parts in between.
pub open spec fn in_three_steps<
    E,
    A: IntoRequestParts<E>,
    B: IntoRequestParts<E>,
    C: IntoRequestParts<E>,
    R: IntoRequest<E>,
>(
    first: A,
    second: B,
    third: C,
    body: R,
    base: Request<E>,
    one: RequestParts,
    two: RequestParts,
    request: Request<E>,
) -> bool {
    &&& body.builds(Ok(base))
    &&& first.amends(base.parts, Ok(one))
    &&& second.amends(one, Ok(two))
    &&& third.amends(two, Ok(request.parts))
    &&& request.body == base.body
}

/// Three parts that never fail, before a value for the body: a request
/// comes about in three steps from the one that the value builds, and an
/// error is an error of that value.
pub proof fn lemma_three_parts<
    E,
    A: IntoRequestParts<E>,
    B: IntoRequestParts<E>,
    C: IntoRequestParts<E>,
    R: IntoRequest<E>,
>(first: A, second: B, third: C, body: R, out: Result<Request<E>, Error<E>>)
    requires
        (first, second, third, body).builds(out),
        forall|parts: RequestParts, error: Error<E>| !first.amends(parts, Err(error)),
        forall|parts: RequestParts, error: Error<E>| !second.amends(parts, Err(error)),
        forall|parts: RequestParts, error: Error<E>| !third.amends(parts, Err(error)),
    ensures
        match out {
            Ok(request) => exists|base: Request<E>, one: RequestParts, two: RequestParts|
                in_three_steps(first, second, third, body, base, one, two, request),
            Err(error) => body.builds(Err(error)),
        },
{
    let parts = (first, second, third);
    assert((parts, body).builds(out));
    if out is Err && body.builds(Err(out->Err_0)) {
    } else {
        let base = choose|base: Request<E>|
            {
                &&& #[trigger] body.builds(Ok(base))
                &&& match out {
                    Ok(request) => parts.amends(base.parts, Ok(request.parts)) && request.body
                        == base.body,
                    Err(error) => parts.amends(base.parts, Err(error)),
                }
            };
        let target = match out {
            Ok(request) => Ok(request.parts),
            Err(error) => Err(error),
        };
        assert((first, (second, third)).amends(base.parts, target));
        let one = choose|one: RequestParts|
            #[trigger] first.amends(base.parts, Ok(one)) && (second, third).amends(one, target);
        let two = choose|two: RequestParts|
            #[trigger] second.amends(one, Ok(two)) && third.amends(two, target);
        assert(in_three_steps(first, second, third, body, base, one, two, out->Ok_0));
    }
}

/// A request that comes about in three steps is one that the three parts
/// and the value for the body build together.
pub proof fn lemma_three_steps_build<
    E,
    A: IntoRequestParts<E>,
    B: IntoRequestParts<E>,
    C: IntoRequestParts<E>,
    R: IntoRequest<E>,
>(
    first: A,
    second: B,
    third: C,
    body: R,
    base: Request<E>,
    one: RequestParts,
    two: RequestParts,
    request: Request<E>,
)
    requires
        in_three_steps(first, second, third, body, base, one, two, request),
    ensures
        (first, second, third, body).builds(Ok(request)),
{
    let target: Result<RequestParts, Error<E>> = Ok(request.parts);
    let rest = (second, third);
    assert(rest.0.amends(one, Ok(two)) && rest.1.amends(two, target));
    assert(rest.amends(one, target));
    let parts = (first, rest);
    assert(parts.0.amends(base.parts, Ok(one)) && parts.1.amends(one, target));
    assert(parts.amends(base.parts, target));
    assert((first, second, third).amends(base.parts, target));
    let all = ((first, second, third), body);
    assert(all.1.builds(Ok(base)) && all.0.amends(base.parts, target));
    assert(all.builds(Ok(request)));
}

/// A method, a target and a header come to the same outcomes in whatever
/// order they stand before the value for the body: the request that the
/// value builds with the three of them set, or the error of that value.
pub proof fn lemma_parts_in_any_order<E, T: Header, R: IntoRequest<E>>(
    method: Method,
    uri: Uri,
    header: TypedHeader<T>,
    body: R,
    out: Result<Request<E>, Error<E>>,
)
    ensures
        (method, uri, header, body).builds(out) <==> composed(method, uri, header, body, out),
        (method, header, uri, body).builds(out) <==> composed(method, uri, header, body, out),
        (uri, method, header, body).builds(out) <==> composed(method, uri, header, body, out),
        (uri, header, method, body).builds(out) <==> composed(method, uri, header, body, out),
        (header, method, uri, body).builds(out) <==> composed(method, uri, header, body, out),
        (header, uri, method, body).builds(out) <==> composed(method, uri, header, body, out),
{
    if (method, uri, header, body).builds(out) {
        lemma_three_parts(method, uri, header, body, out);
        if out is Ok {
            let (base, one, two) = choose|base: Request<E>, one: RequestParts, two: RequestParts|
                in_three_steps(method, uri, header, body, base, one, two, out->Ok_0);
            let (name, values) = choose|name: Seq<u8>, values: Seq<Seq<u8>>|
                T::names(name) && header.0.encodes(values) && #[trigger] header_set(
                    two,
                    name,
                    values,
                    out->Ok_0.parts,
                );
            assert(dressed(base, method, uri, name, values, out->Ok_0));
        }
    }
    if (method, header, uri, body).builds(out) {
        lemma_three_parts(method, header, uri, body, out);
        if out is Ok {
            let (base, one, two) = choose|base: Request<E>, one: RequestParts, two: RequestParts|
                in_three_steps(method, header, uri, body, base, one, two, out->Ok_0);
            let (name, values) = choose|name: Seq<u8>, values: Seq<Seq<u8>>|
                T::names(name) && header.0.encodes(values) && #[trigger] header_set(
                    one,
                    name,
                    values,
                    two,
                );
            assert(dressed(base, method, uri, name, values, out->Ok_0));
        }
    }
    if (uri, method, header, body).builds(out) {
        lemma_three_parts(uri, method, header, body, out);
        if out is Ok {
            let (base, one, two) = choose|base: Request<E>, one: RequestParts, two: RequestParts|
                in_three_steps(uri, method, header, body, base, one, two, out->Ok_0);
            let (name, values) = choose|name: Seq<u8>, values: Seq<Seq<u8>>|
                T::names(name) && header.0.encodes(values) && #[trigger] header_set(
                    two,
                    name,
                    values,
                    out->Ok_0.parts,
                );
            assert(dressed(base, method, uri, name, values, out->Ok_0));
        }
    }
    if (uri, header, method, body).builds(out) {
        lemma_three_parts(uri, header, method, body, out);
        if out is Ok {
            let (base, one, two) = choose|base: Request<E>, one: RequestParts, two: RequestParts|
                in_three_steps(uri, header, method, body, base, one, two, out->Ok_0);
            let (name, values) = choose|name: Seq<u8>, values: Seq<Seq<u8>>|
                T::names(name) && header.0.encodes(values) && #[trigger] header_set(
                    one,
                    name,
                    values,
                    two,
                );
            assert(dressed(base, method, uri, name, values, out->Ok_0));
        }
    }
    if (header, method, uri, body).builds(out) {
        lemma_three_parts(header, method, uri, body, out);
        if out is Ok {
            let (base, one, two) = choose|base: Request<E>, one: RequestParts, two: RequestParts|
                in_three_steps(header, method, uri, body, base, one, two, out->Ok_0);
            let (name, values) = choose|name: Seq<u8>, values: Seq<Seq<u8>>|
                T::names(name) && header.0.encodes(values) && #[trigger] header_set(
                    base.parts,
                    name,
                    values,
                    one,
                );
            assert(dressed(base, method, uri, name, values, out->Ok_0));
        }
    }
    if (header, uri, method, body).builds(out) {
        lemma_three_parts(header, uri, method, body, out);
        if out is Ok {
            let (base, one, two) = choose|base: Request<E>, one: RequestParts, two: RequestParts|
                in_three_steps(header, uri, method, body, base, one, two, out->Ok_0);
            let (name, values) = choose|name: Seq<u8>, values: Seq<Seq<u8>>|
                T::names(name) && header.0.encodes(values) && #[trigger] header_set(
                    base.parts,
                    name,
                    values,
                    one,
                );
            assert(dressed(base, method, uri, name, values, out->Ok_0));
        }
    }
    if composed(method, uri, header, body, out) {
        match out {
            Ok(request) => {
                let (base, name, values) = choose|
                    base: Request<E>,
                    name: Seq<u8>,
                    values: Seq<Seq<u8>>,
                |
                    {
                        &&& #[trigger] dressed(base, method, uri, name, values, request)
                        &&& body.builds(Ok(base))
                        &&& T::names(name)
                        &&& header.0.encodes(values)
                    };
                {
                    let one = RequestParts { method, ..base.parts };
                    let two = RequestParts { uri, ..one };
                    let written: Result<RequestParts, Error<E>> = Ok(request.parts);
                    assert(header_set(two, name, values, written->Ok_0));
                    assert(header.amends(two, written));
                    lemma_three_steps_build(method, uri, header, body, base, one, two, request);
                }
                {
                    let one = RequestParts { method, ..base.parts };
                    let two = RequestParts { headers: request.parts.headers, ..one };
                    let written: Result<RequestParts, Error<E>> = Ok(two);
                    assert(header_set(one, name, values, written->Ok_0));
                    assert(header.amends(one, written));
                    assert(request.parts == RequestParts { uri, ..two });
                    lemma_three_steps_build(method, header, uri, body, base, one, two, request);
                }
                {
                    let one = RequestParts { uri, ..base.parts };
                    let two = RequestParts { method, ..one };
                    let written: Result<RequestParts, Error<E>> = Ok(request.parts);
                    assert(header_set(two, name, values, written->Ok_0));
                    assert(header.amends(two, written));
                    lemma_three_steps_build(uri, method, header, body, base, one, two, request);
                }
                {
                    let one = RequestParts { uri, ..base.parts };
                    let two = RequestParts { headers: request.parts.headers, ..one };
                    let written: Result<RequestParts, Error<E>> = Ok(two);
                    assert(header_set(one, name, values, written->Ok_0));
                    assert(header.amends(one, written));
                    assert(request.parts == RequestParts { method, ..two });
                    lemma_three_steps_build(uri, header, method, body, base, one, two, request);
                }
                {
                    let one = RequestParts { headers: request.parts.headers, ..base.parts };
                    let two = RequestParts { method, ..one };
                    let written: Result<RequestParts, Error<E>> = Ok(one);
                    assert(header_set(base.parts, name, values, written->Ok_0));
                    assert(header.amends(base.parts, written));
                    assert(request.parts == RequestParts { uri, ..two });
                    lemma_three_steps_build(header, method, uri, body, base, one, two, request);
                }
                {
                    let one = RequestParts { headers: request.parts.headers, ..base.parts };
                    let two = RequestParts { uri, ..one };
                    let written: Result<RequestParts, Error<E>> = Ok(one);
                    assert(header_set(base.parts, name, values, written->Ok_0));
                    assert(header.amends(base.parts, written));
                    assert(request.parts == RequestParts { method, ..two });
                    lemma_three_steps_build(header, uri, method, body, base, one, two, request);
                }
            },
            Err(error) => {},
        }
    }
}

} // verus!
