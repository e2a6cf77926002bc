use bytes::Bytes;
use typed_http::{
    Body, Error, FromJson, FromResponse, FromResponseParts, Header, HeaderName, HeaderValue,
    IntoRequest, IntoRequestParts, Json, Method, Request, RequestParts, Response, ResponseParts,
    StatusCode, ToJson, TypedHeader, Uri, Version,
};

type Failure = String;

/// The `User-Agent` header of the `headers` crate, as a header of this
/// library.
#[derive(Debug, PartialEq)]
struct Agent(headers::UserAgent);

impl Header for Agent {
    fn name() -> HeaderName {
        let name = <headers::UserAgent as headers::Header>::name();
        HeaderName::from_bytes(name.as_str().as_bytes()).unwrap()
    }

    fn encode(&self) -> Vec<HeaderValue> {
        let mut values: Vec<http::HeaderValue> = Vec::new();
        headers::Header::encode(&self.0, &mut values);
        values.iter().map(|value| HeaderValue::from_bytes(value.as_bytes()).unwrap()).collect()
    }

    fn decode(values: &Vec<HeaderValue>) -> Option<Self> {
        let values: Vec<http::HeaderValue> = values
            .iter()
            .map(|value| http::HeaderValue::from_bytes(value.as_bytes()).unwrap())
            .collect();
        <headers::UserAgent as headers::Header>::decode(&mut values.iter()).ok().map(Agent)
    }
}

/// A header that is written as two values.
#[derive(Debug, PartialEq)]
struct Accept;

impl Header for Accept {
    fn name() -> HeaderName {
        HeaderName::from_bytes(b"accept").unwrap()
    }

    fn encode(&self) -> Vec<HeaderValue> {
        vec![
            HeaderValue::from_bytes(b"application/json").unwrap(),
            HeaderValue::from_bytes(b"text/plain").unwrap(),
        ]
    }

    fn decode(values: &Vec<HeaderValue>) -> Option<Self> {
        if values.len() == 2 {
            Some(Accept)
        } else {
            None
        }
    }
}

/// A header that is written as no value at all.
struct Silent;

impl Header for Silent {
    fn name() -> HeaderName {
        HeaderName::from_bytes(b"accept").unwrap()
    }

    fn encode(&self) -> Vec<HeaderValue> {
        Vec::new()
    }

    fn decode(_: &Vec<HeaderValue>) -> Option<Self> {
        None
    }
}

/// A part that refuses to be written.
struct Refusing(&'static str);

impl IntoRequestParts<Failure> for Refusing {
    fn into_request_parts(self, _: RequestParts) -> Result<RequestParts, Error<Failure>> {
        Err(Error::Service(self.0.to_string()))
    }
}

/// A value for the body that refuses to build a request.
struct Unbuildable(&'static str);

impl IntoRequest<Failure> for Unbuildable {
    fn into_request(self) -> Result<Request<Failure>, Error<Failure>> {
        Err(Error::Service(self.0.to_string()))
    }
}

/// A part that cannot be read, and that leaves a mark on the parts.
#[derive(Debug)]
struct Unreadable;

impl FromResponseParts<Failure> for Unreadable {
    fn from_response_parts(parts: &mut ResponseParts) -> Result<Self, Error<Failure>> {
        parts.version = Version::Http2;
        Err(Error::Service("unreadable".to_string()))
    }
}

/// A part that reads the version and then sets it to HTTP/1.0.
#[derive(Debug, PartialEq)]
struct Seen(Version);

impl FromResponseParts<Failure> for Seen {
    fn from_response_parts(parts: &mut ResponseParts) -> Result<Self, Error<Failure>> {
        let seen = parts.version;
        parts.version = Version::Http10;
        Ok(Seen(seen))
    }
}

/// The answer of a service that lists keys.
#[derive(Debug, PartialEq)]
struct Meta {
    ssh_keys: Vec<String>,
}

impl ToJson for Meta {
    fn to_json(&self) -> Result<Vec<u8>, serde_json::Error> {
        let mut object = serde_json::Map::new();
        object.insert("ssh_keys".to_string(), serde_json::Value::from(self.ssh_keys.clone()));
        serde_json::to_vec(&serde_json::Value::Object(object))
    }
}

impl FromJson for Meta {
    fn from_json(text: &[u8]) -> Result<Self, serde_json::Error> {
        let mut fields: std::collections::BTreeMap<String, Vec<String>> =
            serde_json::from_slice(text)?;
        match fields.remove("ssh_keys") {
            Some(ssh_keys) => Ok(Meta { ssh_keys }),
            None => Err(serde::de::Error::missing_field("ssh_keys")),
        }
    }
}

fn status(code: u16) -> StatusCode {
    StatusCode::from_u16(code).unwrap()
}

fn response(code: u16, body: Body<Failure>) -> Response<Failure> {
    Response { parts: ResponseParts::new(status(code)), body }
}

fn chunked(chunks: &[&'static [u8]], failure: Option<&str>) -> Body<Failure> {
    let chunks = chunks.iter().map(|chunk| Bytes::from_static(chunk)).collect();
    Body::from_parts(chunks, failure.map(str::to_string)).unwrap()
}

fn values(parts: &RequestParts, name: &str) -> Vec<Vec<u8>> {
    let name = HeaderName::from_bytes(name.as_bytes()).unwrap();
    parts.headers.get_all(&name).iter().map(|value| value.as_bytes().to_vec()).collect()
}

fn assert_blank(parts: &RequestParts) {
    assert_eq!(parts.method, Method::Get);
    assert_eq!(parts.uri.as_str(), "/");
    assert_eq!(parts.version, Version::Http11);
    assert_eq!(parts.headers.len(), 0);
    assert!(parts.extensions.is_empty());
}

fn service_error<T: std::fmt::Debug>(out: Result<T, Error<Failure>>) -> String {
    match out {
        Err(Error::Service(failure)) => failure,
        other => panic!("unexpected {:?}", other),
    }
}

#[test]
fn unit_builds_a_blank_request_without_body() {
    let request: Request<Failure> = ().into_request().unwrap();
    assert_blank(&request.parts);
    let (chunks, failure) = request.body.into_parts();
    assert!(chunks.is_empty());
    assert_eq!(failure, None);
}

#[test]
fn unit_is_read_from_any_response() {
    assert!(matches!(<()>::from_response(response(200, Body::empty())), Ok(())));
    assert!(matches!(<()>::from_response(response(500, chunked(&[b"x"], None))), Ok(())));
    assert!(matches!(<()>::from_response(response(200, chunked(&[b"x"], Some("cut")))), Ok(())));
}

#[test]
fn bytes_build_a_blank_request_that_carries_them() {
    let request: Request<Failure> = Bytes::from_static(b"payload").into_request().unwrap();
    assert_blank(&request.parts);
    let (chunks, failure) = request.body.into_parts();
    assert_eq!(chunks, vec![Bytes::from_static(b"payload")]);
    assert_eq!(failure, None);
}

#[test]
fn no_bytes_build_a_request_without_chunk() {
    let request: Request<Failure> = Bytes::new().into_request().unwrap();
    let (chunks, failure) = request.body.into_parts();
    assert!(chunks.is_empty());
    assert_eq!(failure, None);
}

#[test]
fn bytes_are_read_from_all_chunks_of_the_body() {
    let out = Bytes::from_response(response(200, chunked(&[b"ab", b"", b"cd", b"e"], None)));
    assert_eq!(out.unwrap(), Bytes::from_static(b"abcde"));
}

#[test]
fn bytes_come_back_as_they_were_sent() {
    for data in [&b""[..], &b"a"[..], &b"hello world"[..], &b"\x00\x01\xfe\xff"[..]] {
        let sent = Bytes::copy_from_slice(data);
        let request: Request<Failure> = sent.clone().into_request().unwrap();
        let back = Bytes::from_response(Response {
            parts: ResponseParts::new(status(200)),
            body: request.body,
        });
        assert_eq!(back.unwrap(), sent);
    }
}

#[test]
fn bytes_of_a_broken_body_are_a_service_error() {
    let out = Bytes::from_response(response(200, chunked(&[b"ab"], Some("reset"))));
    assert_eq!(service_error(out), "reset");
}

#[test]
fn body_is_handed_through_both_ways() {
    let request: Request<Failure> = chunked(&[b"a", b"b"], Some("late")).into_request().unwrap();
    assert_blank(&request.parts);
    let (chunks, failure) = request.body.into_parts();
    assert_eq!(chunks, vec![Bytes::from_static(b"a"), Bytes::from_static(b"b")]);
    assert_eq!(failure, Some("late".to_string()));

    let body = Body::from_response(response(404, chunked(&[b"x", b"y"], Some("cut")))).unwrap();
    let (chunks, failure) = body.into_parts();
    assert_eq!(chunks, vec![Bytes::from_static(b"x"), Bytes::from_static(b"y")]);
    assert_eq!(failure, Some("cut".to_string()));
}

#[test]
fn json_request_of_written_text_carries_the_text() {
    let request: Request<Failure> =
        Json::<Meta>::request_of(Ok(b"{\"a\":1}".to_vec())).unwrap();
    assert_blank(&request.parts);
    assert_eq!(request.body.collect(), Ok(Bytes::from_static(b"{\"a\":1}")));
}

#[test]
fn json_request_of_a_refusal_is_a_json_error() {
    let refusal = serde_json::from_slice::<serde_json::Value>(b"{").unwrap_err();
    let text = refusal.to_string();
    let out: Result<Request<Failure>, Error<Failure>> = Json::<Meta>::request_of(Err(refusal));
    match out {
        Err(Error::Json(error)) => assert_eq!(error.to_string(), text),
        other => panic!("unexpected {:?}", other),
    }
}

#[test]
fn json_value_of_what_was_read() {
    let out: Result<Json<u32>, Error<Failure>> = Json::value_of(Ok(7));
    assert_eq!(out.unwrap().0, 7);
    let refusal = serde_json::from_slice::<serde_json::Value>(b"]").unwrap_err();
    let text = refusal.to_string();
    let out: Result<Json<u32>, Error<Failure>> = Json::value_of(Err(refusal));
    match out {
        Err(Error::Json(error)) => assert_eq!(error.to_string(), text),
        other => panic!("unexpected {:?}", other.map(|json| json.0)),
    }
}

/// A value that `serde_json` refuses to write: a map whose keys are no
/// strings.
struct Unwritable;

impl ToJson for Unwritable {
    fn to_json(&self) -> Result<Vec<u8>, serde_json::Error> {
        let mut map = std::collections::BTreeMap::new();
        map.insert((1, 2), 3);
        serde_json::to_vec(&map)
    }
}

#[test]
fn json_that_cannot_be_written_is_a_json_error() {
    let out: Result<Request<Failure>, Error<Failure>> = Json(Unwritable).into_request();
    assert!(matches!(out, Err(Error::Json(_))));
    let out: Result<Request<Failure>, Error<Failure>> =
        (Method::Post, Json(Unwritable)).into_request();
    assert!(matches!(out, Err(Error::Json(_))));
}

#[test]
fn json_value_is_written_by_serde_json() {
    let value = serde_json::Value::from(vec!["a", "b"]);
    let request: Request<Failure> = Json(value).into_request().unwrap();
    assert_blank(&request.parts);
    assert_eq!(request.body.collect(), Ok(Bytes::from_static(b"[\"a\",\"b\"]")));
}

#[test]
fn json_value_is_written_the_same_every_time() {
    let text = br#"{"b":[1,2.5,-3e10,null],"a":{"z":true,"y":"x"}}"#;
    let value: serde_json::Value = serde_json::from_slice(text).unwrap();
    let first = ToJson::to_json(&value).unwrap();
    let second = ToJson::to_json(&value.clone()).unwrap();
    assert_eq!(first, second);
    assert_eq!(first, br#"{"a":{"y":"x","z":true},"b":[1,2.5,-30000000000.0,null]}"#.to_vec());
}

#[test]
fn json_value_comes_back_as_it_was_sent() {
    let text = br#"{"ssh_keys":["a","b"],"n":[1,2.5,null,true],"s":"x"}"#;
    let sent: serde_json::Value = serde_json::from_slice(text).unwrap();
    let request: Request<Failure> = Json(sent.clone()).into_request().unwrap();
    let back = Json::<serde_json::Value>::from_response(Response {
        parts: ResponseParts::new(status(200)),
        body: request.body,
    });
    assert_eq!(back.unwrap().0, sent);
}

#[test]
fn typed_json_comes_back_as_it_was_sent() {
    let sent = Meta { ssh_keys: vec!["a".to_string(), "b".to_string()] };
    let request: Request<Failure> = Json(Meta { ssh_keys: sent.ssh_keys.clone() })
        .into_request()
        .unwrap();
    let back = Json::<Meta>::from_response(Response {
        parts: ResponseParts::new(status(200)),
        body: request.body,
    });
    assert_eq!(back.unwrap().0, sent);
}

#[test]
fn json_with_ssh_keys_is_read_into_the_field() {
    let body = Body::full(Bytes::from_static(b"{\"ssh_keys\":[\"a\"]}"));
    let out = Json::<Meta>::from_response(response(200, body));
    assert_eq!(out.unwrap().0.ssh_keys, vec!["a".to_string()]);
}

#[test]
fn json_is_read_from_a_body_in_several_chunks() {
    let body = chunked(&[b"{\"ssh_", b"keys\":[", b"\"a\"]}"], None);
    let out = Json::<serde_json::Value>::from_response(response(200, body));
    assert_eq!(out.unwrap().0["ssh_keys"][0], "a");
}

#[test]
fn malformed_json_is_a_json_error() {
    for text in [&b""[..], &b"{"[..], &b"{\"ssh_keys\":"[..], &b"nul"[..], &b"[1,]"[..]] {
        let body = Body::full(Bytes::copy_from_slice(text));
        let out = Json::<serde_json::Value>::from_response(response(200, body));
        assert!(matches!(out, Err(Error::Json(_))));
    }
    let body = Body::full(Bytes::from_static(b"{\"other\":[]}"));
    let out = Json::<Meta>::from_response(response(200, body));
    assert!(matches!(out, Err(Error::Json(_))));
}

#[test]
fn json_of_a_broken_body_is_a_service_error() {
    let body = chunked(&[b"{\"ssh_keys\":[\"a\"]}"], Some("reset"));
    let out = Json::<serde_json::Value>::from_response(response(200, body));
    assert_eq!(service_error(out.map(|json| json.0)), "reset");
}

#[test]
fn method_changes_the_method_only() {
    let parts =
        IntoRequestParts::<Failure>::into_request_parts(Method::Delete, RequestParts::new())
            .unwrap();
    assert_eq!(parts.method, Method::Delete);
    assert_eq!(parts.uri.as_str(), "/");
    assert_eq!(parts.version, Version::Http11);
    assert_eq!(parts.headers.len(), 0);
}

#[test]
fn uri_changes_the_target_only() {
    let uri = Uri::parse("https://example.org/a?b=c").unwrap();
    let parts =
        IntoRequestParts::<Failure>::into_request_parts(uri, RequestParts::new()).unwrap();
    assert_eq!(parts.uri.as_str(), "https://example.org/a?b=c");
    assert_eq!(parts.method, Method::Get);
    assert_eq!(parts.version, Version::Http11);
    assert_eq!(parts.headers.len(), 0);
}

#[test]
fn status_code_is_read_and_left_in_place() {
    let mut parts = ResponseParts::new(status(418));
    let read: StatusCode =
        FromResponseParts::<Failure>::from_response_parts(&mut parts).unwrap();
    assert_eq!(read.as_u16(), 418);
    assert_eq!(parts.status.as_u16(), 418);
    assert_eq!(parts.version, Version::Http11);
}

#[test]
fn typed_header_is_written_under_its_name() {
    let header = TypedHeader(Agent(headers::UserAgent::from_static("typed_http")));
    let parts =
        IntoRequestParts::<Failure>::into_request_parts(header, RequestParts::new()).unwrap();
    assert_eq!(values(&parts, "user-agent"), vec![b"typed_http".to_vec()]);
    assert_eq!(parts.headers.len(), 1);
    assert_eq!(parts.method, Method::Get);
    assert_eq!(parts.uri.as_str(), "/");
}

#[test]
fn typed_header_takes_the_place_of_earlier_values() {
    let parts = RequestParts::new().set_header(
        HeaderName::from_bytes(b"accept").unwrap(),
        vec![HeaderValue::from_bytes(b"image/png").unwrap()],
    );
    let parts = parts.set_header(
        HeaderName::from_bytes(b"host").unwrap(),
        vec![HeaderValue::from_bytes(b"example.org").unwrap()],
    );
    let parts =
        IntoRequestParts::<Failure>::into_request_parts(TypedHeader(Accept), parts).unwrap();
    assert_eq!(
        values(&parts, "accept"),
        vec![b"application/json".to_vec(), b"text/plain".to_vec()]
    );
    assert_eq!(values(&parts, "host"), vec![b"example.org".to_vec()]);
    assert_eq!(parts.headers.len(), 3);
}

#[test]
fn typed_header_without_values_leaves_the_fields_alone() {
    let parts = RequestParts::new().set_header(
        HeaderName::from_bytes(b"accept").unwrap(),
        vec![HeaderValue::from_bytes(b"image/png").unwrap()],
    );
    let parts =
        IntoRequestParts::<Failure>::into_request_parts(TypedHeader(Silent), parts).unwrap();
    assert_eq!(values(&parts, "accept"), vec![b"image/png".to_vec()]);
}

#[test]
fn typed_header_is_read_from_its_fields() {
    let mut parts = ResponseParts::new(status(200));
    parts.headers.replace(
        HeaderName::from_bytes(b"User-Agent").unwrap(),
        vec![HeaderValue::from_bytes(b"curl/8").unwrap()],
    );
    let read: Option<TypedHeader<Agent>> =
        FromResponseParts::<Failure>::from_response_parts(&mut parts).unwrap();
    assert_eq!(read.unwrap().0 .0.as_str(), "curl/8");
    assert_eq!(parts.headers.len(), 1);
}

#[test]
fn typed_header_that_is_absent_is_no_error() {
    let mut parts = ResponseParts::new(status(200));
    parts.headers.replace(
        HeaderName::from_bytes(b"host").unwrap(),
        vec![HeaderValue::from_bytes(b"example.org").unwrap()],
    );
    let read: Option<TypedHeader<Agent>> =
        FromResponseParts::<Failure>::from_response_parts(&mut parts).unwrap();
    assert!(read.is_none());
}

#[test]
fn typed_header_that_does_not_read_is_no_error() {
    let mut parts = ResponseParts::new(status(200));
    parts.headers.replace(
        HeaderName::from_bytes(b"accept").unwrap(),
        vec![HeaderValue::from_bytes(b"only-one").unwrap()],
    );
    let read: Option<TypedHeader<Accept>> =
        FromResponseParts::<Failure>::from_response_parts(&mut parts).unwrap();
    assert!(read.is_none());
}

#[test]
fn user_agent_goes_by_its_name() {
    assert_eq!(<headers::UserAgent as Header>::name().as_bytes(), b"user-agent");
}

#[test]
fn user_agent_is_written_as_one_value() {
    let agent = headers::UserAgent::from_static("curl/8.0 (linux)");
    let values = Header::encode(&agent);
    assert_eq!(values.len(), 1);
    assert_eq!(values[0].as_bytes(), b"curl/8.0 (linux)");
}

#[test]
fn user_agent_is_read_from_one_value() {
    let one = vec![HeaderValue::from_bytes(b"hyper/0.14").unwrap()];
    let read = <headers::UserAgent as Header>::decode(&one).unwrap();
    assert_eq!(read, headers::UserAgent::from_static("hyper/0.14"));
    let two = vec![
        HeaderValue::from_bytes(b"a").unwrap(),
        HeaderValue::from_bytes(b"b").unwrap(),
    ];
    assert!(<headers::UserAgent as Header>::decode(&two).is_none());
    assert!(<headers::UserAgent as Header>::decode(&Vec::new()).is_none());
    let opaque = vec![HeaderValue::from_bytes(b"caf\xe9").unwrap()];
    assert!(<headers::UserAgent as Header>::decode(&opaque).is_none());
}

#[test]
fn user_agent_is_sent_and_read_back() {
    let sent = headers::UserAgent::from_static("typed_http");
    let request: Request<Failure> = (TypedHeader(sent.clone()), ()).into_request().unwrap();
    assert_eq!(values(&request.parts, "user-agent"), vec![b"typed_http".to_vec()]);
    let mut parts = ResponseParts::new(status(200));
    parts.headers = request.parts.headers;
    let read: Option<TypedHeader<headers::UserAgent>> =
        FromResponseParts::<Failure>::from_response_parts(&mut parts).unwrap();
    assert_eq!(read.unwrap().0, sent);
}

#[test]
fn typed_header_found_wraps_what_was_read() {
    assert_eq!(TypedHeader::found(Some(3)).map(|header| header.0), Some(3));
    assert!(TypedHeader::<u8>::found(None).is_none());
}

#[test]
fn pair_writes_the_part_into_the_request_of_the_body() {
    let request: Request<Failure> =
        (Method::Put, Bytes::from_static(b"data")).into_request().unwrap();
    assert_eq!(request.parts.method, Method::Put);
    assert_eq!(request.parts.uri.as_str(), "/");
    assert_eq!(request.body.collect(), Ok(Bytes::from_static(b"data")));
}

#[test]
fn parts_come_to_the_same_request_in_any_order() {
    let uri = || Uri::parse("https://api.github.com/meta").unwrap();
    let agent = || TypedHeader(Agent(headers::UserAgent::from_static("typed_http")));
    let data = || Bytes::from_static(b"body");
    let requests: Vec<Request<Failure>> = vec![
        (Method::Post, uri(), agent(), data()).into_request().unwrap(),
        (Method::Post, agent(), uri(), data()).into_request().unwrap(),
        (uri(), Method::Post, agent(), data()).into_request().unwrap(),
        (uri(), agent(), Method::Post, data()).into_request().unwrap(),
        (agent(), Method::Post, uri(), data()).into_request().unwrap(),
        (agent(), uri(), Method::Post, data()).into_request().unwrap(),
    ];
    for request in requests {
        assert_eq!(request.parts.method, Method::Post);
        assert_eq!(request.parts.uri.as_str(), "https://api.github.com/meta");
        assert_eq!(request.parts.version, Version::Http11);
        assert_eq!(values(&request.parts, "user-agent"), vec![b"typed_http".to_vec()]);
        assert_eq!(request.parts.headers.len(), 1);
        assert!(request.parts.extensions.is_empty());
        assert_eq!(request.body.collect(), Ok(Bytes::from_static(b"body")));
    }
}

#[test]
fn parts_are_written_from_left_to_right() {
    let request: Request<Failure> =
        (Method::Post, Method::Put, Method::Delete, ()).into_request().unwrap();
    assert_eq!(request.parts.method, Method::Delete);
    let request: Request<Failure> =
        (Uri::parse("/first").unwrap(), Uri::parse("/second").unwrap(), ())
            .into_request()
            .unwrap();
    assert_eq!(request.parts.uri.as_str(), "/second");
    let parts = IntoRequestParts::<Failure>::into_request_parts(
        (Method::Post, (Method::Put, Method::Patch), Method::Head),
        RequestParts::new(),
    )
    .unwrap();
    assert_eq!(parts.method, Method::Head);
}

#[test]
fn the_first_failure_ends_the_building() {
    let out = (Method::Post, Refusing("first"), Refusing("second"), ()).into_request();
    assert_eq!(service_error(out), "first");
    let out = (Refusing("part"), Method::Post, Unbuildable("body")).into_request();
    assert_eq!(service_error(out), "body");
    let out = (Refusing("part"), ()).into_request();
    assert_eq!(service_error(out), "part");
    let out = (Method::Post, Unbuildable("body")).into_request();
    assert_eq!(service_error(out), "body");
    let out = (Method::Get, (Method::Put, Refusing("inner")), Refusing("outer"))
        .into_request_parts(RequestParts::new());
    assert_eq!(service_error(out), "inner");
}

#[test]
fn sixteen_values_are_one_request() {
    let uri = Uri::parse("/sixteen").unwrap();
    let agent = TypedHeader(Agent(headers::UserAgent::from_static("agent")));
    let request: Request<Failure> = (
        Method::Get,
        Method::Post,
        Method::Put,
        Method::Delete,
        Method::Head,
        Method::Trace,
        Method::Connect,
        Method::Patch,
        Method::Options,
        uri,
        agent,
        TypedHeader(Accept),
        Method::Post,
        Method::Put,
        Method::Patch,
        Bytes::from_static(b"sixteen"),
    )
        .into_request()
        .unwrap();
    assert_eq!(request.parts.method, Method::Patch);
    assert_eq!(request.parts.uri.as_str(), "/sixteen");
    assert_eq!(values(&request.parts, "user-agent"), vec![b"agent".to_vec()]);
    assert_eq!(
        values(&request.parts, "accept"),
        vec![b"application/json".to_vec(), b"text/plain".to_vec()]
    );
    assert_eq!(request.body.collect(), Ok(Bytes::from_static(b"sixteen")));
}

#[test]
fn pair_reads_the_part_and_then_the_body() {
    let out = <(StatusCode, Bytes)>::from_response(response(403, chunked(&[b"de", b"nied"], None)));
    let (code, body) = out.unwrap();
    assert_eq!(code.as_u16(), 403);
    assert_eq!(body, Bytes::from_static(b"denied"));
}

#[test]
fn composite_is_read_in_the_order_of_its_values() {
    let mut parts = ResponseParts::new(status(201));
    parts.headers.replace(
        HeaderName::from_bytes(b"user-agent").unwrap(),
        vec![HeaderValue::from_bytes(b"server/1").unwrap()],
    );
    let body: Body<Failure> = Body::full(Bytes::from_static(b"{\"ssh_keys\":[\"a\"]}"));
    let out = <(
        StatusCode,
        Option<TypedHeader<Agent>>,
        Option<TypedHeader<Accept>>,
        Json<Meta>,
    )>::from_response(Response { parts, body });
    let (code, agent, accept, meta) = out.unwrap();
    assert_eq!(code.as_u16(), 201);
    assert_eq!(agent.unwrap().0 .0.as_str(), "server/1");
    assert!(accept.is_none());
    assert_eq!(meta.0.ssh_keys, vec!["a".to_string()]);
}

#[test]
fn parts_are_read_from_left_to_right() {
    let mut parts = ResponseParts::new(status(200));
    let read: (Seen, Seen, Seen) =
        FromResponseParts::<Failure>::from_response_parts(&mut parts).unwrap();
    assert_eq!(read, (Seen(Version::Http11), Seen(Version::Http10), Seen(Version::Http10)));
    assert_eq!(parts.version, Version::Http10);

    let out = <(Seen, StatusCode, Seen, ())>::from_response(response(200, Body::empty()));
    let (first, code, second, ()) = out.unwrap();
    assert_eq!(first, Seen(Version::Http11));
    assert_eq!(code.as_u16(), 200);
    assert_eq!(second, Seen(Version::Http10));
}

#[test]
fn the_first_failure_ends_the_reading() {
    let out = <(StatusCode, Unreadable, Bytes)>::from_response(response(
        200,
        chunked(&[b"x"], Some("body")),
    ));
    assert_eq!(service_error(out), "unreadable");
    let out = <(StatusCode, Bytes)>::from_response(response(200, chunked(&[b"x"], Some("body"))));
    assert_eq!(service_error(out), "body");

    let mut parts = ResponseParts::new(status(200));
    let out: Result<(Seen, Unreadable, Seen), Error<Failure>> =
        FromResponseParts::from_response_parts(&mut parts);
    assert_eq!(service_error(out), "unreadable");
    assert_eq!(parts.version, Version::Http2);
}

#[test]
fn sixteen_values_are_read_from_one_response() {
    let out = <(
        StatusCode,
        StatusCode,
        StatusCode,
        StatusCode,
        StatusCode,
        StatusCode,
        StatusCode,
        StatusCode,
        StatusCode,
        StatusCode,
        StatusCode,
        StatusCode,
        StatusCode,
        Seen,
        Seen,
        Bytes,
    )>::from_response(response(206, chunked(&[b"six", b"teen"], None)));
    let read = out.unwrap();
    assert_eq!(read.0.as_u16(), 206);
    assert_eq!(read.12.as_u16(), 206);
    assert_eq!(read.13, Seen(Version::Http11));
    assert_eq!(read.14, Seen(Version::Http10));
    assert_eq!(read.15, Bytes::from_static(b"sixteen"));
}
