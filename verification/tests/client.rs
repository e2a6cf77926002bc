use bytes::Bytes;
use typed_http::client::{incoming, outgoing};
use typed_http::{
    Body, Error, FromJson, HeaderName, Json, Method, Request, Response, ResponseParts,
    StatusCode, TypedHeader, Uri, Version,
};

type Failure = String;

/// What the service answers when it is asked for its meta information.
struct Meta {
    ssh_keys: Vec<String>,
}

impl FromJson for Meta {
    fn from_json(text: &[u8]) -> Result<Self, serde_json::Error> {
        let mut fields: std::collections::BTreeMap<String, serde_json::Value> =
            serde_json::from_slice(text)?;
        let ssh_keys = fields.remove("ssh_keys").unwrap_or(serde_json::Value::Null);
        Ok(Meta { ssh_keys: serde_json::from_value(ssh_keys)? })
    }
}

/// A service that answers as the one at `https://api.github.com/meta` does:
/// with its keys, to whoever says who is asking, and with a refusal to
/// whoever does not.
fn answer(request: Request<Failure>) -> Result<Response<Failure>, Failure> {
    assert_eq!(request.parts.method, Method::Get);
    assert_eq!(request.parts.uri.as_str(), "https://api.github.com/meta");
    let agent = HeaderName::from_bytes(b"user-agent").unwrap();
    if request.parts.headers.get_all(&agent).is_empty() {
        Ok(Response {
            parts: ResponseParts::new(StatusCode::from_u16(403).unwrap()),
            body: Body::full(Bytes::from_static(b"Request forbidden by administrative rules.")),
        })
    } else {
        Ok(Response {
            parts: ResponseParts::new(StatusCode::from_u16(200).unwrap()),
            body: Body::full(Bytes::from_static(b"{\"ssh_keys\":[\"ssh-ed25519 AAAA\"]}")),
        })
    }
}

fn response(code: u16, body: Body<Failure>) -> Response<Failure> {
    Response { parts: ResponseParts::new(StatusCode::from_u16(code).unwrap()), body }
}

#[test]
fn test_github_meta() {
    let request = outgoing((
        Method::Get,
        Uri::parse("https://api.github.com/meta").unwrap(),
        TypedHeader(headers::UserAgent::from_static("typed_http")),
        (),
    ))
    .unwrap();
    let response: Json<Meta> = incoming(answer(request)).unwrap();
    assert!(!response.0.ssh_keys.is_empty());
}

#[test]
fn test_github_meta_without_user_agent() {
    let request =
        outgoing((Method::Get, Uri::parse("https://api.github.com/meta").unwrap(), ())).unwrap();
    let e = incoming::<Failure, ()>(answer(request)).unwrap_err();
    match e {
        Error::Http { status, .. } => assert_eq!(status.as_u16(), 403),
        other => panic!("unexpected {:?}", other),
    }
}

#[test]
fn outgoing_is_the_request_that_the_value_builds() {
    let request: Request<Failure> =
        outgoing((Method::Post, Bytes::from_static(b"data"))).unwrap();
    assert_eq!(request.parts.method, Method::Post);
    assert_eq!(request.parts.uri.as_str(), "/");
    assert_eq!(request.parts.version, Version::Http11);
    assert_eq!(request.body.collect(), Ok(Bytes::from_static(b"data")));
}

#[test]
fn sending_nothing_hands_over_a_request_without_body() {
    let request: Request<Failure> = outgoing(()).unwrap();
    assert_eq!(request.body.collect(), Ok(Bytes::new()));
    for code in [200, 201, 204, 299] {
        let out = incoming::<Failure, ()>(Ok(response(code, Body::full(Bytes::from_static(b"x")))));
        assert!(matches!(out, Ok(())));
    }
}

#[test]
fn a_failure_of_the_transport_is_a_service_error() {
    let out = incoming::<Failure, Bytes>(Err("connection refused".to_string()));
    match out {
        Err(Error::Service(failure)) => assert_eq!(failure, "connection refused"),
        other => panic!("unexpected {:?}", other),
    }
}

#[test]
fn a_response_of_success_is_read_as_the_value() {
    let body = Body::from_parts(
        vec![Bytes::from_static(b"{\"ssh_keys\":"), Bytes::from_static(b"[\"a\"]}")],
        None,
    )
    .unwrap();
    let out: Json<serde_json::Value> = incoming(Ok(response(200, body))).unwrap();
    assert_eq!(out.0["ssh_keys"], serde_json::Value::from(vec!["a"]));
}

#[test]
fn a_response_of_success_that_does_not_read_is_a_json_error() {
    let out = incoming::<Failure, Json<serde_json::Value>>(Ok(response(
        200,
        Body::full(Bytes::from_static(b"<html>")),
    )));
    assert!(matches!(out, Err(Error::Json(_))));
}

#[test]
fn a_forbidden_response_is_an_http_error_with_its_body() {
    let body = Body::from_parts(
        vec![Bytes::from_static(b"{\"message\":"), Bytes::from_static(b"\"forbidden\"}")],
        None,
    )
    .unwrap();
    let out = incoming::<Failure, Json<serde_json::Value>>(Ok(response(403, body)));
    match out {
        Err(Error::Http { status, body }) => {
            assert_eq!(status.as_u16(), 403);
            assert_eq!(body, Bytes::from_static(b"{\"message\":\"forbidden\"}"));
        }
        other => panic!("unexpected {:?}", other.map(|json| json.0)),
    }
}

#[test]
fn a_forbidden_response_is_an_http_error_whatever_was_asked_for() {
    let body = || Body::full(Bytes::from_static(b"denied"));
    assert!(matches!(
        incoming::<Failure, ()>(Ok(response(403, body()))),
        Err(Error::Http { status, body }) if status.as_u16() == 403 && &body[..] == b"denied"
    ));
    assert!(matches!(
        incoming::<Failure, Bytes>(Ok(response(403, body()))),
        Err(Error::Http { status, body }) if status.as_u16() == 403 && &body[..] == b"denied"
    ));
    assert!(matches!(
        incoming::<Failure, Body<Failure>>(Ok(response(403, body()))),
        Err(Error::Http { status, body }) if status.as_u16() == 403 && &body[..] == b"denied"
    ));
    assert!(matches!(
        incoming::<Failure, (StatusCode, Bytes)>(Ok(response(403, body()))),
        Err(Error::Http { status, body }) if status.as_u16() == 403 && &body[..] == b"denied"
    ));
}

#[test]
fn success_is_200_to_299() {
    for code in [100, 199, 300, 301, 404, 500, 999] {
        let out = incoming::<Failure, ()>(Ok(response(code, Body::empty())));
        assert!(matches!(
            out,
            Err(Error::Http { status, body }) if status.as_u16() == code && body.is_empty()
        ));
    }
    for code in [200, 250, 299] {
        let out = incoming::<Failure, ()>(Ok(response(code, Body::empty())));
        assert!(matches!(out, Ok(())));
    }
}

#[test]
fn a_refusal_whose_body_breaks_off_is_a_service_error() {
    let body = Body::from_parts(vec![Bytes::from_static(b"part")], Some("reset".to_string()));
    let out = incoming::<Failure, ()>(Ok(response(502, body.unwrap())));
    match out {
        Err(Error::Service(failure)) => assert_eq!(failure, "reset"),
        other => panic!("unexpected {:?}", other),
    }
}
