use typed_http::{HeaderMap, HeaderName, HeaderValue, Method, StatusCode, Uri};

fn name(text: &str) -> HeaderName {
    HeaderName::from_bytes(text.as_bytes()).unwrap()
}

fn value(text: &str) -> HeaderValue {
    HeaderValue::from_bytes(text.as_bytes()).unwrap()
}

fn texts(values: &[HeaderValue]) -> Vec<Vec<u8>> {
    values.iter().map(|value| value.as_bytes().to_vec()).collect()
}

#[test]
fn status_code_from_u16_takes_100_to_999() {
    assert!(StatusCode::from_u16(99).is_none());
    assert_eq!(StatusCode::from_u16(100).unwrap().as_u16(), 100);
    assert_eq!(StatusCode::from_u16(999).unwrap().as_u16(), 999);
    assert!(StatusCode::from_u16(1000).is_none());
    assert!(StatusCode::from_u16(0).is_none());
    assert!(StatusCode::from_u16(u16::MAX).is_none());
}

#[test]
fn status_code_is_success_from_200_to_299() {
    assert!(!StatusCode::from_u16(199).unwrap().is_success());
    assert!(StatusCode::from_u16(200).unwrap().is_success());
    assert!(StatusCode::from_u16(204).unwrap().is_success());
    assert!(StatusCode::from_u16(299).unwrap().is_success());
    assert!(!StatusCode::from_u16(300).unwrap().is_success());
    assert!(!StatusCode::from_u16(403).unwrap().is_success());
    assert!(!StatusCode::from_u16(500).unwrap().is_success());
}

#[test]
fn status_code_agrees_with_http() {
    for code in 0..=u16::MAX {
        let ours = StatusCode::from_u16(code);
        let theirs = http::StatusCode::from_u16(code);
        assert_eq!(ours.is_some(), theirs.is_ok());
        if let (Some(ours), Ok(theirs)) = (ours, theirs) {
            assert_eq!(ours.as_u16(), theirs.as_u16());
            assert_eq!(ours.is_success(), theirs.is_success());
        }
    }
}

#[test]
fn method_from_bytes_knows_the_standard_names() {
    assert_eq!(Method::from_bytes(b"GET"), Some(Method::Get));
    assert_eq!(Method::from_bytes(b"PUT"), Some(Method::Put));
    assert_eq!(Method::from_bytes(b"POST"), Some(Method::Post));
    assert_eq!(Method::from_bytes(b"HEAD"), Some(Method::Head));
    assert_eq!(Method::from_bytes(b"PATCH"), Some(Method::Patch));
    assert_eq!(Method::from_bytes(b"TRACE"), Some(Method::Trace));
    assert_eq!(Method::from_bytes(b"DELETE"), Some(Method::Delete));
    assert_eq!(Method::from_bytes(b"OPTIONS"), Some(Method::Options));
    assert_eq!(Method::from_bytes(b"CONNECT"), Some(Method::Connect));
}

#[test]
fn method_from_bytes_takes_extensions_that_http_takes() {
    match Method::from_bytes(b"PROPFIND") {
        Some(Method::Extension(extension)) => assert_eq!(extension.as_bytes(), b"PROPFIND"),
        other => panic!("unexpected {:?}", other),
    }
    match Method::from_bytes(b"get") {
        Some(Method::Extension(extension)) => assert_eq!(extension.as_bytes(), b"get"),
        other => panic!("unexpected {:?}", other),
    }
    assert_eq!(
        http::Method::from_bytes(b"PROPFIND").unwrap().as_str().as_bytes(),
        b"PROPFIND"
    );
}

#[test]
fn method_from_bytes_refuses_what_http_refuses() {
    assert_eq!(Method::from_bytes(b""), None);
    assert_eq!(Method::from_bytes(b"GE T"), None);
    assert_eq!(Method::from_bytes(b"GET\r\n"), None);
    assert!(http::Method::from_bytes(b"GE T").is_err());
}

#[test]
fn uri_root_is_a_slash() {
    assert_eq!(Uri::root().as_str(), "/");
    assert_eq!(http::Uri::default().to_string(), "/");
}

#[test]
fn uri_parse_keeps_the_text_that_http_takes() {
    let uri = Uri::parse("https://api.github.com/meta").unwrap();
    assert_eq!(uri.as_str(), "https://api.github.com/meta");
    assert_eq!(Uri::parse("/").unwrap(), Uri::root());
    assert_eq!(Uri::parse("/search?q=verus").unwrap().as_str(), "/search?q=verus");
}

#[test]
fn uri_parse_refuses_what_http_refuses() {
    assert_eq!(Uri::parse(""), None);
    assert_eq!(Uri::parse("http://[::1"), None);
    assert_eq!(Uri::parse("/a b"), None);
    assert!("/a b".parse::<http::Uri>().is_err());
}

#[test]
fn header_name_is_kept_in_lower_case() {
    assert_eq!(name("User-Agent").as_bytes(), b"user-agent");
    assert_eq!(name("x-custom").as_bytes(), b"x-custom");
    assert!(name("Content-Type").same_as(&name("content-type")));
    assert!(!name("accept").same_as(&name("accept-encoding")));
}

#[test]
fn header_name_refuses_what_http_refuses() {
    assert!(HeaderName::from_bytes(b"").is_none());
    assert!(HeaderName::from_bytes(b"bad name").is_none());
    assert!(HeaderName::from_bytes(b"bad\nname").is_none());
}

#[test]
fn header_value_keeps_its_bytes() {
    assert_eq!(value("text/plain").as_bytes(), b"text/plain");
    assert_eq!(HeaderValue::from_bytes(b"").unwrap().as_bytes(), b"");
    assert_eq!(HeaderValue::from_bytes(b"caf\xe9").unwrap().as_bytes(), b"caf\xe9");
}

#[test]
fn header_value_refuses_what_http_refuses() {
    assert!(HeaderValue::from_bytes(b"line\nbreak").is_none());
    assert!(HeaderValue::from_bytes(b"nul\0").is_none());
    assert!(HeaderValue::from_bytes(b"del\x7f").is_none());
}

#[test]
fn header_map_starts_empty() {
    let map = HeaderMap::new();
    assert_eq!(map.len(), 0);
    assert!(map.get_all(&name("accept")).is_empty());
}

#[test]
fn header_map_replace_puts_the_values_in_order() {
    let mut map = HeaderMap::new();
    map.replace(name("accept"), vec![value("text/html"), value("application/json")]);
    assert_eq!(map.len(), 2);
    assert_eq!(
        texts(&map.get_all(&name("Accept"))),
        vec![b"text/html".to_vec(), b"application/json".to_vec()]
    );
    assert_eq!(map.name_at(0).as_bytes(), b"accept");
    assert_eq!(map.value_at(0).as_bytes(), b"text/html");
    assert_eq!(map.name_at(1).as_bytes(), b"accept");
    assert_eq!(map.value_at(1).as_bytes(), b"application/json");
}

#[test]
fn header_map_replace_takes_the_place_of_earlier_values() {
    let mut map = HeaderMap::new();
    map.replace(name("accept"), vec![value("a"), value("b")]);
    map.replace(name("host"), vec![value("example.org")]);
    map.replace(name("accept"), vec![value("c")]);
    assert_eq!(map.len(), 2);
    assert_eq!(texts(&map.get_all(&name("accept"))), vec![b"c".to_vec()]);
    assert_eq!(texts(&map.get_all(&name("host"))), vec![b"example.org".to_vec()]);
}

#[test]
fn header_map_replace_without_values_changes_nothing() {
    let mut map = HeaderMap::new();
    map.replace(name("accept"), vec![value("a")]);
    map.replace(name("accept"), Vec::new());
    map.replace(name("host"), Vec::new());
    assert_eq!(map.len(), 1);
    assert_eq!(texts(&map.get_all(&name("accept"))), vec![b"a".to_vec()]);
    assert!(map.get_all(&name("host")).is_empty());
}

#[test]
fn header_map_replace_matches_typed_insert_of_http() {
    let mut theirs = http::HeaderMap::new();
    theirs.append("accept", http::HeaderValue::from_static("a"));
    theirs.append("accept", http::HeaderValue::from_static("b"));
    theirs.insert("accept", http::HeaderValue::from_static("c"));
    theirs.append("accept", http::HeaderValue::from_static("d"));
    let theirs: Vec<Vec<u8>> =
        theirs.get_all("accept").iter().map(|value| value.as_bytes().to_vec()).collect();

    let mut ours = HeaderMap::new();
    ours.replace(name("accept"), vec![value("a"), value("b")]);
    ours.replace(name("accept"), vec![value("c"), value("d")]);
    assert_eq!(texts(&ours.get_all(&name("accept"))), theirs);
}
