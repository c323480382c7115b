use tower_http_client::client_request::{BuildError, ClientRequest, SetBodyError};
use tower_http_client::header::{HeaderName, HeaderValue};
use tower_http_client::request::{Request, Version};

/// A transport stand-in that counts the requests handed to it.
#[derive(Default)]
struct CountingTransport {
    calls: usize,
}

impl CountingTransport {
    fn call<B>(&mut self, _req: Request<B>) {
        self.calls += 1;
    }
}

fn header_texts<B>(req: &Request<B>, n: &str) -> Vec<String> {
    req.headers()
        .get_all(&HeaderName::from_text(n).unwrap())
        .iter()
        .map(|v| String::from_utf8(v.as_bytes().to_vec()).unwrap())
        .collect()
}

#[test]
fn test_service_ext_request_builder_methods() {
    let mut fake_client = ();
    let cases = ["GET", "POST", "PUT", "PATCH", "DELETE", "HEAD"];
    for method in cases {
        let request = ClientRequest::builder(&mut fake_client)
            .method(method)
            .uri("http://localhost")
            .build()
            .unwrap()
            .into_request();
        assert_eq!(request.method(), method);
    }
}

#[test]
fn build_defaults_to_get_root_http11_and_empty_body() {
    let mut t = ();
    let req = ClientRequest::builder(&mut t).build().unwrap().into_request();
    assert_eq!(req.method(), "GET");
    assert_eq!(req.uri(), "/");
    assert_eq!(req.version(), Version::Http11);
    assert_eq!(req.headers().len(), 0);
    assert_eq!(*req.body(), ());
}

#[test]
fn build_without_method_keeps_get() {
    let mut t = ();
    let req = ClientRequest::builder(&mut t)
        .uri("http://example.com/a?b=c")
        .header("X-One", "1")
        .header("x-one", "2")
        .version(Version::Http2)
        .extension(7u32)
        .build()
            .unwrap()
        .into_request();
    assert_eq!(req.method(), "GET");
    assert_eq!(req.uri(), "http://example.com/a?b=c");
    assert_eq!(req.version(), Version::Http2);
    assert_eq!(header_texts(&req, "x-one"), vec!["1", "2"]);
    assert_eq!(req.extensions().get::<u32>(), Some(&7));
    assert_eq!(*req.body(), ());
}

#[test]
fn extension_method_is_kept_as_written() {
    let mut t = ();
    let req = ClientRequest::builder(&mut t).method("PROPFIND").build().unwrap().into_request();
    assert_eq!(req.method(), "PROPFIND");
}

#[test]
fn malformed_uri_fails_before_the_transport() {
    let mut transport = CountingTransport::default();
    let built = ClientRequest::builder(&mut transport)
        .uri("http://exa mple.com/")
        .header("x-late", "ignored")
        .body(());
    match built {
        Ok(request) => {
            let (service, req) = request.into_parts();
            service.call(req);
            panic!("a malformed URI was accepted");
        }
        Err(e) => assert_eq!(e, BuildError::InvalidUri),
    }
    assert_eq!(transport.calls, 0);
}

#[test]
fn valid_request_reaches_the_transport_once() {
    let mut transport = CountingTransport::default();
    let request = ClientRequest::builder(&mut transport)
        .uri("http://host/hello")
        .body(String::from("hi"))
        .unwrap();
    let (service, req) = request.into_parts();
    service.call(req);
    assert_eq!(transport.calls, 1);
}

#[test]
fn each_kind_of_build_error() {
    let mut t = ();
    let e = ClientRequest::builder(&mut t).method("BAD METHOD").body(()).err();
    assert_eq!(e, Some(BuildError::InvalidMethod));
    let e = ClientRequest::builder(&mut t).method("").body(()).err();
    assert_eq!(e, Some(BuildError::InvalidMethod));
    let e = ClientRequest::builder(&mut t).header("bad name", "v").body(()).err();
    assert_eq!(e, Some(BuildError::InvalidHeaderName));
    let e = ClientRequest::builder(&mut t).header("x-ok", "bad\r\nvalue").body(()).err();
    assert_eq!(e, Some(BuildError::InvalidHeaderValue));
    let e = ClientRequest::builder(&mut t).uri("::not a uri::").body(()).err();
    assert_eq!(e, Some(BuildError::InvalidUri));
}

#[test]
fn first_error_is_kept() {
    let mut t = ();
    let e = ClientRequest::builder(&mut t)
        .method("BAD METHOD")
        .uri("::not a uri::")
        .header("bad name", "v")
        .method("GET")
        .body(())
        .err();
    assert_eq!(e, Some(BuildError::InvalidMethod));
}

#[test]
fn json_sets_content_type_and_body() {
    let mut t = ();
    let mut map = serde_json::Map::new();
    map.insert("id".to_string(), serde_json::Value::String("req-1".to_string()));
    map.insert("next".to_string(), serde_json::Value::String("resp-1".to_string()));
    let value = serde_json::Value::Object(map);
    let req = ClientRequest::builder(&mut t)
        .method("PUT")
        .uri("http://host/hello")
        .header("Content-Type", "text/plain")
        .json(&value)
        .unwrap()
        .into_request();
    assert_eq!(req.method(), "PUT");
    assert_eq!(req.uri(), "http://host/hello");
    assert_eq!(header_texts(&req, "content-type"), vec!["application/json"]);
    let back: serde_json::Value = serde_json::from_slice(req.body()).unwrap();
    assert_eq!(back, value);
    assert_eq!(back["id"], "req-1");
    assert_eq!(back["next"], "resp-1");
}

#[test]
fn json_encoded_reports_encode_error_before_build_error() {
    let mut t = ();
    let r = ClientRequest::builder(&mut t)
        .uri("::not a uri::")
        .json_encoded::<&str>(Err("no encoding"));
    assert!(matches!(r, Err(SetBodyError::Encode("no encoding"))));
    let r = ClientRequest::builder(&mut t)
        .uri("::not a uri::")
        .json_encoded::<&str>(Ok(b"{}".to_vec()));
    assert!(matches!(r, Err(SetBodyError::Body(BuildError::InvalidUri))));
    let req = ClientRequest::builder(&mut t)
        .json_encoded::<&str>(Ok(b"[1,2]".to_vec()))
        .unwrap()
        .into_request();
    assert_eq!(req.body(), b"[1,2]");
    assert_eq!(header_texts(&req, "content-type"), vec!["application/json"]);
}

#[test]
fn form_sets_content_type_and_body() {
    let mut t = ();
    let pairs = vec![
        ("name".to_string(), "John Doe".to_string()),
        ("age".to_string(), "30".to_string()),
    ];
    let req = ClientRequest::builder(&mut t)
        .method("POST")
        .uri("http://host/test")
        .form(&pairs)
        .unwrap()
        .into_request();
    assert_eq!(req.method(), "POST");
    assert_eq!(
        header_texts(&req, "content-type"),
        vec!["application/x-www-form-urlencoded"]
    );
    assert_eq!(req.body(), "name=John+Doe&age=30");
}

#[test]
fn form_on_invalid_builder_is_a_body_error() {
    let mut t = ();
    let r = ClientRequest::builder(&mut t)
        .header("x", "\u{7f}")
        .form(&vec![("a".to_string(), "b".to_string())]);
    assert!(matches!(
        r,
        Err(SetBodyError::Body(BuildError::InvalidHeaderValue))
    ));
}

#[test]
fn form_encoded_keeps_the_given_text() {
    let mut t = ();
    let req = ClientRequest::builder(&mut t)
        .form_encoded::<()>(Ok("a=1".to_string()))
        .unwrap()
        .into_request();
    assert_eq!(req.body(), "a=1");
}

#[test]
fn headers_mut_changes_the_collected_headers() {
    let mut t = ();
    let mut b = ClientRequest::builder(&mut t).header("accept", "a");
    if let Some(h) = b.headers_mut() {
        h.insert(
            HeaderName::from_text("Accept").unwrap(),
            HeaderValue::from_text("b").unwrap(),
        );
    }
    let req = b.build().unwrap().into_request();
    assert_eq!(header_texts(&req, "accept"), vec!["b"]);

    let mut b = ClientRequest::builder(&mut t).method("BAD METHOD");
    assert!(b.headers_mut().is_none());
    assert!(b.extensions_mut().is_none());
}

#[test]
fn extensions_mut_reaches_the_request() {
    let mut t = ();
    let mut b = ClientRequest::builder(&mut t);
    b.extensions_mut().unwrap().insert("tag");
    let req = b.build().unwrap().into_request();
    assert_eq!(req.extensions().get::<&str>(), Some(&"tag"));
}

#[test]
fn build_reports_the_construction_error() {
    let mut transport = CountingTransport::default();
    let r = ClientRequest::builder(&mut transport).uri("http://exa mple.com/").build();
    assert_eq!(r.err(), Some(BuildError::InvalidUri));
    let r = ClientRequest::builder(&mut transport).header("bad name", "v").build();
    assert_eq!(r.err(), Some(BuildError::InvalidHeaderName));
    assert_eq!(transport.calls, 0);
}

#[test]
fn json_on_invalid_builder_is_a_body_error() {
    let mut t = ();
    let r = ClientRequest::builder(&mut t)
        .method("BAD METHOD")
        .json(&serde_json::Value::Null);
    assert!(matches!(r, Err(SetBodyError::Body(BuildError::InvalidMethod))));
    let req = ClientRequest::builder(&mut t)
        .json(&serde_json::Value::Null)
        .unwrap()
        .into_request();
    assert_eq!(req.body(), b"null");
}
