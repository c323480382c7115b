use tower_http_client::auth::{AddAuthorizationLayer, AddAuthorizationService};
use tower_http_client::client_request::ClientRequest;
use tower_http_client::header::{HeaderName, InvalidHeaderValue};
use tower_http_client::request::Request;

fn authorization<B>(req: &Request<B>) -> Vec<(String, bool)> {
    req.headers()
        .get_all(&HeaderName::from_text("authorization").unwrap())
        .iter()
        .map(|v| (String::from_utf8(v.as_bytes().to_vec()).unwrap(), v.is_sensitive()))
        .collect()
}

#[test]
fn basic_encodes_user_and_password() {
    let layer = AddAuthorizationLayer::basic("user", "pass").unwrap();
    assert_eq!(layer.value().as_bytes(), b"Basic dXNlcjpwYXNz");
    assert!(!layer.value().is_sensitive());
}

#[test]
fn basic_with_empty_and_non_ascii_credentials() {
    let layer = AddAuthorizationLayer::basic("", "").unwrap();
    assert_eq!(layer.value().as_bytes(), b"Basic Og==");
    let layer = AddAuthorizationLayer::basic("Aladdin", "open sesame").unwrap();
    assert_eq!(layer.value().as_bytes(), b"Basic QWxhZGRpbjpvcGVuIHNlc2FtZQ==");
    let layer = AddAuthorizationLayer::basic("ü", "\n").unwrap();
    assert_eq!(layer.value().as_bytes(), b"Basic w7w6Cg==");
}

#[test]
fn bearer_prefixes_the_token() {
    let layer = AddAuthorizationLayer::bearer("abacaba").unwrap();
    assert_eq!(layer.value().as_bytes(), b"Bearer abacaba");
}

#[test]
fn bearer_rejects_an_invalid_value() {
    assert_eq!(
        AddAuthorizationLayer::bearer("line\nbreak").err(),
        Some(InvalidHeaderValue)
    );
    assert!(AddAuthorizationService::bearer((), "\u{0}").is_err());
}

#[test]
fn authorize_replaces_any_earlier_value() {
    let service = AddAuthorizationLayer::bearer("abacaba")
        .unwrap()
        .set_sensitive(true)
        .layer(());
    let mut t = ();
    let mut req = ClientRequest::builder(&mut t)
        .header("Authorization", "old-1")
        .header("authorization", "old-2")
        .header("accept", "*/*")
        .build()
            .unwrap()
        .into_request();
    service.authorize(&mut req);
    assert_eq!(authorization(&req), vec![("Bearer abacaba".to_string(), true)]);
    assert_eq!(req.headers().len(), 2);
}

#[test]
fn service_constructors_match_the_layer() {
    let svc = AddAuthorizationService::basic(5u8, "user", "pass").unwrap();
    assert_eq!(*svc.inner(), 5u8);
    let svc = svc.set_sensitive(true);
    let mut t = ();
    let mut req = ClientRequest::builder(&mut t).build().unwrap().into_request();
    svc.authorize(&mut req);
    assert_eq!(
        authorization(&req),
        vec![("Basic dXNlcjpwYXNz".to_string(), true)]
    );
    let svc = svc.set_sensitive(false);
    svc.authorize(&mut req);
    assert_eq!(
        authorization(&req),
        vec![("Basic dXNlcjpwYXNz".to_string(), false)]
    );
}
