use tower_http_client::client_request::ClientRequest;
use tower_http_client::header::{HeaderName, HeaderValue};
use tower_http_client::request::Request;
use tower_http_client::set_header::{
    InsertHeaderMode, MakeHeaderValue, SetRequestHeader, SetRequestHeaderLayer,
};

fn name(s: &str) -> HeaderName {
    HeaderName::from_text(s).unwrap()
}

fn value(s: &str) -> HeaderValue {
    HeaderValue::from_text(s).unwrap()
}

fn request_with(values: &[&str]) -> Request<()> {
    let mut t = ();
    let mut b = ClientRequest::builder(&mut t).uri("http://host/test");
    for v in values {
        b = b.header("x-test-header", v);
    }
    b.header("other", "o").build().unwrap().into_request()
}

fn texts<B>(req: &Request<B>, n: &str) -> Vec<String> {
    req.headers()
        .get_all(&name(n))
        .iter()
        .map(|v| String::from_utf8(v.as_bytes().to_vec()).unwrap())
        .collect()
}

/// A producer that counts how often it is asked.
struct Counting {
    asked: usize,
}

impl<T> MakeHeaderValue<T> for Counting {
    fn make_header_value(&mut self, _message: &T) -> Option<HeaderValue> {
        self.asked += 1;
        Some(value("counted"))
    }
}

/// A transport stand-in that keeps the requests it sees.
#[derive(Default, Clone)]
struct Recorder {
    seen: Vec<Vec<String>>,
}

fn apply(mode: InsertHeaderMode, existing: &[&str], produced: Option<&str>) -> Vec<String> {
    let mut req = request_with(existing);
    let mut make: Option<HeaderValue> = produced.map(value);
    mode.apply(&name("x-test-header"), &mut req, &mut make);
    assert_eq!(texts(&req, "other"), vec!["o"]);
    texts(&req, "x-test-header")
}

#[test]
fn override_leaves_exactly_the_new_value() {
    assert_eq!(apply(InsertHeaderMode::Override, &["a", "b", "c"], Some("n")), vec!["n"]);
    assert_eq!(apply(InsertHeaderMode::Override, &[], Some("n")), vec!["n"]);
    assert_eq!(apply(InsertHeaderMode::Override, &["a", "b"], None), vec!["a", "b"]);
}

#[test]
fn append_adds_one_value() {
    assert_eq!(
        apply(InsertHeaderMode::Append, &["a", "b"], Some("n")),
        vec!["a", "b", "n"]
    );
    assert_eq!(apply(InsertHeaderMode::Append, &[], Some("n")), vec!["n"]);
    assert_eq!(apply(InsertHeaderMode::Append, &["a"], None), vec!["a"]);
}

#[test]
fn if_not_present_only_fills_an_absent_name() {
    assert_eq!(
        apply(InsertHeaderMode::IfNotPresent, &["a", "b"], Some("n")),
        vec!["a", "b"]
    );
    assert_eq!(apply(InsertHeaderMode::IfNotPresent, &[], Some("n")), vec!["n"]);
    assert_eq!(apply(InsertHeaderMode::IfNotPresent, &[], None), Vec::<String>::new());
}

#[test]
fn if_not_present_does_not_ask_the_producer_when_present() {
    let mut make = Counting { asked: 0 };
    let mut req = request_with(&["a"]);
    InsertHeaderMode::IfNotPresent.apply(&name("x-test-header"), &mut req, &mut make);
    assert_eq!(make.asked, 0);
    let mut req = request_with(&[]);
    InsertHeaderMode::IfNotPresent.apply(&name("x-test-header"), &mut req, &mut make);
    assert_eq!(make.asked, 1);
    assert_eq!(texts(&req, "x-test-header"), vec!["counted"]);
}

#[test]
fn overriding_layer_gives_the_transport_one_user_agent() {
    let layer = SetRequestHeaderLayer::overriding(name("user-agent"), value("X"));
    assert_eq!(layer.mode(), InsertHeaderMode::Override);
    assert_eq!(layer.header_name().as_str(), "user-agent");
    let mut service = layer.layer(Recorder::default());
    for preset in [vec![], vec!["caller"], vec!["one", "two"]] {
        let mut t = ();
        let mut b = ClientRequest::builder(&mut t);
        for v in &preset {
            b = b.header("User-Agent", v);
        }
        let mut req = b.build().unwrap().into_request();
        service.set_header(&mut req);
        let seen = texts(&req, "user-agent");
        service.inner_mut().seen.push(seen);
    }
    for seen in &service.inner().seen {
        assert_eq!(seen, &vec!["X".to_string()]);
    }
}

#[test]
fn test_set_headers() {
    let header_name = name("x-test-header");
    let header_value = value("test-value");
    let mut service = SetRequestHeader::overriding(Recorder::default(), header_name, header_value);
    let mut req = request_with(&[]);
    assert!(texts(&req, "x-test-header").is_empty());
    service.set_header(&mut req);
    assert_eq!(texts(&req, "x-test-header"), vec!["test-value"]);
}

#[test]
fn appending_and_if_not_present_services() {
    let mut appending = SetRequestHeader::appending((), name("via"), value("proxy"));
    let mut req = request_with(&[]);
    appending.set_header(&mut req);
    appending.set_header(&mut req);
    assert_eq!(texts(&req, "via"), vec!["proxy", "proxy"]);

    let mut once = SetRequestHeader::if_not_present((), name("via"), value("other"));
    once.set_header(&mut req);
    assert_eq!(texts(&req, "via"), vec!["proxy", "proxy"]);

    let layer = SetRequestHeaderLayer::if_not_present(name("accept"), value("*/*"));
    let mut svc = layer.layer(());
    svc.set_header(&mut req);
    assert_eq!(texts(&req, "accept"), vec!["*/*"]);

    let layer = SetRequestHeaderLayer::appending(name("accept"), Option::<HeaderValue>::None);
    let mut svc = layer.layer(());
    svc.set_header(&mut req);
    assert_eq!(texts(&req, "accept"), vec!["*/*"]);
}
