use std::cell::{Cell, RefCell};
use std::rc::Rc;

use surf::request::{response_bytes, response_string};
use surf::{Client, Error, HttpRequest, Method, Middleware, Next, Response, Step, Transport};

type Log = Rc<RefCell<Vec<String>>>;

/// A transport double that answers with the request's header lines and body,
/// and counts its calls and the requests it saw.
#[derive(Clone, Default)]
struct Echo {
    calls: Rc<Cell<u32>>,
    seen: Rc<RefCell<Vec<HttpRequest>>>,
}

impl Transport for Echo {
    fn send(&self, req: HttpRequest) -> Result<Response, Error> {
        self.calls.set(self.calls.get() + 1);
        let mut res = Response::new(200);
        for (name, value) in req.headers() {
            res.insert_header(name, value);
        }
        res.set_body(req.body().clone());
        self.seen.borrow_mut().push(req);
        Ok(res)
    }
}

/// A transport double that always fails with a network error.
#[derive(Clone, Default)]
struct Down {
    calls: Rc<Cell<u32>>,
}

impl Transport for Down {
    fn send(&self, _req: HttpRequest) -> Result<Response, Error> {
        self.calls.set(self.calls.get() + 1);
        Err(Error::Transport("connection refused".to_string()))
    }
}

#[derive(Clone)]
enum Mw {
    /// Logs "before i" and "after i" around the rest of the chain.
    Mark(u32, Log),
    /// Adds `X-<name>: 1` to the request and `X-<name>-Done: 1` to the response.
    Tag(&'static str),
    /// Answers with this status without forwarding.
    Answer(u16),
    /// Forwards twice, with `attempt` set to 1 and then 2; logs the first answer's attempt.
    Twice(Log),
    /// Replaces a failure of the rest of the chain by a 503 response.
    Recover,
}

impl<T: Transport> Middleware<T> for Mw {
    fn handle<'a>(&'a self, req: HttpRequest, client: &T, next: Next<'a, Self>) -> Result<Response, Error> {
        match self {
            Mw::Mark(i, log) => {
                log.borrow_mut().push(format!("before {}", i));
                let res = next.run(req, client);
                log.borrow_mut().push(format!("after {}", i));
                res
            }
            Mw::Tag(name) => {
                let mut req = req;
                req.insert_header(&format!("X-{}", name), "1");
                let mut res = next.run(req, client)?;
                res.insert_header(&format!("X-{}-Done", name), "1");
                Ok(res)
            }
            Mw::Answer(status) => Ok(Response::new(*status)),
            Mw::Twice(log) => {
                let mut first = copy_of(&req);
                first.insert_header("attempt", "1");
                let mut second = req;
                second.insert_header("attempt", "2");
                let r1 = next.run(first, client)?;
                log.borrow_mut().push(r1.header("attempt").unwrap().clone());
                next.run(second, client)
            }
            Mw::Recover => match next.run(req, client) {
                Ok(res) => Ok(res),
                Err(_) => {
                    let mut res = Response::new(503);
                    res.set_body(b"fallback".to_vec());
                    Ok(res)
                }
            },
        }
    }
}

fn copy_of(req: &HttpRequest) -> HttpRequest {
    let mut copy = HttpRequest::new(req.method(), req.uri().clone());
    for (name, value) in req.headers() {
        copy.insert_header(name, value);
    }
    copy.set_body(req.body().clone());
    copy
}

fn header_names(hs: &Vec<(String, String)>) -> Vec<String> {
    hs.iter().map(|h| h.0.clone()).collect()
}

#[test]
fn before_in_order_after_in_reverse() {
    for n in 0..5u32 {
        let echo = Echo::default();
        let client = Client::with_client(echo.clone());
        let log: Log = Rc::new(RefCell::new(Vec::new()));
        let mut req = client.get("http://example.com/");
        for i in 0..n {
            req = req.middleware(Mw::Mark(i, log.clone()));
        }
        let res = req.send().unwrap();
        assert_eq!(res.status(), 200);
        let mut expected: Vec<String> = (0..n).map(|i| format!("before {}", i)).collect();
        expected.extend((0..n).rev().map(|i| format!("after {}", i)));
        assert_eq!(*log.borrow(), expected);
        assert_eq!(echo.calls.get(), 1);
    }
}

#[test]
fn short_circuit_never_reaches_transport() {
    let echo = Echo::default();
    let client = Client::with_client(echo.clone());
    let log: Log = Rc::new(RefCell::new(Vec::new()));
    let res = client
        .get("http://example.com/")
        .middleware(Mw::Mark(0, log.clone()))
        .middleware(Mw::Answer(204))
        .middleware(Mw::Mark(2, log.clone()))
        .send()
        .unwrap();
    assert_eq!(res.status(), 204);
    assert_eq!(echo.calls.get(), 0);
    assert_eq!(*log.borrow(), vec!["before 0".to_string(), "after 0".to_string()]);
}

#[test]
fn forwarding_twice_calls_transport_twice() {
    let echo = Echo::default();
    let client = Client::with_client(echo.clone());
    let log: Log = Rc::new(RefCell::new(Vec::new()));
    let res = client.post("http://example.com/").middleware(Mw::Twice(log.clone())).send().unwrap();
    assert_eq!(echo.calls.get(), 2);
    let seen = echo.seen.borrow();
    assert_eq!(seen[0].header("attempt").unwrap(), "1");
    assert_eq!(seen[1].header("attempt").unwrap(), "2");
    assert_eq!(*log.borrow(), vec!["1".to_string()]);
    assert_eq!(res.header("attempt").unwrap(), "2");
}

#[test]
fn empty_chain_calls_transport_once() {
    let echo = Echo::default();
    let client = Client::with_client(echo.clone());
    let res = client
        .put::<Mw>("http://example.com/items")
        .set_header("Accept", "text/plain")
        .body_bytes(b"payload".to_vec())
        .send()
        .unwrap();
    assert_eq!(echo.calls.get(), 1);
    assert_eq!(res.status(), 200);
    assert_eq!(res.header("Accept").unwrap(), "text/plain");
    assert_eq!(res.body(), &b"payload".to_vec());
    assert_eq!(echo.seen.borrow()[0].method(), Method::Put);
}

#[test]
fn malformed_target_is_a_config_error() {
    let echo = Echo::default();
    let client = Client::with_client(echo.clone());
    assert!(matches!(client.request::<Mw>(Method::Get, ""), Err(Error::Config)));
    assert!(matches!(client.request::<Mw>(Method::Get, "http://exa mple.com/"), Err(Error::Config)));
    assert!(matches!(client.request::<Mw>(Method::Delete, "\n"), Err(Error::Config)));
    let req = client.request::<Mw>(Method::Patch, "http://example.com/x").unwrap();
    assert_eq!(req.message().method(), Method::Patch);
    assert_eq!(req.message().uri().path(), "/x");
    assert_eq!(echo.calls.get(), 0);
}

#[test]
fn tagging_middleware_wrap_in_nested_order() {
    let echo = Echo::default();
    let client = Client::with_client(echo.clone());
    let res = client
        .get("http://example.com/")
        .middleware(Mw::Tag("A"))
        .middleware(Mw::Tag("B"))
        .send()
        .unwrap();
    let seen = echo.seen.borrow();
    assert_eq!(seen[0].header("X-A").unwrap(), "1");
    assert_eq!(seen[0].header("X-B").unwrap(), "1");
    assert_eq!(
        header_names(res.headers()),
        vec!["X-A".to_string(), "X-B".to_string(), "X-B-Done".to_string(), "X-A-Done".to_string()]
    );
}

#[test]
fn transport_error_comes_back_unchanged() {
    let down = Down::default();
    let client = Client::with_client(down.clone());
    let res = client.get::<Mw>("http://example.com/").send();
    assert_eq!(res.err(), Some(Error::Transport("connection refused".to_string())));
    let res = client.get("http://example.com/").middleware(Mw::Tag("A")).send();
    assert_eq!(res.err(), Some(Error::Transport("connection refused".to_string())));
    assert_eq!(down.calls.get(), 2);
}

#[test]
fn recovering_middleware_substitutes_a_response() {
    let down = Down::default();
    let client = Client::with_client(down.clone());
    let res = client.get("http://example.com/").middleware(Mw::Recover).send().unwrap();
    assert_eq!(res.status(), 503);
    assert_eq!(res.body(), &b"fallback".to_vec());
    assert_eq!(down.calls.get(), 1);
}

#[test]
fn each_verb_sets_its_method() {
    let client: Client<Echo> = Client::new();
    let uri = "http://example.com/";
    assert_eq!(client.get::<Mw>(uri).message().method(), Method::Get);
    assert_eq!(client.head::<Mw>(uri).message().method(), Method::Head);
    assert_eq!(client.post::<Mw>(uri).message().method(), Method::Post);
    assert_eq!(client.put::<Mw>(uri).message().method(), Method::Put);
    assert_eq!(client.delete::<Mw>(uri).message().method(), Method::Delete);
    assert_eq!(client.connect::<Mw>(uri).message().method(), Method::Connect);
    assert_eq!(client.options::<Mw>(uri).message().method(), Method::Options);
    assert_eq!(client.trace::<Mw>(uri).message().method(), Method::Trace);
    assert_eq!(client.patch::<Mw>(uri).message().method(), Method::Patch);
}

#[test]
fn target_is_parsed() {
    let client: Client<Echo> = Client::new();
    let req = client.get::<Mw>("http://example.com/a/b?x=1");
    assert_eq!(req.message().uri().path(), "/a/b");
    assert_eq!(req.message().uri().host(), Some("example.com"));
    assert!(req.message().headers().is_empty());
    assert!(req.message().body().is_empty());
    assert_eq!(client.get::<Mw>("/").message().uri().path(), "/");
}

#[test]
fn header_lookup_finds_the_first_line() {
    let mut req = HttpRequest::new(Method::Get, "/".parse().unwrap());
    req.insert_header("Accept", "a");
    req.insert_header("Cookie", "b");
    req.insert_header("Accept", "c");
    assert_eq!(req.header("Accept").unwrap(), "a");
    assert_eq!(req.header("Cookie").unwrap(), "b");
    assert!(req.header("Host").is_none());
    assert_eq!(req.headers().len(), 3);
}

#[test]
fn body_as_text() {
    let echo = Echo::default();
    let client = Client::with_client(echo);
    let text = client.post::<Mw>("http://example.com/").body_bytes("h\u{e9}llo".as_bytes().to_vec()).recv_string();
    assert_eq!(text.unwrap(), "h\u{e9}llo");
    let bytes = client.post::<Mw>("http://example.com/").body_bytes(vec![1, 2, 3]).recv_bytes();
    assert_eq!(bytes.unwrap(), vec![1, 2, 3]);
}

#[test]
fn body_that_is_not_utf8_is_a_decode_error() {
    let mut res = Response::new(200);
    res.set_body(vec![0x66, 0xff, 0x6f]);
    assert_eq!(response_string(Ok(res)), Err(Error::Decode));
    let mut res = Response::new(200);
    res.set_body(Vec::new());
    assert_eq!(response_string(Ok(res)), Ok(String::new()));
    let failed: Result<Response, Error> = Err(Error::Middleware("denied".to_string()));
    assert_eq!(response_string(failed), Err(Error::Middleware("denied".to_string())));
    let failed: Result<Response, Error> = Err(Error::Transport("dns".to_string()));
    assert_eq!(response_bytes(failed), Err(Error::Transport("dns".to_string())));
}

#[test]
fn cursor_steps_through_the_list_then_ends() {
    let list = vec![Mw::Answer(1), Mw::Answer(2)];
    let start = Next::new(&list);
    let rest = match start.step() {
        Step::Handle(Mw::Answer(1), rest) => rest,
        _ => panic!("first step must hand out the first middleware"),
    };
    let last = match rest.step() {
        Step::Handle(Mw::Answer(2), last) => last,
        _ => panic!("second step must hand out the second middleware"),
    };
    assert!(matches!(last.step(), Step::Endpoint));
    assert!(matches!(start.step(), Step::Handle(Mw::Answer(1), _)));
    let none: Vec<Mw> = Vec::new();
    assert!(matches!(Next::new(&none).step(), Step::Endpoint));
}

#[test]
fn header_names_ignore_ascii_case() {
    let mut res = Response::new(200);
    res.insert_header("Content-Type", "text/plain");
    res.insert_header("content-type", "text/html");
    assert_eq!(res.header("content-type").unwrap(), "text/plain");
    assert_eq!(res.header("CONTENT-TYPE").unwrap(), "text/plain");
    assert!(res.header("Content-Typ").is_none());
    assert!(res.header("Content-Type-X").is_none());
    let mut req = HttpRequest::new(Method::Get, "/".parse().unwrap());
    req.insert_header("X-\u{c9}t\u{e9}", "1");
    assert_eq!(req.header("x-\u{c9}T\u{e9}").unwrap(), "1");
    assert!(req.header("x-\u{e9}t\u{e9}").is_none());
}

#[test]
fn request_comes_apart_into_its_parts() {
    let echo = Echo::default();
    let client = Client::with_client(echo.clone());
    let (message, handle, middleware) = client
        .post("http://example.com/p")
        .set_header("X-Id", "7")
        .middleware(Mw::Recover)
        .middleware(Mw::Answer(201))
        .into_parts();
    assert_eq!(message.method(), Method::Post);
    assert_eq!(message.header("x-id").unwrap(), "7");
    assert_eq!(middleware.len(), 2);
    assert!(matches!(middleware[1], Mw::Answer(201)));
    handle.send(message).unwrap();
    assert_eq!(echo.calls.get(), 1);
}

#[test]
fn requests_share_the_client_handle() {
    let echo = Echo::default();
    let client = Client::with_client(echo.clone());
    client.get::<Mw>("http://example.com/a").send().unwrap();
    client.head::<Mw>("http://example.com/b").send().unwrap();
    client.request::<Mw>(Method::Options, "http://example.com/c").unwrap().send().unwrap();
    assert_eq!(echo.calls.get(), 3);
    let seen = echo.seen.borrow();
    assert_eq!(seen[1].method(), Method::Head);
    assert_eq!(seen[2].uri().path(), "/c");
}
