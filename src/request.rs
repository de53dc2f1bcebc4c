//! The request builder: a message, the transport handle it will be sent with,
//! and the middleware that will wrap the send.
use vstd::prelude::*;
use vstd::utf8::{decode_utf8, valid_utf8};
use crate::message::{Error, HttpRequest, Method, Response};
use crate::middleware::{Middleware, Next, Transport};

verus! {

/// Relies on `String::from_utf8`: it succeeds exactly on valid UTF-8, and then
/// holds the characters the bytes encode.
#[verifier::external_body]
fn text_from_utf8(b: Vec<u8>) -> (r: Option<String>)
    ensures
        r is Some <==> valid_utf8(b@),
        r is Some ==> r->Some_0@ == decode_utf8(b@),
{
    String::from_utf8(b).ok()
}

/// `r` is the body of the outcome `res`, or its error as it is.
pub open spec fn bytes_outcome(res: Result<Response, Error>, r: Result<Vec<u8>, Error>) -> bool {
    match res {
        Ok(resp) => r is Ok && r->Ok_0@ == resp.body_spec(),
        Err(e) => r == Err::<Vec<u8>, Error>(e),
    }
}

/// `r` is the body of the outcome `res` as text, `Error::Decode` where that body
/// is not UTF-8, or the error of `res` as it is.
pub open spec fn text_outcome(res: Result<Response, Error>, r: Result<String, Error>) -> bool {
    match res {
        Ok(resp) => if valid_utf8(resp.body_spec()) {
            r is Ok && r->Ok_0@ == decode_utf8(resp.body_spec())
        } else {
            r == Err::<String, Error>(Error::Decode)
        },
        Err(e) => r == Err::<String, Error>(e),
    }
}

/// The body of a send's outcome; an error stays as it is.
pub fn response_bytes(res: Result<Response, Error>) -> (r: Result<Vec<u8>, Error>)
    ensures
        bytes_outcome(res, r),
{
    match res {
        Ok(resp) => Ok(resp.into_body()),
        Err(e) => Err(e),
    }
}

/// The body of a send's outcome as text. A body that is not UTF-8 gives
/// `Error::Decode`; an error of the send stays as it is.
pub fn response_string(res: Result<Response, Error>) -> (r: Result<String, Error>)
    ensures
        text_outcome(res, r),
{
    match res {
        Ok(resp) => match text_from_utf8(resp.into_body()) {
            Some(text) => Ok(text),
            None => Err(Error::Decode),
        },
        Err(e) => Err(e),
    }
}

/// A request being built: it is sent through its middleware, in the order they
/// were attached, and then through its transport handle.
pub struct Request<T, M> {
    client: T,
    message: HttpRequest,
    middleware: Vec<M>,
}

impl<T, M> Request<T, M> {
    /// The message as it will enter the chain.
    pub closed spec fn message_spec(&self) -> HttpRequest {
        self.message
    }

    /// The middleware attached so far, first attached first.
    pub closed spec fn middleware_spec(&self) -> Seq<M> {
        self.middleware@
    }

    /// The transport handle the request is sent with.
    pub closed spec fn client_spec(&self) -> T {
        self.client
    }

    /// A request for `uri` with `method`, to be sent with `client`; no header
    /// lines, an empty body and no middleware.
    pub fn with_client(method: Method, uri: http::Uri, client: T) -> (r: Self)
        ensures
            r.message_spec().method_spec() == method,
            r.message_spec().uri_spec() == uri,
            r.message_spec().headers_spec().len() == 0,
            r.message_spec().body_spec().len() == 0,
            r.middleware_spec().len() == 0,
            r.client_spec() == client,
    {
        Request { client, message: HttpRequest::new(method, uri), middleware: Vec::new() }
    }

    /// The message as it will enter the chain.
    pub fn message(&self) -> (r: &HttpRequest)
        ensures
            *r == self.message_spec(),
    {
        &self.message
    }

    /// Attaches `m` after the middleware already attached: it runs inside them.
    pub fn middleware(self, m: M) -> (r: Self)
        ensures
            r.middleware_spec() == self.middleware_spec().push(m),
            r.message_spec() == self.message_spec(),
            r.client_spec() == self.client_spec(),
    {
        let mut this = self;
        this.middleware.push(m);
        this
    }

    /// Appends a header line to the message.
    pub fn set_header(self, name: &str, value: &str) -> (r: Self)
        ensures
            r.message_spec().headers_spec() == self.message_spec().headers_spec().push((name@, value@)),
            r.message_spec().method_spec() == self.message_spec().method_spec(),
            r.message_spec().uri_spec() == self.message_spec().uri_spec(),
            r.message_spec().body_spec() == self.message_spec().body_spec(),
            r.middleware_spec() == self.middleware_spec(),
            r.client_spec() == self.client_spec(),
    {
        let mut this = self;
        this.message.insert_header(name, value);
        this
    }

    /// Replaces the body of the message.
    pub fn body_bytes(self, body: Vec<u8>) -> (r: Self)
        ensures
            r.message_spec().body_spec() == body@,
            r.message_spec().headers_spec() == self.message_spec().headers_spec(),
            r.message_spec().method_spec() == self.message_spec().method_spec(),
            r.message_spec().uri_spec() == self.message_spec().uri_spec(),
            r.middleware_spec() == self.middleware_spec(),
            r.client_spec() == self.client_spec(),
    {
        let mut this = self;
        this.message.set_body(body);
        this
    }

    /// The cursor a send starts from: all of the attached middleware.
    pub fn chain(&self) -> (r: Next<'_, M>)
        ensures
            r.middleware_spec() == self.middleware_spec(),
            r.pos_spec() == 0,
    {
        Next::new(self.middleware.as_slice())
    }

    /// Takes the request apart: the message, the transport handle and the
    /// middleware, first attached first.
    pub fn into_parts(self) -> (r: (HttpRequest, T, Vec<M>))
        ensures
            r.0 == self.message_spec(),
            r.1 == self.client_spec(),
            r.2@ == self.middleware_spec(),
    {
        let Request { client, message, middleware } = self;
        (message, client, middleware)
    }

    /// What sending this request may give: what the first attached middleware
    /// gives, handed the cursor past it, or, where none is attached, what the
    /// transport gives.
    pub open spec fn sends_to(&self, r: Result<Response, Error>) -> bool where
        T: Transport,
        M: Middleware<T>,
     {
        if self.middleware_spec().len() > 0 {
            self.middleware_spec()[0].handles(
                self.message_spec(),
                self.client_spec(),
                self.middleware_spec(),
                1,
                r,
            )
        } else {
            self.client_spec().sends(self.message_spec(), r)
        }
    }

    /// Sends the request: runs the attached middleware, first attached
    /// outermost, around the transport, and returns what the outermost one
    /// returns (the transport's outcome, where none is attached).
    pub fn send(self) -> (r: Result<Response, Error>) where T: Transport, M: Middleware<T>
        ensures
            self.sends_to(r),
    {
        let Request { client, message, middleware } = self;
        let next = Next::new(middleware.as_slice());
        next.run(message, &client)
    }

    /// Sends the request and returns the body of the response.
    pub fn recv_bytes(self) -> (r: Result<Vec<u8>, Error>) where T: Transport, M: Middleware<T>
        ensures
            exists|res: Result<Response, Error>| self.sends_to(res) && #[trigger] bytes_outcome(res, r),
    {
        let ghost this = self;
        let res = self.send();
        let ghost outcome = res;
        let r = response_bytes(res);
        assert(this.sends_to(outcome) && bytes_outcome(outcome, r));
        r
    }

    /// Sends the request and returns the body of the response as text.
    pub fn recv_string(self) -> (r: Result<String, Error>) where T: Transport, M: Middleware<T>
        ensures
            exists|res: Result<Response, Error>| self.sends_to(res) && #[trigger] text_outcome(res, r),
    {
        let ghost this = self;
        let res = self.send();
        let ghost outcome = res;
        let r = response_string(res);
        assert(this.sends_to(outcome) && text_outcome(outcome, r));
        r
    }
}

} // verus!
