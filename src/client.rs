//! The client: one shared transport handle, and a factory of requests bound to it.
use vstd::prelude::*;
use vstd::pervasive::cloned;
use crate::message::{Error, Method};
use crate::request::Request;
use crate::uri::{parse_uri, uri_accepts, uri_parse};

verus! {

/// `req` is a fresh request for the target text `uri` with `method`: the target
/// `http::Uri` makes of that text, no header lines, an empty body and no
/// middleware. Which transport handle it holds, the callers' contracts say.
pub open spec fn fresh<T, M>(req: Request<T, M>, method: Method, uri: Seq<char>) -> bool {
    uri_parse(uri) == Some(req.message_spec().uri_spec()) && req.message_spec().method_spec()
        == method && req.message_spec().headers_spec().len() == 0
        && req.message_spec().body_spec().len() == 0 && req.middleware_spec().len() == 0
}

/// An HTTP client, capable of creating new requests that all share its transport handle.
#[derive(Clone)]
pub struct Client<T> {
    client: T,
}

impl<T> Client<T> {
    /// The transport handle every request of this client is sent with.
    pub closed spec fn client_spec(&self) -> T {
        self.client
    }

    /// A client over the transport's default instance.
    pub fn new() -> (r: Self) where T: Default
        ensures
            call_ensures(T::default, (), r.client_spec()),
    {
        Self::with_client(T::default())
    }

    /// A client over the transport handle `client`.
    pub fn with_client(client: T) -> (r: Self)
        ensures
            r.client_spec() == client,
    {
        Client { client }
    }

    /// A request for `uri` with `method`, or `Error::Config` where `uri` does not
    /// parse; nothing is sent either way.
    pub fn request<M>(&self, method: Method, uri: &str) -> (r: Result<Request<T, M>, Error>) where
        T: Clone,
        ensures
            r is Ok <==> uri_accepts(uri@),
            r is Ok ==> fresh(r->Ok_0, method, uri@),
            r is Ok ==> cloned(self.client_spec(), r->Ok_0.client_spec()),
            r is Err ==> r == Err::<Request<T, M>, Error>(Error::Config),
    {
        if parse_uri(uri).is_err() {
            return Err(Error::Config);
        }
        let req = match method {
            Method::Get => self.get(uri),
            Method::Head => self.head(uri),
            Method::Post => self.post(uri),
            Method::Put => self.put(uri),
            Method::Delete => self.delete(uri),
            Method::Connect => self.connect(uri),
            Method::Options => self.options(uri),
            Method::Trace => self.trace(uri),
            Method::Patch => self.patch(uri),
        };
        Ok(req)
    }

    fn build<M>(&self, method: Method, uri: &str) -> (r: Request<T, M>) where T: Clone
        requires
            uri_accepts(uri@),
        ensures
            fresh(r, method, uri@),
            cloned(self.client_spec(), r.client_spec()),
    {
        let target = parse_uri(uri).unwrap();
        Request::with_client(method, target, self.client.clone())
    }

    /// A `GET` request for `uri`, which must parse as a request target.
    pub fn get<M>(&self, uri: &str) -> (r: Request<T, M>) where T: Clone
        requires
            uri_accepts(uri@),
        ensures
            fresh(r, Method::Get, uri@),
            cloned(self.client_spec(), r.client_spec()),
    {
        self.build(Method::Get, uri)
    }

    /// A `HEAD` request for `uri`, which must parse as a request target.
    pub fn head<M>(&self, uri: &str) -> (r: Request<T, M>) where T: Clone
        requires
            uri_accepts(uri@),
        ensures
            fresh(r, Method::Head, uri@),
            cloned(self.client_spec(), r.client_spec()),
    {
        self.build(Method::Head, uri)
    }

    /// A `POST` request for `uri`, which must parse as a request target.
    pub fn post<M>(&self, uri: &str) -> (r: Request<T, M>) where T: Clone
        requires
            uri_accepts(uri@),
        ensures
            fresh(r, Method::Post, uri@),
            cloned(self.client_spec(), r.client_spec()),
    {
        self.build(Method::Post, uri)
    }

    /// A `PUT` request for `uri`, which must parse as a request target.
    pub fn put<M>(&self, uri: &str) -> (r: Request<T, M>) where T: Clone
        requires
            uri_accepts(uri@),
        ensures
            fresh(r, Method::Put, uri@),
            cloned(self.client_spec(), r.client_spec()),
    {
        self.build(Method::Put, uri)
    }

    /// A `DELETE` request for `uri`, which must parse as a request target.
    pub fn delete<M>(&self, uri: &str) -> (r: Request<T, M>) where T: Clone
        requires
            uri_accepts(uri@),
        ensures
            fresh(r, Method::Delete, uri@),
            cloned(self.client_spec(), r.client_spec()),
    {
        self.build(Method::Delete, uri)
    }

    /// A `CONNECT` request for `uri`, which must parse as a request target.
    pub fn connect<M>(&self, uri: &str) -> (r: Request<T, M>) where T: Clone
        requires
            uri_accepts(uri@),
        ensures
            fresh(r, Method::Connect, uri@),
            cloned(self.client_spec(), r.client_spec()),
    {
        self.build(Method::Connect, uri)
    }

    /// A `OPTIONS` request for `uri`, which must parse as a request target.
    pub fn options<M>(&self, uri: &str) -> (r: Request<T, M>) where T: Clone
        requires
            uri_accepts(uri@),
        ensures
            fresh(r, Method::Options, uri@),
            cloned(self.client_spec(), r.client_spec()),
    {
        self.build(Method::Options, uri)
    }

    /// A `TRACE` request for `uri`, which must parse as a request target.
    pub fn trace<M>(&self, uri: &str) -> (r: Request<T, M>) where T: Clone
        requires
            uri_accepts(uri@),
        ensures
            fresh(r, Method::Trace, uri@),
            cloned(self.client_spec(), r.client_spec()),
    {
        self.build(Method::Trace, uri)
    }

    /// A `PATCH` request for `uri`, which must parse as a request target.
    pub fn patch<M>(&self, uri: &str) -> (r: Request<T, M>) where T: Clone
        requires
            uri_accepts(uri@),
        ensures
            fresh(r, Method::Patch, uri@),
            cloned(self.client_spec(), r.client_spec()),
    {
        self.build(Method::Patch, uri)
    }
}

} // verus!
