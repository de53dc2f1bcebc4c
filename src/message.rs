//! The values that travel through the middleware chain: request and response
//! messages, the request method, header lists and the error type.
use vstd::prelude::*;
use vstd::utf8::encode_utf8;

verus! {

/// The request methods a client can issue.
#[derive(Clone, Copy, Debug, PartialEq, Eq, Structural)]
pub enum Method {
    Get,
    Head,
    Post,
    Put,
    Delete,
    Connect,
    Options,
    Trace,
    Patch,
}

/// Why a send did not produce a response.
#[derive(Clone, Debug, PartialEq, Eq)]
pub enum Error {
    /// The request target could not be parsed; raised when a request is built.
    Config,
    /// A failure that a middleware returned.
    Middleware(String),
    /// A failure of the transport: refused connection, DNS, TLS and the like.
    Transport(String),
    /// The response body could not be decoded into the shape asked for.
    Decode,
}

/// An ordered list of header lines; a name may occur more than once.
pub type HeaderList = Vec<(String, String)>;

/// The header lines as pairs of character sequences.
pub open spec fn header_seq(hs: Seq<(String, String)>) -> Seq<(Seq<char>, Seq<char>)> {
    hs.map_values(|h: (String, String)| (h.0@, h.1@))
}

/// A byte with ASCII upper case letters taken to lower case.
pub open spec fn fold_byte(b: u8) -> u8 {
    if 65 <= b <= 90 {
        (b + 32) as u8
    } else {
        b
    }
}

/// The UTF-8 bytes of a name, with ASCII letters in lower case.
pub open spec fn fold_case(s: Seq<char>) -> Seq<u8> {
    encode_utf8(s).map_values(|b: u8| fold_byte(b))
}

/// Whether two header names are the same name: they are compared without
/// regard to ASCII case.
pub open spec fn same_name(a: Seq<char>, b: Seq<char>) -> bool {
    fold_case(a) == fold_case(b)
}

/// The value of the first line whose name is the same as `name`, if any.
pub open spec fn first_value(hs: Seq<(Seq<char>, Seq<char>)>, name: Seq<char>) -> Option<Seq<char>>
    decreases hs.len(),
{
    if hs.len() == 0 {
        None
    } else if same_name(hs[0].0, name) {
        Some(hs[0].1)
    } else {
        first_value(hs.drop_first(), name)
    }
}

fn fold(b: u8) -> (r: u8)
    ensures
        r == fold_byte(b),
{
    if 65 <= b && b <= 90 {
        b + 32
    } else {
        b
    }
}

/// Whether `a` and `b` name the same header.
fn names_equal(a: &str, b: &str) -> (r: bool)
    ensures
        r == same_name(a@, b@),
{
    let x = a.as_bytes();
    let y = b.as_bytes();
    let ghost fx = fold_case(a@);
    let ghost fy = fold_case(b@);
    assert(fx.len() == x@.len() && fy.len() == y@.len());
    if x.len() != y.len() {
        return false;
    }
    let mut i: usize = 0;
    while i < x.len()
        invariant
            x@.len() == y@.len(),
            x@ == encode_utf8(a@),
            y@ == encode_utf8(b@),
            fx == fold_case(a@),
            fy == fold_case(b@),
            i <= x@.len(),
            forall|j: int| 0 <= j < i ==> fold_byte(#[trigger] x@[j]) == fold_byte(y@[j]),
        decreases x@.len() - i,
    {
        if fold(x[i]) != fold(y[i]) {
            assert(fx[i as int] != fy[i as int]);
            return false;
        }
        i = i + 1;
    }
    assert(fx =~= fy) by {
        assert forall|j: int| 0 <= j < fx.len() implies fx[j] == fy[j] by {
            assert(fold_byte(x@[j]) == fold_byte(y@[j]));
        }
    }
    true
}

/// Index of the first line whose name is the same as `name`, or `None` when there is none.
fn find_header(hs: &HeaderList, name: &str) -> (r: Option<usize>)
    ensures
        match r {
            Some(i) => i < hs@.len() && same_name(hs@[i as int].0@, name@) && forall|j: int|
                0 <= j < i ==> !same_name(#[trigger] hs@[j].0@, name@),
            None => forall|j: int| 0 <= j < hs@.len() ==> !same_name(#[trigger] hs@[j].0@, name@),
        },
{
    let mut i: usize = 0;
    while i < hs.len()
        invariant
            i <= hs@.len(),
            forall|j: int| 0 <= j < i ==> !same_name(#[trigger] hs@[j].0@, name@),
        decreases hs@.len() - i,
    {
        if names_equal(hs[i].0.as_str(), name) {
            return Some(i);
        }
        i = i + 1;
    }
    None
}

proof fn lemma_first_value(hs: Seq<(String, String)>, name: Seq<char>, i: int)
    requires
        0 <= i <= hs.len(),
        forall|j: int| 0 <= j < i ==> !same_name(#[trigger] hs[j].0@, name),
    ensures
        i < hs.len() && same_name(hs[i].0@, name) ==> first_value(header_seq(hs), name) == Some(hs[i].1@),
        i == hs.len() ==> first_value(header_seq(hs), name) is None,
    decreases i,
{
    if hs.len() > 0 {
        assert(header_seq(hs).drop_first() =~= header_seq(hs.drop_first()));
        if i > 0 {
            assert(!same_name(hs[0].0@, name));
            assert forall|j: int| 0 <= j < i - 1 implies !same_name(#[trigger] hs.drop_first()[j].0@, name) by {
                assert(hs.drop_first()[j] == hs[j + 1]);
            }
            lemma_first_value(hs.drop_first(), name, i - 1);
        }
    }
}

/// Looks up the first value of header `name` in `hs`.
fn header_value<'a>(hs: &'a HeaderList, name: &str) -> (r: Option<&'a String>)
    ensures
        match r {
            Some(v) => first_value(header_seq(hs@), name@) == Some(v@),
            None => first_value(header_seq(hs@), name@) is None,
        },
{
    let found = find_header(hs, name);
    proof {
        match found {
            Some(i) => lemma_first_value(hs@, name@, i as int),
            None => lemma_first_value(hs@, name@, hs@.len() as int),
        }
    }
    match found {
        Some(i) => Some(&hs[i].1),
        None => None,
    }
}

/// An outgoing request as the middleware and the transport see it.
pub struct HttpRequest {
    method: Method,
    uri: http::Uri,
    headers: HeaderList,
    body: Vec<u8>,
}

impl HttpRequest {
    /// A request for `uri` with the given method, no header lines and an empty body.
    pub fn new(method: Method, uri: http::Uri) -> (r: HttpRequest)
        ensures
            r.method_spec() == method,
            r.uri_spec() == uri,
            r.headers_spec().len() == 0,
            r.body_spec().len() == 0,
    {
        HttpRequest { method, uri, headers: Vec::new(), body: Vec::new() }
    }

    pub closed spec fn method_spec(&self) -> Method {
        self.method
    }

    pub closed spec fn uri_spec(&self) -> http::Uri {
        self.uri
    }

    /// The header lines, in the order they were added.
    pub closed spec fn headers_spec(&self) -> Seq<(Seq<char>, Seq<char>)> {
        header_seq(self.headers@)
    }

    pub closed spec fn body_spec(&self) -> Seq<u8> {
        self.body@
    }

    pub fn method(&self) -> (r: Method)
        ensures
            r == self.method_spec(),
    {
        self.method
    }

    pub fn uri(&self) -> (r: &http::Uri)
        ensures
            *r == self.uri_spec(),
    {
        &self.uri
    }

    /// The value of the first header line whose name is `name`, in any ASCII case.
    pub fn header(&self, name: &str) -> (r: Option<&String>)
        ensures
            match r {
                Some(v) => first_value(self.headers_spec(), name@) == Some(v@),
                None => first_value(self.headers_spec(), name@) is None,
            },
    {
        header_value(&self.headers, name)
    }

    /// The header lines, in the order they were added.
    pub fn headers(&self) -> (r: &HeaderList)
        ensures
            header_seq(r@) == self.headers_spec(),
    {
        &self.headers
    }

    /// Appends a header line; lines already present, of any name, stay.
    pub fn insert_header(&mut self, name: &str, value: &str)
        ensures
            final(self).headers_spec() == old(self).headers_spec().push((name@, value@)),
            final(self).method_spec() == old(self).method_spec(),
            final(self).uri_spec() == old(self).uri_spec(),
            final(self).body_spec() == old(self).body_spec(),
    {
        self.headers.push((name.to_owned(), value.to_owned()));
        proof {
            assert(header_seq(self.headers@) =~= header_seq(old(self).headers@).push((name@, value@)));
        }
    }

    pub fn body(&self) -> (r: &Vec<u8>)
        ensures
            r@ == self.body_spec(),
    {
        &self.body
    }

    /// Replaces the body.
    pub fn set_body(&mut self, body: Vec<u8>)
        ensures
            final(self).body_spec() == body@,
            final(self).headers_spec() == old(self).headers_spec(),
            final(self).method_spec() == old(self).method_spec(),
            final(self).uri_spec() == old(self).uri_spec(),
    {
        self.body = body;
    }
}

/// A response, made by the transport or by a middleware that answers itself.
#[derive(Clone)]
pub struct Response {
    status: u16,
    headers: HeaderList,
    body: Vec<u8>,
}

impl Response {
    /// A response with the given status, no header lines and an empty body.
    pub fn new(status: u16) -> (r: Response)
        ensures
            r.status_spec() == status,
            r.headers_spec().len() == 0,
            r.body_spec().len() == 0,
    {
        Response { status, headers: Vec::new(), body: Vec::new() }
    }

    pub closed spec fn status_spec(&self) -> u16 {
        self.status
    }

    /// The header lines, in the order they were added.
    pub closed spec fn headers_spec(&self) -> Seq<(Seq<char>, Seq<char>)> {
        header_seq(self.headers@)
    }

    pub closed spec fn body_spec(&self) -> Seq<u8> {
        self.body@
    }

    pub fn status(&self) -> (r: u16)
        ensures
            r == self.status_spec(),
    {
        self.status
    }

    /// The value of the first header line whose name is `name`, in any ASCII case.
    pub fn header(&self, name: &str) -> (r: Option<&String>)
        ensures
            match r {
                Some(v) => first_value(self.headers_spec(), name@) == Some(v@),
                None => first_value(self.headers_spec(), name@) is None,
            },
    {
        header_value(&self.headers, name)
    }

    /// The header lines, in the order they were added.
    pub fn headers(&self) -> (r: &HeaderList)
        ensures
            header_seq(r@) == self.headers_spec(),
    {
        &self.headers
    }

    /// Appends a header line; lines already present, of any name, stay.
    pub fn insert_header(&mut self, name: &str, value: &str)
        ensures
            final(self).headers_spec() == old(self).headers_spec().push((name@, value@)),
            final(self).status_spec() == old(self).status_spec(),
            final(self).body_spec() == old(self).body_spec(),
    {
        self.headers.push((name.to_owned(), value.to_owned()));
        proof {
            assert(header_seq(self.headers@) =~= header_seq(old(self).headers@).push((name@, value@)));
        }
    }

    pub fn body(&self) -> (r: &Vec<u8>)
        ensures
            r@ == self.body_spec(),
    {
        &self.body
    }

    /// Replaces the body.
    pub fn set_body(&mut self, body: Vec<u8>)
        ensures
            final(self).body_spec() == body@,
            final(self).headers_spec() == old(self).headers_spec(),
            final(self).status_spec() == old(self).status_spec(),
    {
        self.body = body;
    }

    /// Takes the body out of the response.
    pub fn into_body(self) -> (r: Vec<u8>)
        ensures
            r@ == self.body_spec(),
    {
        self.body
    }
}

} // verus!
