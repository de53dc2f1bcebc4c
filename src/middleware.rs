//! The middleware chain.
//!
//! A send runs the attached middleware in order. Each one receives the request,
//! the transport handle and a cursor over the middleware after it, `Next`. It may
//! forward the request through `Next::run` once, several times or not at all,
//! and it may act before and after doing so. Once no middleware remains, `run`
//! hands the request to the transport.
use vstd::prelude::*;
use crate::message::{Error, HttpRequest, Response};

verus! {

/// The capability that performs a send: the end of every chain.
pub trait Transport {
    /// Whether this transport may answer `req` with `r`. An implementation
    /// that states nothing of its answers keeps this default.
    closed spec fn sends(&self, req: HttpRequest, r: Result<Response, Error>) -> bool {
        true
    }

    fn send(&self, req: HttpRequest) -> (r: Result<Response, Error>)
        ensures
            self.sends(req, r),
    ;
}

/// A unit of logic wrapped around the rest of the chain.
pub trait Middleware<T>: Sized {
    /// Whether this middleware may answer `req`, sent with `client`, with `r`,
    /// when the rest of the chain is `list` from position `pos` on. An
    /// implementation that states nothing of its answers keeps this default.
    closed spec fn handles(
        &self,
        req: HttpRequest,
        client: T,
        list: Seq<Self>,
        pos: nat,
        r: Result<Response, Error>,
    ) -> bool {
        true
    }

    /// Handles `req`; `next` runs the middleware after this one and then the transport.
    fn handle<'a>(&'a self, req: HttpRequest, client: &T, next: Next<'a, Self>) -> (r: Result<
        Response,
        Error,
    >)
        ensures
            self.handles(req, *client, next.middleware_spec(), next.pos_spec(), r),
    ;
}

/// The remainder of a middleware chain: the middleware from position `pos` on,
/// followed by the transport. Advancing gives a new cursor and leaves this one as
/// it is, so a middleware may run its `Next` more than once.
pub struct Next<'a, M> {
    middleware: &'a [M],
    pos: usize,
}

/// What running a cursor does first.
pub enum Step<'a, M> {
    /// Call this middleware, with the cursor just past it.
    Handle(&'a M, Next<'a, M>),
    /// No middleware remains: call the transport.
    Endpoint,
}

impl<'a, M> Clone for Next<'a, M> {
    fn clone(&self) -> (r: Self)
        ensures
            r == *self,
    {
        Next { middleware: self.middleware, pos: self.pos }
    }
}

impl<'a, M> Copy for Next<'a, M> {
}

impl<'a, M> Next<'a, M> {
    /// The whole middleware list this cursor walks.
    pub closed spec fn middleware_spec(self) -> Seq<M> {
        self.middleware@
    }

    /// The position of the next middleware to run.
    pub closed spec fn pos_spec(self) -> nat {
        self.pos as nat
    }

    /// How many middleware remain before the transport.
    pub open spec fn remaining(self) -> nat {
        if self.pos_spec() < self.middleware_spec().len() {
            (self.middleware_spec().len() - self.pos_spec()) as nat
        } else {
            0
        }
    }

    /// What running this cursor on `req` with `client` may give: what the next
    /// middleware gives, handed the cursor just past it, or, once none is left,
    /// what the transport gives.
    pub open spec fn runs<T: Transport>(self, req: HttpRequest, client: T, r: Result<Response, Error>) -> bool where
        M: Middleware<T>,
     {
        if self.remaining() > 0 {
            self.middleware_spec()[self.pos_spec() as int].handles(
                req,
                client,
                self.middleware_spec(),
                self.pos_spec() + 1,
                r,
            )
        } else {
            client.sends(req, r)
        }
    }

    /// A cursor over the whole of `next`.
    pub fn new(next: &'a [M]) -> (r: Self)
        ensures
            r.middleware_spec() == next@,
            r.pos_spec() == 0,
    {
        Next { middleware: next, pos: 0 }
    }

    /// Splits off the next middleware, or reports that only the transport is left.
    pub fn step(self) -> (r: Step<'a, M>)
        ensures
            match r {
                Step::Handle(m, rest) => self.remaining() > 0 && *m == self.middleware_spec()[self.pos_spec() as int]
                    && rest.middleware_spec() == self.middleware_spec() && rest.pos_spec() == self.pos_spec() + 1,
                Step::Endpoint => self.remaining() == 0,
            },
    {
        if self.pos < self.middleware.len() {
            Step::Handle(&self.middleware[self.pos], Next { middleware: self.middleware, pos: self.pos + 1 })
        } else {
            Step::Endpoint
        }
    }

    /// Runs the rest of the chain on `req`: the next middleware, with the cursor
    /// past it, or the transport once none is left. Its outcome is returned as it is.
    pub fn run<T: Transport>(self, req: HttpRequest, client: &T) -> (r: Result<Response, Error>) where
        M: Middleware<T>,
        ensures
            self.runs(req, *client, r),
    {
        match self.step() {
            Step::Handle(current, rest) => current.handle(req, client, rest),
            Step::Endpoint => client.send(req),
        }
    }
}

} // verus!
