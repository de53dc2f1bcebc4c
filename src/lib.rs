//! An HTTP client whose requests pass through an ordered chain of middleware
//! before they reach a pluggable transport.
use vstd::prelude::*;

pub mod client;
pub mod message;
pub mod middleware;
pub mod request;
pub mod trace;
pub mod uri;

pub use client::Client;
pub use message::{Error, HeaderList, HttpRequest, Method, Response};
pub use middleware::{Middleware, Next, Step, Transport};
pub use request::Request;

verus! {

} // verus!
