//! Request targets, parsed by the `http` crate.
use vstd::prelude::*;

verus! {

#[verifier::external_type_specification]
#[verifier::external_body]
pub struct ExUri(http::Uri);

#[verifier::external_type_specification]
#[verifier::external_body]
pub struct ExInvalidUri(http::uri::InvalidUri);

/// What `http::Uri` makes of the text `s`: the parsed target, or `None` where
/// the text is not a request target.
pub uninterp spec fn uri_parse(s: Seq<char>) -> Option<http::Uri>;

/// Whether `s` parses as a request target.
pub open spec fn uri_accepts(s: Seq<char>) -> bool {
    uri_parse(s) is Some
}

/// Relies on `<http::Uri as FromStr>::from_str`: its outcome depends on the text
/// alone; it rejects the empty text and accepts `/`.
#[verifier::external_body]
pub(crate) fn parse_uri(s: &str) -> (r: Result<http::Uri, http::uri::InvalidUri>)
    ensures
        match r {
            Ok(u) => uri_parse(s@) == Some(u),
            Err(_) => uri_parse(s@) is None,
        },
        s@.len() == 0 ==> r is Err,
        s@ == seq!['/'] ==> r is Ok,
{
    s.parse::<http::Uri>()
}

} // verus!
