//! Endpoint validation: an endpoint is usable when it parses as an absolute
//! URL whose scheme is `ws` or `wss`. Parsing itself is delegated to the
//! `url` crate; its outcome on a given string is named by two uninterpreted
//! spec functions, and everything else is proved against those names.

use vstd::prelude::*;

verus! {

/// Whether `url::Url::parse` accepts this string as an absolute URL.
pub uninterp spec fn url_parses(s: Seq<char>) -> bool;

/// The lower-cased scheme of the parsed URL, when `url_parses` holds.
pub uninterp spec fn url_scheme(s: Seq<char>) -> Seq<char>;

/// An endpoint the client can connect to: a parseable absolute URL with a
/// WebSocket-capable scheme.
pub open spec fn endpoint_ok(s: Seq<char>) -> bool {
    url_parses(s) && (url_scheme(s) == "ws"@ || url_scheme(s) == "wss"@)
}

/// Relies on `url::Url::parse`, a deterministic parser of its input string
/// alone, and on `url::Url::scheme`, which returns the parsed URL's
/// lower-cased scheme: the result is `Some` exactly when the string parses,
/// and then carries the scheme.
#[verifier::external_body]
fn parse_scheme(s: &str) -> (r: Option<String>)
    ensures
        r is Some <==> url_parses(s@),
        r matches Some(sch) ==> sch@ == url_scheme(s@),
{
    match url::Url::parse(s) {
        Ok(u) => Some(u.scheme().to_string()),
        Err(_) => None,
    }
}

/// Decide whether this string is a connectable endpoint: it must parse as
/// an absolute URL and its scheme must be `ws` or `wss`.
pub fn endpoint_is_valid(s: &str) -> (r: bool)
    ensures
        r == endpoint_ok(s@),
{
    match parse_scheme(s) {
        Some(sch) => {
            let ws: String = "ws".to_owned();
            let wss: String = "wss".to_owned();
            sch == ws || sch == wss
        },
        None => false,
    }
}

} // verus!
