//! Absolute-URL decomposition for the website credential source.
//!
//! The library does not do its own URL parsing: the `url` crate does the
//! parsing, behind one trusted wrapper that hands back the four components
//! the credential logic reads. Everything done with those components is
//! verified.

use vstd::prelude::*;

verus! {

/// The components of a parsed absolute URL that the credential logic reads.
#[derive(Debug, Clone)]
pub struct RawUrlParts {
    /// The URL's scheme, lower-cased, without the `:` delimiter.
    pub scheme: String,
    /// The host, when the URL has one.
    pub host: Option<String>,
    /// The explicitly written port; absent also when it equals the scheme's
    /// known default.
    pub port: Option<u16>,
    /// The path component; never empty for URLs that have a host.
    pub path: String,
}

/// Ghost mirror of `RawUrlParts`.
pub struct UrlPartsModel {
    pub scheme: Seq<char>,
    pub host: Option<Seq<char>>,
    pub port: Option<u16>,
    pub path: Seq<char>,
}

/// What parsing a string as an absolute URL yields: `None` when the string
/// is not an absolute URL, otherwise its components. The result depends on
/// the characters of the input alone.
pub uninterp spec fn url_parts_of(s: Seq<char>) -> Option<UrlPartsModel>;

pub open spec fn raw_parts_view(p: RawUrlParts) -> UrlPartsModel {
    UrlPartsModel {
        scheme: p.scheme@,
        host: crate::creds::opt_str_view(p.host),
        port: p.port,
        path: p.path@,
    }
}

/// Relies on `url::Url::parse` and the accessors `scheme`, `host_str`,
/// `port` and `path`: parsing is a pure function of the input string, and
/// the accessors return the components of the parsed URL.
#[verifier::external_body]
pub(crate) fn parse_url_parts(s: &str) -> (r: Option<RawUrlParts>)
    ensures
        match r {
            Some(p) => url_parts_of(s@) == Some(raw_parts_view(p)),
            None => url_parts_of(s@) is None,
        },
{
    match url::Url::parse(s) {
        Ok(u) => Some(RawUrlParts {
            scheme: u.scheme().to_string(),
            host: u.host_str().map(|h| h.to_string()),
            port: u.port(),
            path: u.path().to_string(),
        }),
        Err(_) => None,
    }
}

/// Whether a string equals a given literal, stated over views.
pub fn string_is(s: &String, lit: &str) -> (r: bool)
    ensures
        r == (s@ == lit@),
{
    let l: String = lit.to_owned();
    s.eq(&l)
}

} // verus!
