//! Parsing, normalization and admission of submitted URLs.
use vstd::prelude::*;
use crate::text::{chars_of, chars_equal};

verus! {

/// The most characters an admitted URL may have.
pub const MAX_URL_CHARS: usize = 2048;

/// What the analysis reads of a parsed absolute URL.
pub struct UrlParts {
    /// The scheme, lower case, without the `:`.
    pub scheme: String,
    /// The host as text, where the URL has one.
    pub host: Option<String>,
    /// The host, where it is a domain name rather than an IP address.
    pub domain: Option<String>,
}

/// The view of an optional string.
pub open spec fn opt_view(o: Option<String>) -> Option<Seq<char>> {
    match o {
        Some(s) => Some(s@),
        None => None,
    }
}

impl View for UrlParts {
    type V = (Seq<char>, Option<Seq<char>>, Option<Seq<char>>);

    open spec fn view(&self) -> Self::V {
        (self.scheme@, opt_view(self.host), opt_view(self.domain))
    }
}

/// Scheme, host and domain of `s` parsed as an absolute URL; `None` where
/// `s` does not parse as one.
pub uninterp spec fn url_parts(s: Seq<char>) -> Option<(Seq<char>, Option<Seq<char>>, Option<Seq<char>>)>;

/// Relies on `url::Url::parse` and, on the URL it returns, on `Url::scheme`,
/// `Url::host_str` and `Url::domain`: whether the text parses, and what those
/// accessors give, depend on the text alone.
#[verifier::external_body]
pub(crate) fn parse_url(s: &str) -> (r: Option<UrlParts>)
    ensures
        match r {
            Some(p) => url_parts(s@) == Some(p@),
            None => url_parts(s@) is None,
        },
{
    match url::Url::parse(s) {
        Ok(u) => Some(UrlParts {
            scheme: u.scheme().to_string(),
            host: u.host_str().map(String::from),
            domain: u.domain().map(String::from),
        }),
        Err(_) => None,
    }
}

/// `s` unchanged where it parses as an absolute URL, else `s` behind `https://`.
pub open spec fn normalized(s: Seq<char>) -> Seq<char> {
    if url_parts(s) is Some {
        s
    } else {
        "https://"@ + s
    }
}

/// A scheme that the analysis admits.
pub open spec fn is_web_scheme(scheme: Seq<char>) -> bool {
    scheme == "http"@ || scheme == "https"@
}

/// The admission rule: at most `MAX_URL_CHARS` characters, and the
/// normalized text parses with scheme `http` or `https`.
pub open spec fn admitted(s: Seq<char>) -> bool {
    &&& s.len() <= MAX_URL_CHARS
    &&& match url_parts(normalized(s)) {
        Some(p) => is_web_scheme(p.0),
        None => false,
    }
}

/// Parses `url` as an absolute URL, normalized first.
pub fn parse_normalized(url: &str) -> (r: Option<UrlParts>)
    ensures
        match r {
            Some(p) => url_parts(normalized(url@)) == Some(p@),
            None => url_parts(normalized(url@)) is None,
        },
{
    let n = normalize_url(url);
    parse_url(n.as_str())
}

/// Canonicalizes a raw string into an absolute URL: kept as it is where it
/// parses as one, otherwise prefixed with `https://`. Never fails.
pub fn normalize_url(url: &str) -> (r: String)
    ensures
        r@ == normalized(url@),
{
    if parse_url(url).is_some() {
        String::from_str(url)
    } else {
        let mut r = String::from_str("https://");
        r.append(url);
        r
    }
}

/// Whether `scheme` is `http` or `https`.
pub fn is_web_scheme_name(scheme: &str) -> (r: bool)
    ensures
        r == is_web_scheme(scheme@),
{
    let sc = chars_of(scheme);
    chars_equal(&sc, &chars_of("http")) || chars_equal(&sc, &chars_of("https"))
}

/// The admission gate applied before any analysis.
pub fn is_valid_url(url: &str) -> (r: bool)
    ensures
        r == admitted(url@),
        url@.len() > MAX_URL_CHARS ==> !r,
{
    if url.unicode_len() > MAX_URL_CHARS {
        return false;
    }
    match parse_normalized(url) {
        Some(p) => is_web_scheme_name(p.scheme.as_str()),
        None => false,
    }
}

/// No input longer than `MAX_URL_CHARS` characters is admitted, whatever it
/// holds.
pub proof fn oversized_input_is_rejected(s: Seq<char>)
    requires
        s.len() > MAX_URL_CHARS,
    ensures
        !admitted(s),
{
}

/// Normalizing an admitted input a second time changes nothing.
pub proof fn normalizing_admitted_is_stable(s: Seq<char>)
    requires
        admitted(s),
    ensures
        normalized(normalized(s)) == normalized(s),
{
}

} // verus!
