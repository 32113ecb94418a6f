//! Lexical and structural signals read off a normalized URL.
use vstd::prelude::*;
use crate::text::{
    after, after_exec, chars_equal, chars_of, contains_char, contains_exec, contains_seq,
    count_char, count_char_exec, last_label, last_label_exec,
};
use crate::weburl::{normalize_url, normalized, parse_url, url_parts};

verus! {

/// Top-level domains that count as suspicious.
pub open spec fn suspicious_tlds() -> Seq<Seq<char>> {
    seq!["xyz"@, "top"@, "club"@, "online"@, "site"@, "info"@, "biz"@]
}

/// The suspicious top-level domains, in the order of `suspicious_tlds`.
pub fn suspicious_tld_list() -> (r: Vec<&'static str>)
    ensures
        r@.len() == suspicious_tlds().len(),
        forall|i: int| 0 <= i < r@.len() ==> #[trigger] r@[i]@ == suspicious_tlds()[i],
{
    vec!["xyz", "top", "club", "online", "site", "info", "biz"]
}

/// The signals of one URL. `None` marks a signal that could not be computed
/// (the URL does not parse, or has no domain); callers read it as false.
#[derive(Clone, Copy, Debug, PartialEq, Eq, Structural)]
pub struct UrlFeatures {
    /// The rightmost label of the domain is a suspicious top-level domain.
    pub has_suspicious_tld: Option<bool>,
    /// The domain contains a hyphen.
    pub has_dash_in_domain: Option<bool>,
    /// The domain has more than two dots.
    pub has_multiple_subdomains: Option<bool>,
    /// The whole URL text is an IP address literal.
    pub has_ip_address: Option<bool>,
    /// The URL text contains `@`.
    pub has_at_symbol: Option<bool>,
    /// The URL text, past its first eight characters, contains `//`.
    pub has_double_slash: Option<bool>,
}

/// A signal read as a plain flag: absent counts as false.
pub open spec fn flag(o: Option<bool>) -> bool {
    o == Some(true)
}

/// The signals that a domain name gives.
pub open spec fn domain_features(d: Seq<char>) -> (Option<bool>, Option<bool>, Option<bool>) {
    (
        if d.contains('.') { Some(suspicious_tlds().contains(last_label(d))) } else { None },
        Some(d.contains('-')),
        Some(count_char(d, '.') > 2),
    )
}

/// The signals of `url`, normalized first; `ip_literal` tells whether the
/// normalized text is an IP address literal.
pub open spec fn features_of(url: Seq<char>, ip_literal: bool) -> UrlFeatures {
    let n = normalized(url);
    match url_parts(n) {
        None => UrlFeatures {
            has_suspicious_tld: None,
            has_dash_in_domain: None,
            has_multiple_subdomains: None,
            has_ip_address: None,
            has_at_symbol: None,
            has_double_slash: None,
        },
        Some(p) => {
            let (tld, dash, subs) = match p.2 {
                Some(d) => domain_features(d),
                None => (None, None, None),
            };
            UrlFeatures {
                has_suspicious_tld: tld,
                has_dash_in_domain: dash,
                has_multiple_subdomains: subs,
                has_ip_address: Some(ip_literal),
                has_at_symbol: Some(n.contains('@')),
                has_double_slash: Some(contains_seq(after(n, 8), "//"@)),
            }
        },
    }
}

/// Whether `label` is a suspicious top-level domain.
fn is_suspicious_tld(label: &Vec<char>) -> (r: bool)
    ensures
        r == suspicious_tlds().contains(label@),
{
    let tlds = suspicious_tld_list();
    let mut i: usize = 0;
    while i < tlds.len()
        invariant
            i <= tlds@.len(),
            tlds@.len() == suspicious_tlds().len(),
            forall|k: int| 0 <= k < tlds@.len() ==> #[trigger] tlds@[k]@ == suspicious_tlds()[k],
            forall|k: int| 0 <= k < i ==> suspicious_tlds()[k] != label@,
        decreases tlds@.len() - i,
    {
        if chars_equal(label, &chars_of(tlds[i])) {
            assert(suspicious_tlds()[i as int] == label@);
            return true;
        }
        i = i + 1;
    }
    false
}

/// The signals that the domain name `domain` gives: suspicious top-level
/// domain (only where it has a dot), a hyphen, more than two dots.
pub fn domain_signals(domain: &str) -> (r: (Option<bool>, Option<bool>, Option<bool>))
    ensures
        r == domain_features(domain@),
{
    let dc = chars_of(domain);
    let tld = if contains_char(&dc, '.') {
        Some(is_suspicious_tld(&last_label_exec(&dc)))
    } else {
        None
    };
    (tld, Some(contains_char(&dc, '-')), Some(count_char_exec(&dc, '.') > 2))
}

/// Extracts the signals of `url` (normalized first). `ip_literal` tells
/// whether the normalized text parses as an IP address.
pub fn extract_url_features(url: &str, ip_literal: bool) -> (r: UrlFeatures)
    ensures
        r == features_of(url@, ip_literal),
{
    let n = normalize_url(url);
    let parts = match parse_url(n.as_str()) {
        Some(p) => p,
        None => {
            return UrlFeatures {
                has_suspicious_tld: None,
                has_dash_in_domain: None,
                has_multiple_subdomains: None,
                has_ip_address: None,
                has_at_symbol: None,
                has_double_slash: None,
            };
        },
    };
    let (tld, dash, subs) = match &parts.domain {
        Some(d) => domain_signals(d.as_str()),
        None => (None, None, None),
    };
    let nc = chars_of(n.as_str());
    let slashes = chars_of("//");
    UrlFeatures {
        has_suspicious_tld: tld,
        has_dash_in_domain: dash,
        has_multiple_subdomains: subs,
        has_ip_address: Some(ip_literal),
        has_at_symbol: Some(contains_char(&nc, '@')),
        has_double_slash: Some(contains_exec(&after_exec(&nc, 8), &slashes)),
    }
}

} // verus!
