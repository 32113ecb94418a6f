//! The two deny-list sources: a local list of exact URLs and a remote list
//! of substrings. A source that could not be read or parsed is `None` and
//! flags nothing.
use vstd::prelude::*;
use crate::text::{chars_equal, chars_of, contains_exec, contains_seq};

verus! {

/// The local list of flagged URLs.
pub struct PhishingList {
    pub flagged_sites: Vec<String>,
}

/// The remote deny-list: text fragments that mark a URL as phishing.
pub struct DenyList {
    pub deny: Vec<String>,
}

/// The views of a vector of strings.
pub open spec fn strings_view(v: Seq<String>) -> Seq<Seq<char>> {
    v.map_values(|s: String| s@)
}

impl View for PhishingList {
    type V = Seq<Seq<char>>;

    open spec fn view(&self) -> Seq<Seq<char>> {
        strings_view(self.flagged_sites@)
    }
}

impl View for DenyList {
    type V = Seq<Seq<char>>;

    open spec fn view(&self) -> Seq<Seq<char>> {
        strings_view(self.deny@)
    }
}

/// The lower-case form of `s`, as `str::to_lowercase` gives it.
pub uninterp spec fn lower_of(s: Seq<char>) -> Seq<char>;

/// Relies on `str::to_lowercase`: its result depends on the characters alone.
#[verifier::external_body]
fn lowercase(s: &str) -> (r: String)
    ensures
        r@ == lower_of(s@),
{
    s.to_lowercase()
}

/// `url` is one of the locally flagged URLs, character for character.
pub open spec fn flagged_locally(url: Seq<char>, list: Option<Seq<Seq<char>>>) -> bool {
    match list {
        Some(sites) => sites.contains(url),
        None => false,
    }
}

/// `entry` occurs in `url`, both lower-cased.
pub open spec fn entry_hits(url: Seq<char>, entry: Seq<char>) -> bool {
    contains_seq(lower_of(url), lower_of(entry))
}

/// Some entry of `entries` occurs in `url`, both lower-cased.
pub open spec fn hits_any(url: Seq<char>, entries: Seq<Seq<char>>) -> bool {
    exists|i: int| 0 <= i < entries.len() && #[trigger] entry_hits(url, entries[i])
}

/// A deny-list was loaded and one of its entries occurs in `url`.
pub open spec fn flagged_remotely(url: Seq<char>, list: Option<Seq<Seq<char>>>) -> bool {
    match list {
        Some(entries) => hits_any(url, entries),
        None => false,
    }
}

/// The view of an optional list.
pub open spec fn list_view<L: View<V = Seq<Seq<char>>>>(list: &Option<L>) -> Option<Seq<Seq<char>>> {
    match list {
        Some(l) => Some(l@),
        None => None,
    }
}

/// Whether `url` exactly equals one of the locally flagged URLs.
pub fn check_local_phishing_db(url: &str, list: &Option<PhishingList>) -> (r: bool)
    ensures
        r == flagged_locally(url@, list_view(list)),
{
    let sites = match list {
        Some(l) => &l.flagged_sites,
        None => return false,
    };
    let u = chars_of(url);
    let mut i: usize = 0;
    while i < sites.len()
        invariant
            i <= sites@.len(),
            u@ == url@,
            list_view(list) == Some(strings_view(sites@)),
            forall|k: int| 0 <= k < i ==> sites@[k]@ != u@,
        decreases sites@.len() - i,
    {
        if chars_equal(&u, &chars_of(sites[i].as_str())) {
            assert(strings_view(sites@)[i as int] == u@);
            return true;
        }
        i = i + 1;
    }
    assert(!strings_view(sites@).contains(u@));
    false
}

/// Whether `entry_lower` occurs in `url_lower`; both are already lower-cased.
pub fn contains_lowered(url_lower: &str, entry_lower: &str) -> (r: bool)
    ensures
        r == contains_seq(url_lower@, entry_lower@),
{
    contains_exec(&chars_of(url_lower), &chars_of(entry_lower))
}

/// Whether some deny-list entry occurs in `url`, ignoring case.
pub fn check_online_phishing_db(url: &str, list: &Option<DenyList>) -> (r: bool)
    ensures
        r == flagged_remotely(url@, list_view(list)),
{
    let entries = match list {
        Some(l) => &l.deny,
        None => return false,
    };
    let url_lower = lowercase(url);
    let mut i: usize = 0;
    while i < entries.len()
        invariant
            i <= entries@.len(),
            list_view(list) == Some(strings_view(entries@)),
            url_lower@ == lower_of(url@),
            forall|k: int| 0 <= k < i ==> !entry_hits(url@, #[trigger] entries@[k]@),
        decreases entries@.len() - i,
    {
        let entry_lower = lowercase(entries[i].as_str());
        if contains_lowered(url_lower.as_str(), entry_lower.as_str()) {
            assert(strings_view(entries@)[i as int] == entries@[i as int]@);
            assert(strings_view(entries@).len() == entries@.len());
            assert(entry_hits(url@, strings_view(entries@)[i as int]));
            return true;
        }
        i = i + 1;
    }
    assert forall|k: int| 0 <= k < strings_view(entries@).len() implies
        !#[trigger] entry_hits(url@, strings_view(entries@)[k]) by {
        assert(strings_view(entries@)[k] == entries@[k]@);
    }
    false
}

} // verus!
