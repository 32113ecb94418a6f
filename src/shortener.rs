//! Recognition of link-shortening services by host name.
use vstd::prelude::*;
use crate::text::{chars_of, chars_equal, ends_with_exec, ends_with_seq};
use crate::weburl::{normalized, parse_normalized, url_parts};

verus! {

/// Host names of known link-shortening services, in lower case as parsed
/// hosts are.
pub open spec fn shortener_hosts() -> Seq<Seq<char>> {
    seq![
        "bit.ly"@, "tinyurl.com"@, "t.co"@, "goo.gl"@, "is.gd"@, "cli.gs"@, "pic.gd"@,
        "dwarfurl.com"@, "ow.ly"@, "snipurl.com"@, "short.to"@, "budurl.com"@,
        "ping.fm"@, "post.ly"@, "just.as"@, "bkite.com"@, "snipr.com"@, "fic.kr"@,
        "loopt.us"@, "doiop.com"@, "twitthis.com"@, "htxt.it"@, "alturl.com"@,
        "redirx.com"@, "digbig.com"@, "tiny.cc"@, "u.nu"@, "u.to"@, "ln-s.net"@,
        "twurl.nl"@, "zi.ma"@, "urlx.ie"@, "adjix.com"@, "cutt.ly"@, "tr.im"@,
        "tiny.pl"@, "url4.eu"@, "fave.co"@, "hurl.ws"@, "ur1.ca"@, "x.co"@,
        "prettylinkpro.com"@, "scrnch.me"@, "filoops.info"@, "vzturl.com"@,
        "qr.net"@, "1url.com"@, "tweez.me"@, "v.gd"@, "link.zip.net"@,
        "tinyarrows.com"@, "shrinkster.com"@, "go2.me"@, "go2l.ink"@, "youtu.be"@,
        "amzn.to"@
    ]
}

/// The known shortener host names, in the order of `shortener_hosts`.
pub fn shortener_list() -> (r: Vec<&'static str>)
    ensures
        r@.len() == shortener_hosts().len(),
        forall|i: int| 0 <= i < r@.len() ==> #[trigger] r@[i]@ == shortener_hosts()[i],
{
    let r = vec![
        "bit.ly", "tinyurl.com", "t.co", "goo.gl", "is.gd", "cli.gs", "pic.gd",
        "dwarfurl.com", "ow.ly", "snipurl.com", "short.to", "budurl.com",
        "ping.fm", "post.ly", "just.as", "bkite.com", "snipr.com", "fic.kr",
        "loopt.us", "doiop.com", "twitthis.com", "htxt.it", "alturl.com",
        "redirx.com", "digbig.com", "tiny.cc", "u.nu", "u.to", "ln-s.net",
        "twurl.nl", "zi.ma", "urlx.ie", "adjix.com", "cutt.ly", "tr.im",
        "tiny.pl", "url4.eu", "fave.co", "hurl.ws", "ur1.ca", "x.co",
        "prettylinkpro.com", "scrnch.me", "filoops.info", "vzturl.com",
        "qr.net", "1url.com", "tweez.me", "v.gd", "link.zip.net",
        "tinyarrows.com", "shrinkster.com", "go2.me", "go2l.ink", "youtu.be",
        "amzn.to",
    ];
    assert(r@.len() == shortener_hosts().len());
    r
}

/// `host` is a known shortener or a subdomain of one (a full-label suffix).
pub open spec fn is_shortener_host(host: Seq<char>) -> bool {
    exists|i: int|
        0 <= i < shortener_hosts().len() && #[trigger] shortener_match(host, shortener_hosts()[i])
}

/// `host` equals `name`, or ends with `.` followed by `name`.
pub open spec fn shortener_match(host: Seq<char>, name: Seq<char>) -> bool {
    host == name || ends_with_seq(host, seq!['.'] + name)
}

/// The normalized `url` parses and its host is a known shortener.
pub open spec fn shortened(url: Seq<char>) -> bool {
    match url_parts(normalized(url)) {
        Some(p) => match p.1 {
            Some(h) => is_shortener_host(h),
            None => false,
        },
        None => false,
    }
}

/// Whether the host of `url` (normalized first) belongs to a known
/// link-shortening service.
pub fn is_known_shortener(url: &str) -> (r: bool)
    ensures
        r == shortened(url@),
{
    let parts = match parse_normalized(url) {
        Some(p) => p,
        None => return false,
    };
    match &parts.host {
        Some(h) => is_shortener_host_name(h.as_str()),
        None => false,
    }
}

/// Whether `host` is a known shortener or a subdomain of one.
pub fn is_shortener_host_name(host: &str) -> (r: bool)
    ensures
        r == is_shortener_host(host@),
{
    let hc = chars_of(host);
    let names = shortener_list();
    let mut i: usize = 0;
    while i < names.len()
        invariant
            i <= names@.len(),
            hc@ == host@,
            names@.len() == shortener_hosts().len(),
            forall|k: int| 0 <= k < names@.len() ==> #[trigger] names@[k]@ == shortener_hosts()[k],
            forall|k: int| 0 <= k < i ==> !shortener_match(hc@, #[trigger] shortener_hosts()[k]),
        decreases names@.len() - i,
    {
        let name = chars_of(names[i]);
        let mut dotted: Vec<char> = vec!['.'];
        let mut rest = chars_of(names[i]);
        dotted.append(&mut rest);
        assert(dotted@ =~= seq!['.'] + shortener_hosts()[i as int]);
        if chars_equal(&hc, &name) || ends_with_exec(&hc, &dotted) {
            assert(shortener_match(hc@, shortener_hosts()[i as int]));
            return true;
        }
        i = i + 1;
    }
    false
}

} // verus!
