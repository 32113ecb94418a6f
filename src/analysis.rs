//! The analysis of one submitted URL, and the response to one request.
use vstd::prelude::*;
use crate::blacklist::{
    check_local_phishing_db, check_online_phishing_db, flagged_locally, flagged_remotely,
    list_view, DenyList, PhishingList,
};
use crate::features::{extract_url_features, features_of, flag, UrlFeatures};
use crate::scoring::{
    assess_risk, calculate_risk_score, level_of, level_text, risk_score, standard_weights,
    RiskWeights,
};
use crate::shortener::{is_known_shortener, shortened};
use crate::weburl::{admitted, is_valid_url, normalize_url, normalized};

verus! {

/// The outcome of the deny-list and shortener checks on one URL.
#[derive(Clone, Copy, Debug, PartialEq, Eq, Structural)]
pub struct UrlCheckResult {
    pub is_phishing: bool,
    pub is_shortened: bool,
}

/// The checks on `url`, normalized first.
pub open spec fn check_of(
    url: Seq<char>,
    local: Option<Seq<Seq<char>>>,
    remote: Option<Seq<Seq<char>>>,
) -> UrlCheckResult {
    let n = normalized(url);
    UrlCheckResult {
        is_phishing: flagged_locally(n, local) || flagged_remotely(n, remote),
        is_shortened: shortened(n),
    }
}

/// Runs both deny-list checks and the shortener check on `url`, normalized
/// first. A source that is `None` flags nothing.
pub fn checking_url_enhanced(
    url: &str,
    local: &Option<PhishingList>,
    remote: &Option<DenyList>,
) -> (r: UrlCheckResult)
    ensures
        r == check_of(url@, list_view(local), list_view(remote)),
{
    let n = normalize_url(url);
    let is_phishing_local = check_local_phishing_db(n.as_str(), local);
    let is_phishing_online = check_online_phishing_db(n.as_str(), remote);
    let is_shortened = is_known_shortener(n.as_str());
    UrlCheckResult { is_phishing: is_phishing_local || is_phishing_online, is_shortened }
}

/// The views of a vector of string pairs.
pub open spec fn pairs_view(v: Seq<(String, String)>) -> Seq<(Seq<char>, Seq<char>)> {
    v.map_values(|p: (String, String)| (p.0@, p.1@))
}

/// An entry for the signal `name` where it fired.
pub open spec fn entry_if(fired: bool, name: Seq<char>) -> Seq<(Seq<char>, Seq<char>)> {
    if fired {
        seq![(name, "Suspicious feature detected"@)]
    } else {
        Seq::empty()
    }
}

/// The entries for the signals of `f` that fired.
pub open spec fn feature_entries(f: UrlFeatures) -> Seq<(Seq<char>, Seq<char>)> {
    entry_if(flag(f.has_suspicious_tld), "has_suspicious_tld"@)
        + entry_if(flag(f.has_dash_in_domain), "has_dash_in_domain"@)
        + entry_if(flag(f.has_multiple_subdomains), "has_multiple_subdomains"@)
        + entry_if(flag(f.has_ip_address), "has_ip_address"@)
        + entry_if(flag(f.has_at_symbol), "has_at_symbol"@)
        + entry_if(flag(f.has_double_slash), "has_double_slash"@)
}

/// The descriptive breakdown: a deny-list hit, each signal that fired, and
/// the verdict.
pub open spec fn breakdown(is_phishing: bool, f: UrlFeatures, verdict: Seq<char>) -> Seq<
    (Seq<char>, Seq<char>),
> {
    (if is_phishing {
        seq![("phishing_detected"@, "URL found in phishing database"@)]
    } else {
        Seq::empty()
    }) + feature_entries(f) + seq![("risk_assessment"@, verdict)]
}

/// The result of analysing one URL.
pub struct UrlAnalysis {
    /// The normalized URL.
    pub url: String,
    pub is_shortened: bool,
    pub is_phishing: bool,
    /// The score in hundredths, at most `SCORE_SCALE`.
    pub risk_score: u32,
    /// Signal name and description, one entry per name.
    pub analysis: Vec<(String, String)>,
}

/// What an analysis says, over plain values.
pub struct AnalysisModel {
    pub url: Seq<char>,
    pub is_shortened: bool,
    pub is_phishing: bool,
    pub risk_score: int,
    pub analysis: Seq<(Seq<char>, Seq<char>)>,
}

impl View for UrlAnalysis {
    type V = AnalysisModel;

    open spec fn view(&self) -> AnalysisModel {
        AnalysisModel {
            url: self.url@,
            is_shortened: self.is_shortened,
            is_phishing: self.is_phishing,
            risk_score: self.risk_score as int,
            analysis: pairs_view(self.analysis@),
        }
    }
}

/// The analysis of `url`; `ip_literal` tells whether its normalized text
/// is an IP address literal.
pub open spec fn analysis_of(
    url: Seq<char>,
    local: Option<Seq<Seq<char>>>,
    remote: Option<Seq<Seq<char>>>,
    ip_literal: bool,
) -> AnalysisModel {
    let n = normalized(url);
    let c = check_of(n, local, remote);
    let f = features_of(n, ip_literal);
    let score = risk_score(standard_weights(), c.is_shortened, c.is_phishing, f);
    AnalysisModel {
        url: n,
        is_shortened: c.is_shortened,
        is_phishing: c.is_phishing,
        risk_score: score,
        analysis: breakdown(c.is_phishing, f, level_text(level_of(standard_weights(), score))),
    }
}

/// Appends the entry `(name, description)`.
fn push_entry(v: &mut Vec<(String, String)>, name: &str, description: &str)
    ensures
        pairs_view(final(v)@) == pairs_view(old(v)@).push((name@, description@)),
{
    v.push((String::from_str(name), String::from_str(description)));
    assert(pairs_view(final(v)@) =~= pairs_view(old(v)@).push((name@, description@)));
}

/// Appends an entry for the signal `name` where it fired.
fn push_feature(v: &mut Vec<(String, String)>, fired: Option<bool>, name: &str)
    ensures
        pairs_view(final(v)@) == pairs_view(old(v)@) + entry_if(flag(fired), name@),
{
    if fired == Some(true) {
        push_entry(v, name, "Suspicious feature detected");
        assert(pairs_view(final(v)@) =~= pairs_view(old(v)@) + entry_if(flag(fired), name@));
    } else {
        assert(pairs_view(old(v)@) =~= pairs_view(old(v)@) + entry_if(flag(fired), name@));
    }
}

/// The breakdown for a URL with deny-list outcome `is_phishing`, signals
/// `f` and verdict text `verdict`.
fn build_breakdown(is_phishing: bool, f: &UrlFeatures, verdict: &str) -> (r: Vec<(String, String)>)
    ensures
        pairs_view(r@) == breakdown(is_phishing, *f, verdict@),
{
    let mut v: Vec<(String, String)> = Vec::new();
    if is_phishing {
        push_entry(&mut v, "phishing_detected", "URL found in phishing database");
    }
    let ghost head = pairs_view(v@);
    assert(head =~= if is_phishing {
        seq![("phishing_detected"@, "URL found in phishing database"@)]
    } else {
        Seq::empty()
    });
    push_feature(&mut v, f.has_suspicious_tld, "has_suspicious_tld");
    push_feature(&mut v, f.has_dash_in_domain, "has_dash_in_domain");
    push_feature(&mut v, f.has_multiple_subdomains, "has_multiple_subdomains");
    push_feature(&mut v, f.has_ip_address, "has_ip_address");
    push_feature(&mut v, f.has_at_symbol, "has_at_symbol");
    push_feature(&mut v, f.has_double_slash, "has_double_slash");
    assert(pairs_view(v@) =~= head + feature_entries(*f));
    push_entry(&mut v, "risk_assessment", verdict);
    assert(pairs_view(v@) =~= breakdown(is_phishing, *f, verdict@));
    v
}

/// Analyses `url`: normalizes it, runs the deny-list and shortener checks,
/// extracts its signals, scores them with the standard weights, and records
/// which signals fired. `ip_literal` tells whether the normalized text of
/// `url` is an IP address literal.
pub fn analyze_url(
    url: &str,
    local: &Option<PhishingList>,
    remote: &Option<DenyList>,
    ip_literal: bool,
) -> (r: UrlAnalysis)
    ensures
        r@ == analysis_of(url@, list_view(local), list_view(remote), ip_literal),
{
    let n = normalize_url(url);
    let check = checking_url_enhanced(n.as_str(), local, remote);
    let f = extract_url_features(n.as_str(), ip_literal);
    let weights = RiskWeights::standard();
    let score = calculate_risk_score(&weights, check.is_shortened, check.is_phishing, &f);
    let level = assess_risk(&weights, score);
    let analysis = build_breakdown(check.is_phishing, &f, level.description());
    UrlAnalysis {
        url: n,
        is_shortened: check.is_shortened,
        is_phishing: check.is_phishing,
        risk_score: score,
        analysis,
    }
}

/// The answer to one request: an HTTP status, and the body's fields.
pub struct AnalysisResponse {
    /// 200 on success, 400 when the URL is not admitted.
    pub http_status: u16,
    /// The URL as submitted.
    pub url: String,
    /// `success` or `error`.
    pub status: String,
    pub data: Option<UrlAnalysis>,
    pub error: Option<String>,
}

/// What a response says, over plain values.
pub struct ResponseModel {
    pub http_status: u16,
    pub url: Seq<char>,
    pub status: Seq<char>,
    pub data: Option<AnalysisModel>,
    pub error: Option<Seq<char>>,
}

impl View for AnalysisResponse {
    type V = ResponseModel;

    open spec fn view(&self) -> ResponseModel {
        ResponseModel {
            http_status: self.http_status,
            url: self.url@,
            status: self.status@,
            data: match self.data {
                Some(a) => Some(a@),
                None => None,
            },
            error: match self.error {
                Some(e) => Some(e@),
                None => None,
            },
        }
    }
}

/// The response to a request for `url`: 400 with `Invalid URL` where it is
/// not admitted, else 200 with its analysis.
pub open spec fn response_of(
    url: Seq<char>,
    local: Option<Seq<Seq<char>>>,
    remote: Option<Seq<Seq<char>>>,
    ip_literal: bool,
) -> ResponseModel {
    if admitted(url) {
        ResponseModel {
            http_status: 200,
            url,
            status: "success"@,
            data: Some(analysis_of(url, local, remote, ip_literal)),
            error: None,
        }
    } else {
        ResponseModel {
            http_status: 400,
            url,
            status: "error"@,
            data: None,
            error: Some("Invalid URL"@),
        }
    }
}

/// Answers one request: admits `url` or rejects it, then analyses it.
/// `ip_literal` tells whether the normalized text of `url` is an IP address
/// literal.
pub fn analyze_request(
    url: &str,
    local: &Option<PhishingList>,
    remote: &Option<DenyList>,
    ip_literal: bool,
) -> (r: AnalysisResponse)
    ensures
        r@ == response_of(url@, list_view(local), list_view(remote), ip_literal),
{
    if !is_valid_url(url) {
        return AnalysisResponse {
            http_status: 400,
            url: String::from_str(url),
            status: String::from_str("error"),
            data: None,
            error: Some(String::from_str("Invalid URL")),
        };
    }
    let analysis = analyze_url(url, local, remote, ip_literal);
    AnalysisResponse {
        http_status: 200,
        url: String::from_str(url),
        status: String::from_str("success"),
        data: Some(analysis),
        error: None,
    }
}

/// Analysing the same URL twice, against the same deny-lists, gives the same
/// result: whatever two calls of `analyze_url` on equal arguments return
/// is equal.
pub proof fn analysis_is_repeatable(
    url: Seq<char>,
    local: Option<Seq<Seq<char>>>,
    remote: Option<Seq<Seq<char>>>,
    ip_literal: bool,
    first: AnalysisModel,
    second: AnalysisModel,
)
    requires
        first == analysis_of(url, local, remote, ip_literal),
        second == analysis_of(url, local, remote, ip_literal),
    ensures
        first == second,
{
}

} // verus!
