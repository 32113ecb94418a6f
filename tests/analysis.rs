use url_analyzer::analysis::{analyze_request, analyze_url, checking_url_enhanced};
use url_analyzer::blacklist::{
    check_local_phishing_db, check_online_phishing_db, contains_lowered, DenyList, PhishingList,
};
use url_analyzer::features::{domain_signals, extract_url_features, UrlFeatures};
use url_analyzer::scoring::{assess_risk, calculate_risk_score, RiskLevel, RiskWeights, SCORE_SCALE};
use url_analyzer::shortener::{is_known_shortener, is_shortener_host_name, shortener_list};
use url_analyzer::weburl::{is_valid_url, is_web_scheme_name, normalize_url, MAX_URL_CHARS};

fn local(sites: &[&str]) -> Option<PhishingList> {
    Some(PhishingList { flagged_sites: sites.iter().map(|s| s.to_string()).collect() })
}

fn remote(entries: &[&str]) -> Option<DenyList> {
    Some(DenyList { deny: entries.iter().map(|s| s.to_string()).collect() })
}

fn no_features() -> UrlFeatures {
    UrlFeatures {
        has_suspicious_tld: Some(false),
        has_dash_in_domain: None,
        has_multiple_subdomains: Some(false),
        has_ip_address: Some(false),
        has_at_symbol: None,
        has_double_slash: Some(false),
    }
}

fn all_features() -> UrlFeatures {
    UrlFeatures {
        has_suspicious_tld: Some(true),
        has_dash_in_domain: Some(true),
        has_multiple_subdomains: Some(true),
        has_ip_address: Some(true),
        has_at_symbol: Some(true),
        has_double_slash: Some(true),
    }
}

fn entry<'a>(analysis: &'a [(String, String)], key: &str) -> Option<&'a str> {
    analysis.iter().find(|(k, _)| k == key).map(|(_, v)| v.as_str())
}

#[test]
fn normalize_adds_https_to_bare_domain() {
    let n = normalize_url("example.com");
    assert_eq!(n, "https://example.com");
    let parsed = url::Url::parse(&n).unwrap();
    assert_eq!(parsed.scheme(), "https");
    assert_eq!(parsed.host_str(), Some("example.com"));
}

#[test]
fn normalize_keeps_absolute_url() {
    assert_eq!(normalize_url("http://example.com"), "http://example.com");
}

#[test]
fn oversized_input_is_invalid() {
    let long = "a".repeat(3000);
    assert!(!is_valid_url(&long));
    let just_over = format!("http://a.com/{}", "a".repeat(MAX_URL_CHARS - 12));
    assert_eq!(just_over.chars().count(), MAX_URL_CHARS + 1);
    assert!(!is_valid_url(&just_over));
    let at_limit = format!("http://a.com/{}", "a".repeat(MAX_URL_CHARS - 13));
    assert!(is_valid_url(&at_limit));
}

#[test]
fn admission_by_scheme() {
    assert!(is_valid_url("example.com"));
    assert!(is_valid_url("http://example.com"));
    assert!(is_valid_url("HTTPS://example.com"));
    assert!(!is_valid_url("ftp://example.com"));
    assert!(!is_valid_url("mailto:someone@example.com"));
    assert!(!is_valid_url("a b"));
    assert!(is_web_scheme_name("https"));
    assert!(!is_web_scheme_name("HTTP"));
}

#[test]
fn shortener_exact_and_subdomain() {
    assert!(is_known_shortener("bit.ly/xyz"));
    assert!(is_known_shortener("https://bit.ly/abc"));
    assert!(is_known_shortener("https://sub.bit.ly/abc"));
    assert!(!is_known_shortener("https://notbit.ly/abc"));
    assert!(!is_known_shortener("https://example.com/"));
    assert!(!is_known_shortener("mailto:x@bit.ly"));
}

#[test]
fn shortener_list_matches_lower_case_hosts() {
    assert!(is_known_shortener("https://dwarfurl.com/x"));
    assert!(is_known_shortener("https://DwarfURL.com/x"));
    assert!(is_known_shortener("https://www.budurl.com/x"));
    assert!(is_known_shortener("just.as/x"));
    assert!(is_known_shortener("https://alturl.com/x"));
    assert!(is_known_shortener("https://redirx.com/x"));
    assert!(is_known_shortener("https://digbig.com/x"));
    for name in shortener_list() {
        assert_eq!(name, name.to_lowercase());
    }
}

#[test]
fn shortener_host_names() {
    assert!(is_shortener_host_name("youtu.be"));
    assert!(is_shortener_host_name("a.b.amzn.to"));
    assert!(!is_shortener_host_name("xamzn.to"));
    assert!(!is_shortener_host_name("amzn.to.example"));
    assert!(shortener_list().contains(&"t.co"));
}

#[test]
fn local_list_matches_exactly() {
    let list = local(&["https://evil.test/"]);
    assert!(check_local_phishing_db("https://evil.test/", &list));
    assert!(!check_local_phishing_db("https://evil.test/x", &list));
    assert!(!check_local_phishing_db("https://evil.test/", &None));
}

#[test]
fn remote_list_matches_substring_ignoring_case() {
    let list = remote(&["evil"]);
    assert!(check_online_phishing_db("https://notevil-but-contains-evil.test", &list));
    assert!(check_online_phishing_db("https://EVIL.test", &remote(&["eViL"])));
    assert!(!check_online_phishing_db("https://good.test", &list));
    assert!(!check_online_phishing_db("https://evil.test", &None));
    assert!(check_online_phishing_db("https://good.test", &remote(&[""])));
}

#[test]
fn lowered_containment() {
    assert!(contains_lowered("https://x.evil.test", "evil"));
    assert!(!contains_lowered("https://x.evil.test", "Evil"));
    assert!(contains_lowered("abc", ""));
    assert!(!contains_lowered("ab", "abc"));
}

#[test]
fn checks_combine_both_sources() {
    let r = checking_url_enhanced("evil.test/", &local(&["https://evil.test/"]), &None);
    assert!(r.is_phishing);
    assert!(!r.is_shortened);
    let r = checking_url_enhanced("https://bit.ly/q", &None, &remote(&["BIT.LY"]));
    assert!(r.is_phishing);
    assert!(r.is_shortened);
}

#[test]
fn phishing_alone_scores_high() {
    let w = RiskWeights::standard();
    let s = calculate_risk_score(&w, false, true, &no_features());
    assert_eq!(s, 90);
    assert_eq!(assess_risk(&w, s), RiskLevel::High);
    assert_eq!(assess_risk(&w, s).description(), "High risk - Likely phishing");
}

#[test]
fn every_signal_clamps_to_one() {
    let w = RiskWeights::standard();
    assert_eq!(calculate_risk_score(&w, true, true, &all_features()), SCORE_SCALE);
    assert_eq!(SCORE_SCALE, 100);
}

#[test]
fn score_sums_weights() {
    let w = RiskWeights::standard();
    let mut f = no_features();
    f.has_at_symbol = Some(true);
    f.has_dash_in_domain = Some(true);
    assert_eq!(calculate_risk_score(&w, true, false, &f), 70);
    assert_eq!(calculate_risk_score(&w, false, false, &no_features()), 0);
}

#[test]
fn verdict_boundaries() {
    let w = RiskWeights::standard();
    assert_eq!(assess_risk(&w, 70), RiskLevel::High);
    assert_eq!(assess_risk(&w, 69), RiskLevel::Medium);
    assert_eq!(assess_risk(&w, 40), RiskLevel::Medium);
    assert_eq!(assess_risk(&w, 39), RiskLevel::Low);
    assert_eq!(assess_risk(&w, 30).description(), "Low risk - Likely safe");
    assert_eq!(assess_risk(&w, 50).description(), "Medium risk - Suspicious");
}

#[test]
fn custom_weights_apply() {
    let mut w = RiskWeights::standard();
    w.shortened = 50;
    w.medium_risk = 50;
    assert_eq!(calculate_risk_score(&w, true, false, &no_features()), 50);
    assert_eq!(assess_risk(&w, 50), RiskLevel::Medium);
}

#[test]
fn features_of_suspicious_url() {
    let f = extract_url_features("https://a-b.c.d.example.xyz/x//y@z", false);
    assert_eq!(f.has_suspicious_tld, Some(true));
    assert_eq!(f.has_dash_in_domain, Some(true));
    assert_eq!(f.has_multiple_subdomains, Some(true));
    assert_eq!(f.has_ip_address, Some(false));
    assert_eq!(f.has_at_symbol, Some(true));
    assert_eq!(f.has_double_slash, Some(true));
}

#[test]
fn features_of_plain_url() {
    let f = extract_url_features("example.com", false);
    assert_eq!(f.has_suspicious_tld, Some(false));
    assert_eq!(f.has_dash_in_domain, Some(false));
    assert_eq!(f.has_multiple_subdomains, Some(false));
    assert_eq!(f.has_at_symbol, Some(false));
    assert_eq!(f.has_double_slash, Some(false));
}

#[test]
fn features_without_domain_or_parse() {
    let f = extract_url_features("http://127.0.0.1/", false);
    assert_eq!(f.has_suspicious_tld, None);
    assert_eq!(f.has_dash_in_domain, None);
    assert_eq!(f.has_multiple_subdomains, None);
    assert_eq!(f.has_at_symbol, Some(false));
    let g = extract_url_features("a b", true);
    assert_eq!(g.has_ip_address, None);
    assert_eq!(g.has_at_symbol, None);
    let short = extract_url_features("a:b", false);
    assert_eq!(short.has_double_slash, Some(false));
}

#[test]
fn domain_signal_rules() {
    assert_eq!(domain_signals("example.top"), (Some(true), Some(false), Some(false)));
    assert_eq!(domain_signals("localhost"), (None, Some(false), Some(false)));
    assert_eq!(domain_signals("a.b.c.com"), (Some(false), Some(false), Some(true)));
    assert_eq!(domain_signals("a.b.com"), (Some(false), Some(false), Some(false)));
}

#[test]
fn end_to_end_shortened_link() {
    let r = analyze_request("bit.ly/xyz", &local(&[]), &None, false);
    assert_eq!(r.http_status, 200);
    assert_eq!(r.status, "success");
    assert_eq!(r.url, "bit.ly/xyz");
    assert!(r.error.is_none());
    let a = r.data.unwrap();
    assert_eq!(a.url, "https://bit.ly/xyz");
    assert!(a.is_shortened);
    assert!(!a.is_phishing);
    assert_eq!(a.risk_score, 30);
    assert_eq!(entry(&a.analysis, "risk_assessment"), Some("Low risk - Likely safe"));
    assert_eq!(a.analysis.len(), 1);
}

#[test]
fn oversized_request_is_rejected() {
    let long = "a".repeat(3000);
    let r = analyze_request(&long, &None, &None, false);
    assert_eq!(r.http_status, 400);
    assert_eq!(r.status, "error");
    assert_eq!(r.error.as_deref(), Some("Invalid URL"));
    assert!(r.data.is_none());
    assert_eq!(r.url, long);
}

#[test]
fn breakdown_lists_fired_signals() {
    let a = analyze_url("https://evil-site.xyz/@", &local(&["https://evil-site.xyz/@"]), &None, false);
    assert!(a.is_phishing);
    assert_eq!(entry(&a.analysis, "phishing_detected"), Some("URL found in phishing database"));
    assert_eq!(entry(&a.analysis, "has_suspicious_tld"), Some("Suspicious feature detected"));
    assert_eq!(entry(&a.analysis, "has_dash_in_domain"), Some("Suspicious feature detected"));
    assert_eq!(entry(&a.analysis, "has_at_symbol"), Some("Suspicious feature detected"));
    assert_eq!(entry(&a.analysis, "has_double_slash"), None);
    assert_eq!(a.risk_score, 100);
    assert_eq!(entry(&a.analysis, "risk_assessment"), Some("High risk - Likely phishing"));
}

#[test]
fn repeated_analysis_is_identical() {
    let l = local(&["https://x.test/"]);
    let r = remote(&["phish"]);
    let a = analyze_url("phish.example.top/a", &l, &r, false);
    let b = analyze_url("phish.example.top/a", &l, &r, false);
    assert_eq!(a.url, b.url);
    assert_eq!(a.is_shortened, b.is_shortened);
    assert_eq!(a.is_phishing, b.is_phishing);
    assert_eq!(a.risk_score, b.risk_score);
    assert_eq!(a.analysis, b.analysis);
    assert_eq!(a.risk_score, 100);
}
