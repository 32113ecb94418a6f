//! The weighted risk score and its three-tier verdict. Scores and weights
//! are in hundredths: `SCORE_SCALE` stands for a score of 1.
use vstd::prelude::*;
use crate::features::{flag, UrlFeatures};

verus! {

/// The highest score, standing for 1.
pub const SCORE_SCALE: u32 = 100;

/// The weight of each signal and the verdict thresholds, in hundredths.
#[derive(Clone, Copy, Debug, PartialEq, Eq, Structural)]
pub struct RiskWeights {
    pub shortened: u32,
    pub phishing: u32,
    pub suspicious_tld: u32,
    pub ip_address: u32,
    pub at_symbol: u32,
    pub double_slash: u32,
    pub dash_in_domain: u32,
    pub multiple_subdomains: u32,
    /// A score at or above this is high risk.
    pub high_risk: u32,
    /// A score at or above this, and below `high_risk`, is medium risk.
    pub medium_risk: u32,
}

/// The weights the service scores with.
pub open spec fn standard_weights() -> RiskWeights {
    RiskWeights {
        shortened: 30,
        phishing: 90,
        suspicious_tld: 20,
        ip_address: 30,
        at_symbol: 30,
        double_slash: 20,
        dash_in_domain: 10,
        multiple_subdomains: 10,
        high_risk: 70,
        medium_risk: 40,
    }
}

impl RiskWeights {
    /// The weights the service scores with.
    pub fn standard() -> (r: RiskWeights)
        ensures
            r == standard_weights(),
    {
        RiskWeights {
            shortened: 30,
            phishing: 90,
            suspicious_tld: 20,
            ip_address: 30,
            at_symbol: 30,
            double_slash: 20,
            dash_in_domain: 10,
            multiple_subdomains: 10,
            high_risk: 70,
            medium_risk: 40,
        }
    }
}

/// `w` where `b` holds, else nothing.
pub open spec fn weight_if(b: bool, w: u32) -> int {
    if b { w as int } else { 0 }
}

/// The sum of the weights of the signals that fired, before clamping.
pub open spec fn raw_score(w: RiskWeights, is_shortened: bool, is_phishing: bool, f: UrlFeatures) -> int {
    weight_if(is_shortened, w.shortened)
        + weight_if(is_phishing, w.phishing)
        + weight_if(flag(f.has_suspicious_tld), w.suspicious_tld)
        + weight_if(flag(f.has_ip_address), w.ip_address)
        + weight_if(flag(f.has_at_symbol), w.at_symbol)
        + weight_if(flag(f.has_double_slash), w.double_slash)
        + weight_if(flag(f.has_dash_in_domain), w.dash_in_domain)
        + weight_if(flag(f.has_multiple_subdomains), w.multiple_subdomains)
}

/// The score: the raw sum, clamped to `SCORE_SCALE`.
pub open spec fn risk_score(w: RiskWeights, is_shortened: bool, is_phishing: bool, f: UrlFeatures) -> int {
    let s = raw_score(w, is_shortened, is_phishing, f);
    if s > SCORE_SCALE { SCORE_SCALE as int } else { s }
}

/// Adds `w` to `acc` where `b` holds.
fn add_if(acc: u64, b: bool, w: u32) -> (r: u64)
    requires
        acc <= 7 * u32::MAX,
    ensures
        r == acc + weight_if(b, w),
{
    if b { acc + w as u64 } else { acc }
}

/// Sums the weights of the signals that fired and clamps the sum to
/// `SCORE_SCALE`.
pub fn calculate_risk_score(
    weights: &RiskWeights,
    is_shortened: bool,
    in_phishing_db: bool,
    features: &UrlFeatures,
) -> (r: u32)
    ensures
        r == risk_score(*weights, is_shortened, in_phishing_db, *features),
        r <= SCORE_SCALE,
{
    let f = features;
    let mut s: u64 = 0;
    s = add_if(s, is_shortened, weights.shortened);
    s = add_if(s, in_phishing_db, weights.phishing);
    s = add_if(s, f.has_suspicious_tld == Some(true), weights.suspicious_tld);
    s = add_if(s, f.has_ip_address == Some(true), weights.ip_address);
    s = add_if(s, f.has_at_symbol == Some(true), weights.at_symbol);
    s = add_if(s, f.has_double_slash == Some(true), weights.double_slash);
    s = add_if(s, f.has_dash_in_domain == Some(true), weights.dash_in_domain);
    s = add_if(s, f.has_multiple_subdomains == Some(true), weights.multiple_subdomains);
    if s > SCORE_SCALE as u64 {
        SCORE_SCALE
    } else {
        s as u32
    }
}

/// The verdict on a score.
#[derive(Clone, Copy, Debug, PartialEq, Eq, Structural)]
pub enum RiskLevel {
    High,
    Medium,
    Low,
}

/// The verdict that `w`'s thresholds give `score`.
pub open spec fn level_of(w: RiskWeights, score: int) -> RiskLevel {
    if score >= w.high_risk {
        RiskLevel::High
    } else if score >= w.medium_risk {
        RiskLevel::Medium
    } else {
        RiskLevel::Low
    }
}

/// The verdict on `score`: high at or above `high_risk`, medium at or above
/// `medium_risk`, low below.
pub fn assess_risk(weights: &RiskWeights, score: u32) -> (r: RiskLevel)
    ensures
        r == level_of(*weights, score as int),
{
    if score >= weights.high_risk {
        RiskLevel::High
    } else if score >= weights.medium_risk {
        RiskLevel::Medium
    } else {
        RiskLevel::Low
    }
}

/// The description of each verdict.
pub open spec fn level_text(l: RiskLevel) -> Seq<char> {
    match l {
        RiskLevel::High => "High risk - Likely phishing"@,
        RiskLevel::Medium => "Medium risk - Suspicious"@,
        RiskLevel::Low => "Low risk - Likely safe"@,
    }
}

impl RiskLevel {
    /// The verdict as the service reports it.
    pub fn description(&self) -> (r: &'static str)
        ensures
            r@ == level_text(*self),
    {
        match self {
            RiskLevel::High => "High risk - Likely phishing",
            RiskLevel::Medium => "Medium risk - Suspicious",
            RiskLevel::Low => "Low risk - Likely safe",
        }
    }
}

/// Under the standard weights a deny-list hit alone scores 90 hundredths,
/// which is high risk.
pub proof fn phishing_alone_is_high_risk(f: UrlFeatures)
    requires
        !flag(f.has_suspicious_tld),
        !flag(f.has_ip_address),
        !flag(f.has_at_symbol),
        !flag(f.has_double_slash),
        !flag(f.has_dash_in_domain),
        !flag(f.has_multiple_subdomains),
    ensures
        risk_score(standard_weights(), false, true, f) == 90,
        level_of(standard_weights(), 90) == RiskLevel::High,
{
}

/// Under the standard weights, with every signal fired, the sum exceeds 1
/// and the score is clamped to exactly `SCORE_SCALE`.
pub proof fn all_signals_clamp_to_one(f: UrlFeatures)
    requires
        flag(f.has_suspicious_tld),
        flag(f.has_ip_address),
        flag(f.has_at_symbol),
        flag(f.has_double_slash),
        flag(f.has_dash_in_domain),
        flag(f.has_multiple_subdomains),
    ensures
        raw_score(standard_weights(), true, true, f) > SCORE_SCALE,
        risk_score(standard_weights(), true, true, f) == SCORE_SCALE,
{
}

/// Whatever the weights and signals, the score lies in `0..=SCORE_SCALE`.
pub proof fn score_is_bounded(w: RiskWeights, is_shortened: bool, is_phishing: bool, f: UrlFeatures)
    ensures
        0 <= risk_score(w, is_shortened, is_phishing, f) <= SCORE_SCALE,
{
}

} // verus!
