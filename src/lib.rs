//! Classifies a submitted URL as likely phishing, a link shortener or benign,
//! with a bounded risk score and a breakdown of the signals that fired.

pub mod text;
pub mod weburl;
pub mod shortener;
pub mod features;
pub mod blacklist;
pub mod scoring;
pub mod analysis;
