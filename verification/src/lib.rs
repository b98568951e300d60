//! Audit library for detecting quantum-vulnerable cryptography in source code.
//!
//! The pipeline has four stages: a language resolver that maps free-text
//! identifiers to a closed set of languages, a lexical scanner that turns
//! source text into import/call/declaration records, a pattern catalog that
//! classifies those records as uses of broken or quantum-vulnerable
//! algorithms, and a scoring engine that assigns each finding a severity and
//! a 0-100 risk score and aggregates everything into one audit result.
//!
//! The entry point is `audit::analyze`; `parser::parse_file` exposes the
//! scanner alone, and `remediation::generate_remediations` turns an audit
//! result into suggested fixes.

use vstd::prelude::*;

pub mod audit;
pub mod detector;
pub mod parser;
pub mod remediation;
pub mod reports;
pub mod text;
pub mod types;

pub use audit::analyze;
pub use audit::score_vulnerability;
pub use parser::parse_file;
pub use parser::ParseError;
pub use remediation::generate_remediations;
pub use remediation::CodeFix;
pub use remediation::RemediationResult;
pub use remediation::RemediationSummary;
pub use reports::OscalAssessmentResults;
pub use reports::SC13AssessmentReport;
pub use types::AuditResult;
pub use types::AuditStats;
pub use types::CryptoType;
pub use types::Language;
pub use types::Severity;
pub use types::Vulnerability;

verus! {

} // verus!
