//! Report-schema data structures for the downstream compliance views: the
//! control-assessment report and the machine-readable assessment-results
//! document.
//!
//! These are data shapes only: the generators that fill them are external
//! collaborators which consume an `AuditResult` read-only and must reuse
//! the severities and scores already computed by the scoring engine.

use vstd::prelude::*;

use crate::types::Severity;

verus! {

/// Declares `serde_json::Value` so that collected evidence can carry
/// arbitrary structured data. The value is opaque here: this crate only
/// stores and hands it through.
#[verifier::external_type_specification]
#[verifier::external_body]
pub struct ExValue(serde_json::Value);

/// Relies on `serde_json::Value`'s `Clone`: the clone is a deep copy equal
/// to the original.
pub assume_specification[ <serde_json::Value as Clone>::clone ](v: &serde_json::Value) -> (r:
    serde_json::Value)
    ensures
        r == *v,
;

/// Control implementation status.
#[derive(Debug, Clone, PartialEq, Eq, Structural)]
pub enum ImplementationStatus {
    Implemented,
    PartiallyImplemented,
    PlannedForImplementation,
    AlternativeImplementation,
    NotApplicable,
}

/// Control assessment status.
#[derive(Debug, Clone, PartialEq, Eq, Structural)]
pub enum AssessmentStatus {
    Satisfied,
    NotSatisfied,
    Other,
}

/// The kind of evidence collected for a control assessment.
#[derive(Debug, Clone, PartialEq, Eq, Structural)]
pub enum EvidenceType {
    CodeAnalysis,
    StaticScan,
    ConfigurationReview,
    DocumentationReview,
    AutomatedTest,
}

/// A position in an audited source file.
#[derive(Debug, Clone)]
pub struct SourceLocation {
    pub file_path: String,
    pub line: usize,
    pub column: usize,
    pub snippet: String,
}

/// Evidence collected for a control assessment.
#[derive(Debug, Clone)]
pub struct Evidence {
    /// Evidence ID.
    pub evidence_id: String,
    /// Type of evidence.
    pub evidence_type: EvidenceType,
    /// Description.
    pub description: String,
    /// Source file and line.
    pub source_location: Option<SourceLocation>,
    /// Timestamp, supplied by the caller.
    pub collected_at: String,
    /// Related structured data.
    pub data: serde_json::Value,
}

/// One finding of a control assessment.
#[derive(Debug, Clone)]
pub struct ControlFinding {
    pub finding_id: String,
    pub control_id: String,
    pub implementation_status: ImplementationStatus,
    pub assessment_status: AssessmentStatus,
    pub description: String,
    pub related_vulnerabilities: Vec<String>,
    pub evidence: Vec<Evidence>,
    pub remediation: String,
    pub risk_level: Severity,
}

/// Metadata of a control-assessment report.
#[derive(Debug, Clone)]
pub struct ReportMetadata {
    pub report_id: String,
    pub title: String,
    pub published: String,
    pub last_modified: String,
    pub version: String,
    pub oscal_version: String,
}

/// The assessment of one control.
#[derive(Debug, Clone)]
pub struct ControlAssessment {
    pub control_id: String,
    pub control_name: String,
    pub control_family: String,
    pub control_description: String,
    pub implementation_status: ImplementationStatus,
    pub assessment_status: AssessmentStatus,
    pub assessment_method: Vec<String>,
}

/// Summary statistics of a control assessment.
#[derive(Debug, Clone)]
pub struct AssessmentSummary {
    pub files_scanned: usize,
    pub lines_scanned: usize,
    pub total_vulnerabilities: usize,
    pub quantum_vulnerable_algorithms: Vec<String>,
    pub deprecated_algorithms: Vec<String>,
    pub weak_key_sizes: Vec<String>,
    pub compliance_score: u32,
    pub risk_score: u32,
}

/// The cryptographic-protection control-assessment report.
#[derive(Debug, Clone)]
pub struct SC13AssessmentReport {
    pub metadata: ReportMetadata,
    pub control_assessment: ControlAssessment,
    pub summary: AssessmentSummary,
    pub findings: Vec<ControlFinding>,
    pub recommendations: Vec<String>,
}

/// The machine-readable assessment-results document.
#[derive(Debug, Clone)]
pub struct OscalAssessmentResults {
    pub oscal_version: String,
    pub assessment_results: AssessmentResults,
}

#[derive(Debug, Clone)]
pub struct AssessmentResults {
    pub uuid: String,
    pub metadata: OscalMetadata,
    pub import_ssp: ImportSSP,
    pub results: Vec<AssessmentResult>,
}

#[derive(Debug, Clone)]
pub struct OscalMetadata {
    pub title: String,
    pub published: String,
    pub last_modified: String,
    pub version: String,
    pub oscal_version: String,
    pub roles: Option<Vec<Role>>,
    pub parties: Option<Vec<Party>>,
}

#[derive(Debug, Clone)]
pub struct Role {
    pub id: String,
    pub title: String,
}

#[derive(Debug, Clone)]
pub struct Party {
    pub uuid: String,
    pub party_type: String,
    pub name: String,
}

#[derive(Debug, Clone)]
pub struct ImportSSP {
    pub href: String,
}

#[derive(Debug, Clone)]
pub struct AssessmentResult {
    pub uuid: String,
    pub title: String,
    pub description: String,
    pub start: String,
    pub end: Option<String>,
    pub reviewed_controls: ReviewedControls,
    pub observations: Vec<Observation>,
    pub findings: Vec<Finding>,
}

#[derive(Debug, Clone)]
pub struct ReviewedControls {
    pub control_selections: Vec<ControlSelection>,
}

#[derive(Debug, Clone)]
pub struct ControlSelection {
    pub include_controls: Vec<ControlRef>,
}

#[derive(Debug, Clone)]
pub struct ControlRef {
    pub control_id: String,
}

#[derive(Debug, Clone)]
pub struct Observation {
    pub uuid: String,
    pub description: String,
    pub methods: Vec<String>,
    pub types: Option<Vec<String>>,
    pub collected: Option<String>,
    pub relevant_evidence: Option<Vec<RelevantEvidence>>,
}

#[derive(Debug, Clone)]
pub struct RelevantEvidence {
    pub href: String,
    pub description: String,
}

/// One finding of the assessment-results document.
#[derive(Debug, Clone)]
pub struct Finding {
    pub uuid: String,
    pub title: String,
    pub description: String,
    pub target: Target,
    pub implementation_status: OscalImplementationStatus,
    pub related_observations: Option<Vec<RelatedObservation>>,
}

#[derive(Debug, Clone)]
pub struct Target {
    pub target_type: String,
    pub target_id: String,
    pub status: Option<TargetStatus>,
}

#[derive(Debug, Clone)]
pub struct TargetStatus {
    pub state: String,
}

#[derive(Debug, Clone)]
pub struct OscalImplementationStatus {
    pub state: String,
}

#[derive(Debug, Clone)]
pub struct RelatedObservation {
    pub observation_uuid: String,
}

} // verus!
