//! Template-based remediation suggestions for detected vulnerabilities.
//!
//! Fixes are suggestions only: nothing here ever modifies source text, and
//! every fix carries review notes that must be checked by hand before it
//! is applied.

pub mod fixes;

pub use self::fixes::CodeFix;
pub use self::fixes::RemediationResult;
pub use self::fixes::RemediationSummary;
pub use self::fixes::generate_remediations;
pub use self::fixes::remediate_des_3des;
pub use self::fixes::remediate_md5;
pub use self::fixes::remediate_rsa;
pub use self::fixes::remediate_sha1;
