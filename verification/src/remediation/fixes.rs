//! Fix generation: one template per remediable algorithm family.
//!
//! MD5, SHA-1, RSA, DES and 3DES have automatic suggestions; every other
//! family gets a warning naming it instead. Confidence values are
//! percentages from 0 to 100.

use vstd::prelude::*;

use crate::text::{
    chars_to_string, contains_sub, dec_chars, push_all, replace_all, replace_spec, str_to_chars,
    trim, trim_spec, u64_to_chars,
};
use crate::types::{crypto_label_spec, AuditResult, CryptoType, VulnModel, Vulnerability};

verus! {

/// A suggested code fix for one vulnerability.
///
/// Fixes support patch generation but are never applied automatically:
/// each one must be reviewed first.
#[derive(Debug, Clone)]
pub struct CodeFix {
    /// File the fix belongs to.
    pub file_path: String,
    /// Line of the vulnerable code.
    pub line: usize,
    /// Column of the vulnerable code.
    pub column: usize,
    /// The vulnerable snippet.
    pub old_code: String,
    /// The suggested replacement.
    pub new_code: String,
    /// Confidence, in percent (0 to 100).
    pub confidence: u32,
    /// The algorithm transition this fix performs.
    pub algorithm: String,
    /// Why the fix is suggested.
    pub explanation: String,
    /// Whether a patch file can be generated for this fix.
    pub patch_available: bool,
    /// Checklist to verify before applying the fix.
    pub review_notes: Vec<String>,
    /// Path of a generated patch file, when one was written.
    pub patch_file: Option<String>,
}

/// Mathematical image of a `CodeFix`.
pub struct CodeFixModel {
    pub file_path: Seq<char>,
    pub line: usize,
    pub column: usize,
    pub old_code: Seq<char>,
    pub new_code: Seq<char>,
    pub confidence: u32,
    pub algorithm: Seq<char>,
    pub explanation: Seq<char>,
    pub patch_available: bool,
    pub review_notes: Seq<Seq<char>>,
    pub patch_file: Option<Seq<char>>,
}

impl View for CodeFix {
    type V = CodeFixModel;

    open spec fn view(&self) -> CodeFixModel {
        CodeFixModel {
            file_path: self.file_path@,
            line: self.line,
            column: self.column,
            old_code: self.old_code@,
            new_code: self.new_code@,
            confidence: self.confidence,
            algorithm: self.algorithm@,
            explanation: self.explanation@,
            patch_available: self.patch_available,
            review_notes: self.review_notes.deep_view(),
            patch_file: self.patch_file.deep_view(),
        }
    }
}

/// Summary statistics of one remediation run.
#[derive(Debug, Clone, Copy, PartialEq, Eq, Structural)]
pub struct RemediationSummary {
    /// Findings analyzed.
    pub total_vulnerabilities: usize,
    /// Findings with a remediation available.
    pub remediable: usize,
    /// Findings whose fix can generate a patch.
    pub patch_available: usize,
    /// Findings without automated remediation.
    pub manual_only: usize,
    /// Mean confidence of the available fixes, in percent.
    pub average_confidence: u32,
}

/// Result of remediation analysis: the fixes, a summary, and a warning
/// for each finding without an automatic fix.
#[derive(Debug, Clone)]
pub struct RemediationResult {
    pub fixes: Vec<CodeFix>,
    pub summary: RemediationSummary,
    pub warnings: Vec<String>,
}

// ---------------------------------------------------------------------------
// Per-family fix templates
// ---------------------------------------------------------------------------

/// The MD5 fix: the snippet rewritten to SHA-256, in the casing of the
/// style it was written in.
pub open spec fn md5_fix_spec(v: VulnModel, fp: Seq<char>) -> CodeFixModel {
    let old = trim_spec(v.context);
    let new = if contains_sub(old, "md5"@) && contains_sub(old, "hashlib"@) {
        replace_spec(old, "md5"@, "sha256"@)
    } else if contains_sub(old, "MD5"@) && contains_sub(old, "crypto"@) {
        replace_spec(replace_spec(old, "MD5"@, "SHA256"@), "md5"@, "sha256"@)
    } else if contains_sub(old, "Md5"@) {
        replace_spec(replace_spec(old, "Md5"@, "Sha256"@), "MD5"@, "SHA256"@)
    } else {
        replace_spec(replace_spec(old, "md5"@, "sha256"@), "MD5"@, "SHA256"@)
    };
    CodeFixModel {
        file_path: fp,
        line: v.line,
        column: v.column,
        old_code: old,
        new_code: new,
        confidence: 85,
        algorithm: "MD5 → SHA-256"@,
        explanation: "Replaced deprecated MD5 hash with SHA-256. MD5 is cryptographically broken and prohibited by NIST/CCCS. For highest security, consider SHA-3 or BLAKE2."@,
        patch_available: true,
        review_notes: seq![
            "Verify MD5 is used for cryptographic hashing, not file checksums"@,
            "Update unit tests to expect SHA-256 output (64 hex chars vs 32)"@,
            "Check for any stored MD5 hashes in databases that need migration"@,
            "NIST: MD5 prohibited per FIPS 180-4"@,
            "CCCS: MD5 prohibited per ITSP.40.111 Section 5.3"@,
        ],
        patch_file: None,
    }
}

/// The SHA-1 fix: the snippet rewritten to SHA-256.
pub open spec fn sha1_fix_spec(v: VulnModel, fp: Seq<char>) -> CodeFixModel {
    let old = trim_spec(v.context);
    let new = if contains_sub(old, "sha1"@) {
        replace_spec(old, "sha1"@, "sha256"@)
    } else if contains_sub(old, "SHA1"@) {
        replace_spec(old, "SHA1"@, "SHA256"@)
    } else if contains_sub(old, "Sha1"@) {
        replace_spec(old, "Sha1"@, "Sha256"@)
    } else {
        replace_spec(old, "SHA-1"@, "SHA-256"@)
    };
    CodeFixModel {
        file_path: fp,
        line: v.line,
        column: v.column,
        old_code: old,
        new_code: new,
        confidence: 90,
        algorithm: "SHA-1 → SHA-256"@,
        explanation: "Replaced deprecated SHA-1 hash with SHA-256. SHA-1 is vulnerable to collision attacks and prohibited for digital signatures by NIST since 2013."@,
        patch_available: true,
        review_notes: seq![
            "Verify SHA-1 usage context (signatures vs checksums)"@,
            "Update tests to expect SHA-256 output (64 hex chars)"@,
            "Check for Git commit signatures or other SHA-1 dependencies"@,
            "NIST: SHA-1 prohibited for digital signatures per FIPS 186-4"@,
            "CCCS: SHA-1 prohibited per ITSP.40.111 Section 5.2"@,
        ],
        patch_file: None,
    }
}

/// Is this RSA finding a weak key: a known size below 2048 bits?
pub open spec fn rsa_weak_key(v: VulnModel) -> bool {
    v.key_size matches Some(size) && size < 2048
}

/// The RSA fix. A weak key gets an interim upgrade of the size literal to
/// 2048 with a patch; a strong key gets migration guidance without one,
/// since that change is architectural.
pub open spec fn rsa_fix_spec(v: VulnModel, fp: Seq<char>) -> CodeFixModel {
    let old = trim_spec(v.context);
    let size = match v.key_size {
        Some(s) => s,
        None => 1024,
    };
    if rsa_weak_key(v) {
        CodeFixModel {
            file_path: fp,
            line: v.line,
            column: v.column,
            old_code: old,
            new_code: replace_spec(old, dec_chars(size as nat), "2048"@),
            confidence: 70,
            algorithm: "RSA-"@ + dec_chars(size as nat) + " → RSA-2048 (interim)"@,
            explanation: "Upgraded RSA key size to 2048 bits (minimum secure size per NIST SP 800-57). CRITICAL: RSA is quantum-vulnerable. Plan migration to CRYSTALS-Dilithium (signatures) or CRYSTALS-Kyber (encryption)."@,
            patch_available: true,
            review_notes: seq![
                "Verify key size upgrade doesn't break existing integrations"@,
                "Check if key generation performance is acceptable"@,
                "Update key storage and certificate infrastructure"@,
                "NIST: RSA minimum 2048 bits per SP 800-57"@,
                "CCCS: RSA conditionally approved, sunset 2030 per ITSP.40.111"@,
                "PQC Migration: Plan for CRYSTALS-Dilithium (NIST FIPS 204)"@,
            ],
            patch_file: None,
        }
    } else {
        CodeFixModel {
            file_path: fp,
            line: v.line,
            column: v.column,
            old_code: old,
            new_code: old,
            confidence: 50,
            algorithm: "RSA → PQC migration recommended"@,
            explanation: "RSA is quantum-vulnerable. NIST recommends migrating to post-quantum algorithms by 2030. Consider CRYSTALS-Dilithium (signatures) or CRYSTALS-Kyber (encryption)."@,
            patch_available: false,
            review_notes: seq![
                "RSA is quantum-vulnerable regardless of key size"@,
                "NIST FIPS 204: CRYSTALS-Dilithium for digital signatures"@,
                "NIST FIPS 203: CRYSTALS-Kyber for key encapsulation"@,
                "Migration timeline: NIST recommends completion by 2030"@,
                "CCCS: RSA sunset date 2030 per ITSP.40.111 Section 4.1"@,
                "Consider hybrid crypto during transition period"@,
            ],
            patch_file: None,
        }
    }
}

/// The DES/3DES fix: the snippet rewritten to AES.
pub open spec fn des_fix_spec(v: VulnModel, fp: Seq<char>) -> CodeFixModel {
    let old = trim_spec(v.context);
    let new = if contains_sub(old, "DES"@) || contains_sub(old, "des"@) {
        replace_spec(
            replace_spec(
                replace_spec(replace_spec(old, "TripleDES"@, "AES"@), "3DES"@, "AES"@),
                "DES"@,
                "AES"@,
            ),
            "des"@,
            "aes"@,
        )
    } else {
        old
    };
    let is_3des = v.crypto_type == CryptoType::TripleDes;
    CodeFixModel {
        file_path: fp,
        line: v.line,
        column: v.column,
        old_code: old,
        new_code: new,
        confidence: 75,
        algorithm: if is_3des {
            "3DES → AES-256-GCM"@
        } else {
            "DES → AES-256-GCM"@
        },
        explanation: if is_3des {
            "Replaced deprecated 3DES cipher with AES-256-GCM. 3DES has known vulnerabilities, small block size (64 bits), and is prohibited/deprecated by NIST and CCCS. AES-GCM provides authenticated encryption."@
        } else {
            "Replaced deprecated DES cipher with AES-256-GCM. DES has known vulnerabilities, small block size (64 bits), and is prohibited/deprecated by NIST and CCCS. AES-GCM provides authenticated encryption."@
        },
        patch_available: true,
        review_notes: if is_3des {
            seq![
                "3DES block size: 64 bits (vulnerable to birthday attacks)"@,
                "AES requires 128/192/256-bit keys vs DES 56/112/168 bits"@,
                "Must specify AES mode: recommend GCM for authenticated encryption"@,
                "Update key derivation and IV generation for AES"@,
                "NIST: 3DES prohibited per SP 800-57"@,
                "CCCS: 3DES deprecated/prohibited per ITSP.40.111 Section 5.5, sunset 2023"@,
                "Verify all encrypted data can be re-encrypted with AES"@,
            ]
        } else {
            seq![
                "DES block size: 64 bits (vulnerable to birthday attacks)"@,
                "AES requires 128/192/256-bit keys vs DES 56/112/168 bits"@,
                "Must specify AES mode: recommend GCM for authenticated encryption"@,
                "Update key derivation and IV generation for AES"@,
                "NIST: DES prohibited per SP 800-57"@,
                "CCCS: DES deprecated/prohibited per ITSP.40.111 Section 5.4, sunset N/A - Prohibited"@,
                "Verify all encrypted data can be re-encrypted with AES"@,
            ]
        },
        patch_file: None,
    }
}

// ---------------------------------------------------------------------------
// Executable templates
// ---------------------------------------------------------------------------

fn push_note(dst: &mut Vec<String>, s: &str)
    ensures
        final(dst).deep_view() == old(dst).deep_view().push(s@),
{
    let t = String::from_str(s);
    dst.push(t);
    proof {
        let dv = dst.deep_view();
        let target = old(dst).deep_view().push(s@);
        assert forall|k: int| 0 <= k < dv.len() implies dv[k] == target[k] by {
            if k < old(dst)@.len() {
                assert(dst@[k] == old(dst)@[k]);
            }
        }
        assert(dv =~= target);
    }
}

fn replace_str(v: &Vec<char>, pat: &str, to: &str) -> (r: Vec<char>)
    ensures
        r@ == replace_spec(v@, pat@, to@),
{
    let p = str_to_chars(pat);
    let t = str_to_chars(to);
    replace_all(v, &p, &t)
}

fn contains_str(v: &Vec<char>, pat: &str) -> (r: bool)
    ensures
        r == contains_sub(v@, pat@),
{
    let p = str_to_chars(pat);
    crate::text::contains_exec(v, &p)
}

/// Generates the remediation for one MD5 finding.
pub fn remediate_md5(vuln: &Vulnerability, file_path: &str) -> (r: Option<CodeFix>)
    ensures
        r matches Some(f) && f@ == md5_fix_spec(vuln@, file_path@),
{
    let ctx = str_to_chars(vuln.context.as_str());
    let old = trim(&ctx);
    let new: Vec<char> = if contains_str(&old, "md5") && contains_str(&old, "hashlib") {
        replace_str(&old, "md5", "sha256")
    } else if contains_str(&old, "MD5") && contains_str(&old, "crypto") {
        let step = replace_str(&old, "MD5", "SHA256");
        replace_str(&step, "md5", "sha256")
    } else if contains_str(&old, "Md5") {
        let step = replace_str(&old, "Md5", "Sha256");
        replace_str(&step, "MD5", "SHA256")
    } else {
        let step = replace_str(&old, "md5", "sha256");
        replace_str(&step, "MD5", "SHA256")
    };
    let mut notes: Vec<String> = Vec::new();
    push_note(&mut notes, "Verify MD5 is used for cryptographic hashing, not file checksums");
    push_note(&mut notes, "Update unit tests to expect SHA-256 output (64 hex chars vs 32)");
    push_note(&mut notes, "Check for any stored MD5 hashes in databases that need migration");
    push_note(&mut notes, "NIST: MD5 prohibited per FIPS 180-4");
    push_note(&mut notes, "CCCS: MD5 prohibited per ITSP.40.111 Section 5.3");
    let fix = CodeFix {
        file_path: String::from_str(file_path),
        line: vuln.line,
        column: vuln.column,
        old_code: chars_to_string(&old),
        new_code: chars_to_string(&new),
        confidence: 85,
        algorithm: String::from_str("MD5 → SHA-256"),
        explanation: String::from_str(
            "Replaced deprecated MD5 hash with SHA-256. MD5 is cryptographically broken and prohibited by NIST/CCCS. For highest security, consider SHA-3 or BLAKE2.",
        ),
        patch_available: true,
        review_notes: notes,
        patch_file: None,
    };
    proof {
        assert(fix@.review_notes =~= md5_fix_spec(vuln@, file_path@).review_notes);
        assert(fix@.patch_file == None::<Seq<char>>);
        assert(fix@ == md5_fix_spec(vuln@, file_path@));
    }
    Some(fix)
}

/// Generates the remediation for one SHA-1 finding.
pub fn remediate_sha1(vuln: &Vulnerability, file_path: &str) -> (r: Option<CodeFix>)
    ensures
        r matches Some(f) && f@ == sha1_fix_spec(vuln@, file_path@),
{
    let ctx = str_to_chars(vuln.context.as_str());
    let old = trim(&ctx);
    let new: Vec<char> = if contains_str(&old, "sha1") {
        replace_str(&old, "sha1", "sha256")
    } else if contains_str(&old, "SHA1") {
        replace_str(&old, "SHA1", "SHA256")
    } else if contains_str(&old, "Sha1") {
        replace_str(&old, "Sha1", "Sha256")
    } else {
        replace_str(&old, "SHA-1", "SHA-256")
    };
    let mut notes: Vec<String> = Vec::new();
    push_note(&mut notes, "Verify SHA-1 usage context (signatures vs checksums)");
    push_note(&mut notes, "Update tests to expect SHA-256 output (64 hex chars)");
    push_note(&mut notes, "Check for Git commit signatures or other SHA-1 dependencies");
    push_note(&mut notes, "NIST: SHA-1 prohibited for digital signatures per FIPS 186-4");
    push_note(&mut notes, "CCCS: SHA-1 prohibited per ITSP.40.111 Section 5.2");
    let fix = CodeFix {
        file_path: String::from_str(file_path),
        line: vuln.line,
        column: vuln.column,
        old_code: chars_to_string(&old),
        new_code: chars_to_string(&new),
        confidence: 90,
        algorithm: String::from_str("SHA-1 → SHA-256"),
        explanation: String::from_str(
            "Replaced deprecated SHA-1 hash with SHA-256. SHA-1 is vulnerable to collision attacks and prohibited for digital signatures by NIST since 2013.",
        ),
        patch_available: true,
        review_notes: notes,
        patch_file: None,
    };
    proof {
        assert(fix@.review_notes =~= sha1_fix_spec(vuln@, file_path@).review_notes);
        assert(fix@ == sha1_fix_spec(vuln@, file_path@));
    }
    Some(fix)
}

/// Generates the remediation for one RSA finding.
pub fn remediate_rsa(vuln: &Vulnerability, file_path: &str) -> (r: Option<CodeFix>)
    ensures
        r matches Some(f) && f@ == rsa_fix_spec(vuln@, file_path@),
{
    let ctx = str_to_chars(vuln.context.as_str());
    let old = trim(&ctx);
    let size: u32 = match vuln.key_size {
        Some(s) => s,
        None => 1024,
    };
    let is_weak = match vuln.key_size {
        Some(s) => s < 2048,
        None => false,
    };
    if is_weak {
        let size_chars = u64_to_chars(size as u64);
        let to = str_to_chars("2048");
        let new = replace_all(&old, &size_chars, &to);
        let mut alg = str_to_chars("RSA-");
        push_all(&mut alg, &size_chars);
        let tail = str_to_chars(" → RSA-2048 (interim)");
        push_all(&mut alg, &tail);
        let mut notes: Vec<String> = Vec::new();
        push_note(&mut notes, "Verify key size upgrade doesn't break existing integrations");
        push_note(&mut notes, "Check if key generation performance is acceptable");
        push_note(&mut notes, "Update key storage and certificate infrastructure");
        push_note(&mut notes, "NIST: RSA minimum 2048 bits per SP 800-57");
        push_note(&mut notes, "CCCS: RSA conditionally approved, sunset 2030 per ITSP.40.111");
        push_note(&mut notes, "PQC Migration: Plan for CRYSTALS-Dilithium (NIST FIPS 204)");
        let fix = CodeFix {
            file_path: String::from_str(file_path),
            line: vuln.line,
            column: vuln.column,
            old_code: chars_to_string(&old),
            new_code: chars_to_string(&new),
            confidence: 70,
            algorithm: chars_to_string(&alg),
            explanation: String::from_str(
                "Upgraded RSA key size to 2048 bits (minimum secure size per NIST SP 800-57). CRITICAL: RSA is quantum-vulnerable. Plan migration to CRYSTALS-Dilithium (signatures) or CRYSTALS-Kyber (encryption).",
            ),
            patch_available: true,
            review_notes: notes,
            patch_file: None,
        };
        proof {
            assert(fix@.review_notes =~= rsa_fix_spec(vuln@, file_path@).review_notes);
            assert(fix@.algorithm =~= rsa_fix_spec(vuln@, file_path@).algorithm);
            assert(fix@ == rsa_fix_spec(vuln@, file_path@));
        }
        Some(fix)
    } else {
        let mut notes: Vec<String> = Vec::new();
        push_note(&mut notes, "RSA is quantum-vulnerable regardless of key size");
        push_note(&mut notes, "NIST FIPS 204: CRYSTALS-Dilithium for digital signatures");
        push_note(&mut notes, "NIST FIPS 203: CRYSTALS-Kyber for key encapsulation");
        push_note(&mut notes, "Migration timeline: NIST recommends completion by 2030");
        push_note(&mut notes, "CCCS: RSA sunset date 2030 per ITSP.40.111 Section 4.1");
        push_note(&mut notes, "Consider hybrid crypto during transition period");
        let fix = CodeFix {
            file_path: String::from_str(file_path),
            line: vuln.line,
            column: vuln.column,
            old_code: chars_to_string(&old),
            new_code: chars_to_string(&old),
            confidence: 50,
            algorithm: String::from_str("RSA → PQC migration recommended"),
            explanation: String::from_str(
                "RSA is quantum-vulnerable. NIST recommends migrating to post-quantum algorithms by 2030. Consider CRYSTALS-Dilithium (signatures) or CRYSTALS-Kyber (encryption).",
            ),
            patch_available: false,
            review_notes: notes,
            patch_file: None,
        };
        proof {
            assert(fix@.review_notes =~= rsa_fix_spec(vuln@, file_path@).review_notes);
            assert(fix@ == rsa_fix_spec(vuln@, file_path@));
        }
        Some(fix)
    }
}

/// Generates the remediation for one DES or 3DES finding.
pub fn remediate_des_3des(vuln: &Vulnerability, file_path: &str) -> (r: Option<CodeFix>)
    ensures
        r matches Some(f) && f@ == des_fix_spec(vuln@, file_path@),
{
    let ctx = str_to_chars(vuln.context.as_str());
    let old = trim(&ctx);
    let new: Vec<char> = if contains_str(&old, "DES") || contains_str(&old, "des") {
        let s1 = replace_str(&old, "TripleDES", "AES");
        let s2 = replace_str(&s1, "3DES", "AES");
        let s3 = replace_str(&s2, "DES", "AES");
        replace_str(&s3, "des", "aes")
    } else {
        crate::text::sub_vec(&old, 0, old.len())
    };
    proof {
        if !(contains_sub(old@, "DES"@) || contains_sub(old@, "des"@)) {
            assert(old@.subrange(0, old@.len() as int) =~= old@);
        }
    }
    let is_3des = match vuln.crypto_type {
        CryptoType::TripleDes => true,
        _ => false,
    };
    let mut notes: Vec<String> = Vec::new();
    if is_3des {
        push_note(&mut notes, "3DES block size: 64 bits (vulnerable to birthday attacks)");
    } else {
        push_note(&mut notes, "DES block size: 64 bits (vulnerable to birthday attacks)");
    }
    push_note(&mut notes, "AES requires 128/192/256-bit keys vs DES 56/112/168 bits");
    push_note(&mut notes, "Must specify AES mode: recommend GCM for authenticated encryption");
    push_note(&mut notes, "Update key derivation and IV generation for AES");
    if is_3des {
        push_note(&mut notes, "NIST: 3DES prohibited per SP 800-57");
        push_note(
            &mut notes,
            "CCCS: 3DES deprecated/prohibited per ITSP.40.111 Section 5.5, sunset 2023",
        );
    } else {
        push_note(&mut notes, "NIST: DES prohibited per SP 800-57");
        push_note(
            &mut notes,
            "CCCS: DES deprecated/prohibited per ITSP.40.111 Section 5.4, sunset N/A - Prohibited",
        );
    }
    push_note(&mut notes, "Verify all encrypted data can be re-encrypted with AES");
    let fix = CodeFix {
        file_path: String::from_str(file_path),
        line: vuln.line,
        column: vuln.column,
        old_code: chars_to_string(&old),
        new_code: chars_to_string(&new),
        confidence: 75,
        algorithm: String::from_str(
            if is_3des {
                "3DES → AES-256-GCM"
            } else {
                "DES → AES-256-GCM"
            },
        ),
        explanation: String::from_str(
            if is_3des {
                "Replaced deprecated 3DES cipher with AES-256-GCM. 3DES has known vulnerabilities, small block size (64 bits), and is prohibited/deprecated by NIST and CCCS. AES-GCM provides authenticated encryption."
            } else {
                "Replaced deprecated DES cipher with AES-256-GCM. DES has known vulnerabilities, small block size (64 bits), and is prohibited/deprecated by NIST and CCCS. AES-GCM provides authenticated encryption."
            },
        ),
        patch_available: true,
        review_notes: notes,
        patch_file: None,
    };
    proof {
        assert(fix@.review_notes =~= des_fix_spec(vuln@, file_path@).review_notes);
        assert(fix@ == des_fix_spec(vuln@, file_path@));
    }
    Some(fix)
}

// ---------------------------------------------------------------------------
// The remediation run
// ---------------------------------------------------------------------------

/// The fix for one finding, if its family has a template.
pub open spec fn fix_of(v: VulnModel, fp: Seq<char>) -> Option<CodeFixModel> {
    match v.crypto_type {
        CryptoType::Md5 => Some(md5_fix_spec(v, fp)),
        CryptoType::Sha1 => Some(sha1_fix_spec(v, fp)),
        CryptoType::Rsa => Some(rsa_fix_spec(v, fp)),
        CryptoType::Des | CryptoType::TripleDes => Some(des_fix_spec(v, fp)),
        _ => None,
    }
}

pub open spec fn opt_fix_seq(o: Option<CodeFixModel>) -> Seq<CodeFixModel> {
    match o {
        Some(f) => seq![f],
        None => Seq::empty(),
    }
}

/// The fixes of a finding sequence, in finding order.
pub open spec fn fixes_spec(vulns: Seq<VulnModel>, fp: Seq<char>) -> Seq<CodeFixModel>
    decreases vulns.len(),
{
    if vulns.len() == 0 {
        Seq::empty()
    } else {
        fixes_spec(vulns.drop_last(), fp) + opt_fix_seq(fix_of(vulns.last(), fp))
    }
}

/// The warning for a finding without a template, naming its family and
/// line.
pub open spec fn warning_spec(v: VulnModel) -> Seq<char> {
    "No automatic remediation available for "@ + crypto_label_spec(v.crypto_type) + " at line "@
        + dec_chars(v.line as nat)
}

/// The warnings of a finding sequence, in finding order.
pub open spec fn warnings_spec(vulns: Seq<VulnModel>) -> Seq<Seq<char>>
    decreases vulns.len(),
{
    if vulns.len() == 0 {
        Seq::empty()
    } else {
        warnings_spec(vulns.drop_last()) + (match fix_of(vulns.last(), Seq::empty()) {
            Some(_) => Seq::<Seq<char>>::empty(),
            None => seq![warning_spec(vulns.last())],
        })
    }
}

/// How many fixes can generate a patch.
pub open spec fn count_patch(fixes: Seq<CodeFixModel>) -> nat
    decreases fixes.len(),
{
    if fixes.len() == 0 {
        0
    } else {
        count_patch(fixes.drop_last()) + if fixes.last().patch_available {
            1nat
        } else {
            0nat
        }
    }
}

/// Sum of the fixes' confidence percentages.
pub open spec fn sum_conf(fixes: Seq<CodeFixModel>) -> int
    decreases fixes.len(),
{
    if fixes.len() == 0 {
        0
    } else {
        sum_conf(fixes.drop_last()) + fixes.last().confidence
    }
}

/// Mean confidence of the fixes, zero when there are none.
pub open spec fn avg_conf(fixes: Seq<CodeFixModel>) -> int {
    if fixes.len() == 0 {
        0
    } else {
        sum_conf(fixes) / (fixes.len() as int)
    }
}

/// There is at most one fix per finding.
pub proof fn lemma_fixes_le(vulns: Seq<VulnModel>, fp: Seq<char>)
    ensures
        fixes_spec(vulns, fp).len() <= vulns.len(),
    decreases vulns.len(),
{
    if vulns.len() > 0 {
        lemma_fixes_le(vulns.drop_last(), fp);
    }
}

proof fn lemma_count_patch_le(fixes: Seq<CodeFixModel>)
    ensures
        count_patch(fixes) <= fixes.len(),
    decreases fixes.len(),
{
    if fixes.len() > 0 {
        lemma_count_patch_le(fixes.drop_last());
    }
}

/// The summary of one remediation run.
pub open spec fn summary_spec(vulns: Seq<VulnModel>, fp: Seq<char>) -> RemediationSummary {
    let fixes = fixes_spec(vulns, fp);
    RemediationSummary {
        total_vulnerabilities: vulns.len() as usize,
        remediable: fixes.len() as usize,
        patch_available: count_patch(fixes) as usize,
        manual_only: (vulns.len() - fixes.len()) as usize,
        average_confidence: avg_conf(fixes) as u32,
    }
}

fn push_fix(dst: &mut Vec<CodeFix>, f: CodeFix)
    ensures
        final(dst)@.map_values(|x: CodeFix| x@) == old(dst)@.map_values(|x: CodeFix| x@).push(f@),
{
    let ghost old_v = dst@;
    let ghost fm = f@;
    dst.push(f);
    proof {
        let mv = dst@.map_values(|x: CodeFix| x@);
        let target = old_v.map_values(|x: CodeFix| x@).push(fm);
        assert forall|k: int| 0 <= k < mv.len() implies mv[k] == target[k] by {
            if k < old_v.len() {
                assert(dst@[k] == old_v[k]);
            }
        }
        assert(mv =~= target);
    }
}

fn push_warning(dst: &mut Vec<String>, v: &Vulnerability)
    ensures
        final(dst).deep_view() == old(dst).deep_view().push(warning_spec(v@)),
{
    let mut w = str_to_chars("No automatic remediation available for ");
    let label = v.crypto_type.label();
    let label_chars = str_to_chars(label.as_str());
    push_all(&mut w, &label_chars);
    let at_line = str_to_chars(" at line ");
    push_all(&mut w, &at_line);
    let line_chars = u64_to_chars(v.line as u64);
    push_all(&mut w, &line_chars);
    let s = chars_to_string(&w);
    assert(s@ == warning_spec(v@));
    dst.push(s);
    proof {
        let dv = dst.deep_view();
        let target = old(dst).deep_view().push(warning_spec(v@));
        assert forall|k: int| 0 <= k < dv.len() implies dv[k] == target[k] by {
            if k < old(dst)@.len() {
                assert(dst@[k] == old(dst)@[k]);
            }
        }
        assert(dv =~= target);
    }
}

/// Generates the remediation suggestions for every finding of an audit:
/// one fix per finding of a remediable family, one warning for each other
/// finding, and summary statistics over the fixes.
pub fn generate_remediations(audit_result: &AuditResult, file_path: &str) -> (r:
    RemediationResult)
    ensures
        r.fixes@.map_values(|x: CodeFix| x@) == fixes_spec(
            audit_result@.vulnerabilities,
            file_path@,
        ),
        r.warnings.deep_view() == warnings_spec(audit_result@.vulnerabilities),
        r.summary == summary_spec(audit_result@.vulnerabilities, file_path@),
{
    let ghost vulns = audit_result@.vulnerabilities;
    let mut fixes: Vec<CodeFix> = Vec::new();
    let mut warnings: Vec<String> = Vec::new();
    let n: usize = audit_result.vulnerabilities.len();
    let mut i: usize = 0;
    proof {
        assert(vulns.take(0) =~= Seq::<VulnModel>::empty());
        assert(fixes@.map_values(|x: CodeFix| x@) =~= fixes_spec(vulns.take(0), file_path@));
        assert(warnings.deep_view() =~= warnings_spec(vulns.take(0)));
    }
    while i < n
        invariant
            vulns == audit_result@.vulnerabilities,
            n == audit_result.vulnerabilities@.len(),
            i <= n,
            fixes@.map_values(|x: CodeFix| x@) == fixes_spec(vulns.take(i as int), file_path@),
            warnings.deep_view() == warnings_spec(vulns.take(i as int)),
        decreases n - i,
    {
        proof {
            assert(vulns.take(i + 1).drop_last() =~= vulns.take(i as int));
            assert(vulns.take(i + 1).last() == vulns[i as int]);
            assert(vulns[i as int] == audit_result.vulnerabilities@[i as int]@);
        }
        let vuln = &audit_result.vulnerabilities[i];
        match vuln.crypto_type {
            CryptoType::Md5 => {
                if let Some(fix) = remediate_md5(vuln, file_path) {
                    push_fix(&mut fixes, fix);
                }
            },
            CryptoType::Sha1 => {
                if let Some(fix) = remediate_sha1(vuln, file_path) {
                    push_fix(&mut fixes, fix);
                }
            },
            CryptoType::Rsa => {
                if let Some(fix) = remediate_rsa(vuln, file_path) {
                    push_fix(&mut fixes, fix);
                }
            },
            CryptoType::Des | CryptoType::TripleDes => {
                if let Some(fix) = remediate_des_3des(vuln, file_path) {
                    push_fix(&mut fixes, fix);
                }
            },
            _ => {
                push_warning(&mut warnings, vuln);
            },
        }
        proof {
            assert(fixes_spec(vulns.take(i + 1), file_path@) =~= fixes_spec(
                vulns.take(i as int),
                file_path@,
            ) + opt_fix_seq(fix_of(vulns[i as int], file_path@)));
            assert(warnings_spec(vulns.take(i + 1)) =~= warnings_spec(vulns.take(i as int)) + (
            match fix_of(vulns[i as int], Seq::empty()) {
                Some(_) => Seq::<Seq<char>>::empty(),
                None => seq![warning_spec(vulns[i as int])],
            }));
        }
        i = i + 1;
    }
    proof {
        assert(vulns.take(n as int) =~= vulns);
        lemma_fixes_le(vulns, file_path@);
        lemma_count_patch_le(fixes_spec(vulns, file_path@));
    }
    let ghost fm = fixes@.map_values(|x: CodeFix| x@);
    let remediable: usize = fixes.len();
    let nf: usize = remediable;
    let mut patch_count: usize = 0;
    let mut conf_sum: u128 = 0;
    let mut j: usize = 0;
    proof {
        assert(fm.take(0) =~= Seq::<CodeFixModel>::empty());
    }
    while j < nf
        invariant
            fm == fixes@.map_values(|x: CodeFix| x@),
            nf == fixes@.len(),
            j <= nf,
            patch_count == count_patch(fm.take(j as int)),
            conf_sum == sum_conf(fm.take(j as int)),
            patch_count <= j,
            conf_sum <= (j as int) * 0xffff_ffffint,
        decreases nf - j,
    {
        proof {
            assert(fm.take(j + 1).drop_last() =~= fm.take(j as int));
            assert(fm.take(j + 1).last() == fm[j as int]);
            assert(fm[j as int] == fixes@[j as int]@);
            assert((j as int) * 0xffff_ffffint + 0xffff_ffffint == (j + 1) * 0xffff_ffffint)
                by (nonlinear_arith);
        }
        if fixes[j].patch_available {
            patch_count = patch_count + 1;
        }
        conf_sum = conf_sum + fixes[j].confidence as u128;
        j = j + 1;
    }
    proof {
        assert(fm.take(nf as int) =~= fm);
    }
    let average_confidence: u32 = if remediable == 0 {
        0
    } else {
        proof {
            assert(conf_sum / (nf as u128) <= 0xffff_ffff) by (nonlinear_arith)
                requires
                    nf > 0,
                    conf_sum <= (nf as int) * 0xffff_ffffint,
            ;
        }
        (conf_sum / (remediable as u128)) as u32
    };
    let total: usize = audit_result.vulnerabilities.len();
    let summary = RemediationSummary {
        total_vulnerabilities: total,
        remediable,
        patch_available: patch_count,
        manual_only: total - remediable,
        average_confidence,
    };
    RemediationResult { fixes, summary, warnings }
}

} // verus!
