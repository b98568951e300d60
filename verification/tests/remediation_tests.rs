use pqc_scanner::generate_remediations;
use pqc_scanner::remediation::remediate_des_3des;
use pqc_scanner::remediation::remediate_md5;
use pqc_scanner::remediation::remediate_rsa;
use pqc_scanner::remediation::remediate_sha1;
use pqc_scanner::AuditResult;
use pqc_scanner::CryptoType;
use pqc_scanner::Language;
use pqc_scanner::Severity;
use pqc_scanner::Vulnerability;

fn create_test_vulnerability(
    crypto_type: CryptoType,
    context: &str,
    key_size: Option<u32>,
) -> Vulnerability {
    Vulnerability {
        crypto_type,
        severity: Severity::High,
        risk_score: 80,
        line: 42,
        column: 10,
        context: context.to_string(),
        message: "Test vulnerability".to_string(),
        recommendation: "Test recommendation".to_string(),
        key_size,
    }
}

#[test]
fn test_remediate_md5_python() {
    let vuln = create_test_vulnerability(
        CryptoType::Md5,
        "hash = hashlib.md5(data).hexdigest()",
        None,
    );

    let fix = remediate_md5(&vuln, "test.py").unwrap();

    assert_eq!(fix.algorithm, "MD5 → SHA-256");
    assert_eq!(fix.new_code, "hash = hashlib.sha256(data).hexdigest()");
    assert!(fix.confidence > 80);
    assert!(fix.patch_available);
    assert!(!fix.review_notes.is_empty());
    assert!(fix.review_notes.iter().any(|n| n.contains("NIST") || n.contains("CCCS")));
}

#[test]
fn test_remediate_md5_nodejs() {
    let vuln = create_test_vulnerability(
        CryptoType::Md5,
        "const hash = crypto.createHash('MD5')",
        None,
    );

    let fix = remediate_md5(&vuln, "test.js").unwrap();

    assert!(fix.new_code.contains("SHA256"));
    assert!(fix.patch_available);
}

#[test]
fn test_remediate_sha1() {
    let vuln = create_test_vulnerability(CryptoType::Sha1, "hash = hashlib.sha1(data)", None);

    let fix = remediate_sha1(&vuln, "test.py").unwrap();

    assert_eq!(fix.algorithm, "SHA-1 → SHA-256");
    assert_eq!(fix.new_code, "hash = hashlib.sha256(data)");
    assert!(fix.confidence >= 90);
    assert!(fix.patch_available);
}

#[test]
fn test_remediate_rsa_weak_key() {
    let vuln = create_test_vulnerability(CryptoType::Rsa, "key = RSA.generate(1024)", Some(1024));

    let fix = remediate_rsa(&vuln, "test.py").unwrap();

    assert_eq!(fix.algorithm, "RSA-1024 → RSA-2048 (interim)");
    assert!(fix.new_code.contains("2048"));
    assert!(fix.patch_available); // Patch available for key size upgrade
    assert!(fix.explanation.contains("CRYSTALS"));
    assert!(!fix.review_notes.is_empty());
}

#[test]
fn test_remediate_rsa_strong_key() {
    let vuln = create_test_vulnerability(CryptoType::Rsa, "key = RSA.generate(4096)", Some(4096));

    let fix = remediate_rsa(&vuln, "test.py").unwrap();

    assert!(fix.algorithm.contains("PQC migration"));
    assert!(!fix.patch_available); // No patch - requires architectural changes
    assert!(fix.explanation.contains("quantum"));
    assert!(fix.confidence < 70);
    assert!(!fix.review_notes.is_empty());
}

#[test]
fn test_remediate_des() {
    let vuln =
        create_test_vulnerability(CryptoType::Des, "cipher = DES.new(key, DES.MODE_ECB)", None);

    let fix = remediate_des_3des(&vuln, "test.py").unwrap();

    assert_eq!(fix.algorithm, "DES → AES-256-GCM");
    assert!(fix.new_code.contains("AES"));
    assert!(!fix.new_code.contains("DES"));
    assert!(fix.patch_available);
    assert!(fix.explanation.contains("GCM"));
}

#[test]
fn test_remediate_3des() {
    let vuln = create_test_vulnerability(CryptoType::TripleDes, "cipher = TripleDES.new(key)", None);

    let fix = remediate_des_3des(&vuln, "test.py").unwrap();

    assert_eq!(fix.algorithm, "3DES → AES-256-GCM");
    assert!(fix.new_code.contains("AES"));
    assert!(!fix.new_code.contains("TripleDES"));
}

#[test]
fn test_generate_remediations_multiple() {
    let mut audit_result = AuditResult::new(Language::Python, 100);

    audit_result.add_vulnerability(create_test_vulnerability(CryptoType::Md5, "hashlib.md5()", None));
    audit_result.add_vulnerability(create_test_vulnerability(
        CryptoType::Sha1,
        "hashlib.sha1()",
        None,
    ));
    audit_result.add_vulnerability(create_test_vulnerability(
        CryptoType::Rsa,
        "RSA.generate(1024)",
        Some(1024),
    ));
    audit_result.add_vulnerability(create_test_vulnerability(CryptoType::Des, "DES.new(key)", None));

    let remediation = generate_remediations(&audit_result, "test.py");

    assert_eq!(remediation.fixes.len(), 4);
    assert_eq!(remediation.summary.total_vulnerabilities, 4);
    assert_eq!(remediation.summary.remediable, 4); // All have remediation
    assert_eq!(remediation.summary.patch_available, 4); // All can generate patches
    assert!(remediation.summary.average_confidence > 0);
}

#[test]
fn test_generate_remediations_unsupported() {
    let mut audit_result = AuditResult::new(Language::Python, 100);

    audit_result.add_vulnerability(create_test_vulnerability(
        CryptoType::Ecdsa,
        "ecdsa.SigningKey()",
        None,
    ));

    let remediation = generate_remediations(&audit_result, "test.py");

    assert_eq!(remediation.fixes.len(), 0);
    assert_eq!(remediation.summary.remediable, 0);
    assert_eq!(remediation.summary.manual_only, 1);
    assert_eq!(remediation.warnings.len(), 1);
    assert!(remediation.warnings[0].contains("ECDSA"));
}

#[test]
fn test_remediation_summary_statistics() {
    let mut audit_result = AuditResult::new(Language::JavaScript, 50);

    // Add mix of patch-available and no-patch vulnerabilities
    audit_result.add_vulnerability(create_test_vulnerability(
        CryptoType::Md5,
        "crypto.createHash('md5')",
        None,
    ));
    audit_result.add_vulnerability(create_test_vulnerability(
        CryptoType::Sha1,
        "crypto.createHash('sha1')",
        None,
    ));
    audit_result.add_vulnerability(create_test_vulnerability(
        CryptoType::Rsa,
        "generateKeyPair(1024)",
        Some(1024),
    ));

    let remediation = generate_remediations(&audit_result, "app.js");

    assert_eq!(remediation.summary.total_vulnerabilities, 3);
    assert_eq!(remediation.summary.remediable, 3); // All have remediation
    assert_eq!(remediation.summary.patch_available, 3); // All can generate patches
    assert!(remediation.summary.average_confidence > 70);
}

#[test]
fn test_remediation_average_confidence_exact() {
    let mut audit_result = AuditResult::new(Language::Python, 10);
    audit_result.add_vulnerability(create_test_vulnerability(CryptoType::Md5, "md5()", None));
    audit_result.add_vulnerability(create_test_vulnerability(CryptoType::Sha1, "sha1()", None));

    let remediation = generate_remediations(&audit_result, "test.py");

    // MD5 fixes carry 85% confidence and SHA-1 fixes 90%: the mean is 87.
    assert_eq!(remediation.summary.average_confidence, 87);
}

#[test]
fn test_remediation_warning_names_line() {
    let mut audit_result = AuditResult::new(Language::Python, 10);
    audit_result.add_vulnerability(create_test_vulnerability(CryptoType::Rc4, "RC4.new(key)", None));

    let remediation = generate_remediations(&audit_result, "test.py");

    assert_eq!(
        remediation.warnings,
        vec!["No automatic remediation available for RC4 at line 42".to_string()]
    );
}
