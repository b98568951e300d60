use pqc_scanner::reports::Evidence;
use pqc_scanner::reports::EvidenceType;
use pqc_scanner::AuditResult;
use pqc_scanner::CryptoType;
use pqc_scanner::Language;
use pqc_scanner::Severity;
use pqc_scanner::Vulnerability;

fn rsa_finding(line: usize) -> Vulnerability {
    Vulnerability {
        crypto_type: CryptoType::Rsa,
        severity: Severity::High,
        risk_score: 72,
        line,
        column: 0,
        context: "key = RSA.generate(4096)".to_string(),
        message: "RSA usage".to_string(),
        recommendation: "Replace".to_string(),
        key_size: Some(4096),
    }
}

#[test]
fn test_audit_result_new_is_empty() {
    let result = AuditResult::new(Language::Go, 17);
    assert!(result.vulnerabilities.is_empty());
    assert_eq!(result.risk_score, 0);
    assert_eq!(result.stats.total_vulnerabilities, 0);
    assert_eq!(result.stats.critical_count, 0);
    assert_eq!(result.stats.lines_scanned, 17);
    assert!(result.recommendations.is_empty());
}

#[test]
fn test_add_vulnerability_updates_counts() {
    let mut result = AuditResult::new(Language::Python, 3);
    let mut critical = rsa_finding(1);
    critical.severity = Severity::Critical;
    result.add_vulnerability(critical);
    result.add_vulnerability(rsa_finding(2));
    assert_eq!(result.stats.total_vulnerabilities, 2);
    assert_eq!(result.stats.critical_count, 1);
    assert_eq!(result.stats.high_count, 1);
    assert_eq!(result.stats.medium_count, 0);
    assert_eq!(result.stats.low_count, 0);
}

#[test]
fn test_calculate_risk_score_is_mean() {
    let mut result = AuditResult::new(Language::Python, 2);
    let mut a = rsa_finding(1);
    a.risk_score = 80;
    let mut b = rsa_finding(2);
    b.risk_score = 91;
    result.add_vulnerability(a);
    result.add_vulnerability(b);
    result.calculate_risk_score();
    assert_eq!(result.risk_score, 85);
}

#[test]
fn test_calculate_risk_score_empty_is_zero() {
    let mut result = AuditResult::new(Language::Python, 0);
    result.calculate_risk_score();
    assert_eq!(result.risk_score, 0);
}

#[test]
fn test_recommendation_deduplication() {
    let mut result = AuditResult::new(Language::Python, 5);
    for line in 1..=5 {
        result.add_vulnerability(rsa_finding(line));
    }
    result.generate_recommendations();
    let rsa_lines = result
        .recommendations
        .iter()
        .filter(|r| r.contains("Replace RSA"))
        .count();
    assert_eq!(rsa_lines, 1);
}

#[test]
fn test_recommendation_family_line_covers_ecdh() {
    let mut result = AuditResult::new(Language::Python, 1);
    let mut ecdh = rsa_finding(1);
    ecdh.crypto_type = CryptoType::Ecdh;
    ecdh.severity = Severity::Medium;
    result.add_vulnerability(ecdh);
    result.generate_recommendations();
    assert_eq!(
        result
            .recommendations
            .iter()
            .filter(|r| r.contains("Replace ECDSA/ECDH"))
            .count(),
        1
    );
}

#[test]
fn test_recommendation_priority_order() {
    let mut result = AuditResult::new(Language::Python, 2);
    let mut critical = rsa_finding(1);
    critical.severity = Severity::Critical;
    result.add_vulnerability(critical);
    result.add_vulnerability(rsa_finding(2));
    result.generate_recommendations();
    assert!(result.recommendations[0].starts_with("CRITICAL"));
    assert!(result.recommendations[1].starts_with("HIGH PRIORITY"));
    assert!(result.recommendations.last().unwrap().contains("NIST"));
}

#[test]
fn test_evidence_carries_structured_data() {
    let evidence = Evidence {
        evidence_id: "ev-1".to_string(),
        evidence_type: EvidenceType::CodeAnalysis,
        description: "weak hash call".to_string(),
        source_location: None,
        collected_at: "2025-01-01T00:00:00Z".to_string(),
        data: serde_json::Value::String("hashlib.md5".to_string()),
    };
    let copy = evidence.clone();
    assert_eq!(copy.evidence_id, "ev-1");
    assert_eq!(copy.data, serde_json::Value::String("hashlib.md5".to_string()));
}
