use pqc_scanner::analyze;
use pqc_scanner::score_vulnerability;
use pqc_scanner::CryptoType;
use pqc_scanner::ParseError;
use pqc_scanner::Severity;

#[test]
fn test_public_api() {
    let source = "const rsa = crypto.createPublicKey('rsa');";
    let result = analyze(source, "javascript").unwrap();
    assert!(!result.vulnerabilities.is_empty());
}

#[test]
fn test_analyze_is_deterministic() {
    let source = "import hashlib\nhash = hashlib.md5(data)\nkey = RSA.generate(1024)";
    let first = analyze(source, "python").unwrap();
    let second = analyze(source, "python").unwrap();
    assert_eq!(format!("{:?}", first), format!("{:?}", second));
}

#[test]
fn test_analyze_md5_end_to_end() {
    let source = "hash = hashlib.md5(data).hexdigest()";
    let result = analyze(source, "python").unwrap();
    assert_eq!(result.vulnerabilities.len(), 1);
    let v = &result.vulnerabilities[0];
    assert_eq!(v.crypto_type, CryptoType::Md5);
    assert_eq!(v.severity, Severity::Critical);
    assert_eq!(v.context, "hash = hashlib.md5(data).hexdigest()");
    assert_eq!(v.key_size, None);
    assert_eq!(v.line, 1);
}

#[test]
fn test_analyze_rsa_weak_key() {
    let source = "key = RSA.generate(1024)";
    let result = analyze(source, "python").unwrap();
    assert_eq!(result.vulnerabilities.len(), 1);
    let v = &result.vulnerabilities[0];
    assert_eq!(v.crypto_type, CryptoType::Rsa);
    assert_eq!(v.key_size, Some(1024));
    assert_eq!(v.severity, Severity::Critical);
}

#[test]
fn test_analyze_rsa_strong_key_is_high() {
    let source = "key = RSA.generate(4096)";
    let result = analyze(source, "python").unwrap();
    assert_eq!(result.vulnerabilities.len(), 1);
    let v = &result.vulnerabilities[0];
    assert_eq!(v.key_size, Some(4096));
    assert_eq!(v.severity, Severity::High);
}

#[test]
fn test_analyze_counts_are_consistent() {
    let source = "hashlib.md5(a)\nhashlib.sha1(b)\nkey = RSA.generate(1024)\nsk = ecdsa.SigningKey.generate()";
    let result = analyze(source, "python").unwrap();
    let s = &result.stats;
    assert_eq!(s.total_vulnerabilities, result.vulnerabilities.len());
    assert_eq!(
        s.critical_count + s.high_count + s.medium_count + s.low_count,
        s.total_vulnerabilities
    );
    assert_eq!(s.lines_scanned, 4);
}

#[test]
fn test_analyze_score_bounds() {
    let source = "hashlib.md5(a)\nhashlib.sha1(b)\nkey = RSA.generate(512)";
    let result = analyze(source, "python").unwrap();
    assert!(result.risk_score <= 100);
    for v in &result.vulnerabilities {
        assert!(v.risk_score <= 100);
    }
}

#[test]
fn test_analyze_empty_source_scores_zero() {
    let result = analyze("", "python").unwrap();
    assert!(result.vulnerabilities.is_empty());
    assert_eq!(result.risk_score, 0);
    assert_eq!(result.stats.lines_scanned, 0);
    assert!(!result.recommendations.is_empty());
}

#[test]
fn test_analyze_unsupported_language_variants() {
    let plain = analyze("anything", "cobol");
    let upper = analyze("anything", "COBOL");
    let padded = analyze("anything", "cobol ");
    assert!(matches!(plain, Err(ParseError::UnsupportedLanguage(ref s)) if s == "cobol"));
    assert!(matches!(upper, Err(ParseError::UnsupportedLanguage(ref s)) if s == "COBOL"));
    assert!(matches!(padded, Err(ParseError::UnsupportedLanguage(ref s)) if s == "cobol "));
}

#[test]
fn test_analyze_python_import_detection() {
    let source = "from Crypto.Cipher import AES\nAES.new(key, AES.MODE_CBC)";
    let parsed = pqc_scanner::parse_file(source, "python").unwrap();
    assert!(parsed.imports.iter().any(|i| i == "Crypto.Cipher"));
    assert!(parsed.function_calls.iter().any(|f| f.name.contains("AES")));
}

#[test]
fn test_analyze_orders_findings_by_position() {
    let source = "x = 1\nhashlib.sha1(b); hashlib.md5(a)\nkey = RSA.generate(1024)";
    let result = analyze(source, "python").unwrap();
    let positions: Vec<(usize, usize)> = result
        .vulnerabilities
        .iter()
        .map(|v| (v.line, v.column))
        .collect();
    let mut sorted = positions.clone();
    sorted.sort();
    assert_eq!(positions, sorted);
    assert_eq!(result.vulnerabilities.len(), 3);
    assert_eq!(result.vulnerabilities[0].crypto_type, CryptoType::Sha1);
    assert_eq!(result.vulnerabilities[1].crypto_type, CryptoType::Md5);
}

#[test]
fn test_analyze_deduplicates_same_occurrence() {
    // Two calls of the same name on one line share a column and count once.
    let source = "md5(a); md5(b)";
    let result = analyze(source, "python").unwrap();
    assert_eq!(result.vulnerabilities.len(), 1);
}

#[test]
fn test_analyze_does_not_flag_describe() {
    let source = "describe('suite', function() {});";
    let result = analyze(source, "javascript").unwrap();
    assert!(result.vulnerabilities.is_empty());
}

#[test]
fn test_analyze_triple_des_not_double_counted() {
    let source = "cipher = TripleDES.new(key)";
    let result = analyze(source, "python").unwrap();
    assert_eq!(result.vulnerabilities.len(), 1);
    assert_eq!(result.vulnerabilities[0].crypto_type, CryptoType::TripleDes);
}

#[test]
fn test_analyze_line_level_fallback_detection() {
    // No call or import anchors RSA here; the raw line text still does.
    let source = "let kind = \"rsa\";";
    let result = analyze(source, "rust").unwrap();
    assert_eq!(result.vulnerabilities.len(), 1);
    assert_eq!(result.vulnerabilities[0].crypto_type, CryptoType::Rsa);
    assert_eq!(result.vulnerabilities[0].column, 0);
}

#[test]
fn test_analyze_key_size_edge_cases() {
    // No digits after the callee: the hint stays unset.
    let none = analyze("key = RSA.generate(bits)", "python").unwrap();
    assert_eq!(none.vulnerabilities[0].key_size, None);
    // An implausibly long digit run is not a key size.
    let long = analyze("key = RSA.generate(1234567890123)", "python").unwrap();
    assert_eq!(long.vulnerabilities[0].key_size, None);
}

#[test]
fn test_score_vulnerability_table() {
    assert_eq!(score_vulnerability(CryptoType::Md5, None), (Severity::Critical, 95));
    assert_eq!(score_vulnerability(CryptoType::Des, None), (Severity::Critical, 90));
    assert_eq!(score_vulnerability(CryptoType::Rc4, None), (Severity::Critical, 90));
    assert_eq!(score_vulnerability(CryptoType::Sha1, None), (Severity::High, 75));
    assert_eq!(score_vulnerability(CryptoType::TripleDes, None), (Severity::High, 70));
    assert_eq!(score_vulnerability(CryptoType::Rsa, None), (Severity::High, 72));
    assert_eq!(score_vulnerability(CryptoType::Rsa, Some(4096)), (Severity::High, 72));
    assert_eq!(score_vulnerability(CryptoType::Rsa, Some(1536)), (Severity::Critical, 85));
    assert_eq!(score_vulnerability(CryptoType::Rsa, Some(512)), (Severity::Critical, 92));
    assert_eq!(score_vulnerability(CryptoType::Dsa, Some(1024)), (Severity::Critical, 85));
    assert_eq!(
        score_vulnerability(CryptoType::DiffieHellman, Some(768)),
        (Severity::Critical, 92)
    );
    assert_eq!(score_vulnerability(CryptoType::Ecdsa, None), (Severity::Medium, 50));
    assert_eq!(score_vulnerability(CryptoType::Ecdh, None), (Severity::Medium, 50));
}

#[test]
fn test_severity_score_coherence_across_catalog() {
    let kinds = [
        CryptoType::Rsa,
        CryptoType::Ecdsa,
        CryptoType::Ecdh,
        CryptoType::Dsa,
        CryptoType::DiffieHellman,
        CryptoType::Sha1,
        CryptoType::Md5,
        CryptoType::Des,
        CryptoType::TripleDes,
        CryptoType::Rc4,
    ];
    let key_sizes = [None, Some(512), Some(1024), Some(2048), Some(4096)];
    let mut scored = Vec::new();
    for kind in kinds {
        for ks in key_sizes {
            scored.push(score_vulnerability(kind, ks));
        }
    }
    for (sev_a, score_a) in &scored {
        for (sev_b, score_b) in &scored {
            if *sev_a == Severity::Critical && *sev_b == Severity::Low {
                assert!(score_a >= score_b);
            }
            if sev_a > sev_b {
                assert!(score_a > score_b);
            }
        }
    }
}

#[test]
fn test_analyze_go_md5_import_and_call() {
    let source = "import \"crypto/md5\"\nh := md5.New()";
    let result = analyze(source, "go").unwrap();
    assert_eq!(result.vulnerabilities.len(), 2);
    assert!(result.vulnerabilities.iter().all(|v| v.crypto_type == CryptoType::Md5));
    assert_eq!(result.vulnerabilities[0].line, 1);
    assert_eq!(result.vulnerabilities[1].line, 2);
}

#[test]
fn test_analyze_java_desede_line_detection() {
    let source = "Cipher c = Cipher.getInstance(\"DESede/CBC/PKCS5Padding\");";
    let result = analyze(source, "java").unwrap();
    assert_eq!(result.vulnerabilities.len(), 1);
    assert_eq!(result.vulnerabilities[0].crypto_type, CryptoType::TripleDes);
}

#[test]
fn test_analyze_rc4() {
    let result = analyze("cipher = ARC4.new(key)", "python").unwrap();
    assert_eq!(result.vulnerabilities.len(), 1);
    let v = &result.vulnerabilities[0];
    assert_eq!(v.crypto_type, CryptoType::Rc4);
    assert_eq!(v.severity, Severity::Critical);
}

#[test]
fn test_analyze_dsa_weak_key() {
    let result = analyze("key = DSA.generate(1024)", "python").unwrap();
    assert_eq!(result.vulnerabilities.len(), 1);
    let v = &result.vulnerabilities[0];
    assert_eq!(v.crypto_type, CryptoType::Dsa);
    assert_eq!(v.key_size, Some(1024));
    assert_eq!(v.severity, Severity::Critical);
}

#[test]
fn test_analyze_diffie_hellman_key_size() {
    let source = "const dh = crypto.createDiffieHellman(2048);";
    let result = analyze(source, "javascript").unwrap();
    assert_eq!(result.vulnerabilities.len(), 1);
    let v = &result.vulnerabilities[0];
    assert_eq!(v.crypto_type, CryptoType::DiffieHellman);
    assert_eq!(v.key_size, Some(2048));
    assert_eq!(v.severity, Severity::High);
}

#[test]
fn test_analyze_ecdh_is_medium() {
    let result = analyze("shared = ECDH.compute_key(peer)", "python").unwrap();
    assert_eq!(result.vulnerabilities.len(), 1);
    let v = &result.vulnerabilities[0];
    assert_eq!(v.crypto_type, CryptoType::Ecdh);
    assert_eq!(v.severity, Severity::Medium);
}

#[test]
fn test_severity_ordering() {
    assert!(Severity::Low < Severity::Medium);
    assert!(Severity::Medium < Severity::High);
    assert!(Severity::High < Severity::Critical);
}

#[test]
fn test_crypto_type_labels() {
    assert_eq!(CryptoType::TripleDes.label(), "3DES");
    assert_eq!(CryptoType::DiffieHellman.label(), "Diffie-Hellman");
    assert_eq!(CryptoType::Sha1.label(), "SHA-1");
    assert_eq!(CryptoType::Rsa.label(), "RSA");
}
