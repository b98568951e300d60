//! Scoring engine and the end-to-end audit pipeline.
//!
//! `score_vulnerability` assigns each detected occurrence a severity and a
//! deterministic 0-100 risk score, a function of the algorithm family and
//! the detected key size alone. `analyze` runs resolver, scanner,
//! classifier and scoring in sequence and aggregates everything into one
//! `AuditResult`.

use vstd::prelude::*;

use crate::detector::{classify, classify_spec, Detection};
use crate::parser::{has_profile, parse_file, scan_spec, ParseError};
use crate::text::{chars_to_string, lines_spec, split_lines, str_to_chars, trim, trim_spec};
use crate::types::{
    count_severity, lemma_count_severity_le_len, mean_score, rec_lines, resolve_spec, sum_scores,
    AuditModel, AuditResult, AuditStats, CryptoType, Language, Severity, VulnModel, Vulnerability,
};

verus! {

// ---------------------------------------------------------------------------
// Severity and score policy
// ---------------------------------------------------------------------------

/// The severity of one occurrence.
///
/// Classically broken algorithms (MD5, DES, RC4) are Critical; weakened
/// ones (SHA-1, 3DES) are High. The factorization/discrete-log family
/// (RSA, DSA, Diffie-Hellman) is High while the key size is unknown or at
/// least 2048 bits, Critical below that. The elliptic-curve family is
/// classically strong but quantum-vulnerable: Medium.
pub open spec fn severity_spec(k: CryptoType, key_size: Option<u32>) -> Severity {
    match k {
        CryptoType::Md5 | CryptoType::Des | CryptoType::Rc4 => Severity::Critical,
        CryptoType::Sha1 | CryptoType::TripleDes => Severity::High,
        CryptoType::Rsa | CryptoType::Dsa | CryptoType::DiffieHellman => match key_size {
            Some(bits) => if bits < 2048 {
                Severity::Critical
            } else {
                Severity::High
            },
            None => Severity::High,
        },
        CryptoType::Ecdsa | CryptoType::Ecdh => Severity::Medium,
    }
}

/// The risk score of one occurrence: a deterministic function of family
/// and key size, always inside its severity's band, and at least 90 for a
/// key shorter than 1024 bits.
pub open spec fn score_spec(k: CryptoType, key_size: Option<u32>) -> u32 {
    match k {
        CryptoType::Md5 => 95,
        CryptoType::Des => 90,
        CryptoType::Rc4 => 90,
        CryptoType::Sha1 => 75,
        CryptoType::TripleDes => 70,
        CryptoType::Rsa | CryptoType::Dsa | CryptoType::DiffieHellman => match key_size {
            Some(bits) => if bits < 1024 {
                92
            } else if bits < 2048 {
                85
            } else {
                72
            },
            None => 72,
        },
        CryptoType::Ecdsa | CryptoType::Ecdh => 50,
    }
}

/// The lower bound of a severity's score band.
pub open spec fn band_lo(s: Severity) -> u32 {
    match s {
        Severity::Low => 0,
        Severity::Medium => 30,
        Severity::High => 60,
        Severity::Critical => 80,
    }
}

/// The upper bound of a severity's score band.
pub open spec fn band_hi(s: Severity) -> u32 {
    match s {
        Severity::Low => 29,
        Severity::Medium => 59,
        Severity::High => 79,
        Severity::Critical => 100,
    }
}

/// The rank of a severity in the Low < Medium < High < Critical order.
pub open spec fn sev_rank(s: Severity) -> int {
    match s {
        Severity::Low => 0,
        Severity::Medium => 1,
        Severity::High => 2,
        Severity::Critical => 3,
    }
}

/// Every score lies inside the band of its severity, and a key shorter
/// than 1024 bits forces a Critical score of at least 90.
pub proof fn lemma_score_in_band(k: CryptoType, key_size: Option<u32>)
    ensures
        band_lo(severity_spec(k, key_size)) <= score_spec(k, key_size) <= band_hi(
            severity_spec(k, key_size),
        ),
        score_spec(k, key_size) <= 100,
        key_size matches Some(bits) && bits < 1024 && (k == CryptoType::Rsa || k
            == CryptoType::Dsa || k == CryptoType::DiffieHellman) ==> severity_spec(k, key_size)
            == Severity::Critical && score_spec(k, key_size) >= 90,
{
}

/// A more severe occurrence never scores below a less severe one; in
/// particular no Critical finding scores below any Low finding, whatever
/// families produced them.
pub proof fn lemma_severity_score_coherent(
    k1: CryptoType,
    key1: Option<u32>,
    k2: CryptoType,
    key2: Option<u32>,
)
    ensures
        sev_rank(severity_spec(k1, key1)) > sev_rank(severity_spec(k2, key2)) ==> score_spec(
            k1,
            key1,
        ) > score_spec(k2, key2),
{
    lemma_score_in_band(k1, key1);
    lemma_score_in_band(k2, key2);
}

/// Assigns severity and risk score to one occurrence.
pub fn score_vulnerability(crypto_type: CryptoType, key_size: Option<u32>) -> (r: (Severity, u32))
    ensures
        r.0 == severity_spec(crypto_type, key_size),
        r.1 == score_spec(crypto_type, key_size),
        band_lo(r.0) <= r.1 <= band_hi(r.0),
{
    proof {
        lemma_score_in_band(crypto_type, key_size);
    }
    match crypto_type {
        CryptoType::Md5 => (Severity::Critical, 95),
        CryptoType::Des => (Severity::Critical, 90),
        CryptoType::Rc4 => (Severity::Critical, 90),
        CryptoType::Sha1 => (Severity::High, 75),
        CryptoType::TripleDes => (Severity::High, 70),
        CryptoType::Rsa | CryptoType::Dsa | CryptoType::DiffieHellman => match key_size {
            Some(bits) => if bits < 1024 {
                (Severity::Critical, 92)
            } else if bits < 2048 {
                (Severity::Critical, 85)
            } else {
                (Severity::High, 72)
            },
            None => (Severity::High, 72),
        },
        CryptoType::Ecdsa | CryptoType::Ecdh => (Severity::Medium, 50),
    }
}

// ---------------------------------------------------------------------------
// Finding texts
// ---------------------------------------------------------------------------

/// The message of a finding: the algorithm and why it is flagged.
pub open spec fn message_spec(k: CryptoType) -> Seq<char> {
    match k {
        CryptoType::Rsa => "RSA usage detected - quantum-vulnerable to Shor's algorithm"@,
        CryptoType::Ecdsa => "ECDSA usage detected - quantum-vulnerable to Shor's algorithm"@,
        CryptoType::Ecdh => "ECDH key exchange detected - quantum-vulnerable to Shor's algorithm"@,
        CryptoType::Dsa => "DSA usage detected - quantum-vulnerable to Shor's algorithm"@,
        CryptoType::DiffieHellman => "Diffie-Hellman key exchange detected - quantum-vulnerable to Shor's algorithm"@,
        CryptoType::Sha1 => "SHA-1 hash detected - collision attacks known, deprecated by NIST"@,
        CryptoType::Md5 => "MD5 hash detected - cryptographically broken, prohibited by NIST"@,
        CryptoType::Des => "DES cipher detected - 56-bit key is trivially breakable"@,
        CryptoType::TripleDes => "3DES cipher detected - deprecated, small block size and sweep attacks"@,
        CryptoType::Rc4 => "RC4 stream cipher detected - biased keystream, prohibited"@,
    }
}

/// The per-finding recommendation: the replacement family.
pub open spec fn finding_rec_spec(k: CryptoType) -> Seq<char> {
    match k {
        CryptoType::Rsa => "Replace with CRYSTALS-Kyber (encryption) or CRYSTALS-Dilithium (signatures)"@,
        CryptoType::Ecdsa => "Replace with CRYSTALS-Dilithium signatures"@,
        CryptoType::Ecdh => "Replace with CRYSTALS-Kyber key encapsulation"@,
        CryptoType::Dsa => "Replace with CRYSTALS-Dilithium signatures"@,
        CryptoType::DiffieHellman => "Replace with CRYSTALS-Kyber key encapsulation"@,
        CryptoType::Sha1 => "Replace with SHA-256 or SHA-3"@,
        CryptoType::Md5 => "Replace with SHA-256 or SHA-3"@,
        CryptoType::Des => "Replace with AES-256-GCM"@,
        CryptoType::TripleDes => "Replace with AES-256-GCM"@,
        CryptoType::Rc4 => "Replace with AES-256-GCM or ChaCha20-Poly1305"@,
    }
}

fn message_for(k: CryptoType) -> (r: String)
    ensures
        r@ == message_spec(k),
{
    String::from_str(
        match k {
            CryptoType::Rsa => "RSA usage detected - quantum-vulnerable to Shor's algorithm",
            CryptoType::Ecdsa => "ECDSA usage detected - quantum-vulnerable to Shor's algorithm",
            CryptoType::Ecdh => "ECDH key exchange detected - quantum-vulnerable to Shor's algorithm",
            CryptoType::Dsa => "DSA usage detected - quantum-vulnerable to Shor's algorithm",
            CryptoType::DiffieHellman => "Diffie-Hellman key exchange detected - quantum-vulnerable to Shor's algorithm",
            CryptoType::Sha1 => "SHA-1 hash detected - collision attacks known, deprecated by NIST",
            CryptoType::Md5 => "MD5 hash detected - cryptographically broken, prohibited by NIST",
            CryptoType::Des => "DES cipher detected - 56-bit key is trivially breakable",
            CryptoType::TripleDes => "3DES cipher detected - deprecated, small block size and sweep attacks",
            CryptoType::Rc4 => "RC4 stream cipher detected - biased keystream, prohibited",
        },
    )
}

fn finding_rec_for(k: CryptoType) -> (r: String)
    ensures
        r@ == finding_rec_spec(k),
{
    String::from_str(
        match k {
            CryptoType::Rsa => "Replace with CRYSTALS-Kyber (encryption) or CRYSTALS-Dilithium (signatures)",
            CryptoType::Ecdsa => "Replace with CRYSTALS-Dilithium signatures",
            CryptoType::Ecdh => "Replace with CRYSTALS-Kyber key encapsulation",
            CryptoType::Dsa => "Replace with CRYSTALS-Dilithium signatures",
            CryptoType::DiffieHellman => "Replace with CRYSTALS-Kyber key encapsulation",
            CryptoType::Sha1 => "Replace with SHA-256 or SHA-3",
            CryptoType::Md5 => "Replace with SHA-256 or SHA-3",
            CryptoType::Des => "Replace with AES-256-GCM",
            CryptoType::TripleDes => "Replace with AES-256-GCM",
            CryptoType::Rc4 => "Replace with AES-256-GCM or ChaCha20-Poly1305",
        },
    )
}

// ---------------------------------------------------------------------------
// The audit pipeline
// ---------------------------------------------------------------------------

/// The context snippet of a detection: the trimmed text of its source
/// line.
pub open spec fn context_of(d: Detection, lines: Seq<Seq<char>>) -> Seq<char> {
    if 1 <= d.line && d.line <= lines.len() {
        trim_spec(lines[d.line - 1])
    } else {
        Seq::empty()
    }
}

/// The finding built from one scored detection.
pub open spec fn vuln_of(d: Detection, lines: Seq<Seq<char>>) -> VulnModel {
    VulnModel {
        crypto_type: d.kind,
        severity: severity_spec(d.kind, d.key_size),
        risk_score: score_spec(d.kind, d.key_size),
        line: d.line,
        column: d.column,
        context: context_of(d, lines),
        message: message_spec(d.kind),
        recommendation: finding_rec_spec(d.kind),
        key_size: d.key_size,
    }
}

/// The findings of a detection sequence, in order.
pub open spec fn vulns_spec(dets: Seq<Detection>, lines: Seq<Seq<char>>) -> Seq<VulnModel>
    decreases dets.len(),
{
    if dets.len() == 0 {
        Seq::empty()
    } else {
        vulns_spec(dets.drop_last(), lines).push(vuln_of(dets.last(), lines))
    }
}

/// The statistics of a finding sequence.
pub open spec fn stats_spec(vulns: Seq<VulnModel>, nlines: int) -> AuditStats {
    AuditStats {
        total_vulnerabilities: vulns.len() as usize,
        critical_count: count_severity(vulns, Severity::Critical) as usize,
        high_count: count_severity(vulns, Severity::High) as usize,
        medium_count: count_severity(vulns, Severity::Medium) as usize,
        low_count: count_severity(vulns, Severity::Low) as usize,
        lines_scanned: nlines as usize,
    }
}

/// The complete audit of one source text in one language: scan, classify,
/// score, aggregate, finalize.
pub open spec fn analyze_spec(src: Seq<char>, lang: Language) -> AuditModel {
    let lines = lines_spec(src);
    let dets = classify_spec(scan_spec(lang, src), lines);
    let vulns = vulns_spec(dets, lines);
    let stats = stats_spec(vulns, lines.len() as int);
    AuditModel {
        vulnerabilities: vulns,
        risk_score: mean_score(vulns) as u32,
        language: lang,
        recommendations: rec_lines(stats, vulns),
        stats,
    }
}

/// Audits `source` as `language` source text.
///
/// Succeeds exactly when the language identifier resolves to a language
/// with a scanning profile, and then returns the fully finalized result:
/// statistics consistent with the findings, the aggregate score the mean
/// of the finding scores (zero when there are none, never above 100), and
/// the recommendations filled in. Every failure is `UnsupportedLanguage`,
/// carrying the identifier verbatim. The result is a function of the two
/// arguments alone: repeated calls return identical content.
pub fn analyze(source: &str, language: &str) -> (r: Result<AuditResult, ParseError>)
    ensures
        match r {
            Ok(res) => {
                &&& resolve_spec(language@) matches Some(l) && has_profile(l) && res@
                    == analyze_spec(source@, l)
                &&& res.wf()
                &&& res.risk_score <= 100
                &&& res@.vulnerabilities.len() == 0 ==> res.risk_score == 0
                &&& res.stats.lines_scanned == lines_spec(source@).len()
                &&& sorted_by_position(res@.vulnerabilities)
            },
            Err(e) => {
                &&& (match resolve_spec(language@) {
                    Some(l) => !has_profile(l),
                    None => true,
                })
                &&& e matches ParseError::UnsupportedLanguage(s) && s@ == language@
            },
        },
        r is Ok <==> (resolve_spec(language@) matches Some(l) && has_profile(l)),
{
    let parsed = match parse_file(source, language) {
        Ok(p) => p,
        Err(e) => {
            return Err(e);
        },
    };
    let ghost lang = resolve_spec(language@)->Some_0;
    proof {
        lemma_scan_language(lang, lines_spec(source@), lines_spec(source@).len() as int);
    }
    let chars = str_to_chars(source);
    let lines = split_lines(&chars);
    let ghost lsm = lines.deep_view();
    let dets = classify(&parsed, &lines);
    let ghost dets_m = dets@;
    let mut result = AuditResult::new(parsed.language, lines.len());
    let nd: usize = dets.len();
    let mut i: usize = 0;
    proof {
        assert(dets_m.take(0) =~= Seq::<Detection>::empty());
        assert(result@.vulnerabilities =~= vulns_spec(dets_m.take(0), lsm));
    }
    while i < nd
        invariant
            nd == dets@.len(),
            dets_m == dets@,
            lsm == lines.deep_view(),
            lsm.len() == lines@.len(),
            i <= nd,
            result.wf(),
            result@.vulnerabilities == vulns_spec(dets_m.take(i as int), lsm),
            result.language == lang,
            result.risk_score == 0,
            result.recommendations.deep_view() =~= Seq::<Seq<char>>::empty(),
            result.stats.lines_scanned == lsm.len(),
        decreases nd - i,
    {
        let d = dets[i];
        let (sev, score) = score_vulnerability(d.kind, d.key_size);
        let context: String = if 1 <= d.line && d.line <= lines.len() {
            chars_to_string(&trim(&lines[d.line - 1]))
        } else {
            String::new()
        };
        proof {
            if 1 <= d.line && d.line <= lsm.len() {
                assert(lines@[d.line - 1].deep_view() =~= lines@[d.line - 1]@);
            }
            assert(context@ == context_of(d, lsm));
        }
        let message = message_for(d.kind);
        let recommendation = finding_rec_for(d.kind);
        let vuln = Vulnerability {
            crypto_type: d.kind,
            severity: sev,
            risk_score: score,
            line: d.line,
            column: d.column,
            context,
            message,
            recommendation,
            key_size: d.key_size,
        };
        assert(vuln@ == vuln_of(d, lsm));
        result.add_vulnerability(vuln);
        proof {
            assert(dets_m.take(i + 1).drop_last() =~= dets_m.take(i as int));
            assert(dets_m.take(i + 1).last() == dets_m[i as int]);
        }
        i = i + 1;
    }
    proof {
        assert(dets_m.take(nd as int) =~= dets_m);
    }
    let ghost vulns = result@.vulnerabilities;
    result.calculate_risk_score();
    proof {
        lemma_vulns_scores_bounded(dets_m, lsm);
        lemma_mean_bounds(vulns, 100);
    }
    result.generate_recommendations();
    proof {
        let target = analyze_spec(source@, lang);
        lemma_count_severity_le_len(vulns, Severity::Critical);
        lemma_count_severity_le_len(vulns, Severity::High);
        lemma_count_severity_le_len(vulns, Severity::Medium);
        lemma_count_severity_le_len(vulns, Severity::Low);
        assert(result.stats == target.stats);
        assert(result@.recommendations =~= target.recommendations);
        assert(result@ == target);
        lemma_analyze_sorted(source@, lang);
    }
    Ok(result)
}

/// The scanner tags its result with the language it was asked to scan.
proof fn lemma_scan_language(lang: Language, ls: Seq<Seq<char>>, k: int)
    ensures
        crate::parser::scan_upto(lang, ls, k).language == lang,
    decreases k,
{
    if k > 0 {
        lemma_scan_language(lang, ls, k - 1);
    }
}

/// Every finding built from a detection carries a score of at most 100.
proof fn lemma_vulns_scores_bounded(dets: Seq<Detection>, lines: Seq<Seq<char>>)
    ensures
        forall|i: int|
            0 <= i < vulns_spec(dets, lines).len() ==> vulns_spec(dets, lines)[i].risk_score
                <= 100,
    decreases dets.len(),
{
    if dets.len() > 0 {
        lemma_vulns_scores_bounded(dets.drop_last(), lines);
        lemma_score_in_band(dets.last().kind, dets.last().key_size);
    }
}

/// Findings are ordered line-ascending, then column-ascending within a
/// line.
pub open spec fn sorted_by_position(s: Seq<VulnModel>) -> bool {
    forall|i: int, j: int|
        0 <= i < j < s.len() ==> (s[i].line < s[j].line || (s[i].line == s[j].line
            && s[i].column <= s[j].column))
}

/// Each finding keeps the line and column of the detection it was built
/// from.
proof fn lemma_vulns_keep_positions(dets: Seq<Detection>, lines: Seq<Seq<char>>)
    ensures
        vulns_spec(dets, lines).len() == dets.len(),
        forall|i: int|
            0 <= i < dets.len() ==> #[trigger] vulns_spec(dets, lines)[i].line == dets[i].line
                && vulns_spec(dets, lines)[i].column == dets[i].column,
    decreases dets.len(),
{
    if dets.len() > 0 {
        lemma_vulns_keep_positions(dets.drop_last(), lines);
        assert(forall|i: int|
            0 <= i < dets.len() - 1 ==> #[trigger] dets.drop_last()[i] == dets[i]);
    }
}

/// The findings of an audit are position-sorted: detection order is
/// line-ascending, then column-ascending within a line.
pub proof fn lemma_analyze_sorted(src: Seq<char>, lang: Language)
    requires
        lines_spec(src).len() <= usize::MAX,
    ensures
        sorted_by_position(analyze_spec(src, lang).vulnerabilities),
{
    let lines = lines_spec(src);
    let dets = classify_spec(scan_spec(lang, src), lines);
    crate::detector::lemma_classify_sorted(scan_spec(lang, src), lines);
    lemma_vulns_keep_positions(dets, lines);
}

/// The mean of scores that are all at most `m` is between 0 and `m`.
pub proof fn lemma_mean_bounds(s: Seq<VulnModel>, m: int)
    requires
        forall|i: int| 0 <= i < s.len() ==> s[i].risk_score <= m,
        m >= 0,
    ensures
        0 <= mean_score(s) <= m,
{
    if s.len() > 0 {
        crate::types::lemma_sum_scores_bounds(s, m);
        assert(sum_scores(s) / (s.len() as int) <= m) by (nonlinear_arith)
            requires
                s.len() > 0,
                0 <= sum_scores(s) <= s.len() * m,
        ;
    }
}

} // verus!
