//! Core data model: languages, severities, algorithm kinds, findings and
//! audit results, together with the aggregation logic of `AuditResult`.

use vstd::prelude::*;

use crate::text::{eq_lit, lower_seq, str_to_chars, to_lower};

verus! {

/// Programming languages the audit understands.
///
/// Every variant can be named by a caller, but only Rust, JavaScript,
/// TypeScript, Python, Java and Go have a scanning profile; Cpp and Csharp
/// resolve here and are then rejected by the scanner.
#[derive(Debug, Clone, Copy, PartialEq, Eq, Structural)]
pub enum Language {
    Rust,
    JavaScript,
    TypeScript,
    Python,
    Java,
    Go,
    Cpp,
    Csharp,
}

/// Severity of a single finding, ordered from least to most severe.
#[derive(Debug, Clone, Copy, PartialEq, Eq, Structural, PartialOrd, Ord)]
pub enum Severity {
    Low,
    Medium,
    High,
    Critical,
}

/// The cryptographic algorithm families the catalog can classify.
#[derive(Debug, Clone, Copy, PartialEq, Eq, Structural)]
pub enum CryptoType {
    Rsa,
    Ecdsa,
    Ecdh,
    Dsa,
    DiffieHellman,
    Sha1,
    Md5,
    Des,
    TripleDes,
    Rc4,
}

/// The language a free-text identifier resolves to: the identifier is
/// lower-cased and compared against every accepted name and alias.
pub open spec fn resolve_spec(s: Seq<char>) -> Option<Language> {
    let l = lower_seq(s);
    if l == "rust"@ || l == "rs"@ {
        Some(Language::Rust)
    } else if l == "javascript"@ || l == "js"@ {
        Some(Language::JavaScript)
    } else if l == "typescript"@ || l == "ts"@ {
        Some(Language::TypeScript)
    } else if l == "python"@ || l == "py"@ {
        Some(Language::Python)
    } else if l == "java"@ {
        Some(Language::Java)
    } else if l == "go"@ || l == "golang"@ {
        Some(Language::Go)
    } else if l == "cpp"@ || l == "c++"@ || l == "cxx"@ {
        Some(Language::Cpp)
    } else if l == "csharp"@ || l == "cs"@ || l == "c#"@ {
        Some(Language::Csharp)
    } else {
        None
    }
}

impl Language {
    /// Resolves a user-supplied language identifier, case-insensitively,
    /// accepting full names and the common short aliases.
    pub fn from_string(s: &str) -> (r: Option<Language>)
        ensures
            r == resolve_spec(s@),
    {
        let v = str_to_chars(s);
        let l = to_lower(&v);
        if eq_lit(&l, "rust") || eq_lit(&l, "rs") {
            Some(Language::Rust)
        } else if eq_lit(&l, "javascript") || eq_lit(&l, "js") {
            Some(Language::JavaScript)
        } else if eq_lit(&l, "typescript") || eq_lit(&l, "ts") {
            Some(Language::TypeScript)
        } else if eq_lit(&l, "python") || eq_lit(&l, "py") {
            Some(Language::Python)
        } else if eq_lit(&l, "java") {
            Some(Language::Java)
        } else if eq_lit(&l, "go") || eq_lit(&l, "golang") {
            Some(Language::Go)
        } else if eq_lit(&l, "cpp") || eq_lit(&l, "c++") || eq_lit(&l, "cxx") {
            Some(Language::Cpp)
        } else if eq_lit(&l, "csharp") || eq_lit(&l, "cs") || eq_lit(&l, "c#") {
            Some(Language::Csharp)
        } else {
            None
        }
    }
}

/// The display label of a language, as user-facing text writes it.
pub open spec fn language_label_spec(l: Language) -> Seq<char> {
    match l {
        Language::Rust => "rust"@,
        Language::JavaScript => "javascript"@,
        Language::TypeScript => "typescript"@,
        Language::Python => "python"@,
        Language::Java => "java"@,
        Language::Go => "go"@,
        Language::Cpp => "cpp"@,
        Language::Csharp => "csharp"@,
    }
}

impl Language {
    /// The display label of this language.
    pub fn label(&self) -> (r: String)
        ensures
            r@ == language_label_spec(*self),
    {
        String::from_str(
            match self {
                Language::Rust => "rust",
                Language::JavaScript => "javascript",
                Language::TypeScript => "typescript",
                Language::Python => "python",
                Language::Java => "java",
                Language::Go => "go",
                Language::Cpp => "cpp",
                Language::Csharp => "csharp",
            },
        )
    }
}

/// The display label of an algorithm family. These labels are part of the
/// external contract: downstream compliance and remediation text matches
/// on them verbatim.
pub open spec fn crypto_label_spec(k: CryptoType) -> Seq<char> {
    match k {
        CryptoType::Rsa => "RSA"@,
        CryptoType::Ecdsa => "ECDSA"@,
        CryptoType::Ecdh => "ECDH"@,
        CryptoType::Dsa => "DSA"@,
        CryptoType::DiffieHellman => "Diffie-Hellman"@,
        CryptoType::Sha1 => "SHA-1"@,
        CryptoType::Md5 => "MD5"@,
        CryptoType::Des => "DES"@,
        CryptoType::TripleDes => "3DES"@,
        CryptoType::Rc4 => "RC4"@,
    }
}

impl CryptoType {
    /// The display label of this algorithm family.
    pub fn label(&self) -> (r: String)
        ensures
            r@ == crypto_label_spec(*self),
    {
        String::from_str(
            match self {
                CryptoType::Rsa => "RSA",
                CryptoType::Ecdsa => "ECDSA",
                CryptoType::Ecdh => "ECDH",
                CryptoType::Dsa => "DSA",
                CryptoType::DiffieHellman => "Diffie-Hellman",
                CryptoType::Sha1 => "SHA-1",
                CryptoType::Md5 => "MD5",
                CryptoType::Des => "DES",
                CryptoType::TripleDes => "3DES",
                CryptoType::Rc4 => "RC4",
            },
        )
    }
}

/// One detected occurrence of a vulnerable cryptographic algorithm.
#[derive(Debug, Clone)]
pub struct Vulnerability {
    /// Algorithm family found.
    pub crypto_type: CryptoType,
    /// Severity level.
    pub severity: Severity,
    /// Risk score, 0 to 100.
    pub risk_score: u32,
    /// 1-based line in the source text.
    pub line: usize,
    /// 1-based character column in the raw source line; zero when the
    /// occurrence has no anchored position there.
    pub column: usize,
    /// The trimmed source line the occurrence was found on.
    pub context: String,
    /// Why the occurrence is flagged.
    pub message: String,
    /// The suggested replacement family.
    pub recommendation: String,
    /// Key size in bits, where one was found next to the occurrence.
    pub key_size: Option<u32>,
}

/// Mathematical image of a `Vulnerability`: the same fields with the
/// strings as character sequences.
pub struct VulnModel {
    pub crypto_type: CryptoType,
    pub severity: Severity,
    pub risk_score: u32,
    pub line: usize,
    pub column: usize,
    pub context: Seq<char>,
    pub message: Seq<char>,
    pub recommendation: Seq<char>,
    pub key_size: Option<u32>,
}

impl View for Vulnerability {
    type V = VulnModel;

    open spec fn view(&self) -> VulnModel {
        VulnModel {
            crypto_type: self.crypto_type,
            severity: self.severity,
            risk_score: self.risk_score,
            line: self.line,
            column: self.column,
            context: self.context@,
            message: self.message@,
            recommendation: self.recommendation@,
            key_size: self.key_size,
        }
    }
}

/// Summary counts of one audit.
#[derive(Debug, Clone, Copy, PartialEq, Eq, Structural)]
pub struct AuditStats {
    pub total_vulnerabilities: usize,
    pub critical_count: usize,
    pub high_count: usize,
    pub medium_count: usize,
    pub low_count: usize,
    pub lines_scanned: usize,
}

/// Complete result of auditing one source unit.
#[derive(Debug, Clone)]
pub struct AuditResult {
    /// Findings in detection order.
    pub vulnerabilities: Vec<Vulnerability>,
    /// Aggregate risk score, 0 to 100: the mean of the findings' scores.
    pub risk_score: u32,
    /// Language audited.
    pub language: Language,
    /// Summary recommendations.
    pub recommendations: Vec<String>,
    /// Summary statistics.
    pub stats: AuditStats,
}

/// Mathematical image of an `AuditResult`.
pub struct AuditModel {
    pub vulnerabilities: Seq<VulnModel>,
    pub risk_score: u32,
    pub language: Language,
    pub recommendations: Seq<Seq<char>>,
    pub stats: AuditStats,
}

impl View for AuditResult {
    type V = AuditModel;

    open spec fn view(&self) -> AuditModel {
        AuditModel {
            vulnerabilities: self.vulnerabilities@.map_values(|v: Vulnerability| v@),
            risk_score: self.risk_score,
            language: self.language,
            recommendations: self.recommendations.deep_view(),
            stats: self.stats,
        }
    }
}

/// How many findings of `s` carry severity `sev`.
pub open spec fn count_severity(s: Seq<VulnModel>, sev: Severity) -> nat
    decreases s.len(),
{
    if s.len() == 0 {
        0
    } else {
        count_severity(s.drop_last(), sev) + if s.last().severity == sev {
            1nat
        } else {
            0nat
        }
    }
}

pub proof fn lemma_count_severity_le_len(s: Seq<VulnModel>, sev: Severity)
    ensures
        count_severity(s, sev) <= s.len(),
    decreases s.len(),
{
    if s.len() > 0 {
        lemma_count_severity_le_len(s.drop_last(), sev);
    }
}

/// The four per-severity counts of any sequence of findings add up to its
/// length; with a well-formed `AuditResult` this is exactly
/// `critical + high + medium + low == total`.
pub proof fn lemma_severity_counts_sum(s: Seq<VulnModel>)
    ensures
        count_severity(s, Severity::Critical) + count_severity(s, Severity::High)
            + count_severity(s, Severity::Medium) + count_severity(s, Severity::Low) == s.len(),
    decreases s.len(),
{
    if s.len() > 0 {
        lemma_severity_counts_sum(s.drop_last());
    }
}

/// Sum of the findings' risk scores.
pub open spec fn sum_scores(s: Seq<VulnModel>) -> int
    decreases s.len(),
{
    if s.len() == 0 {
        0
    } else {
        sum_scores(s.drop_last()) + s.last().risk_score
    }
}

/// The aggregate score: the arithmetic mean of the findings' scores, zero
/// when there are none.
pub open spec fn mean_score(s: Seq<VulnModel>) -> int {
    if s.len() == 0 {
        0
    } else {
        sum_scores(s) / (s.len() as int)
    }
}

pub proof fn lemma_sum_scores_bounds(s: Seq<VulnModel>, m: int)
    requires
        forall|i: int| 0 <= i < s.len() ==> s[i].risk_score <= m,
        m >= 0,
    ensures
        0 <= sum_scores(s) <= s.len() * m,
    decreases s.len(),
{
    if s.len() > 0 {
        lemma_sum_scores_bounds(s.drop_last(), m);
        assert((s.len() - 1) * m + m == s.len() * m) by (nonlinear_arith);
    }
}

impl AuditResult {
    /// Internal consistency: the statistics match the recorded findings.
    pub open spec fn wf(self) -> bool {
        &&& self.stats.total_vulnerabilities == self@.vulnerabilities.len()
        &&& self.stats.critical_count == count_severity(self@.vulnerabilities, Severity::Critical)
        &&& self.stats.high_count == count_severity(self@.vulnerabilities, Severity::High)
        &&& self.stats.medium_count == count_severity(self@.vulnerabilities, Severity::Medium)
        &&& self.stats.low_count == count_severity(self@.vulnerabilities, Severity::Low)
    }

    /// An empty result for `language`, with every count zero except the
    /// number of lines scanned.
    pub fn new(language: Language, lines_scanned: usize) -> (r: AuditResult)
        ensures
            r@.vulnerabilities =~= Seq::<VulnModel>::empty(),
            r.risk_score == 0,
            r.language == language,
            r.recommendations.deep_view() =~= Seq::<Seq<char>>::empty(),
            r.stats == (AuditStats {
                total_vulnerabilities: 0,
                critical_count: 0,
                high_count: 0,
                medium_count: 0,
                low_count: 0,
                lines_scanned,
            }),
            r.wf(),
    {
        let r = AuditResult {
            vulnerabilities: Vec::new(),
            risk_score: 0,
            language,
            recommendations: Vec::new(),
            stats: AuditStats {
                total_vulnerabilities: 0,
                critical_count: 0,
                high_count: 0,
                medium_count: 0,
                low_count: 0,
                lines_scanned,
            },
        };
        proof {
            assert(r.recommendations.deep_view() =~= Seq::<Seq<char>>::empty());
            assert(r@.vulnerabilities =~= Seq::<VulnModel>::empty());
        }
        r
    }

    /// Appends one finding and updates the matching severity counter.
    pub fn add_vulnerability(&mut self, vuln: Vulnerability)
        requires
            old(self).wf(),
        ensures
            final(self).wf(),
            final(self)@.vulnerabilities == old(self)@.vulnerabilities.push(vuln@),
            final(self).stats.total_vulnerabilities == old(self).stats.total_vulnerabilities + 1,
            final(self).stats.lines_scanned == old(self).stats.lines_scanned,
            final(self).stats.critical_count == old(self).stats.critical_count + (
            if vuln.severity == Severity::Critical {
                1int
            } else {
                0int
            }),
            final(self).stats.high_count == old(self).stats.high_count + (
            if vuln.severity == Severity::High {
                1int
            } else {
                0int
            }),
            final(self).stats.medium_count == old(self).stats.medium_count + (
            if vuln.severity == Severity::Medium {
                1int
            } else {
                0int
            }),
            final(self).stats.low_count == old(self).stats.low_count + (
            if vuln.severity == Severity::Low {
                1int
            } else {
                0int
            }),
            final(self).risk_score == old(self).risk_score,
            final(self).language == old(self).language,
            final(self).recommendations == old(self).recommendations,
    {
        let ghost old_vulns = self@.vulnerabilities;
        let ghost vm = vuln@;
        let sev = vuln.severity;
        let ghost old_vec = self.vulnerabilities@;
        self.vulnerabilities.push(vuln);
        let n = self.vulnerabilities.len();
        proof {
            let model = self@.vulnerabilities;
            assert forall|k: int| 0 <= k < model.len() implies model[k] == old_vulns.push(vm)[k]
                by {
                if k < old_vec.len() {
                    assert(self.vulnerabilities@[k] == old_vec[k]);
                }
            }
            assert(model =~= old_vulns.push(vm));
            assert(model.drop_last() =~= old_vulns);
            assert(model.last() == vm);
            lemma_count_severity_le_len(old_vulns, Severity::Critical);
            lemma_count_severity_le_len(old_vulns, Severity::High);
            lemma_count_severity_le_len(old_vulns, Severity::Medium);
            lemma_count_severity_le_len(old_vulns, Severity::Low);
        }
        self.stats.total_vulnerabilities = n;
        match sev {
            Severity::Critical => {
                self.stats.critical_count = self.stats.critical_count + 1;
            },
            Severity::High => {
                self.stats.high_count = self.stats.high_count + 1;
            },
            Severity::Medium => {
                self.stats.medium_count = self.stats.medium_count + 1;
            },
            Severity::Low => {
                self.stats.low_count = self.stats.low_count + 1;
            },
        }
    }

    /// Computes the aggregate risk score: the arithmetic mean of the
    /// findings' scores, zero when there are none.
    pub fn calculate_risk_score(&mut self)
        ensures
            final(self).risk_score == mean_score(old(self)@.vulnerabilities),
            final(self).vulnerabilities == old(self).vulnerabilities,
            final(self).language == old(self).language,
            final(self).recommendations == old(self).recommendations,
            final(self).stats == old(self).stats,
    {
        let ghost vm = self@.vulnerabilities;
        let n = self.vulnerabilities.len();
        if n == 0 {
            self.risk_score = 0;
            return;
        }
        let mut sum: u128 = 0;
        let mut i: usize = 0;
        proof {
            assert(vm.take(0) =~= Seq::<VulnModel>::empty());
        }
        while i < n
            invariant
                vm == self@.vulnerabilities,
                n == self.vulnerabilities@.len(),
                i <= n,
                sum == sum_scores(vm.take(i as int)),
                sum <= (i as int) * 0xffff_ffffint,
            decreases n - i,
        {
            proof {
                let t = vm.take(i + 1);
                assert(t.drop_last() =~= vm.take(i as int));
                assert(t.last() == vm[i as int]);
                assert(vm[i as int] == self.vulnerabilities@[i as int]@);
                assert((i as int) * 0xffff_ffffint + 0xffff_ffffint == (i + 1) * 0xffff_ffffint)
                    by (nonlinear_arith);
            }
            sum = sum + self.vulnerabilities[i].risk_score as u128;
            i = i + 1;
        }
        proof {
            assert(vm.take(n as int) =~= vm);
            assert(sum / (n as u128) <= 0xffff_ffff) by (nonlinear_arith)
                requires
                    n > 0,
                    sum <= (n as int) * 0xffff_ffffint,
            ;
        }
        let mean: u128 = sum / (n as u128);
        self.risk_score = mean as u32;
    }

    /// Appends the summary recommendation lines: the urgency lines driven
    /// by the severity counts, one line per vulnerable family present, and
    /// the closing standardization reference.
    pub fn generate_recommendations(&mut self)
        ensures
            final(self).recommendations.deep_view() == old(self).recommendations.deep_view()
                + rec_lines(old(self).stats, old(self)@.vulnerabilities),
            final(self).vulnerabilities == old(self).vulnerabilities,
            final(self).risk_score == old(self).risk_score,
            final(self).language == old(self).language,
            final(self).stats == old(self).stats,
    {
        let ghost base = self.recommendations.deep_view();
        if self.stats.critical_count > 0 {
            push_line(&mut self.recommendations, CRITICAL_LINE);
        }
        if self.stats.high_count > 0 {
            push_line(&mut self.recommendations, HIGH_LINE);
        }
        if has_kind_exec(&self.vulnerabilities, CryptoType::Rsa) {
            push_line(&mut self.recommendations, RSA_LINE);
        }
        if has_kind_exec(&self.vulnerabilities, CryptoType::Ecdsa) || has_kind_exec(
            &self.vulnerabilities,
            CryptoType::Ecdh,
        ) {
            push_line(&mut self.recommendations, ECDSA_LINE);
        }
        if has_kind_exec(&self.vulnerabilities, CryptoType::DiffieHellman) {
            push_line(&mut self.recommendations, DH_LINE);
        }
        push_line(&mut self.recommendations, NIST_LINE);
        proof {
            assert(self.recommendations.deep_view() =~= base + rec_lines(
                old(self).stats,
                old(self)@.vulnerabilities,
            ));
        }
    }
}

/// The urgent-migration line emitted when any finding is Critical.
pub const CRITICAL_LINE: &'static str =
    "CRITICAL: Immediately migrate to quantum-safe algorithms (CRYSTALS-Kyber, CRYSTALS-Dilithium)";

/// The planning line emitted when any finding is High.
pub const HIGH_LINE: &'static str =
    "HIGH PRIORITY: Plan migration to post-quantum cryptography within 6-12 months";

/// The RSA-family replacement line, emitted at most once per audit.
pub const RSA_LINE: &'static str =
    "Replace RSA with CRYSTALS-Dilithium for digital signatures or CRYSTALS-Kyber for encryption";

/// The ECDSA/ECDH-family replacement line, emitted at most once per audit.
pub const ECDSA_LINE: &'static str =
    "Replace ECDSA/ECDH with CRYSTALS-Dilithium (signatures) or CRYSTALS-Kyber (key exchange)";

/// The Diffie-Hellman-family replacement line, emitted at most once per audit.
pub const DH_LINE: &'static str = "Replace Diffie-Hellman key exchange with CRYSTALS-Kyber or NTRU";

/// The closing line pointing at the standardization reference.
pub const NIST_LINE: &'static str =
    "Follow NIST Post-Quantum Cryptography Standardization guidelines: https://csrc.nist.gov/projects/post-quantum-cryptography";

/// Is at least one finding of family `k` present?
pub open spec fn has_kind(s: Seq<VulnModel>, k: CryptoType) -> bool {
    exists|i: int| 0 <= i < s.len() && s[i].crypto_type == k
}

/// The recommendation lines for the given statistics and findings, in
/// their fixed priority order. Each family line appears at most once,
/// however many findings of that family there are.
pub open spec fn rec_lines(stats: AuditStats, vulns: Seq<VulnModel>) -> Seq<Seq<char>> {
    let s0 = Seq::<Seq<char>>::empty();
    let s1 = if stats.critical_count > 0 {
        s0.push(CRITICAL_LINE@)
    } else {
        s0
    };
    let s2 = if stats.high_count > 0 {
        s1.push(HIGH_LINE@)
    } else {
        s1
    };
    let s3 = if has_kind(vulns, CryptoType::Rsa) {
        s2.push(RSA_LINE@)
    } else {
        s2
    };
    let s4 = if has_kind(vulns, CryptoType::Ecdsa) || has_kind(vulns, CryptoType::Ecdh) {
        s3.push(ECDSA_LINE@)
    } else {
        s3
    };
    let s5 = if has_kind(vulns, CryptoType::DiffieHellman) {
        s4.push(DH_LINE@)
    } else {
        s4
    };
    s5.push(NIST_LINE@)
}

/// Counts and statistics of a well-formed result are consistent: the
/// total is the number of findings, and the four per-severity counts add
/// up to it.
pub proof fn lemma_stats_consistent(r: AuditResult)
    requires
        r.wf(),
    ensures
        r.stats.total_vulnerabilities == r@.vulnerabilities.len(),
        r.stats.critical_count + r.stats.high_count + r.stats.medium_count + r.stats.low_count
            == r.stats.total_vulnerabilities,
{
    lemma_severity_counts_sum(r@.vulnerabilities);
}

/// How often one line occurs in a list of recommendation lines.
pub open spec fn count_line(s: Seq<Seq<char>>, x: Seq<char>) -> nat
    decreases s.len(),
{
    if s.len() == 0 {
        0
    } else {
        count_line(s.drop_last(), x) + if s.last() == x {
            1nat
        } else {
            0nat
        }
    }
}

proof fn lemma_count_line_push(s: Seq<Seq<char>>, x: Seq<char>, y: Seq<char>)
    ensures
        count_line(s.push(x), y) == count_line(s, y) + if x == y {
            1nat
        } else {
            0nat
        },
{
    assert(s.push(x).drop_last() =~= s);
    assert(s.push(x).last() == x);
}

proof fn lemma_count_rec_chain(stats: AuditStats, vulns: Seq<VulnModel>, y: Seq<char>)
    requires
        y != CRITICAL_LINE@,
        y != HIGH_LINE@,
        y != NIST_LINE@,
    ensures
        count_line(rec_lines(stats, vulns), y) == (
        if has_kind(vulns, CryptoType::Rsa) && y == RSA_LINE@ {
            1nat
        } else {
            0nat
        }) + (
        if (has_kind(vulns, CryptoType::Ecdsa) || has_kind(vulns, CryptoType::Ecdh)) && y
            == ECDSA_LINE@ {
            1nat
        } else {
            0nat
        }) + (
        if has_kind(vulns, CryptoType::DiffieHellman) && y == DH_LINE@ {
            1nat
        } else {
            0nat
        }),
{
    let s0 = Seq::<Seq<char>>::empty();
    let s1 = if stats.critical_count > 0 {
        s0.push(CRITICAL_LINE@)
    } else {
        s0
    };
    let s2 = if stats.high_count > 0 {
        s1.push(HIGH_LINE@)
    } else {
        s1
    };
    let s3 = if has_kind(vulns, CryptoType::Rsa) {
        s2.push(RSA_LINE@)
    } else {
        s2
    };
    let s4 = if has_kind(vulns, CryptoType::Ecdsa) || has_kind(vulns, CryptoType::Ecdh) {
        s3.push(ECDSA_LINE@)
    } else {
        s3
    };
    let s5 = if has_kind(vulns, CryptoType::DiffieHellman) {
        s4.push(DH_LINE@)
    } else {
        s4
    };
    if stats.critical_count > 0 {
        lemma_count_line_push(s0, CRITICAL_LINE@, y);
    }
    if stats.high_count > 0 {
        lemma_count_line_push(s1, HIGH_LINE@, y);
    }
    if has_kind(vulns, CryptoType::Rsa) {
        lemma_count_line_push(s2, RSA_LINE@, y);
    }
    if has_kind(vulns, CryptoType::Ecdsa) || has_kind(vulns, CryptoType::Ecdh) {
        lemma_count_line_push(s3, ECDSA_LINE@, y);
    }
    if has_kind(vulns, CryptoType::DiffieHellman) {
        lemma_count_line_push(s4, DH_LINE@, y);
    }
    lemma_count_line_push(s5, NIST_LINE@, y);
    assert(rec_lines(stats, vulns) == s5.push(NIST_LINE@));
}

/// Recommendation lines are deduplicated by family: each family line
/// appears exactly once when findings of that family are present, and
/// never otherwise, however many findings there are. The ECDSA/ECDH line
/// is one family line: either kind brings it, and both together bring it
/// once.
pub proof fn lemma_rec_family_dedup(stats: AuditStats, vulns: Seq<VulnModel>)
    ensures
        count_line(rec_lines(stats, vulns), RSA_LINE@) == if has_kind(vulns, CryptoType::Rsa) {
            1nat
        } else {
            0nat
        },
        count_line(rec_lines(stats, vulns), ECDSA_LINE@) == if has_kind(
            vulns,
            CryptoType::Ecdsa,
        ) || has_kind(vulns, CryptoType::Ecdh) {
            1nat
        } else {
            0nat
        },
        count_line(rec_lines(stats, vulns), DH_LINE@) == if has_kind(
            vulns,
            CryptoType::DiffieHellman,
        ) {
            1nat
        } else {
            0nat
        },
{
    reveal_strlit(
        "CRITICAL: Immediately migrate to quantum-safe algorithms (CRYSTALS-Kyber, CRYSTALS-Dilithium)",
    );
    reveal_strlit("HIGH PRIORITY: Plan migration to post-quantum cryptography within 6-12 months");
    reveal_strlit(
        "Replace RSA with CRYSTALS-Dilithium for digital signatures or CRYSTALS-Kyber for encryption",
    );
    reveal_strlit(
        "Replace ECDSA/ECDH with CRYSTALS-Dilithium (signatures) or CRYSTALS-Kyber (key exchange)",
    );
    reveal_strlit("Replace Diffie-Hellman key exchange with CRYSTALS-Kyber or NTRU");
    reveal_strlit(
        "Follow NIST Post-Quantum Cryptography Standardization guidelines: https://csrc.nist.gov/projects/post-quantum-cryptography",
    );
    assert(CRITICAL_LINE@.len() == 93);
    assert(HIGH_LINE@.len() == 77);
    assert(RSA_LINE@.len() == 91);
    assert(ECDSA_LINE@.len() == 88);
    assert(DH_LINE@.len() == 63);
    assert(NIST_LINE@.len() == 122);
    lemma_count_rec_chain(stats, vulns, RSA_LINE@);
    lemma_count_rec_chain(stats, vulns, ECDSA_LINE@);
    lemma_count_rec_chain(stats, vulns, DH_LINE@);
}

/// Appends one line to a list of recommendation strings.
fn push_line(dst: &mut Vec<String>, line: &str)
    ensures
        final(dst).deep_view() == old(dst).deep_view().push(line@),
{
    let s = String::from_str(line);
    dst.push(s);
    proof {
        let dv = dst.deep_view();
        let target = old(dst).deep_view().push(line@);
        assert forall|k: int| 0 <= k < dv.len() implies dv[k] == target[k] by {
            if k < old(dst)@.len() {
                assert(dst@[k] == old(dst)@[k]);
            }
        }
        assert(dv =~= target);
    }
}

/// Does any finding carry family `k`?
fn has_kind_exec(v: &Vec<Vulnerability>, k: CryptoType) -> (r: bool)
    ensures
        r == has_kind(v@.map_values(|x: Vulnerability| x@), k),
{
    let ghost vm = v@.map_values(|x: Vulnerability| x@);
    let n = v.len();
    let mut i: usize = 0;
    while i < n
        invariant
            vm == v@.map_values(|x: Vulnerability| x@),
            n == v@.len(),
            i <= n,
            forall|j: int| 0 <= j < i ==> vm[j].crypto_type != k,
        decreases n - i,
    {
        if v[i].crypto_type == k {
            assert(vm[i as int].crypto_type == k);
            return true;
        }
        assert(vm[i as int] == v@[i as int]@);
        i = i + 1;
    }
    false
}

// ---------------------------------------------------------------------------
// Scanner output types
// ---------------------------------------------------------------------------

/// The syntactic role of a scanned declaration.
#[derive(Debug, Clone, Copy, PartialEq, Eq, Structural)]
pub enum NodeType {
    Import,
    FunctionDeclaration,
    ClassDeclaration,
    VariableDeclaration,
}

/// One declaration-like record produced by the scanner.
#[derive(Debug, Clone)]
pub struct AstNode {
    pub node_type: NodeType,
    pub line: usize,
    pub column: usize,
    pub content: String,
}

/// Mathematical image of an `AstNode`.
pub struct AstNodeModel {
    pub node_type: NodeType,
    pub line: usize,
    pub column: usize,
    pub content: Seq<char>,
}

impl View for AstNode {
    type V = AstNodeModel;

    open spec fn view(&self) -> AstNodeModel {
        AstNodeModel {
            node_type: self.node_type,
            line: self.line,
            column: self.column,
            content: self.content@,
        }
    }
}

/// One call site found by the scanner.
#[derive(Debug, Clone)]
pub struct FunctionCall {
    /// The callee name, possibly dotted or namespaced.
    pub name: String,
    /// 1-based line.
    pub line: usize,
    /// 1-based character column of the name's first occurrence on the raw
    /// line; zero when the name is not found there.
    pub column: usize,
    /// Argument text; the lexical scanner does not fill this in.
    pub args: Vec<String>,
}

/// Mathematical image of a `FunctionCall`.
pub struct FunctionCallModel {
    pub name: Seq<char>,
    pub line: usize,
    pub column: usize,
    pub args: Seq<Seq<char>>,
}

impl View for FunctionCall {
    type V = FunctionCallModel;

    open spec fn view(&self) -> FunctionCallModel {
        FunctionCallModel {
            name: self.name@,
            line: self.line,
            column: self.column,
            args: self.args.deep_view(),
        }
    }
}

/// The intermediate representation of one scanned source unit.
#[derive(Debug, Clone)]
pub struct ParsedSource {
    pub language: Language,
    pub ast_nodes: Vec<AstNode>,
    pub imports: Vec<String>,
    pub function_calls: Vec<FunctionCall>,
}

/// Mathematical image of a `ParsedSource`.
pub struct ParsedSourceModel {
    pub language: Language,
    pub ast_nodes: Seq<AstNodeModel>,
    pub imports: Seq<Seq<char>>,
    pub function_calls: Seq<FunctionCallModel>,
}

impl View for ParsedSource {
    type V = ParsedSourceModel;

    open spec fn view(&self) -> ParsedSourceModel {
        ParsedSourceModel {
            language: self.language,
            ast_nodes: self.ast_nodes@.map_values(|n: AstNode| n@),
            imports: self.imports.deep_view(),
            function_calls: self.function_calls@.map_values(|c: FunctionCall| c@),
        }
    }
}

impl ParsedSource {
    /// An empty scan result for `language`.
    pub fn new(language: Language) -> (r: ParsedSource)
        ensures
            r@.language == language,
            r@.ast_nodes =~= Seq::<AstNodeModel>::empty(),
            r@.imports =~= Seq::<Seq<char>>::empty(),
            r@.function_calls =~= Seq::<FunctionCallModel>::empty(),
    {
        let r = ParsedSource {
            language,
            ast_nodes: Vec::new(),
            imports: Vec::new(),
            function_calls: Vec::new(),
        };
        proof {
            assert(r@.ast_nodes =~= Seq::<AstNodeModel>::empty());
            assert(r@.imports =~= Seq::<Seq<char>>::empty());
            assert(r@.function_calls =~= Seq::<FunctionCallModel>::empty());
        }
        r
    }
}

} // verus!
