//! Pattern catalog and classifier.
//!
//! The catalog maps each algorithm family to substring patterns, most of
//! them case-insensitive. A family classifies an occurrence through its
//! first matching rule, in a fixed catalog order that tries the more
//! specific families first (`TripleDes` before `Des`, `Ecdsa` before
//! `Dsa`), so that a name never fires the broader family it contains. The
//! `Des` rule is case-sensitive on purpose: a case-insensitive `des` would
//! flag ordinary identifiers such as `describe`.
//!
//! Classification is anchored at the scanner's records: every import path
//! and callee name is classified, each hit giving one detection at the
//! record's position, deduplicated by family and column and kept in
//! column order within the line. A line none of whose records anchored a
//! family is classified as a whole against the raw text, yielding at most
//! one line-level detection at column zero, so that a use spelled outside
//! a call expression is not missed.

use vstd::prelude::*;

use crate::text::{
    contains_sub, digits_val, digits_value, find_sub, is_digit, lemma_skip_digits_bounds,
    lower_seq, skip_digits, skip_digits_exec, to_lower, trim, trim_spec,
};
use crate::types::{AstNodeModel, CryptoType, FunctionCallModel, NodeType, ParsedSource,
    ParsedSourceModel};

verus! {

/// One classified occurrence, before severity and score are assigned.
#[derive(Debug, Clone, Copy, PartialEq, Eq, Structural)]
pub struct Detection {
    /// Algorithm family.
    pub kind: CryptoType,
    /// 1-based line.
    pub line: usize,
    /// 1-based character column on the raw line; zero when the occurrence
    /// has no anchored position (imports and line-level detections).
    pub column: usize,
    /// Key size in bits, where one stands next to the occurrence.
    pub key_size: Option<u32>,
}

// ---------------------------------------------------------------------------
// The catalog
// ---------------------------------------------------------------------------

/// Does `s` match family `k`'s patterns?
pub open spec fn kind_matches(k: CryptoType, s: Seq<char>) -> bool {
    let l = lower_seq(s);
    match k {
        CryptoType::Md5 => contains_sub(l, seq!['m', 'd', '5']),
        CryptoType::Sha1 => contains_sub(l, seq!['s', 'h', 'a', '1']),
        CryptoType::TripleDes => contains_sub(l, seq!['3', 'd', 'e', 's']) || contains_sub(
            l,
            seq!['t', 'r', 'i', 'p', 'l', 'e', 'd', 'e', 's'],
        ) || contains_sub(l, seq!['d', 'e', 's', '3']) || contains_sub(
            l,
            seq!['d', 'e', 's', 'e', 'd', 'e'],
        ),
        CryptoType::Des => contains_sub(s, seq!['D', 'E', 'S']),
        CryptoType::Rc4 => contains_sub(l, seq!['r', 'c', '4']) || contains_sub(
            l,
            seq!['a', 'r', 'c', 'f', 'o', 'u', 'r'],
        ),
        CryptoType::Ecdsa => contains_sub(l, seq!['e', 'c', 'd', 's', 'a']),
        CryptoType::Ecdh => contains_sub(l, seq!['e', 'c', 'd', 'h']),
        CryptoType::DiffieHellman => contains_sub(
            l,
            seq!['d', 'i', 'f', 'f', 'i', 'e', 'h', 'e', 'l', 'l', 'm', 'a', 'n'],
        ) || contains_sub(
            l,
            seq!['d', 'i', 'f', 'f', 'i', 'e', '_', 'h', 'e', 'l', 'l', 'm', 'a', 'n'],
        ) || contains_sub(
            l,
            seq!['d', 'i', 'f', 'f', 'i', 'e', '-', 'h', 'e', 'l', 'l', 'm', 'a', 'n'],
        ),
        CryptoType::Dsa => contains_sub(l, seq!['d', 's', 'a']),
        CryptoType::Rsa => contains_sub(l, seq!['r', 's', 'a']),
    }
}

fn contains_lit(v: &Vec<char>, lit: &str) -> (r: bool)
    ensures
        r == contains_sub(v@, lit@),
{
    let pat = crate::text::str_to_chars(lit);
    crate::text::contains_exec(v, &pat)
}

/// Does `v` match family `k`'s patterns?
pub fn kind_matches_exec(k: CryptoType, v: &Vec<char>) -> (r: bool)
    ensures
        r == kind_matches(k, v@),
{
    let l = to_lower(v);
    proof {
        reveal_strlit("md5");
        reveal_strlit("sha1");
        reveal_strlit("3des");
        reveal_strlit("tripledes");
        reveal_strlit("des3");
        reveal_strlit("desede");
        reveal_strlit("DES");
        reveal_strlit("rc4");
        reveal_strlit("arcfour");
        reveal_strlit("ecdsa");
        reveal_strlit("ecdh");
        reveal_strlit("diffiehellman");
        reveal_strlit("diffie_hellman");
        reveal_strlit("diffie-hellman");
        reveal_strlit("dsa");
        reveal_strlit("rsa");
        assert("md5"@ =~= seq!['m', 'd', '5']);
        assert("sha1"@ =~= seq!['s', 'h', 'a', '1']);
        assert("3des"@ =~= seq!['3', 'd', 'e', 's']);
        assert("tripledes"@ =~= seq!['t', 'r', 'i', 'p', 'l', 'e', 'd', 'e', 's']);
        assert("des3"@ =~= seq!['d', 'e', 's', '3']);
        assert("desede"@ =~= seq!['d', 'e', 's', 'e', 'd', 'e']);
        assert("DES"@ =~= seq!['D', 'E', 'S']);
        assert("rc4"@ =~= seq!['r', 'c', '4']);
        assert("arcfour"@ =~= seq!['a', 'r', 'c', 'f', 'o', 'u', 'r']);
        assert("ecdsa"@ =~= seq!['e', 'c', 'd', 's', 'a']);
        assert("ecdh"@ =~= seq!['e', 'c', 'd', 'h']);
        assert("diffiehellman"@ =~= seq!['d', 'i', 'f', 'f', 'i', 'e', 'h', 'e', 'l', 'l', 'm', 'a', 'n']);
        assert("diffie_hellman"@ =~= seq!['d', 'i', 'f', 'f', 'i', 'e', '_', 'h', 'e', 'l', 'l', 'm', 'a', 'n']);
        assert("diffie-hellman"@ =~= seq!['d', 'i', 'f', 'f', 'i', 'e', '-', 'h', 'e', 'l', 'l', 'm', 'a', 'n']);
        assert("dsa"@ =~= seq!['d', 's', 'a']);
        assert("rsa"@ =~= seq!['r', 's', 'a']);
    }
    match k {
        CryptoType::Md5 => contains_lit(&l, "md5"),
        CryptoType::Sha1 => contains_lit(&l, "sha1"),
        CryptoType::TripleDes => contains_lit(&l, "3des") || contains_lit(&l, "tripledes")
            || contains_lit(&l, "des3") || contains_lit(&l, "desede"),
        CryptoType::Des => contains_lit(v, "DES"),
        CryptoType::Rc4 => contains_lit(&l, "rc4") || contains_lit(&l, "arcfour"),
        CryptoType::Ecdsa => contains_lit(&l, "ecdsa"),
        CryptoType::Ecdh => contains_lit(&l, "ecdh"),
        CryptoType::DiffieHellman => contains_lit(&l, "diffiehellman") || contains_lit(
            &l,
            "diffie_hellman",
        ) || contains_lit(&l, "diffie-hellman"),
        CryptoType::Dsa => contains_lit(&l, "dsa"),
        CryptoType::Rsa => contains_lit(&l, "rsa"),
    }
}

/// The first family of the catalog that `s` matches, trying the more
/// specific families first.
pub open spec fn classify_name(s: Seq<char>) -> Option<CryptoType> {
    if kind_matches(CryptoType::Md5, s) {
        Some(CryptoType::Md5)
    } else if kind_matches(CryptoType::Sha1, s) {
        Some(CryptoType::Sha1)
    } else if kind_matches(CryptoType::TripleDes, s) {
        Some(CryptoType::TripleDes)
    } else if kind_matches(CryptoType::Des, s) {
        Some(CryptoType::Des)
    } else if kind_matches(CryptoType::Rc4, s) {
        Some(CryptoType::Rc4)
    } else if kind_matches(CryptoType::Ecdsa, s) {
        Some(CryptoType::Ecdsa)
    } else if kind_matches(CryptoType::Ecdh, s) {
        Some(CryptoType::Ecdh)
    } else if kind_matches(CryptoType::DiffieHellman, s) {
        Some(CryptoType::DiffieHellman)
    } else if kind_matches(CryptoType::Dsa, s) {
        Some(CryptoType::Dsa)
    } else if kind_matches(CryptoType::Rsa, s) {
        Some(CryptoType::Rsa)
    } else {
        None
    }
}

fn classify_name_exec(v: &Vec<char>) -> (r: Option<CryptoType>)
    ensures
        r == classify_name(v@),
{
    if kind_matches_exec(CryptoType::Md5, v) {
        Some(CryptoType::Md5)
    } else if kind_matches_exec(CryptoType::Sha1, v) {
        Some(CryptoType::Sha1)
    } else if kind_matches_exec(CryptoType::TripleDes, v) {
        Some(CryptoType::TripleDes)
    } else if kind_matches_exec(CryptoType::Des, v) {
        Some(CryptoType::Des)
    } else if kind_matches_exec(CryptoType::Rc4, v) {
        Some(CryptoType::Rc4)
    } else if kind_matches_exec(CryptoType::Ecdsa, v) {
        Some(CryptoType::Ecdsa)
    } else if kind_matches_exec(CryptoType::Ecdh, v) {
        Some(CryptoType::Ecdh)
    } else if kind_matches_exec(CryptoType::DiffieHellman, v) {
        Some(CryptoType::DiffieHellman)
    } else if kind_matches_exec(CryptoType::Dsa, v) {
        Some(CryptoType::Dsa)
    } else if kind_matches_exec(CryptoType::Rsa, v) {
        Some(CryptoType::Rsa)
    } else {
        None
    }
}

// ---------------------------------------------------------------------------
// Key-size extraction
// ---------------------------------------------------------------------------

/// Do detections of this family carry a key-size hint?
pub open spec fn wants_key_size(k: CryptoType) -> bool {
    k == CryptoType::Rsa || k == CryptoType::Dsa || k == CryptoType::DiffieHellman
}

pub fn wants_key_size_exec(k: CryptoType) -> (r: bool)
    ensures
        r == wants_key_size(k),
{
    match k {
        CryptoType::Rsa | CryptoType::Dsa | CryptoType::DiffieHellman => true,
        _ => false,
    }
}

/// Index of the first decimal digit at or after `i`.
pub open spec fn first_digit_from(s: Seq<char>, i: int) -> Option<int>
    decreases s.len() - i,
{
    if i < 0 || i >= s.len() {
        None
    } else if is_digit(s[i]) {
        Some(i)
    } else {
        first_digit_from(s, i + 1)
    }
}

/// The key-size hint found at or after `from`: the first run of decimal
/// digits, read as a number; no digits, or an implausibly long run of more
/// than nine digits, leaves the hint unset.
pub open spec fn key_size_from(s: Seq<char>, from: int) -> Option<u32> {
    match first_digit_from(s, from) {
        Some(d) => {
            let e = skip_digits(s, d);
            if e - d <= 9 {
                Some(digits_val(s.subrange(d, e)) as u32)
            } else {
                None
            }
        },
        None => None,
    }
}

fn first_digit_exec(v: &Vec<char>, i: usize) -> (r: Option<usize>)
    ensures
        match r {
            Some(d) => first_digit_from(v@, i as int) == Some(d as int) && i <= d < v@.len(),
            None => first_digit_from(v@, i as int) is None,
        },
    decreases v@.len() - i,
{
    if i >= v.len() {
        None
    } else if crate::text::digit_char(v[i]) {
        Some(i)
    } else {
        first_digit_exec(v, i + 1)
    }
}

/// The key-size hint of `v` at or after `from`.
pub fn key_size_exec(v: &Vec<char>, from: usize) -> (r: Option<u32>)
    ensures
        r == key_size_from(v@, from as int),
{
    match first_digit_exec(v, from) {
        Some(d) => {
            let e = skip_digits_exec(v, d);
            proof {
                lemma_skip_digits_bounds(v@, d as int);
            }
            if e - d <= 9 {
                let val = digits_value(v, d, e);
                Some(val)
            } else {
                None
            }
        },
        None => None,
    }
}

// ---------------------------------------------------------------------------
// Per-line classification
// ---------------------------------------------------------------------------

/// The detection an import record yields, if its path matches a family.
/// Import records sit at column zero; a key-size hint is searched over the
/// whole raw line.
pub open spec fn import_detection(nd: AstNodeModel, raw: Seq<char>, ln: usize) -> Option<
    Detection,
> {
    if nd.node_type == NodeType::Import && nd.line == ln {
        match classify_name(nd.content) {
            Some(k) => Some(
                Detection {
                    kind: k,
                    line: ln,
                    column: 0,
                    key_size: if wants_key_size(k) {
                        key_size_from(raw, 0)
                    } else {
                        None
                    },
                },
            ),
            None => None,
        }
    } else {
        None
    }
}

/// Where the key-size search for a call record starts: just past the
/// name's occurrence, given its 1-based column; at the start of the line
/// when the name was not found on it (column zero).
pub open spec fn key_search_start(c: FunctionCallModel) -> int {
    if c.column == 0 {
        0
    } else {
        c.column - 1 + c.name.len()
    }
}

/// The detection a call record yields, if its callee name matches a
/// family. The key-size hint is searched after the name's occurrence.
pub open spec fn call_detection(c: FunctionCallModel, raw: Seq<char>, ln: usize) -> Option<
    Detection,
> {
    if c.line == ln {
        match classify_name(c.name) {
            Some(k) => Some(
                Detection {
                    kind: k,
                    line: ln,
                    column: c.column,
                    key_size: if wants_key_size(k) {
                        key_size_from(raw, key_search_start(c))
                    } else {
                        None
                    },
                },
            ),
            None => None,
        }
    } else {
        None
    }
}

pub open spec fn opt_det(o: Option<Detection>) -> Seq<Detection> {
    match o {
        Some(d) => seq![d],
        None => Seq::empty(),
    }
}

/// The anchored detections of the import records of line `ln`, in record
/// order.
pub open spec fn import_anchors(
    nodes: Seq<AstNodeModel>,
    raw: Seq<char>,
    ln: usize,
) -> Seq<Detection>
    decreases nodes.len(),
{
    if nodes.len() == 0 {
        Seq::empty()
    } else {
        import_anchors(nodes.drop_last(), raw, ln) + opt_det(
            import_detection(nodes.last(), raw, ln),
        )
    }
}

/// The anchored detections of the call records of line `ln`, in record
/// order.
pub open spec fn call_anchors(
    calls: Seq<FunctionCallModel>,
    raw: Seq<char>,
    ln: usize,
) -> Seq<Detection>
    decreases calls.len(),
{
    if calls.len() == 0 {
        Seq::empty()
    } else {
        call_anchors(calls.drop_last(), raw, ln) + opt_det(call_detection(calls.last(), raw, ln))
    }
}

/// All anchored detections of line `ln`: imports first, then calls.
pub open spec fn line_anchors(p: ParsedSourceModel, raw: Seq<char>, ln: usize) -> Seq<Detection> {
    import_anchors(p.ast_nodes, raw, ln) + call_anchors(p.function_calls, raw, ln)
}

/// The line-level detection of a line: only a line none of whose records
/// anchored a family is considered, and it then classifies as a whole,
/// like a single occurrence, through the catalog's first matching family.
pub open spec fn fallback_dets(
    anchors: Seq<Detection>,
    t: Seq<char>,
    raw: Seq<char>,
    ln: usize,
) -> Seq<Detection> {
    if anchors.len() > 0 {
        Seq::empty()
    } else {
        match classify_name(t) {
            Some(k) => seq![
                Detection {
                    kind: k,
                    line: ln,
                    column: 0,
                    key_size: if wants_key_size(k) {
                        key_size_from(raw, 0)
                    } else {
                        None
                    },
                },
            ],
            None => Seq::empty(),
        }
    }
}

// ---------------------------------------------------------------------------
// Ordering and deduplication within a line
// ---------------------------------------------------------------------------

/// Is a detection with this family and column already present?
pub open spec fn has_det(s: Seq<Detection>, kind: CryptoType, column: usize) -> bool {
    exists|i: int| 0 <= i < s.len() && s[i].kind == kind && s[i].column == column
}

/// Inserts `d` in column order, after any detection with the same or a
/// smaller column.
pub open spec fn insert_sorted(s: Seq<Detection>, d: Detection) -> Seq<Detection>
    decreases s.len(),
{
    if s.len() == 0 {
        seq![d]
    } else if s[0].column <= d.column {
        seq![s[0]] + insert_sorted(s.drop_first(), d)
    } else {
        seq![d] + s
    }
}

/// Inserts `d` unless a detection with the same family and column is
/// already present.
pub open spec fn insert_det(s: Seq<Detection>, d: Detection) -> Seq<Detection> {
    if has_det(s, d.kind, d.column) {
        s
    } else {
        insert_sorted(s, d)
    }
}

/// Folds `insert_det` over `ds`, left to right.
pub open spec fn insert_all(s: Seq<Detection>, ds: Seq<Detection>) -> Seq<Detection>
    decreases ds.len(),
{
    if ds.len() == 0 {
        s
    } else {
        insert_det(insert_all(s, ds.drop_last()), ds.last())
    }
}

/// Every detection of one line, deduplicated by family and column and
/// ordered by column.
pub open spec fn line_detections(p: ParsedSourceModel, raw: Seq<char>, ln: usize) -> Seq<
    Detection,
> {
    let anchors = line_anchors(p, raw, ln);
    let all = anchors + fallback_dets(anchors, trim_spec(raw), raw, ln);
    insert_all(Seq::empty(), all)
}

/// The detections of the first `k` lines, in line order.
pub open spec fn detections_upto(p: ParsedSourceModel, lines: Seq<Seq<char>>, k: int) -> Seq<
    Detection,
>
    decreases k,
{
    if k <= 0 {
        Seq::empty()
    } else {
        detections_upto(p, lines, k - 1) + line_detections(p, lines[k - 1], k as usize)
    }
}

/// Every detection of a scanned unit: line-ascending, column-ascending
/// within a line, deduplicated by family and column.
pub open spec fn classify_spec(p: ParsedSourceModel, lines: Seq<Seq<char>>) -> Seq<Detection> {
    detections_upto(p, lines, lines.len() as int)
}

// ---------------------------------------------------------------------------
// Ordering laws
// ---------------------------------------------------------------------------

/// Columns never decrease along the sequence.
pub open spec fn cols_sorted(s: Seq<Detection>) -> bool {
    forall|i: int, j: int| 0 <= i < j < s.len() ==> s[i].column <= s[j].column
}

/// Every detection sits on line `ln`.
pub open spec fn all_on_line(s: Seq<Detection>, ln: usize) -> bool {
    forall|i: int| 0 <= i < s.len() ==> s[i].line == ln
}

/// Detections are ordered line-ascending, then column-ascending within a
/// line.
pub open spec fn dets_sorted(s: Seq<Detection>) -> bool {
    forall|i: int, j: int|
        0 <= i < j < s.len() ==> (s[i].line < s[j].line || (s[i].line == s[j].line
            && s[i].column <= s[j].column))
}

proof fn lemma_insert_sorted_props(s: Seq<Detection>, d: Detection)
    requires
        cols_sorted(s),
    ensures
        cols_sorted(insert_sorted(s, d)),
        insert_sorted(s, d).len() == s.len() + 1,
        forall|i: int|
            0 <= i < insert_sorted(s, d).len() ==> (insert_sorted(s, d)[i] == d || s.contains(
                insert_sorted(s, d)[i],
            )),
    decreases s.len(),
{
    let r = insert_sorted(s, d);
    if s.len() == 0 {
        assert(r =~= seq![d]);
    } else if s[0].column <= d.column {
        let df = s.drop_first();
        assert(cols_sorted(df)) by {
            assert(forall|i: int| 0 <= i < df.len() ==> df[i] == s[i + 1]);
        }
        lemma_insert_sorted_props(df, d);
        let rec = insert_sorted(df, d);
        assert(r =~= seq![s[0]] + rec);
        assert forall|i: int| 0 <= i < r.len() implies (r[i] == d || s.contains(r[i])) by {
            if i == 0 {
                assert(s[0] == r[0]);
                assert(s.contains(r[0]));
            } else {
                assert(r[i] == rec[i - 1]);
                if rec[i - 1] == d {
                } else {
                    assert(df.contains(rec[i - 1]));
                    let jj = choose|jj: int| 0 <= jj < df.len() && df[jj] == rec[i - 1];
                    assert(s[jj + 1] == df[jj]);
                    assert(s.contains(r[i]));
                }
            }
        }
        assert forall|i: int, j: int| 0 <= i < j < r.len() implies r[i].column <= r[j].column by {
            if i == 0 {
                if rec[j - 1] == d {
                } else {
                    assert(df.contains(rec[j - 1]));
                    let jj = choose|jj: int| 0 <= jj < df.len() && df[jj] == rec[j - 1];
                    assert(s[jj + 1] == df[jj]);
                }
            }
        }
    } else {
        assert(r =~= seq![d] + s);
        assert forall|i: int, j: int| 0 <= i < j < r.len() implies r[i].column <= r[j].column by {
            if i == 0 {
                assert(r[j] == s[j - 1]);
                if j - 1 > 0 {
                    assert(s[0].column <= s[j - 1].column);
                }
            }
        }
    }
}

proof fn lemma_insert_det_props(s: Seq<Detection>, d: Detection)
    requires
        cols_sorted(s),
    ensures
        cols_sorted(insert_det(s, d)),
        forall|i: int|
            0 <= i < insert_det(s, d).len() ==> (insert_det(s, d)[i] == d || s.contains(
                insert_det(s, d)[i],
            )),
{
    if has_det(s, d.kind, d.column) {
        assert(forall|i: int| 0 <= i < s.len() ==> s.contains(s[i]));
    } else {
        lemma_insert_sorted_props(s, d);
    }
}

proof fn lemma_insert_all_props(s: Seq<Detection>, ds: Seq<Detection>)
    requires
        cols_sorted(s),
    ensures
        cols_sorted(insert_all(s, ds)),
        forall|i: int|
            0 <= i < insert_all(s, ds).len() ==> (s.contains(insert_all(s, ds)[i]) || ds.contains(
                insert_all(s, ds)[i],
            )),
    decreases ds.len(),
{
    if ds.len() > 0 {
        let prev = insert_all(s, ds.drop_last());
        lemma_insert_all_props(s, ds.drop_last());
        lemma_insert_det_props(prev, ds.last());
        let r = insert_all(s, ds);
        assert forall|i: int| 0 <= i < r.len() implies (s.contains(r[i]) || ds.contains(r[i])) by {
            if r[i] == ds.last() {
                assert(ds[ds.len() - 1] == ds.last());
            } else {
                assert(prev.contains(r[i]));
                let jj = choose|jj: int| 0 <= jj < prev.len() && prev[jj] == r[i];
                if ds.drop_last().contains(prev[jj]) {
                    let kk = choose|kk: int|
                        0 <= kk < ds.drop_last().len() && ds.drop_last()[kk] == prev[jj];
                    assert(ds[kk] == ds.drop_last()[kk]);
                }
            }
        }
    }
}

proof fn lemma_import_anchors_line(nodes: Seq<AstNodeModel>, raw: Seq<char>, ln: usize)
    ensures
        all_on_line(import_anchors(nodes, raw, ln), ln),
    decreases nodes.len(),
{
    if nodes.len() > 0 {
        lemma_import_anchors_line(nodes.drop_last(), raw, ln);
    }
}

proof fn lemma_call_anchors_line(calls: Seq<FunctionCallModel>, raw: Seq<char>, ln: usize)
    ensures
        all_on_line(call_anchors(calls, raw, ln), ln),
    decreases calls.len(),
{
    if calls.len() > 0 {
        lemma_call_anchors_line(calls.drop_last(), raw, ln);
    }
}

proof fn lemma_fallback_line(anchors: Seq<Detection>, t: Seq<char>, raw: Seq<char>, ln: usize)
    ensures
        all_on_line(fallback_dets(anchors, t, raw, ln), ln),
{
}

/// The detections of one line are column-sorted and all sit on that line.
pub proof fn lemma_line_detections_props(p: ParsedSourceModel, raw: Seq<char>, ln: usize)
    ensures
        cols_sorted(line_detections(p, raw, ln)),
        all_on_line(line_detections(p, raw, ln), ln),
{
    let anchors = line_anchors(p, raw, ln);
    let fb = fallback_dets(anchors, trim_spec(raw), raw, ln);
    let all = anchors + fb;
    lemma_import_anchors_line(p.ast_nodes, raw, ln);
    lemma_call_anchors_line(p.function_calls, raw, ln);
    lemma_fallback_line(anchors, trim_spec(raw), raw, ln);
    assert(all_on_line(all, ln));
    lemma_insert_all_props(Seq::empty(), all);
    let r = line_detections(p, raw, ln);
    assert forall|i: int| 0 <= i < r.len() implies r[i].line == ln by {
        assert(Seq::<Detection>::empty().contains(r[i]) || all.contains(r[i]));
        if all.contains(r[i]) {
            let jj = choose|jj: int| 0 <= jj < all.len() && all[jj] == r[i];
        }
    }
}

/// The detections of a whole unit are ordered line-ascending, then
/// column-ascending within a line, and every line number lies between one
/// and the number of lines processed.
pub proof fn lemma_detections_upto_sorted(p: ParsedSourceModel, lines: Seq<Seq<char>>, k: int)
    requires
        k <= usize::MAX,
    ensures
        dets_sorted(detections_upto(p, lines, k)),
        forall|i: int|
            0 <= i < detections_upto(p, lines, k).len() ==> 1 <= #[trigger] detections_upto(
                p,
                lines,
                k,
            )[i].line <= k,
    decreases k,
{
    if k > 0 {
        let prev = detections_upto(p, lines, k - 1);
        let block = line_detections(p, lines[k - 1], k as usize);
        lemma_detections_upto_sorted(p, lines, k - 1);
        lemma_line_detections_props(p, lines[k - 1], k as usize);
        let r = detections_upto(p, lines, k);
        assert(r == prev + block);
        assert(k as usize == k);
        assert forall|i: int, j: int|
            0 <= i < j < r.len() implies (r[i].line < r[j].line || (r[i].line == r[j].line
                && r[i].column <= r[j].column)) by {
            if j < prev.len() {
            } else if i >= prev.len() {
                assert(r[i] == block[i - prev.len()]);
                assert(r[j] == block[j - prev.len()]);
            } else {
                assert(r[i] == prev[i]);
                assert(r[j] == block[j - prev.len()]);
                assert(1 <= prev[i].line <= k - 1);
                assert(block[j - prev.len()].line == k as usize);
            }
        }
        assert forall|i: int| 0 <= i < r.len() implies 1 <= #[trigger] r[i].line <= k by {
            if i < prev.len() {
                assert(r[i] == prev[i]);
                assert(1 <= prev[i].line <= k - 1);
            } else {
                assert(r[i] == block[i - prev.len()]);
                assert(block[i - prev.len()].line == k as usize);
            }
        }
    }
}

/// The classifier's full output is position-sorted.
pub proof fn lemma_classify_sorted(p: ParsedSourceModel, lines: Seq<Seq<char>>)
    requires
        lines.len() <= usize::MAX,
    ensures
        dets_sorted(classify_spec(p, lines)),
{
    lemma_detections_upto_sorted(p, lines, lines.len() as int);
}

// ---------------------------------------------------------------------------
// Executable classification
// ---------------------------------------------------------------------------

proof fn lemma_insert_sorted_at(s: Seq<Detection>, d: Detection, idx: int)
    requires
        0 <= idx <= s.len(),
        forall|j: int| 0 <= j < idx ==> s[j].column <= d.column,
        idx < s.len() ==> s[idx].column > d.column,
    ensures
        insert_sorted(s, d) == s.take(idx) + seq![d] + s.skip(idx),
    decreases s.len(),
{
    if s.len() == 0 {
        assert(s.take(0) + seq![d] + s.skip(0) =~= seq![d]);
    } else if s[0].column <= d.column {
        assert(idx >= 1) by {
            if idx == 0 {
                assert(s[0].column > d.column);
            }
        }
        let df = s.drop_first();
        lemma_insert_sorted_at(df, d, idx - 1);
        assert(seq![s[0]] + (df.take(idx - 1) + seq![d] + df.skip(idx - 1)) =~= s.take(idx)
            + seq![d] + s.skip(idx));
    } else {
        assert(idx == 0) by {
            if idx > 0 {
                assert(s[0].column <= d.column);
            }
        }
        assert(seq![d] + s =~= s.take(0) + seq![d] + s.skip(0));
    }
}

/// Inserts one detection into a line's list, keeping column order and
/// dropping a duplicate of the same family and column.
fn insert_det_exec(line: &mut Vec<Detection>, d: Detection)
    ensures
        final(line)@ == insert_det(old(line)@, d),
{
    let n: usize = line.len();
    let mut i: usize = 0;
    while i < n
        invariant
            n == line@.len(),
            i <= n,
            forall|j: int|
                0 <= j < i ==> !(line@[j].kind == d.kind && line@[j].column == d.column),
            line@ == old(line)@,
        decreases n - i,
    {
        if line[i].kind == d.kind && line[i].column == d.column {
            assert(has_det(line@, d.kind, d.column));
            return;
        }
        i = i + 1;
    }
    assert(!has_det(line@, d.kind, d.column));
    let mut p: usize = 0;
    while p < n && line[p].column <= d.column
        invariant
            n == line@.len(),
            p <= n,
            forall|j: int| 0 <= j < p ==> line@[j].column <= d.column,
            line@ == old(line)@,
        decreases n - p,
    {
        p = p + 1;
    }
    let ghost pre = line@;
    line.insert(p, d);
    proof {
        lemma_insert_sorted_at(pre, d, p as int);
        assert(line@ =~= pre.take(p as int) + seq![d] + pre.skip(p as int));
    }
}

/// The detections of one line: anchors from the records, line-level
/// matches for families without an anchor, ordered and deduplicated.
fn line_detections_exec(p: &ParsedSource, raw: &Vec<char>, ln: usize) -> (r: Vec<Detection>)
    ensures
        r@ == line_detections(p@, raw@, ln),
{
    let t = trim(raw);
    // Anchors from the scanner's records.
    let mut anchors: Vec<Detection> = Vec::new();
    let ghost nodes_m = p@.ast_nodes;
    let ni: usize = p.ast_nodes.len();
    let mut i: usize = 0;
    proof {
        assert(nodes_m.take(0) =~= Seq::<AstNodeModel>::empty());
        assert(anchors@ =~= import_anchors(nodes_m.take(0), raw@, ln));
    }
    while i < ni
        invariant
            ni == p.ast_nodes@.len(),
            nodes_m == p@.ast_nodes,
            i <= ni,
            anchors@ == import_anchors(nodes_m.take(i as int), raw@, ln),
        decreases ni - i,
    {
        proof {
            assert(nodes_m.take(i + 1).drop_last() =~= nodes_m.take(i as int));
            assert(nodes_m.take(i + 1).last() == nodes_m[i as int]);
        }
        let nd = &p.ast_nodes[i];
        let is_import = match nd.node_type {
            NodeType::Import => true,
            _ => false,
        };
        if is_import && nd.line == ln {
            let content = crate::text::str_to_chars(nd.content.as_str());
            match classify_name_exec(&content) {
                Some(k) => {
                    let ks: Option<u32> = if wants_key_size_exec(k) {
                        key_size_exec(raw, 0)
                    } else {
                        None
                    };
                    let d = Detection { kind: k, line: ln, column: 0, key_size: ks };
                    anchors.push(d);
                    assert(anchors@ =~= import_anchors(nodes_m.take(i as int), raw@, ln).push(d));
                },
                None => {
                    assert(anchors@ + opt_det(import_detection(nodes_m[i as int], raw@, ln))
                        =~= anchors@);
                },
            }
        } else {
            assert(import_detection(nodes_m[i as int], raw@, ln) is None);
            assert(anchors@ + opt_det(import_detection(nodes_m[i as int], raw@, ln)) =~= anchors@);
        }
        proof {
            assert(import_anchors(nodes_m.take(i + 1), raw@, ln) =~= import_anchors(
                nodes_m.take(i as int),
                raw@,
                ln,
            ) + opt_det(import_detection(nodes_m[i as int], raw@, ln)));
        }
        i = i + 1;
    }
    proof {
        assert(nodes_m.take(ni as int) =~= nodes_m);
    }
    let ghost calls_m = p@.function_calls;
    let ghost import_part = anchors@;
    let nc: usize = p.function_calls.len();
    let mut c: usize = 0;
    proof {
        assert(calls_m.take(0) =~= Seq::<FunctionCallModel>::empty());
        assert(anchors@ =~= import_part + call_anchors(calls_m.take(0), raw@, ln));
    }
    while c < nc
        invariant
            nc == p.function_calls@.len(),
            calls_m == p@.function_calls,
            c <= nc,
            anchors@ == import_part + call_anchors(calls_m.take(c as int), raw@, ln),
        decreases nc - c,
    {
        proof {
            assert(calls_m.take(c + 1).drop_last() =~= calls_m.take(c as int));
            assert(calls_m.take(c + 1).last() == calls_m[c as int]);
        }
        let cl = &p.function_calls[c];
        if cl.line == ln {
            let name = crate::text::str_to_chars(cl.name.as_str());
            match classify_name_exec(&name) {
                Some(k) => {
                    let rl: usize = raw.len();
                    let ks: Option<u32> = if wants_key_size_exec(k) {
                        if cl.column == 0 {
                            key_size_exec(raw, 0)
                        } else {
                            let base: usize = cl.column - 1;
                            if base >= rl || name.len() >= rl - base {
                                assert(key_search_start(calls_m[c as int]) >= raw@.len());
                                assert(key_size_from(
                                    raw@,
                                    key_search_start(calls_m[c as int]),
                                ) is None);
                                None
                            } else {
                                key_size_exec(raw, base + name.len())
                            }
                        }
                    } else {
                        None
                    };
                    let d = Detection { kind: k, line: ln, column: cl.column, key_size: ks };
                    anchors.push(d);
                    assert(anchors@ =~= (import_part + call_anchors(
                        calls_m.take(c as int),
                        raw@,
                        ln,
                    )).push(d));
                    assert(anchors@ =~= import_part + (call_anchors(
                        calls_m.take(c as int),
                        raw@,
                        ln,
                    ) + opt_det(call_detection(calls_m[c as int], raw@, ln))));
                },
                None => {
                    assert(call_anchors(calls_m.take(c as int), raw@, ln) + opt_det(
                        call_detection(calls_m[c as int], raw@, ln),
                    ) =~= call_anchors(calls_m.take(c as int), raw@, ln));
                },
            }
        } else {
            assert(call_detection(calls_m[c as int], raw@, ln) is None);
            assert(call_anchors(calls_m.take(c as int), raw@, ln) + opt_det(
                call_detection(calls_m[c as int], raw@, ln),
            ) =~= call_anchors(calls_m.take(c as int), raw@, ln));
        }
        proof {
            assert(call_anchors(calls_m.take(c + 1), raw@, ln) =~= call_anchors(
                calls_m.take(c as int),
                raw@,
                ln,
            ) + opt_det(call_detection(calls_m[c as int], raw@, ln)));
        }
        c = c + 1;
    }
    proof {
        assert(calls_m.take(nc as int) =~= calls_m);
        assert(anchors@ == line_anchors(p@, raw@, ln));
    }
    // The line-level detection for a line no record anchored.
    let ghost anchors_m = anchors@;
    let mut fallback: Vec<Detection> = Vec::new();
    if anchors.len() == 0 {
        match classify_name_exec(&t) {
            Some(k) => {
                let ks: Option<u32> = if wants_key_size_exec(k) {
                    key_size_exec(raw, 0)
                } else {
                    None
                };
                let d = Detection { kind: k, line: ln, column: 0, key_size: ks };
                fallback.push(d);
                assert(fallback@ =~= fallback_dets(anchors_m, t@, raw@, ln));
            },
            None => {
                assert(fallback@ =~= fallback_dets(anchors_m, t@, raw@, ln));
            },
        }
    } else {
        assert(fallback@ =~= fallback_dets(anchors_m, t@, raw@, ln));
    }
    // Order and deduplicate.
    let ghost all = anchors_m + fallback@;
    let mut line_out: Vec<Detection> = Vec::new();
    let nf: usize = fallback.len();
    let total: usize = anchors.len();
    proof {
        assert(all.take(0) =~= Seq::<Detection>::empty());
        assert(line_out@ =~= insert_all(Seq::empty(), all.take(0)));
    }
    let mut x: usize = 0;
    while x < total
        invariant
            total == anchors@.len(),
            anchors_m == anchors@,
            all == anchors_m + fallback@,
            nf == fallback@.len(),
            x <= total,
            line_out@ == insert_all(Seq::empty(), all.take(x as int)),
        decreases total - x,
    {
        proof {
            assert(all.take(x + 1).drop_last() =~= all.take(x as int));
            assert(all.take(x + 1).last() == all[x as int]);
            assert(all[x as int] == anchors@[x as int]);
        }
        insert_det_exec(&mut line_out, anchors[x]);
        x = x + 1;
    }
    let mut y: usize = 0;
    while y < nf
        invariant
            total == anchors@.len(),
            anchors_m == anchors@,
            all == anchors_m + fallback@,
            nf == fallback@.len(),
            y <= nf,
            line_out@ == insert_all(Seq::empty(), all.take(total + y)),
        decreases nf - y,
    {
        proof {
            assert(all.take(total + y + 1).drop_last() =~= all.take(total + y));
            assert(all.take(total + y + 1).last() == all[total + y]);
            assert(all[total + y] == fallback@[y as int]);
        }
        insert_det_exec(&mut line_out, fallback[y]);
        y = y + 1;
    }
    proof {
        assert(all.take((total + nf) as int) =~= all);
        assert(line_out@ == line_detections(p@, raw@, ln));
    }
    line_out
}

/// Classifies a whole scanned unit against the catalog: one detection per
/// matching record occurrence, plus line-level detections for families no
/// record anchored.
pub fn classify(p: &ParsedSource, lines: &Vec<Vec<char>>) -> (r: Vec<Detection>)
    ensures
        r@ == classify_spec(p@, lines.deep_view()),
{
    let ghost lsm = lines.deep_view();
    let mut out: Vec<Detection> = Vec::new();
    let n: usize = lines.len();
    let mut k: usize = 0;
    proof {
        assert(out@ =~= detections_upto(p@, lsm, 0));
    }
    while k < n
        invariant
            n == lines@.len(),
            lsm == lines.deep_view(),
            k <= n,
            out@ == detections_upto(p@, lsm, k as int),
        decreases n - k,
    {
        proof {
            assert(lsm[k as int] == lines@[k as int].deep_view());
            assert(lines@[k as int].deep_view() =~= lines@[k as int]@);
        }
        let mut line_dets = line_detections_exec(p, &lines[k], k + 1);
        let ghost line_m = line_dets@;
        let ghost out_pre = out@;
        out.append(&mut line_dets);
        proof {
            assert(out@ =~= out_pre + line_m);
            assert(out@ =~= detections_upto(p@, lsm, k + 1));
        }
        k = k + 1;
    }
    out
}

} // verus!
