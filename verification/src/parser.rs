//! Lexical scanner: one scanning profile per supported language.
//!
//! Every profile shares the same shape: split the source into physical
//! lines, skip blank lines and single-line comments, match the language's
//! import pattern against the trimmed line, and scan the whole trimmed line
//! for call sites (an identifier, optionally dotted or namespaced,
//! immediately followed by an opening parenthesis, whitespace allowed in
//! between). The scanner is a best-effort lexical pass: block comments and
//! string literals are not tracked, which is an accepted precision
//! trade-off.

use vstd::prelude::*;

use crate::text::{
    chars_to_string, find_from, find_from_exec, find_sub, find_sub_exec, is_word_char, is_ws,
    lemma_find_from_props, lemma_skip_word_bounds, lines_spec, match_at, matches_at, skip_nonws,
    skip_nonws_exec, skip_word, skip_word_exec, skip_ws, skip_ws_exec, split_lines, starts_with,
    str_to_chars, sub_vec, trim, trim_spec, word_char, ws_char,
};
use crate::types::{
    AstNode, AstNodeModel, FunctionCall, FunctionCallModel, Language, NodeType, ParsedSource,
    ParsedSourceModel, resolve_spec,
};

verus! {

/// Errors of the scanning stage.
///
/// Only `UnsupportedLanguage` can actually be produced: `ParseFailure` is
/// reserved for pattern-engine construction errors, which cannot occur with
/// the static catalog, and `InvalidSource` for inputs that cannot be
/// treated as text at all, which are rejected before the core is reached.
#[derive(Debug)]
pub enum ParseError {
    /// The language identifier did not resolve, or resolved to a language
    /// without a scanning profile; carries the identifier verbatim.
    UnsupportedLanguage(String),
    /// Reserved: scanner-internal pattern construction failure.
    ParseFailure(String),
    /// Reserved: the input could not be treated as text.
    InvalidSource,
}

impl ParseError {
    /// A human-readable description of the error.
    pub fn message(&self) -> (r: String)
        ensures
            match self {
                ParseError::UnsupportedLanguage(s) => r@ == "Unsupported language: "@ + s@,
                ParseError::ParseFailure(s) => r@ == "Parse error: "@ + s@,
                ParseError::InvalidSource => r@ == "Invalid source code"@,
            },
    {
        match self {
            ParseError::UnsupportedLanguage(s) => {
                let mut m = String::from_str("Unsupported language: ");
                m.append(s.as_str());
                m
            },
            ParseError::ParseFailure(s) => {
                let mut m = String::from_str("Parse error: ");
                m.append(s.as_str());
                m
            },
            ParseError::InvalidSource => String::from_str("Invalid source code"),
        }
    }
}

// ---------------------------------------------------------------------------
// The call-site pattern, shared by every profile
// ---------------------------------------------------------------------------

/// The namespace separator a profile accepts inside a callee name.
#[derive(Debug, Clone, Copy, PartialEq, Eq, Structural)]
pub enum Sep {
    /// A single dot, as in `crypto.createHash`.
    Dot,
    /// A double colon, as in `HashMap::new`.
    Colons,
}

pub open spec fn sep_len(sep: Sep) -> int {
    match sep {
        Sep::Dot => 1,
        Sep::Colons => 2,
    }
}

/// Does the separator stand at index `j`?
pub open spec fn sep_at(s: Seq<char>, j: int, sep: Sep) -> bool {
    match sep {
        Sep::Dot => 0 <= j < s.len() && s[j] == '.',
        Sep::Colons => 0 <= j && j + 1 < s.len() && s[j] == ':' && s[j + 1] == ':',
    }
}

/// Tries the call-site pattern at index `i` of a trimmed line: a word run,
/// optionally a separator and a second word run, then optional whitespace
/// and `'('`. Returns the callee name and the index just past the
/// parenthesis. A name with a separator is preferred over the bare first
/// word, as the scanner's pattern is greedy.
pub open spec fn try_call_at(s: Seq<char>, i: int, sep: Sep) -> Option<(Seq<char>, int)> {
    if !(0 <= i < s.len() && is_word_char(s[i])) {
        None
    } else {
        let j = skip_word(s, i);
        let long = if sep_at(s, j, sep) && j + sep_len(sep) < s.len() && is_word_char(
            s[j + sep_len(sep)],
        ) {
            let k = skip_word(s, j + sep_len(sep));
            let a = skip_ws(s, k);
            if a < s.len() && s[a] == '(' {
                Some((s.subrange(i, k), a + 1))
            } else {
                None
            }
        } else {
            None
        };
        if long is Some {
            long
        } else {
            let a = skip_ws(s, j);
            if a < s.len() && s[a] == '(' {
                Some((s.subrange(i, j), a + 1))
            } else {
                None
            }
        }
    }
}

/// All callee names found in a trimmed line at or after `i`, scanning left
/// to right without overlap.
pub open spec fn calls_in_line_from(s: Seq<char>, i: int, sep: Sep) -> Seq<Seq<char>>
    decreases s.len() - i,
{
    if i < 0 || i >= s.len() {
        Seq::empty()
    } else {
        match try_call_at(s, i, sep) {
            Some(r) => if i < r.1 <= s.len() {
                seq![r.0] + calls_in_line_from(s, r.1, sep)
            } else {
                seq![r.0]
            },
            None => calls_in_line_from(s, i + 1, sep),
        }
    }
}

/// All callee names of a trimmed line.
pub open spec fn calls_in_line(s: Seq<char>, sep: Sep) -> Seq<Seq<char>> {
    calls_in_line_from(s, 0, sep)
}

fn try_call_at_exec(v: &Vec<char>, i: usize, sep: Sep) -> (r: Option<(Vec<char>, usize)>)
    requires
        i <= v@.len(),
    ensures
        match r {
            Some((name, next)) => {
                &&& try_call_at(v@, i as int, sep) == Some((name@, next as int))
                &&& i < next <= v@.len()
            },
            None => try_call_at(v@, i as int, sep) is None,
        },
{
    let n: usize = v.len();
    if i >= n || !word_char(v[i]) {
        return None;
    }
    let j = skip_word_exec(v, i);
    proof {
        lemma_skip_word_bounds(v@, i as int);
    }
    let slen: usize = match sep {
        Sep::Dot => 1,
        Sep::Colons => 2,
    };
    let sep_here: bool = match sep {
        Sep::Dot => j < n && v[j] == '.',
        Sep::Colons => j < n && j + 1 < n && v[j] == ':' && v[j + 1] == ':',
    };
    if sep_here && j + slen < n && word_char(v[j + slen]) {
        let k = skip_word_exec(v, j + slen);
        let a = skip_ws_exec(v, k);
        if a < n && v[a] == '(' {
            let name = sub_vec(v, i, k);
            return Some((name, a + 1));
        }
    }
    let a = skip_ws_exec(v, j);
    if a < n && v[a] == '(' {
        let name = sub_vec(v, i, j);
        Some((name, a + 1))
    } else {
        None
    }
}

/// The callee names of a trimmed line, as fresh vectors, in match order.
fn calls_in_line_exec(v: &Vec<char>, sep: Sep) -> (r: Vec<Vec<char>>)
    ensures
        r.deep_view() == calls_in_line(v@, sep),
{
    let n: usize = v.len();
    let mut out: Vec<Vec<char>> = Vec::new();
    let mut i: usize = 0;
    proof {
        assert(out.deep_view() =~= Seq::<Seq<char>>::empty());
    }
    while i < n
        invariant
            n == v@.len(),
            i <= n,
            calls_in_line(v@, sep) == out.deep_view() + calls_in_line_from(v@, i as int, sep),
        decreases n - i,
    {
        let ghost out0 = out@;
        let ghost out0_dv = out.deep_view();
        match try_call_at_exec(v, i, sep) {
            Some((name, next)) => {
                let ghost name_snap = name;
                let ghost name_chars = name@;
                out.push(name);
                proof {
                    let dv = out.deep_view();
                    let target = out0_dv.push(name_chars);
                    assert forall|k: int| 0 <= k < dv.len() implies dv[k] == target[k] by {
                        if k < out0.len() {
                            assert(out@[k] == out0[k]);
                            assert(out0_dv[k] == out0[k].deep_view());
                        } else {
                            assert(out@[k] == name_snap);
                            assert(name_snap.deep_view() =~= name_chars);
                        }
                    }
                    assert(dv =~= target);
                    assert(calls_in_line_from(v@, i as int, sep) == seq![name_chars]
                        + calls_in_line_from(v@, next as int, sep));
                    assert(out0_dv + (seq![name_chars] + calls_in_line_from(
                        v@,
                        next as int,
                        sep,
                    )) =~= target + calls_in_line_from(v@, next as int, sep));
                }
                i = next;
            },
            None => {
                i = i + 1;
            },
        }
    }
    proof {
        assert(calls_in_line_from(v@, n as int, sep) =~= Seq::<Seq<char>>::empty());
        assert(out.deep_view() =~= out.deep_view() + Seq::<Seq<char>>::empty());
    }
    out
}

// ---------------------------------------------------------------------------
// Keywords
// ---------------------------------------------------------------------------

pub open spec fn kw_use() -> Seq<char> {
    seq!['u', 's', 'e']
}

pub open spec fn kw_pub() -> Seq<char> {
    seq!['p', 'u', 'b']
}

pub open spec fn kw_struct() -> Seq<char> {
    seq!['s', 't', 'r', 'u', 'c', 't']
}

pub open spec fn kw_import() -> Seq<char> {
    seq!['i', 'm', 'p', 'o', 'r', 't']
}

pub open spec fn kw_from() -> Seq<char> {
    seq!['f', 'r', 'o', 'm']
}

pub open spec fn kw_require() -> Seq<char> {
    seq!['r', 'e', 'q', 'u', 'i', 'r', 'e']
}

fn kw_use_vec() -> (r: Vec<char>)
    ensures
        r@ == kw_use(),
{
    let v: Vec<char> = vec!['u', 's', 'e'];
    assert(v@ =~= kw_use());
    v
}

fn kw_pub_vec() -> (r: Vec<char>)
    ensures
        r@ == kw_pub(),
{
    let v: Vec<char> = vec!['p', 'u', 'b'];
    assert(v@ =~= kw_pub());
    v
}

fn kw_struct_vec() -> (r: Vec<char>)
    ensures
        r@ == kw_struct(),
{
    let v: Vec<char> = vec!['s', 't', 'r', 'u', 'c', 't'];
    assert(v@ =~= kw_struct());
    v
}

fn kw_import_vec() -> (r: Vec<char>)
    ensures
        r@ == kw_import(),
{
    let v: Vec<char> = vec!['i', 'm', 'p', 'o', 'r', 't'];
    assert(v@ =~= kw_import());
    v
}

fn kw_from_vec() -> (r: Vec<char>)
    ensures
        r@ == kw_from(),
{
    let v: Vec<char> = vec!['f', 'r', 'o', 'm'];
    assert(v@ =~= kw_from());
    v
}

fn kw_require_vec() -> (r: Vec<char>)
    ensures
        r@ == kw_require(),
{
    let v: Vec<char> = vec!['r', 'e', 'q', 'u', 'i', 'r', 'e'];
    assert(v@ =~= kw_require());
    v
}

/// A quote character, single or double.
pub open spec fn is_quote(c: char) -> bool {
    c == '\'' || c == '"'
}

fn quote_char(c: char) -> (b: bool)
    ensures
        b == is_quote(c),
{
    c == '\'' || c == '"'
}

/// Index of the first quote character at or after `i`.
pub open spec fn find_quote(t: Seq<char>, i: int) -> Option<int>
    decreases t.len() - i,
{
    if i < 0 || i >= t.len() {
        None
    } else if is_quote(t[i]) {
        Some(i)
    } else {
        find_quote(t, i + 1)
    }
}

fn find_quote_exec(t: &Vec<char>, i: usize) -> (r: Option<usize>)
    ensures
        match r {
            Some(e) => find_quote(t@, i as int) == Some(e as int) && i <= e < t@.len(),
            None => find_quote(t@, i as int) is None,
        },
    decreases t@.len() - i,
{
    if i >= t.len() {
        None
    } else if quote_char(t[i]) {
        Some(i)
    } else {
        find_quote_exec(t, i + 1)
    }
}

// ---------------------------------------------------------------------------
// Import patterns, one per profile
// ---------------------------------------------------------------------------

/// The Rust import pattern: `use <path>;` with the path trimmed.
pub open spec fn rust_import(t: Seq<char>) -> Option<Seq<char>> {
    if t.len() > 3 && t.subrange(0, 3) == kw_use() && is_ws(t[3]) {
        let a = skip_ws(t, 3);
        match find_from(t, seq![';'], a) {
            Some(p) => if a < p {
                Some(trim_spec(t.subrange(a, p)))
            } else {
                None
            },
            None => None,
        }
    } else {
        None
    }
}

fn rust_import_exec(t: &Vec<char>) -> (r: Option<Vec<char>>)
    ensures
        match r {
            Some(p) => rust_import(t@) == Some(p@),
            None => rust_import(t@) is None,
        },
{
    let kw = kw_use_vec();
    if t.len() > 3 && matches_at(t, &kw, 0) && ws_char(t[3]) {
        assert(t@.subrange(0, 3) == kw_use());
        let a = skip_ws_exec(t, 3);
        let semi: Vec<char> = vec![';'];
        assert(semi@ =~= seq![';']);
        match find_from_exec(t, &semi, a) {
            Some(p) => {
                proof {
                    lemma_find_from_props(t@, seq![';'], a as int);
                }
                if a < p {
                    Some(trim(&sub_vec(t, a, p)))
                } else {
                    None
                }
            },
            None => None,
        }
    } else {
        None
    }
}

/// The Rust type-declaration pattern: `struct Name`, with an optional
/// leading `pub`.
pub open spec fn rust_struct(t: Seq<char>) -> Option<Seq<char>> {
    let base = if t.len() > 3 && t.subrange(0, 3) == kw_pub() && is_ws(t[3]) {
        skip_ws(t, 3)
    } else {
        0
    };
    if base + 6 < t.len() && t.subrange(base, base + 6) == kw_struct() && is_ws(t[base + 6]) {
        let a = skip_ws(t, base + 6);
        if a < t.len() && is_word_char(t[a]) {
            Some(t.subrange(a, skip_word(t, a)))
        } else {
            None
        }
    } else {
        None
    }
}

fn rust_struct_exec(t: &Vec<char>) -> (r: Option<Vec<char>>)
    ensures
        match r {
            Some(p) => rust_struct(t@) == Some(p@),
            None => rust_struct(t@) is None,
        },
{
    let kwp = kw_pub_vec();
    let kws = kw_struct_vec();
    let base: usize = if t.len() > 3 && matches_at(t, &kwp, 0) && ws_char(t[3]) {
        skip_ws_exec(t, 3)
    } else {
        0
    };
    if base < t.len() && t.len() - base > 6 && matches_at(t, &kws, base) && ws_char(t[base + 6]) {
        let a = skip_ws_exec(t, base + 6);
        if a < t.len() && word_char(t[a]) {
            let e = skip_word_exec(t, a);
            Some(sub_vec(t, a, e))
        } else {
            None
        }
    } else {
        None
    }
}

/// Is there a `from` clause at index `i`: the word `from`, at least one
/// whitespace character, then a quote?
pub open spec fn from_clause_at(t: Seq<char>, i: int) -> bool {
    &&& 0 <= i
    &&& i + 4 <= t.len()
    &&& t.subrange(i, i + 4) == kw_from()
    &&& i + 4 < t.len()
    &&& is_ws(t[i + 4])
    &&& {
        let q = skip_ws(t, i + 4);
        q < t.len() && is_quote(t[q])
    }
}

/// Index of the first `from` clause at or after `i`.
pub open spec fn find_from_clause(t: Seq<char>, i: int) -> Option<int>
    decreases t.len() - i + 1,
{
    if i < 0 || i + 4 > t.len() {
        None
    } else if from_clause_at(t, i) {
        Some(i)
    } else {
        find_from_clause(t, i + 1)
    }
}

fn from_clause_at_exec(t: &Vec<char>, i: usize) -> (b: bool)
    requires
        i + 4 <= t@.len(),
    ensures
        b == from_clause_at(t@, i as int),
{
    let n: usize = t.len();
    let kw = kw_from_vec();
    if matches_at(t, &kw, i) && i + 4 < n && ws_char(t[i + 4]) {
        let q = skip_ws_exec(t, i + 4);
        q < t.len() && quote_char(t[q])
    } else {
        false
    }
}

fn find_from_clause_exec(t: &Vec<char>, i: usize) -> (r: Option<usize>)
    ensures
        match r {
            Some(e) => find_from_clause(t@, i as int) == Some(e as int) && i <= e && e + 4
                <= t@.len() && from_clause_at(t@, e as int),
            None => find_from_clause(t@, i as int) is None,
        },
    decreases t@.len() - i + 1,
{
    if i > t.len() || t.len() - i < 4 {
        return None;
    }
    if from_clause_at_exec(t, i) {
        Some(i)
    } else {
        find_from_clause_exec(t, i + 1)
    }
}

/// The JavaScript import pattern: `import ... from '<path>'` (single or
/// double quotes).
pub open spec fn js_import(t: Seq<char>) -> Option<Seq<char>> {
    if t.len() > 6 && t.subrange(0, 6) == kw_import() && is_ws(t[6]) {
        match find_from_clause(t, 7) {
            Some(i) => {
                let q = skip_ws(t, i + 4);
                match find_quote(t, q + 1) {
                    Some(e) => if q + 1 < e {
                        Some(t.subrange(q + 1, e))
                    } else {
                        None
                    },
                    None => None,
                }
            },
            None => None,
        }
    } else {
        None
    }
}

fn js_import_exec(t: &Vec<char>) -> (r: Option<Vec<char>>)
    ensures
        match r {
            Some(p) => js_import(t@) == Some(p@),
            None => js_import(t@) is None,
        },
{
    let kw = kw_import_vec();
    if t.len() > 6 && matches_at(t, &kw, 0) && ws_char(t[6]) {
        match find_from_clause_exec(t, 7) {
            Some(i) => {
                assert(from_clause_at(t@, i as int));
                let q = skip_ws_exec(t, i + 4);
                match find_quote_exec(t, q + 1) {
                    Some(e) => {
                        if q + 1 < e {
                            Some(sub_vec(t, q + 1, e))
                        } else {
                            None
                        }
                    },
                    None => None,
                }
            },
            None => None,
        }
    } else {
        None
    }
}

/// One `require('<path>')` occurrence at index `i`: the path and the index
/// just past the closing parenthesis.
pub open spec fn try_require_at(t: Seq<char>, i: int) -> Option<(Seq<char>, int)> {
    if 0 <= i && i + 7 <= t.len() && t.subrange(i, i + 7) == kw_require() {
        let a = skip_ws(t, i + 7);
        if a < t.len() && t[a] == '(' {
            let b = skip_ws(t, a + 1);
            if b < t.len() && is_quote(t[b]) {
                match find_quote(t, b + 1) {
                    Some(e) => if b + 1 < e {
                        let c = skip_ws(t, e + 1);
                        if c < t.len() && t[c] == ')' {
                            Some((t.subrange(b + 1, e), c + 1))
                        } else {
                            None
                        }
                    } else {
                        None
                    },
                    None => None,
                }
            } else {
                None
            }
        } else {
            None
        }
    } else {
        None
    }
}

fn try_require_at_exec(t: &Vec<char>, i: usize) -> (r: Option<(Vec<char>, usize)>)
    requires
        i <= t@.len(),
    ensures
        match r {
            Some((path, next)) => {
                &&& try_require_at(t@, i as int) == Some((path@, next as int))
                &&& i < next <= t@.len()
            },
            None => try_require_at(t@, i as int) is None,
        },
{
    let kw = kw_require_vec();
    if t.len() < 7 || i > t.len() - 7 || !matches_at(t, &kw, i) {
        return None;
    }
    let a = skip_ws_exec(t, i + 7);
    if !(a < t.len() && t[a] == '(') {
        return None;
    }
    let b = skip_ws_exec(t, a + 1);
    if !(b < t.len() && quote_char(t[b])) {
        return None;
    }
    match find_quote_exec(t, b + 1) {
        Some(e) => {
            if b + 1 < e {
                let c = skip_ws_exec(t, e + 1);
                if c < t.len() && t[c] == ')' {
                    Some((sub_vec(t, b + 1, e), c + 1))
                } else {
                    None
                }
            } else {
                None
            }
        },
        None => None,
    }
}

/// Every `require('<path>')` path of a trimmed line, scanned left to right
/// without overlap, at or after `i`.
pub open spec fn requires_in_line_from(t: Seq<char>, i: int) -> Seq<Seq<char>>
    decreases t.len() - i,
{
    if i < 0 || i >= t.len() {
        Seq::empty()
    } else {
        match try_require_at(t, i) {
            Some(r) => if i < r.1 <= t.len() {
                seq![r.0] + requires_in_line_from(t, r.1)
            } else {
                seq![r.0]
            },
            None => requires_in_line_from(t, i + 1),
        }
    }
}

fn requires_in_line_exec(t: &Vec<char>) -> (r: Vec<Vec<char>>)
    ensures
        r.deep_view() == requires_in_line_from(t@, 0),
{
    let n: usize = t.len();
    let mut out: Vec<Vec<char>> = Vec::new();
    let mut i: usize = 0;
    proof {
        assert(out.deep_view() =~= Seq::<Seq<char>>::empty());
    }
    while i < n
        invariant
            n == t@.len(),
            i <= n,
            requires_in_line_from(t@, 0) == out.deep_view() + requires_in_line_from(t@, i as int),
        decreases n - i,
    {
        let ghost out0 = out@;
        let ghost out0_dv = out.deep_view();
        match try_require_at_exec(t, i) {
            Some((path, next)) => {
                let ghost path_snap = path;
                let ghost path_chars = path@;
                out.push(path);
                proof {
                    let dv = out.deep_view();
                    let target = out0_dv.push(path_chars);
                    assert forall|k: int| 0 <= k < dv.len() implies dv[k] == target[k] by {
                        if k < out0.len() {
                            assert(out@[k] == out0[k]);
                            assert(out0_dv[k] == out0[k].deep_view());
                        } else {
                            assert(out@[k] == path_snap);
                            assert(path_snap.deep_view() =~= path_chars);
                        }
                    }
                    assert(dv =~= target);
                    assert(requires_in_line_from(t@, i as int) == seq![path_chars]
                        + requires_in_line_from(t@, next as int));
                    assert(out0_dv + (seq![path_chars] + requires_in_line_from(t@, next as int))
                        =~= target + requires_in_line_from(t@, next as int));
                }
                i = next;
            },
            None => {
                i = i + 1;
            },
        }
    }
    proof {
        assert(requires_in_line_from(t@, n as int) =~= Seq::<Seq<char>>::empty());
        assert(out.deep_view() =~= out.deep_view() + Seq::<Seq<char>>::empty());
    }
    out
}

/// The Python `from <module> import ...` pattern.
pub open spec fn py_from_import(t: Seq<char>) -> Option<Seq<char>> {
    if t.len() > 4 && t.subrange(0, 4) == kw_from() && is_ws(t[4]) {
        let a = skip_ws(t, 4);
        if a < t.len() {
            let b = skip_nonws(t, a);
            if b < t.len() {
                let c = skip_ws(t, b);
                if c + 6 <= t.len() && t.subrange(c, c + 6) == kw_import() {
                    Some(t.subrange(a, b))
                } else {
                    None
                }
            } else {
                None
            }
        } else {
            None
        }
    } else {
        None
    }
}

fn py_from_import_exec(t: &Vec<char>) -> (r: Option<Vec<char>>)
    ensures
        match r {
            Some(p) => py_from_import(t@) == Some(p@),
            None => py_from_import(t@) is None,
        },
{
    let kwf = kw_from_vec();
    let kwi = kw_import_vec();
    if t.len() > 4 && matches_at(t, &kwf, 0) && ws_char(t[4]) {
        let a = skip_ws_exec(t, 4);
        if a < t.len() {
            let b = skip_nonws_exec(t, a);
            if b < t.len() {
                let c = skip_ws_exec(t, b);
                if c <= t.len() && t.len() - c >= 6 && matches_at(t, &kwi, c) {
                    Some(sub_vec(t, a, b))
                } else {
                    None
                }
            } else {
                None
            }
        } else {
            None
        }
    } else {
        None
    }
}

/// The Python `import <modules>` pattern, the captured text trimmed.
pub open spec fn py_import(t: Seq<char>) -> Option<Seq<char>> {
    if t.len() > 6 && t.subrange(0, 6) == kw_import() && is_ws(t[6]) {
        let a = skip_ws(t, 6);
        if a < t.len() {
            Some(trim_spec(t.subrange(a, t.len() as int)))
        } else {
            None
        }
    } else {
        None
    }
}

fn py_import_exec(t: &Vec<char>) -> (r: Option<Vec<char>>)
    ensures
        match r {
            Some(p) => py_import(t@) == Some(p@),
            None => py_import(t@) is None,
        },
{
    let kwi = kw_import_vec();
    if t.len() > 6 && matches_at(t, &kwi, 0) && ws_char(t[6]) {
        let a = skip_ws_exec(t, 6);
        if a < t.len() {
            Some(trim(&sub_vec(t, a, t.len())))
        } else {
            None
        }
    } else {
        None
    }
}

/// The Java import pattern: `import <path>;` with the path trimmed.
pub open spec fn java_import(t: Seq<char>) -> Option<Seq<char>> {
    if t.len() > 6 && t.subrange(0, 6) == kw_import() && is_ws(t[6]) {
        let a = skip_ws(t, 6);
        match find_from(t, seq![';'], a) {
            Some(p) => if a < p {
                Some(trim_spec(t.subrange(a, p)))
            } else {
                None
            },
            None => None,
        }
    } else {
        None
    }
}

fn java_import_exec(t: &Vec<char>) -> (r: Option<Vec<char>>)
    ensures
        match r {
            Some(p) => java_import(t@) == Some(p@),
            None => java_import(t@) is None,
        },
{
    let kwi = kw_import_vec();
    if t.len() > 6 && matches_at(t, &kwi, 0) && ws_char(t[6]) {
        let a = skip_ws_exec(t, 6);
        let semi: Vec<char> = vec![';'];
        assert(semi@ =~= seq![';']);
        match find_from_exec(t, &semi, a) {
            Some(p) => {
                proof {
                    lemma_find_from_props(t@, seq![';'], a as int);
                }
                if a < p {
                    Some(trim(&sub_vec(t, a, p)))
                } else {
                    None
                }
            },
            None => None,
        }
    } else {
        None
    }
}

/// The Go import pattern: `import "<path>"`.
pub open spec fn go_import(t: Seq<char>) -> Option<Seq<char>> {
    if t.len() > 6 && t.subrange(0, 6) == kw_import() && is_ws(t[6]) {
        let a = skip_ws(t, 6);
        if a < t.len() && t[a] == '"' {
            match find_from(t, seq!['"'], a + 1) {
                Some(e) => if a + 1 < e {
                    Some(t.subrange(a + 1, e))
                } else {
                    None
                },
                None => None,
            }
        } else {
            None
        }
    } else {
        None
    }
}

// ---------------------------------------------------------------------------
// Per-line aggregation
// ---------------------------------------------------------------------------

/// The single-line comment marker of a language.
pub open spec fn comment_marker(lang: Language) -> Seq<char> {
    match lang {
        Language::Python => seq!['#'],
        _ => seq!['/', '/'],
    }
}

/// A line the scanner ignores: empty after trimming, or a single-line
/// comment.
pub open spec fn line_skipped(lang: Language, t: Seq<char>) -> bool {
    t.len() == 0 || starts_with(t, comment_marker(lang))
}

/// The namespace separator of a language's call pattern.
pub open spec fn sep_of(lang: Language) -> Sep {
    match lang {
        Language::Rust => Sep::Colons,
        _ => Sep::Dot,
    }
}

pub open spec fn opt_seq(o: Option<Seq<char>>) -> Seq<Seq<char>> {
    match o {
        Some(x) => seq![x],
        None => Seq::empty(),
    }
}

/// The import paths a trimmed line contributes, in match order.
pub open spec fn line_imports(lang: Language, t: Seq<char>) -> Seq<Seq<char>> {
    match lang {
        Language::Rust => opt_seq(rust_import(t)),
        Language::JavaScript | Language::TypeScript => opt_seq(js_import(t))
            + requires_in_line_from(t, 0),
        Language::Python => match py_from_import(t) {
            Some(p) => seq![p],
            None => opt_seq(py_import(t)),
        },
        Language::Java => opt_seq(java_import(t)),
        Language::Go => opt_seq(go_import(t)),
        _ => Seq::empty(),
    }
}

/// The type declaration a trimmed line contributes; only the Rust profile
/// has a declaration pattern.
pub open spec fn line_struct(lang: Language, t: Seq<char>) -> Option<Seq<char>> {
    match lang {
        Language::Rust => rust_struct(t),
        _ => None,
    }
}

/// The column recorded for a callee name: the 1-based position of its
/// first occurrence on the raw line, zero when it is not found there.
pub open spec fn col_of(raw: Seq<char>, name: Seq<char>) -> usize {
    match find_sub(raw, name) {
        Some(c) => (c + 1) as usize,
        None => 0,
    }
}

/// A found occurrence leaves room for the 1-based column: its index is
/// either bounded by the line length (a nonempty name) or zero (the empty
/// name matches at the start).
proof fn lemma_found_col_bound(raw: Seq<char>, name: Seq<char>, c: int)
    requires
        raw.len() <= usize::MAX,
        find_sub(raw, name) == Some(c),
    ensures
        0 <= c,
        c + 1 <= usize::MAX,
{
    lemma_find_from_props(raw, name, 0);
    if name.len() == 0 {
        assert(raw.subrange(0, 0) =~= name);
        assert(match_at(raw, name, 0));
        if c > 0 {
            assert(!match_at(raw, name, 0));
        }
    }
}

pub open spec fn import_node(p: Seq<char>, line: usize) -> AstNodeModel {
    AstNodeModel { node_type: NodeType::Import, line, column: 0, content: p }
}

pub open spec fn struct_node(nm: Seq<char>, line: usize) -> AstNodeModel {
    AstNodeModel { node_type: NodeType::ClassDeclaration, line, column: 0, content: nm }
}

/// The declaration records a trimmed line contributes: one import node per
/// import path, then the type declaration if there is one.
pub open spec fn line_nodes(lang: Language, t: Seq<char>, line: usize) -> Seq<AstNodeModel> {
    line_imports(lang, t).map_values(|p: Seq<char>| import_node(p, line)) + (match line_struct(
        lang,
        t,
    ) {
        Some(nm) => seq![struct_node(nm, line)],
        None => Seq::empty(),
    })
}

pub open spec fn call_model(nm: Seq<char>, line: usize, raw: Seq<char>) -> FunctionCallModel {
    FunctionCallModel { name: nm, line, column: col_of(raw, nm), args: Seq::empty() }
}

/// The call records a trimmed line contributes, in match order.
pub open spec fn line_calls(lang: Language, t: Seq<char>, raw: Seq<char>, line: usize) -> Seq<
    FunctionCallModel,
> {
    calls_in_line(t, sep_of(lang)).map_values(|nm: Seq<char>| call_model(nm, line, raw))
}

/// What one raw line adds to the scan result.
pub open spec fn line_step(
    lang: Language,
    prev: ParsedSourceModel,
    raw: Seq<char>,
    line: usize,
) -> ParsedSourceModel {
    let t = trim_spec(raw);
    if line_skipped(lang, t) {
        prev
    } else {
        ParsedSourceModel {
            language: prev.language,
            ast_nodes: prev.ast_nodes + line_nodes(lang, t, line),
            imports: prev.imports + line_imports(lang, t),
            function_calls: prev.function_calls + line_calls(lang, t, raw, line),
        }
    }
}

pub open spec fn empty_model(lang: Language) -> ParsedSourceModel {
    ParsedSourceModel {
        language: lang,
        ast_nodes: Seq::empty(),
        imports: Seq::empty(),
        function_calls: Seq::empty(),
    }
}

/// The scan result after the first `k` lines of `ls`.
pub open spec fn scan_upto(lang: Language, ls: Seq<Seq<char>>, k: int) -> ParsedSourceModel
    decreases k,
{
    if k <= 0 {
        empty_model(lang)
    } else {
        line_step(lang, scan_upto(lang, ls, k - 1), ls[k - 1], k as usize)
    }
}

/// The scan result of a whole source text: every physical line processed
/// in order, with 1-based line numbers.
pub open spec fn scan_spec(lang: Language, src: Seq<char>) -> ParsedSourceModel {
    scan_upto(lang, lines_spec(src), lines_spec(src).len() as int)
}

fn go_import_exec(t: &Vec<char>) -> (r: Option<Vec<char>>)
    ensures
        match r {
            Some(p) => go_import(t@) == Some(p@),
            None => go_import(t@) is None,
        },
{
    let kwi = kw_import_vec();
    if t.len() > 6 && matches_at(t, &kwi, 0) && ws_char(t[6]) {
        let a = skip_ws_exec(t, 6);
        if a < t.len() && t[a] == '"' {
            let dq: Vec<char> = vec!['"'];
            assert(dq@ =~= seq!['"']);
            match find_from_exec(t, &dq, a + 1) {
                Some(e) => {
                    proof {
                        lemma_find_from_props(t@, seq!['"'], a + 1);
                    }
                    if a + 1 < e {
                        Some(sub_vec(t, a + 1, e))
                    } else {
                        None
                    }
                },
                None => None,
            }
        } else {
            None
        }
    } else {
        None
    }
}

// ---------------------------------------------------------------------------
// Building the executable scan result
// ---------------------------------------------------------------------------

/// Appends one import path, both to the import list and as an import node.
fn push_import_record(p: &mut ParsedSource, path: &Vec<char>, line: usize)
    ensures
        final(p)@.imports == old(p)@.imports.push(path@),
        final(p)@.ast_nodes == old(p)@.ast_nodes.push(import_node(path@, line)),
        final(p)@.function_calls == old(p)@.function_calls,
        final(p)@.language == old(p)@.language,
{
    let ghost old_imports = p.imports@;
    let ghost old_imports_dv = p.imports.deep_view();
    let ghost old_nodes = p.ast_nodes@;
    let s = chars_to_string(path);
    let s2 = chars_to_string(path);
    let ghost s_snap = s;
    p.imports.push(s);
    let node = AstNode { node_type: NodeType::Import, line, column: 0, content: s2 };
    let ghost node_snap = node;
    p.ast_nodes.push(node);
    proof {
        let dv = p.imports.deep_view();
        let target = old_imports_dv.push(path@);
        assert forall|k: int| 0 <= k < dv.len() implies dv[k] == target[k] by {
            if k < old_imports.len() {
                assert(p.imports@[k] == old_imports[k]);
                assert(old_imports_dv[k] == old_imports[k].deep_view());
            } else {
                assert(p.imports@[k] == s_snap);
            }
        }
        assert(dv =~= target);
        let nv = p.ast_nodes@.map_values(|n: AstNode| n@);
        let ntarget = old_nodes.map_values(|n: AstNode| n@).push(import_node(path@, line));
        assert forall|k: int| 0 <= k < nv.len() implies nv[k] == ntarget[k] by {
            if k < old_nodes.len() {
                assert(p.ast_nodes@[k] == old_nodes[k]);
            } else {
                assert(p.ast_nodes@[k] == node_snap);
            }
        }
        assert(nv =~= ntarget);
    }
}

/// Appends one type-declaration node.
fn push_struct_record(p: &mut ParsedSource, name: &Vec<char>, line: usize)
    ensures
        final(p)@.imports == old(p)@.imports,
        final(p)@.ast_nodes == old(p)@.ast_nodes.push(struct_node(name@, line)),
        final(p)@.function_calls == old(p)@.function_calls,
        final(p)@.language == old(p)@.language,
{
    let ghost old_nodes = p.ast_nodes@;
    let s = chars_to_string(name);
    let node = AstNode { node_type: NodeType::ClassDeclaration, line, column: 0, content: s };
    let ghost node_snap = node;
    p.ast_nodes.push(node);
    proof {
        let nv = p.ast_nodes@.map_values(|n: AstNode| n@);
        let ntarget = old_nodes.map_values(|n: AstNode| n@).push(struct_node(name@, line));
        assert forall|k: int| 0 <= k < nv.len() implies nv[k] == ntarget[k] by {
            if k < old_nodes.len() {
                assert(p.ast_nodes@[k] == old_nodes[k]);
            } else {
                assert(p.ast_nodes@[k] == node_snap);
            }
        }
        assert(nv =~= ntarget);
    }
}

/// Appends one call record.
fn push_call_record(p: &mut ParsedSource, name: &Vec<char>, line: usize, column: usize)
    ensures
        final(p)@.imports == old(p)@.imports,
        final(p)@.ast_nodes == old(p)@.ast_nodes,
        final(p)@.function_calls == old(p)@.function_calls.push(
            FunctionCallModel { name: name@, line, column, args: Seq::empty() },
        ),
        final(p)@.language == old(p)@.language,
{
    let ghost old_calls = p.function_calls@;
    let s = chars_to_string(name);
    let call = FunctionCall { name: s, line, column, args: Vec::new() };
    let ghost call_snap = call;
    p.function_calls.push(call);
    proof {
        let cv = p.function_calls@.map_values(|c: FunctionCall| c@);
        let ctarget = old_calls.map_values(|c: FunctionCall| c@).push(
            FunctionCallModel { name: name@, line, column, args: Seq::empty() },
        );
        assert forall|k: int| 0 <= k < cv.len() implies cv[k] == ctarget[k] by {
            if k < old_calls.len() {
                assert(p.function_calls@[k] == old_calls[k]);
            } else {
                assert(p.function_calls@[k] == call_snap);
                assert(call_snap@.args =~= Seq::<Seq<char>>::empty());
            }
        }
        assert(cv =~= ctarget);
    }
}

/// The import paths of one trimmed line, per the language's profile.
fn line_imports_exec(lang: Language, t: &Vec<char>) -> (r: Vec<Vec<char>>)
    ensures
        r.deep_view() == line_imports(lang, t@),
{
    let mut out: Vec<Vec<char>> = Vec::new();
    proof {
        assert(out.deep_view() =~= Seq::<Seq<char>>::empty());
    }
    match lang {
        Language::Rust => {
            if let Some(path) = rust_import_exec(t) {
                push_path(&mut out, path);
            }
            proof {
                assert(out.deep_view() =~= line_imports(lang, t@));
            }
        },
        Language::JavaScript | Language::TypeScript => {
            if let Some(path) = js_import_exec(t) {
                push_path(&mut out, path);
            }
            let ghost head = out.deep_view();
            let mut reqs = requires_in_line_exec(t);
            let ghost reqs0 = reqs@;
            let ghost reqs0_dv = reqs.deep_view();
            let ghost out_pre = out@;
            out.append(&mut reqs);
            proof {
                let dv = out.deep_view();
                let target = head + reqs0_dv;
                assert forall|k: int| 0 <= k < dv.len() implies dv[k] == target[k] by {
                    if k < out_pre.len() {
                        assert(out@[k] == out_pre[k]);
                    } else {
                        assert(out@[k] == reqs0[k - out_pre.len()]);
                        assert(reqs0_dv[k - out_pre.len()] == reqs0[k - out_pre.len()].deep_view());
                    }
                }
                assert(dv =~= target);
                assert(dv =~= line_imports(lang, t@));
            }
        },
        Language::Python => {
            match py_from_import_exec(t) {
                Some(path) => {
                    push_path(&mut out, path);
                },
                None => {
                    if let Some(path) = py_import_exec(t) {
                        push_path(&mut out, path);
                    }
                },
            }
            proof {
                assert(out.deep_view() =~= line_imports(lang, t@));
            }
        },
        Language::Java => {
            if let Some(path) = java_import_exec(t) {
                push_path(&mut out, path);
            }
            proof {
                assert(out.deep_view() =~= line_imports(lang, t@));
            }
        },
        Language::Go => {
            if let Some(path) = go_import_exec(t) {
                push_path(&mut out, path);
            }
            proof {
                assert(out.deep_view() =~= line_imports(lang, t@));
            }
        },
        Language::Cpp | Language::Csharp => {
            proof {
                assert(out.deep_view() =~= line_imports(lang, t@));
            }
        },
    }
    out
}

/// Appends one path to a list of paths.
fn push_path(out: &mut Vec<Vec<char>>, path: Vec<char>)
    ensures
        final(out).deep_view() == old(out).deep_view().push(path@),
{
    let ghost out0 = out@;
    let ghost out0_dv = out.deep_view();
    let ghost path_snap = path;
    out.push(path);
    proof {
        let dv = out.deep_view();
        let target = out0_dv.push(path_snap@);
        assert forall|k: int| 0 <= k < dv.len() implies dv[k] == target[k] by {
            if k < out0.len() {
                assert(out@[k] == out0[k]);
                assert(out0_dv[k] == out0[k].deep_view());
            } else {
                assert(out@[k] == path_snap);
                assert(path_snap.deep_view() =~= path_snap@);
            }
        }
        assert(dv =~= target);
    }
}

/// Scans one raw line and appends its records to the result.
fn process_line(p: &mut ParsedSource, lang: Language, raw: &Vec<char>, line_no: usize)
    ensures
        final(p)@ == line_step(lang, old(p)@, raw@, line_no),
{
    let t = trim(raw);
    let marker: Vec<char> = match lang {
        Language::Python => vec!['#'],
        _ => vec!['/', '/'],
    };
    proof {
        assert(marker@ =~= comment_marker(lang));
    }
    if t.len() == 0 || matches_at(&t, &marker, 0) {
        assert(line_skipped(lang, t@));
        return;
    }
    assert(!line_skipped(lang, t@));
    let ghost pre = p@;
    // Imports, each recorded in the import list and as an import node.
    let imps = line_imports_exec(lang, &t);
    let ghost imps_dv = imps.deep_view();
    let ghost f_import = |q: Seq<char>| import_node(q, line_no);
    let ni: usize = imps.len();
    let mut idx: usize = 0;
    proof {
        assert(imps_dv.take(0) =~= Seq::<Seq<char>>::empty());
        assert(pre.imports + imps_dv.take(0) =~= pre.imports);
        assert(imps_dv.take(0).map_values(f_import) =~= Seq::<AstNodeModel>::empty());
        assert(pre.ast_nodes + imps_dv.take(0).map_values(f_import) =~= pre.ast_nodes);
    }
    while idx < ni
        invariant
            ni == imps@.len(),
            imps_dv == imps.deep_view(),
            idx <= ni,
            p@.imports == pre.imports + imps_dv.take(idx as int),
            p@.ast_nodes == pre.ast_nodes + imps_dv.take(idx as int).map_values(f_import),
            p@.function_calls == pre.function_calls,
            p@.language == pre.language,
            f_import == (|q: Seq<char>| import_node(q, line_no)),
        decreases ni - idx,
    {
        proof {
            assert(imps_dv[idx as int] == imps@[idx as int].deep_view());
            assert(imps@[idx as int].deep_view() =~= imps@[idx as int]@);
        }
        push_import_record(p, &imps[idx], line_no);
        proof {
            assert(imps_dv.take(idx + 1) =~= imps_dv.take(idx as int).push(imps_dv[idx as int]));
            assert(pre.imports + imps_dv.take(idx + 1) =~= (pre.imports + imps_dv.take(
                idx as int,
            )).push(imps_dv[idx as int]));
            assert(imps_dv.take(idx + 1).map_values(f_import) =~= imps_dv.take(
                idx as int,
            ).map_values(f_import).push(import_node(imps_dv[idx as int], line_no)));
            assert(pre.ast_nodes + imps_dv.take(idx + 1).map_values(f_import) =~= (pre.ast_nodes
                + imps_dv.take(idx as int).map_values(f_import)).push(
                import_node(imps_dv[idx as int], line_no),
            ));
        }
        idx = idx + 1;
    }
    proof {
        assert(imps_dv.take(ni as int) =~= imps_dv);
        assert(imps_dv == line_imports(lang, t@));
    }
    // The type declaration, where the profile has one.
    let decl: Option<Vec<char>> = match lang {
        Language::Rust => rust_struct_exec(&t),
        _ => None,
    };
    let ghost mid_nodes = p@.ast_nodes;
    match decl {
        Some(nm) => {
            push_struct_record(p, &nm, line_no);
            proof {
                assert(line_struct(lang, t@) == Some(nm@));
            }
        },
        None => {
            assert(line_struct(lang, t@) is None);
        },
    }
    proof {
        assert(p@.ast_nodes =~= pre.ast_nodes + line_nodes(lang, t@, line_no));
    }
    // Call sites.
    let ghost mid = p@;
    let sep: Sep = match lang {
        Language::Rust => Sep::Colons,
        _ => Sep::Dot,
    };
    let calls = calls_in_line_exec(&t, sep);
    let ghost calls_dv = calls.deep_view();
    let ghost f_call = |nm: Seq<char>| call_model(nm, line_no, raw@);
    let nc: usize = calls.len();
    let mut cdx: usize = 0;
    proof {
        assert(calls_dv.take(0).map_values(f_call) =~= Seq::<FunctionCallModel>::empty());
        assert(mid.function_calls + calls_dv.take(0).map_values(f_call) =~= mid.function_calls);
    }
    while cdx < nc
        invariant
            nc == calls@.len(),
            calls_dv == calls.deep_view(),
            cdx <= nc,
            p@.function_calls == mid.function_calls + calls_dv.take(cdx as int).map_values(f_call),
            p@.imports == mid.imports,
            p@.ast_nodes == mid.ast_nodes,
            p@.language == mid.language,
            f_call == (|nm: Seq<char>| call_model(nm, line_no, raw@)),
        decreases nc - cdx,
    {
        proof {
            assert(calls_dv[cdx as int] == calls@[cdx as int].deep_view());
            assert(calls@[cdx as int].deep_view() =~= calls@[cdx as int]@);
        }
        let col: usize = match find_sub_exec(raw, &calls[cdx]) {
            Some(c) => {
                let rl: usize = raw.len();
                proof {
                    assert(raw@.len() == rl);
                    lemma_found_col_bound(raw@, calls@[cdx as int]@, c as int);
                }
                c + 1
            },
            None => 0,
        };
        assert(col == col_of(raw@, calls_dv[cdx as int]));
        push_call_record(p, &calls[cdx], line_no, col);
        proof {
            assert(calls_dv.take(cdx + 1) =~= calls_dv.take(cdx as int).push(
                calls_dv[cdx as int],
            ));
            assert(calls_dv.take(cdx + 1).map_values(f_call) =~= calls_dv.take(
                cdx as int,
            ).map_values(f_call).push(call_model(calls_dv[cdx as int], line_no, raw@)));
            assert(mid.function_calls + calls_dv.take(cdx + 1).map_values(f_call)
                =~= (mid.function_calls + calls_dv.take(cdx as int).map_values(f_call)).push(
                call_model(calls_dv[cdx as int], line_no, raw@),
            ));
        }
        cdx = cdx + 1;
    }
    proof {
        assert(calls_dv.take(nc as int) =~= calls_dv);
        assert(p@.function_calls =~= pre.function_calls + line_calls(lang, t@, raw@, line_no));
        assert(p@ == line_step(lang, pre, raw@, line_no));
    }
}

/// Scans a whole source text with the given language's profile.
fn scan_core(lang: Language, source: &str) -> (p: ParsedSource)
    ensures
        p@ == scan_spec(lang, source@),
{
    let chars = str_to_chars(source);
    let lines = split_lines(&chars);
    let ghost lsm = lines.deep_view();
    let mut parsed = ParsedSource::new(lang);
    proof {
        assert(parsed@ == empty_model(lang));
    }
    let n: usize = lines.len();
    let mut k: usize = 0;
    while k < n
        invariant
            n == lines@.len(),
            lsm == lines.deep_view(),
            k <= n,
            parsed@ == scan_upto(lang, lsm, k as int),
        decreases n - k,
    {
        proof {
            assert(lsm[k as int] == lines@[k as int].deep_view());
            assert(lines@[k as int].deep_view() =~= lines@[k as int]@);
        }
        process_line(&mut parsed, lang, &lines[k], k + 1);
        k = k + 1;
    }
    proof {
        assert(lsm == lines_spec(source@));
    }
    parsed
}

// ---------------------------------------------------------------------------
// The scanning profiles and the dispatching entry point
// ---------------------------------------------------------------------------

fn parse_rust(source: &str) -> (r: Result<ParsedSource, ParseError>)
    ensures
        r matches Ok(p) && p@ == scan_spec(Language::Rust, source@),
{
    Ok(scan_core(Language::Rust, source))
}

fn parse_javascript(source: &str) -> (r: Result<ParsedSource, ParseError>)
    ensures
        r matches Ok(p) && p@ == scan_spec(Language::JavaScript, source@),
{
    Ok(scan_core(Language::JavaScript, source))
}

fn parse_typescript(source: &str) -> (r: Result<ParsedSource, ParseError>)
    ensures
        r matches Ok(p) && p@ == scan_spec(Language::TypeScript, source@),
{
    Ok(scan_core(Language::TypeScript, source))
}

fn parse_python(source: &str) -> (r: Result<ParsedSource, ParseError>)
    ensures
        r matches Ok(p) && p@ == scan_spec(Language::Python, source@),
{
    Ok(scan_core(Language::Python, source))
}

fn parse_java(source: &str) -> (r: Result<ParsedSource, ParseError>)
    ensures
        r matches Ok(p) && p@ == scan_spec(Language::Java, source@),
{
    Ok(scan_core(Language::Java, source))
}

fn parse_go(source: &str) -> (r: Result<ParsedSource, ParseError>)
    ensures
        r matches Ok(p) && p@ == scan_spec(Language::Go, source@),
{
    Ok(scan_core(Language::Go, source))
}

/// Does a resolved language have a scanning profile?
pub open spec fn has_profile(l: Language) -> bool {
    match l {
        Language::Cpp | Language::Csharp => false,
        _ => true,
    }
}

/// What `parse_file` produces: the scan result when the identifier
/// resolves to a language with a profile, nothing otherwise.
pub open spec fn parse_spec(src: Seq<char>, ident: Seq<char>) -> Option<ParsedSourceModel> {
    match resolve_spec(ident) {
        Some(l) => if has_profile(l) {
            Some(scan_spec(l, src))
        } else {
            None
        },
        None => None,
    }
}

/// Scans `source` with the profile of the language named by `language`.
///
/// Succeeds exactly when the identifier resolves to a language with a
/// scanning profile; every failure is `UnsupportedLanguage`, carrying the
/// identifier verbatim.
pub fn parse_file(source: &str, language: &str) -> (r: Result<ParsedSource, ParseError>)
    ensures
        match r {
            Ok(p) => parse_spec(source@, language@) == Some(p@),
            Err(e) => {
                &&& parse_spec(source@, language@) is None
                &&& e matches ParseError::UnsupportedLanguage(s) && s@ == language@
            },
        },
        r is Ok <==> parse_spec(source@, language@) is Some,
{
    match Language::from_string(language) {
        Some(lang) => match lang {
            Language::Rust => parse_rust(source),
            Language::JavaScript => parse_javascript(source),
            Language::TypeScript => parse_typescript(source),
            Language::Python => parse_python(source),
            Language::Java => parse_java(source),
            Language::Go => parse_go(source),
            Language::Cpp | Language::Csharp => Err(
                ParseError::UnsupportedLanguage(String::from_str(language)),
            ),
        },
        None => Err(ParseError::UnsupportedLanguage(String::from_str(language))),
    }
}

} // verus!
