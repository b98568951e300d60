//! Character-sequence utilities the scanner and classifier are built on.
//!
//! All executable text processing in this crate works on `Vec<char>` so that
//! every step can be specified against the `Seq<char>` view of the original
//! `&str` input. Conversion from `&str` is done once, character by character.

use vstd::prelude::*;

verus! {

// ---------------------------------------------------------------------------
// Character classes
// ---------------------------------------------------------------------------

/// ASCII whitespace recognized when trimming and when skipping blanks
/// between a callee name and its opening parenthesis.
pub open spec fn is_ws(c: char) -> bool {
    c == ' ' || c == '\t' || c == '\r'
}

/// Word characters, as they may appear in an identifier: ASCII letters,
/// digits and underscore.
pub open spec fn is_word_char(c: char) -> bool {
    ('a' <= c && c <= 'z') || ('A' <= c && c <= 'Z') || ('0' <= c && c <= '9') || c == '_'
}

/// Decimal digit.
pub open spec fn is_digit(c: char) -> bool {
    '0' <= c && c <= '9'
}

/// Numeric value of a decimal digit; zero for anything else.
pub open spec fn digit_val(c: char) -> nat {
    if is_digit(c) {
        ((c as int) - ('0' as int)) as nat
    } else {
        0
    }
}

pub fn ws_char(c: char) -> (b: bool)
    ensures
        b == is_ws(c),
{
    c == ' ' || c == '\t' || c == '\r'
}

pub fn word_char(c: char) -> (b: bool)
    ensures
        b == is_word_char(c),
{
    ('a' <= c && c <= 'z') || ('A' <= c && c <= 'Z') || ('0' <= c && c <= '9') || c == '_'
}

pub fn digit_char(c: char) -> (b: bool)
    ensures
        b == is_digit(c),
{
    '0' <= c && c <= '9'
}

/// Lower-case image of one character; ASCII letters only, anything else is
/// kept as it is.
pub open spec fn lower_char(c: char) -> char {
    match c {
        'A' => 'a',
        'B' => 'b',
        'C' => 'c',
        'D' => 'd',
        'E' => 'e',
        'F' => 'f',
        'G' => 'g',
        'H' => 'h',
        'I' => 'i',
        'J' => 'j',
        'K' => 'k',
        'L' => 'l',
        'M' => 'm',
        'N' => 'n',
        'O' => 'o',
        'P' => 'p',
        'Q' => 'q',
        'R' => 'r',
        'S' => 's',
        'T' => 't',
        'U' => 'u',
        'V' => 'v',
        'W' => 'w',
        'X' => 'x',
        'Y' => 'y',
        'Z' => 'z',
        _ => c,
    }
}

pub fn to_lower_char(c: char) -> (r: char)
    ensures
        r == lower_char(c),
{
    match c {
        'A' => 'a',
        'B' => 'b',
        'C' => 'c',
        'D' => 'd',
        'E' => 'e',
        'F' => 'f',
        'G' => 'g',
        'H' => 'h',
        'I' => 'i',
        'J' => 'j',
        'K' => 'k',
        'L' => 'l',
        'M' => 'm',
        'N' => 'n',
        'O' => 'o',
        'P' => 'p',
        'Q' => 'q',
        'R' => 'r',
        'S' => 's',
        'T' => 't',
        'U' => 'u',
        'V' => 'v',
        'W' => 'w',
        'X' => 'x',
        'Y' => 'y',
        'Z' => 'z',
        _ => c,
    }
}

/// Lower-case image of a whole sequence.
pub open spec fn lower_seq(s: Seq<char>) -> Seq<char> {
    s.map_values(|c: char| lower_char(c))
}

// ---------------------------------------------------------------------------
// Conversions between &str / String and Vec<char>
// ---------------------------------------------------------------------------

/// The characters of a string slice, in order.
pub fn str_to_chars(s: &str) -> (r: Vec<char>)
    ensures
        r@ == s@,
{
    let n = s.unicode_len();
    let mut r: Vec<char> = Vec::new();
    let mut i: usize = 0;
    while i < n
        invariant
            n == s@.len(),
            i <= n,
            r@ == s@.take(i as int),
        decreases n - i,
    {
        r.push(s.get_char(i));
        assert(s@.take(i + 1) =~= s@.take(i as int).push(s@[i as int]));
        i = i + 1;
    }
    assert(r@ =~= s@);
    r
}

/// Relies on `String: FromIterator<char>` (`collect`): the resulting string
/// holds exactly the characters of the iterator, in order.
#[verifier::external_body]
pub fn chars_to_string(v: &Vec<char>) -> (s: String)
    ensures
        s@ == v@,
{
    v.iter().collect()
}

// ---------------------------------------------------------------------------
// Elementary sequence operations
// ---------------------------------------------------------------------------

/// Character-for-character equality of two vectors.
pub fn chars_eq(a: &Vec<char>, b: &Vec<char>) -> (r: bool)
    ensures
        r == (a@ == b@),
{
    if a.len() != b.len() {
        assert(a@ != b@);
        return false;
    }
    let n = a.len();
    let mut i: usize = 0;
    while i < n
        invariant
            n == a@.len() == b@.len(),
            i <= n,
            forall|j: int| 0 <= j < i ==> a@[j] == b@[j],
        decreases n - i,
    {
        if a[i] != b[i] {
            return false;
        }
        i = i + 1;
    }
    assert(a@ =~= b@);
    true
}

/// Equality of a character vector against a string literal.
pub fn eq_lit(v: &Vec<char>, lit: &str) -> (r: bool)
    ensures
        r == (v@ == lit@),
{
    let w = str_to_chars(lit);
    chars_eq(v, &w)
}

/// The subrange `v[from..to]` as a fresh vector.
pub fn sub_vec(v: &Vec<char>, from: usize, to: usize) -> (r: Vec<char>)
    requires
        from <= to <= v@.len(),
    ensures
        r@ == v@.subrange(from as int, to as int),
{
    let mut r: Vec<char> = Vec::new();
    let mut i: usize = from;
    while i < to
        invariant
            from <= i <= to <= v@.len(),
            r@ == v@.subrange(from as int, i as int),
        decreases to - i,
    {
        r.push(v[i]);
        assert(v@.subrange(from as int, i + 1) =~= v@.subrange(from as int, i as int).push(
            v@[i as int],
        ));
        i = i + 1;
    }
    r
}

/// Lower-case image of a vector.
pub fn to_lower(v: &Vec<char>) -> (r: Vec<char>)
    ensures
        r@ == lower_seq(v@),
{
    let n = v.len();
    let mut r: Vec<char> = Vec::new();
    let mut i: usize = 0;
    while i < n
        invariant
            n == v@.len(),
            i <= n,
            r@ == lower_seq(v@.take(i as int)),
        decreases n - i,
    {
        r.push(to_lower_char(v[i]));
        assert(lower_seq(v@.take(i + 1)) =~= lower_seq(v@.take(i as int)).push(lower_char(
            v@[i as int],
        )));
        i = i + 1;
    }
    assert(v@.take(n as int) =~= v@);
    r
}

// ---------------------------------------------------------------------------
// Substring search
// ---------------------------------------------------------------------------

/// Does `pat` occur in `s` starting at index `at`?
pub open spec fn match_at(s: Seq<char>, pat: Seq<char>, at: int) -> bool {
    &&& 0 <= at
    &&& at + pat.len() <= s.len()
    &&& s.subrange(at, at + pat.len()) == pat
}

pub fn matches_at(v: &Vec<char>, pat: &Vec<char>, at: usize) -> (r: bool)
    ensures
        r == match_at(v@, pat@, at as int),
{
    let vl: usize = v.len();
    if at > vl || pat.len() > vl - at {
        return false;
    }
    let n: usize = pat.len();
    let mut i: usize = 0;
    while i < n
        invariant
            vl == v@.len(),
            at + n <= vl,
            n == pat@.len(),
            i <= n,
            forall|j: int| 0 <= j < i ==> v@[at + j] == pat@[j],
        decreases n - i,
    {
        if v[at + i] != pat[i] {
            assert(v@.subrange(at as int, at + n) != pat@) by {
                assert(v@.subrange(at as int, at + n)[i as int] != pat@[i as int]);
            }
            return false;
        }
        i = i + 1;
    }
    assert(v@.subrange(at as int, at + n) =~= pat@);
    true
}

/// Index of the first occurrence of `pat` in `s` at or after `from`.
pub open spec fn find_from(s: Seq<char>, pat: Seq<char>, from: int) -> Option<int>
    decreases s.len() - from + 1,
{
    if from < 0 || from + pat.len() > s.len() {
        None
    } else if match_at(s, pat, from) {
        Some(from)
    } else {
        find_from(s, pat, from + 1)
    }
}

/// What `find_from` returns: the first match at or after `from`, with no
/// match before it.
pub proof fn lemma_find_from_props(s: Seq<char>, pat: Seq<char>, from: int)
    requires
        0 <= from,
    ensures
        match find_from(s, pat, from) {
            Some(i) => from <= i && i + pat.len() <= s.len() && match_at(s, pat, i) && forall|
                j: int,
            | from <= j < i ==> !match_at(s, pat, j),
            None => forall|j: int| from <= j ==> !match_at(s, pat, j),
        },
    decreases s.len() - from + 1,
{
    if from + pat.len() > s.len() {
    } else if match_at(s, pat, from) {
    } else {
        lemma_find_from_props(s, pat, from + 1);
    }
}

/// Index of the first occurrence of `pat` in `s`.
pub open spec fn find_sub(s: Seq<char>, pat: Seq<char>) -> Option<int> {
    find_from(s, pat, 0)
}

/// Does `pat` occur anywhere in `s`?
pub open spec fn contains_sub(s: Seq<char>, pat: Seq<char>) -> bool {
    find_sub(s, pat) is Some
}

pub fn find_from_exec(v: &Vec<char>, pat: &Vec<char>, from: usize) -> (r: Option<usize>)
    ensures
        match r {
            Some(i) => find_from(v@, pat@, from as int) == Some(i as int),
            None => find_from(v@, pat@, from as int) is None,
        },
    decreases v@.len() - from,
{
    if from > v.len() || pat.len() > v.len() - from {
        return None;
    }
    if pat.len() == 0 {
        assert(match_at(v@, pat@, from as int)) by {
            assert(v@.subrange(from as int, from as int) =~= pat@);
        }
        return Some(from);
    }
    if matches_at(v, pat, from) {
        Some(from)
    } else {
        find_from_exec(v, pat, from + 1)
    }
}

pub fn find_sub_exec(v: &Vec<char>, pat: &Vec<char>) -> (r: Option<usize>)
    ensures
        match r {
            Some(i) => find_sub(v@, pat@) == Some(i as int),
            None => find_sub(v@, pat@) is None,
        },
{
    find_from_exec(v, pat, 0)
}

pub fn contains_exec(v: &Vec<char>, pat: &Vec<char>) -> (r: bool)
    ensures
        r == contains_sub(v@, pat@),
{
    find_sub_exec(v, pat).is_some()
}

// ---------------------------------------------------------------------------
// Trimming
// ---------------------------------------------------------------------------

/// Index of the first character that is not ASCII whitespace, at or after
/// `from`; the length of the sequence when there is none.
pub open spec fn skip_ws(s: Seq<char>, from: int) -> int
    decreases s.len() - from,
{
    if from < 0 || from >= s.len() {
        s.len() as int
    } else if is_ws(s[from]) {
        skip_ws(s, from + 1)
    } else {
        from
    }
}

/// Index of the first character that is not a word character, at or after
/// `from`; the length of the sequence when there is none.
pub open spec fn skip_word(s: Seq<char>, from: int) -> int
    decreases s.len() - from,
{
    if from < 0 || from >= s.len() {
        s.len() as int
    } else if is_word_char(s[from]) {
        skip_word(s, from + 1)
    } else {
        from
    }
}

/// Index of the first whitespace character, at or after `from`; the length
/// of the sequence when there is none.
pub open spec fn skip_nonws(s: Seq<char>, from: int) -> int
    decreases s.len() - from,
{
    if from < 0 || from >= s.len() {
        s.len() as int
    } else if !is_ws(s[from]) {
        skip_nonws(s, from + 1)
    } else {
        from
    }
}

/// Index of the first non-digit, at or after `from`; the length of the
/// sequence when there is none.
pub open spec fn skip_digits(s: Seq<char>, from: int) -> int
    decreases s.len() - from,
{
    if from < 0 || from >= s.len() {
        s.len() as int
    } else if is_digit(s[from]) {
        skip_digits(s, from + 1)
    } else {
        from
    }
}

pub proof fn lemma_skip_word_bounds(s: Seq<char>, from: int)
    requires
        0 <= from <= s.len(),
    ensures
        from <= skip_word(s, from) <= s.len(),
        forall|j: int| from <= j < skip_word(s, from) ==> is_word_char(s[j]),
        skip_word(s, from) < s.len() ==> !is_word_char(s[skip_word(s, from)]),
    decreases s.len() - from,
{
    if from < s.len() && is_word_char(s[from]) {
        lemma_skip_word_bounds(s, from + 1);
    }
}

pub proof fn lemma_skip_digits_bounds(s: Seq<char>, from: int)
    requires
        0 <= from <= s.len(),
    ensures
        from <= skip_digits(s, from) <= s.len(),
        forall|j: int| from <= j < skip_digits(s, from) ==> is_digit(s[j]),
        skip_digits(s, from) < s.len() ==> !is_digit(s[skip_digits(s, from)]),
    decreases s.len() - from,
{
    if from < s.len() && is_digit(s[from]) {
        lemma_skip_digits_bounds(s, from + 1);
    }
}

pub fn skip_ws_exec(v: &Vec<char>, from: usize) -> (r: usize)
    requires
        from <= v@.len(),
    ensures
        r == skip_ws(v@, from as int),
        from <= r <= v@.len(),
{
    let n: usize = v.len();
    let mut i: usize = from;
    while i < n && ws_char(v[i])
        invariant
            n == v@.len(),
            from <= i <= n,
            skip_ws(v@, from as int) == skip_ws(v@, i as int),
        decreases n - i,
    {
        i = i + 1;
    }
    i
}

pub fn skip_word_exec(v: &Vec<char>, from: usize) -> (r: usize)
    requires
        from <= v@.len(),
    ensures
        r == skip_word(v@, from as int),
        from <= r <= v@.len(),
{
    let n: usize = v.len();
    let mut i: usize = from;
    while i < n && word_char(v[i])
        invariant
            n == v@.len(),
            from <= i <= n,
            skip_word(v@, from as int) == skip_word(v@, i as int),
        decreases n - i,
    {
        i = i + 1;
    }
    i
}

pub fn skip_nonws_exec(v: &Vec<char>, from: usize) -> (r: usize)
    requires
        from <= v@.len(),
    ensures
        r == skip_nonws(v@, from as int),
        from <= r <= v@.len(),
{
    let n: usize = v.len();
    let mut i: usize = from;
    while i < n && !ws_char(v[i])
        invariant
            n == v@.len(),
            from <= i <= n,
            skip_nonws(v@, from as int) == skip_nonws(v@, i as int),
        decreases n - i,
    {
        i = i + 1;
    }
    i
}

pub fn skip_digits_exec(v: &Vec<char>, from: usize) -> (r: usize)
    requires
        from <= v@.len(),
    ensures
        r == skip_digits(v@, from as int),
        from <= r <= v@.len(),
{
    let n: usize = v.len();
    let mut i: usize = from;
    while i < n && digit_char(v[i])
        invariant
            n == v@.len(),
            from <= i <= n,
            skip_digits(v@, from as int) == skip_digits(v@, i as int),
        decreases n - i,
    {
        i = i + 1;
    }
    i
}

/// Does `p` stand at the start of `s`?
pub open spec fn starts_with(s: Seq<char>, p: Seq<char>) -> bool {
    match_at(s, p, 0)
}

/// One past the last character that is not ASCII whitespace; `low` when the
/// suffix from `low` is all whitespace.
pub open spec fn trim_end_idx(s: Seq<char>, low: int) -> int
    decreases s.len(),
{
    if s.len() <= low || low < 0 {
        low
    } else if is_ws(s[s.len() - 1]) {
        trim_end_idx(s.drop_last(), low)
    } else {
        s.len() as int
    }
}

/// `s` with ASCII whitespace removed from both ends.
pub open spec fn trim_spec(s: Seq<char>) -> Seq<char> {
    let a = skip_ws(s, 0);
    if a == s.len() {
        Seq::empty()
    } else {
        s.subrange(a, trim_end_idx(s, a))
    }
}

pub proof fn lemma_skip_ws_bounds(s: Seq<char>, from: int)
    requires
        0 <= from <= s.len(),
    ensures
        from <= skip_ws(s, from) <= s.len(),
        forall|j: int| from <= j < skip_ws(s, from) ==> is_ws(s[j]),
        skip_ws(s, from) < s.len() ==> !is_ws(s[skip_ws(s, from)]),
    decreases s.len() - from,
{
    if from < s.len() && is_ws(s[from]) {
        lemma_skip_ws_bounds(s, from + 1);
    }
}

proof fn lemma_trim_end_bounds(s: Seq<char>, low: int)
    requires
        0 <= low <= s.len(),
    ensures
        low <= trim_end_idx(s, low) <= s.len(),
        forall|j: int| trim_end_idx(s, low) <= j < s.len() ==> is_ws(s[j]),
        trim_end_idx(s, low) > low ==> !is_ws(s[trim_end_idx(s, low) - 1]),
    decreases s.len(),
{
    if s.len() > low {
        if is_ws(s[s.len() - 1]) {
            lemma_trim_end_bounds(s.drop_last(), low);
            assert(forall|j: int|
                0 <= j < s.len() - 1 ==> s.drop_last()[j] == s[j]);
        }
    }
}

pub fn trim(v: &Vec<char>) -> (r: Vec<char>)
    ensures
        r@ == trim_spec(v@),
{
    let n = v.len();
    let mut a: usize = 0;
    while a < n && ws_char(v[a])
        invariant
            n == v@.len(),
            0 <= a <= n,
            skip_ws(v@, 0) == skip_ws(v@, a as int),
            forall|j: int| 0 <= j < a ==> is_ws(v@[j]),
        decreases n - a,
    {
        a = a + 1;
    }
    proof {
        lemma_skip_ws_bounds(v@, a as int);
        assert(skip_ws(v@, a as int) == a);
    }
    if a == n {
        let r: Vec<char> = Vec::new();
        assert(trim_spec(v@) =~= Seq::<char>::empty());
        return r;
    }
    let mut b: usize = n;
    proof {
        assert(v@.take(n as int) =~= v@);
    }
    while b > a && ws_char(v[b - 1])
        invariant
            n == v@.len(),
            a <= b <= n,
            a < n,
            !is_ws(v@[a as int]),
            trim_end_idx(v@, a as int) == trim_end_idx(v@.take(b as int), a as int),
            forall|j: int| b <= j < n ==> is_ws(v@[j]),
        decreases b,
    {
        assert(v@.take(b as int).drop_last() =~= v@.take(b - 1));
        b = b - 1;
    }
    proof {
        let t = v@.take(b as int);
        lemma_trim_end_bounds(t, a as int);
        if b > a {
            assert(!is_ws(t[t.len() - 1]));
            assert(trim_end_idx(t, a as int) == b);
        } else {
            assert(b == a);
            assert(is_ws(v@[a as int]) == false);
            assert(t.len() == a);
            assert(trim_end_idx(t, a as int) == a);
        }
        assert(trim_end_idx(v@, a as int) == b);
    }
    let r = sub_vec(v, a, b);
    proof {
        assert(skip_ws(v@, 0) == a);
        assert(r@ == trim_spec(v@));
    }
    r
}

// ---------------------------------------------------------------------------
// Splitting source text into physical lines
// ---------------------------------------------------------------------------

/// A line as produced by splitting on `'\n'`, with a carriage return that
/// preceded the newline removed.
pub open spec fn strip_cr(l: Seq<char>) -> Seq<char> {
    if l.len() > 0 && l.last() == '\r' {
        l.drop_last()
    } else {
        l
    }
}

/// The physical lines of `s` starting at `from`: pieces split on `'\n'`,
/// each stripped of a trailing carriage return; a final newline does not
/// open an extra empty line.
pub open spec fn lines_from(s: Seq<char>, from: int) -> Seq<Seq<char>>
    decreases s.len() - from,
{
    if from < 0 || from >= s.len() {
        Seq::empty()
    } else {
        match find_from(s, seq!['\n'], from) {
            Some(i) => if from <= i && i < s.len() {
                seq![strip_cr(s.subrange(from, i))] + lines_from(s, i + 1)
            } else {
                seq![s.subrange(from, s.len() as int)]
            },
            None => seq![s.subrange(from, s.len() as int)],
        }
    }
}

/// The physical lines of `s`.
pub open spec fn lines_spec(s: Seq<char>) -> Seq<Seq<char>> {
    lines_from(s, 0)
}

fn strip_cr_exec(piece: Vec<char>) -> (r: Vec<char>)
    ensures
        r@ == strip_cr(piece@),
{
    let mut p = piece;
    if p.len() > 0 && p[p.len() - 1] == '\r' {
        p.pop();
    }
    p
}

fn split_lines_from(v: &Vec<char>, from: usize) -> (r: Vec<Vec<char>>)
    ensures
        r.deep_view() == lines_from(v@, from as int),
    decreases v@.len() - from,
{
    let mut r: Vec<Vec<char>> = Vec::new();
    if from >= v.len() {
        assert(r.deep_view() =~= lines_from(v@, from as int));
        return r;
    }
    let nl: Vec<char> = vec!['\n'];
    assert(nl@ =~= seq!['\n']);
    match find_from_exec(v, &nl, from) {
        Some(i) => {
            proof {
                lemma_find_from_props(v@, seq!['\n'], from as int);
            }
            let piece = strip_cr_exec(sub_vec(v, from, i));
            let ghost piece_chars = piece@;
            let mut rest = split_lines_from(v, i + 1);
            let ghost rest0 = rest@;
            let ghost rest0_dv = rest.deep_view();
            r.push(piece);
            r.append(&mut rest);
            proof {
                let dv = r.deep_view();
                let target = seq![strip_cr(v@.subrange(from as int, i as int))] + lines_from(
                    v@,
                    i + 1,
                );
                assert forall|k: int| 0 <= k < dv.len() implies dv[k] == target[k] by {
                    if k == 0 {
                        assert(dv[0] == r@[0].deep_view());
                        assert(r@[0].deep_view() =~= piece_chars);
                    } else {
                        assert(r@[k] == rest0[k - 1]);
                        assert(dv[k] == rest0[k - 1].deep_view());
                        assert(rest0_dv[k - 1] == rest0[k - 1].deep_view());
                    }
                }
                assert(dv =~= target);
            }
            r
        },
        None => {
            let piece = sub_vec(v, from, v.len());
            let ghost piece_chars = piece@;
            r.push(piece);
            proof {
                let dv = r.deep_view();
                let target = seq![v@.subrange(from as int, v@.len() as int)];
                assert(dv[0] == r@[0].deep_view());
                assert(r@[0].deep_view() =~= piece_chars);
                assert(dv =~= target);
            }
            r
        },
    }
}

/// The physical lines of `v`, matching `lines_spec` on the view.
pub fn split_lines(v: &Vec<char>) -> (r: Vec<Vec<char>>)
    ensures
        r.deep_view() == lines_spec(v@),
{
    split_lines_from(v, 0)
}

// ---------------------------------------------------------------------------
// Substring replacement
// ---------------------------------------------------------------------------

/// `s` with every non-overlapping occurrence of `pat` (scanned left to
/// right) replaced by `to`; `s` unchanged when `pat` is empty.
pub open spec fn replace_spec(s: Seq<char>, pat: Seq<char>, to: Seq<char>) -> Seq<char>
    decreases s.len(),
{
    if pat.len() == 0 || s.len() < pat.len() {
        s
    } else if s.take(pat.len() as int) == pat {
        to + replace_spec(s.skip(pat.len() as int), pat, to)
    } else {
        seq![s[0]] + replace_spec(s.skip(1), pat, to)
    }
}

/// Appends every character of `src` to `dst`.
pub fn push_all(dst: &mut Vec<char>, src: &Vec<char>)
    ensures
        final(dst)@ == old(dst)@ + src@,
{
    let n: usize = src.len();
    let mut i: usize = 0;
    while i < n
        invariant
            n == src@.len(),
            i <= n,
            dst@ == old(dst)@ + src@.take(i as int),
        decreases n - i,
    {
        dst.push(src[i]);
        assert(old(dst)@ + src@.take(i + 1) =~= (old(dst)@ + src@.take(i as int)).push(
            src@[i as int],
        ));
        i = i + 1;
    }
    assert(old(dst)@ + src@.take(n as int) =~= old(dst)@ + src@);
}

/// `v` with every occurrence of `pat` replaced by `to`.
pub fn replace_all(v: &Vec<char>, pat: &Vec<char>, to: &Vec<char>) -> (r: Vec<char>)
    ensures
        r@ == replace_spec(v@, pat@, to@),
{
    let n: usize = v.len();
    let plen: usize = pat.len();
    let mut out: Vec<char> = Vec::new();
    let mut i: usize = 0;
    proof {
        assert(v@.skip(0) =~= v@);
    }
    while i < n
        invariant
            n == v@.len(),
            plen == pat@.len(),
            i <= n,
            replace_spec(v@, pat@, to@) == out@ + replace_spec(v@.skip(i as int), pat@, to@),
        decreases n - i,
    {
        let ghost rem = v@.skip(i as int);
        if plen > 0 && matches_at(v, pat, i) {
            proof {
                assert(rem.take(plen as int) =~= v@.subrange(i as int, i + plen));
                assert(rem.skip(plen as int) =~= v@.skip(i + plen));
                assert(replace_spec(rem, pat@, to@) == to@ + replace_spec(
                    v@.skip(i + plen),
                    pat@,
                    to@,
                ));
            }
            push_all(&mut out, to);
            i = i + plen;
        } else {
            proof {
                if plen > 0 && rem.len() >= plen {
                    assert(rem.take(plen as int) =~= v@.subrange(i as int, i + plen));
                }
                assert(rem.skip(1) =~= v@.skip(i + 1));
                if plen > 0 {
                    assert(replace_spec(rem, pat@, to@) == seq![v@[i as int]] + replace_spec(
                        v@.skip(i + 1),
                        pat@,
                        to@,
                    ));
                }
            }
            let ghost out0 = out@;
            let c = v[i];
            out.push(c);
            proof {
                if plen == 0 {
                    assert(replace_spec(rem, pat@, to@) == rem);
                    assert(replace_spec(v@.skip(i + 1), pat@, to@) == v@.skip(i + 1));
                    assert(rem =~= seq![v@[i as int]] + v@.skip(i + 1));
                }
                assert(out0 + (seq![v@[i as int]] + replace_spec(v@.skip(i + 1), pat@, to@))
                    =~= out0.push(v@[i as int]) + replace_spec(v@.skip(i + 1), pat@, to@));
            }
            i = i + 1;
        }
    }
    proof {
        assert(v@.skip(n as int) =~= Seq::<char>::empty());
        assert(replace_spec(v@.skip(n as int), pat@, to@) == Seq::<char>::empty());
        assert(out@ + Seq::<char>::empty() =~= out@);
    }
    out
}

// ---------------------------------------------------------------------------
// Decimal digits
// ---------------------------------------------------------------------------

/// The character for one decimal digit.
pub open spec fn dec_digit(d: nat) -> char {
    if d == 0 {
        '0'
    } else if d == 1 {
        '1'
    } else if d == 2 {
        '2'
    } else if d == 3 {
        '3'
    } else if d == 4 {
        '4'
    } else if d == 5 {
        '5'
    } else if d == 6 {
        '6'
    } else if d == 7 {
        '7'
    } else if d == 8 {
        '8'
    } else {
        '9'
    }
}

/// The usual decimal rendering of `n`, most significant digit first.
pub open spec fn dec_chars(n: nat) -> Seq<char>
    decreases n,
{
    if n < 10 {
        seq![dec_digit(n)]
    } else {
        dec_chars(n / 10).push(dec_digit(n % 10))
    }
}

fn dec_digit_exec(d: u64) -> (c: char)
    requires
        d < 10,
    ensures
        c == dec_digit(d as nat),
{
    if d == 0 {
        '0'
    } else if d == 1 {
        '1'
    } else if d == 2 {
        '2'
    } else if d == 3 {
        '3'
    } else if d == 4 {
        '4'
    } else if d == 5 {
        '5'
    } else if d == 6 {
        '6'
    } else if d == 7 {
        '7'
    } else if d == 8 {
        '8'
    } else {
        '9'
    }
}

/// The decimal rendering of `n`.
pub fn u64_to_chars(n: u64) -> (r: Vec<char>)
    ensures
        r@ == dec_chars(n as nat),
    decreases n,
{
    if n < 10 {
        let c = dec_digit_exec(n);
        let r: Vec<char> = vec![c];
        assert(r@ =~= seq![dec_digit(n as nat)]);
        r
    } else {
        let mut r = u64_to_chars(n / 10);
        r.push(dec_digit_exec(n % 10));
        r
    }
}

/// Value of a sequence of decimal digits, most significant first.
pub open spec fn digits_val(s: Seq<char>) -> nat
    decreases s.len(),
{
    if s.len() == 0 {
        0
    } else {
        digits_val(s.drop_last()) * 10 + digit_val(s.last())
    }
}

pub open spec fn pow10(n: nat) -> nat
    decreases n,
{
    if n == 0 {
        1
    } else {
        10 * pow10((n - 1) as nat)
    }
}

proof fn lemma_pow10_mono(i: nat, j: nat)
    requires
        i <= j,
    ensures
        pow10(i) <= pow10(j),
        1 <= pow10(i),
    decreases j,
{
    if j > 0 {
        if i == j {
            lemma_pow10_mono((i - 1) as nat, (j - 1) as nat);
        } else {
            lemma_pow10_mono(i, (j - 1) as nat);
        }
    }
}

proof fn lemma_digits_val_bound(s: Seq<char>)
    ensures
        digits_val(s) < pow10(s.len()),
    decreases s.len(),
{
    if s.len() > 0 {
        lemma_digits_val_bound(s.drop_last());
    }
}

/// Value of the all-digit subrange `v[from..to]`, which holds at most nine
/// digits and therefore fits comfortably in a `u32`.
pub fn digits_value(v: &Vec<char>, from: usize, to: usize) -> (r: u32)
    requires
        from <= to <= v@.len(),
        to - from <= 9,
        forall|j: int| from <= j < to ==> is_digit(v@[j]),
    ensures
        r == digits_val(v@.subrange(from as int, to as int)),
        r < 1000000000,
{
    let mut val: u64 = 0;
    let mut i: usize = from;
    proof {
        assert(v@.subrange(from as int, from as int) =~= Seq::<char>::empty());
    }
    while i < to
        invariant
            from <= i <= to <= v@.len(),
            to - from <= 9,
            forall|j: int| from <= j < to ==> is_digit(v@[j]),
            val == digits_val(v@.subrange(from as int, i as int)),
            val < pow10((i - from) as nat),
        decreases to - i,
    {
        proof {
            lemma_pow10_mono((i - from) as nat, 8);
            assert(pow10(8) == 100000000) by {
                reveal_with_fuel(pow10, 10);
            }
            assert(v@.subrange(from as int, i + 1).drop_last() =~= v@.subrange(
                from as int,
                i as int,
            ));
            assert(v@.subrange(from as int, i + 1).last() == v@[i as int]);
        }
        let c = v[i];
        let d: u64 = digit_value_exec(c);
        val = val * 10 + d;
        i = i + 1;
    }
    proof {
        lemma_pow10_mono((i - from) as nat, 9);
        assert(pow10(9) == 1000000000) by {
            reveal_with_fuel(pow10, 11);
        }
    }
    val as u32
}

fn digit_value_exec(c: char) -> (d: u64)
    ensures
        d == digit_val(c),
        d < 10,
{
    if c == '0' {
        0
    } else if c == '1' {
        1
    } else if c == '2' {
        2
    } else if c == '3' {
        3
    } else if c == '4' {
        4
    } else if c == '5' {
        5
    } else if c == '6' {
        6
    } else if c == '7' {
        7
    } else if c == '8' {
        8
    } else if c == '9' {
        9
    } else {
        0
    }
}

} // verus!
