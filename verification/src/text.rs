//! Character-level text model shared by every module: searching, trimming,
//! case folding and decimal rendering, stated over `Seq<char>`.
use vstd::prelude::*;

verus! {

// ───────────────────────── searching ─────────────────────────

/// `pat` occurs in `s` starting at index `i`.
pub open spec fn matches_at(s: Seq<char>, pat: Seq<char>, i: int) -> bool {
    0 <= i && i + pat.len() <= s.len() && s.subrange(i, i + pat.len()) == pat
}

/// `i` is the first occurrence of `pat` in `s` at or after `from`.
pub open spec fn first_match(s: Seq<char>, pat: Seq<char>, from: int, i: int) -> bool {
    &&& from <= i
    &&& matches_at(s, pat, i)
    &&& forall|j: int| from <= j < i ==> !matches_at(s, pat, j)
}

/// The first occurrence of `pat` in `s` at or after `from`, if there is one.
pub open spec fn find_from(s: Seq<char>, pat: Seq<char>, from: int) -> Option<int> {
    if exists|i: int| first_match(s, pat, from, i) {
        Some(choose|i: int| first_match(s, pat, from, i))
    } else {
        None
    }
}

/// `s` contains `pat` somewhere.
pub open spec fn contains(s: Seq<char>, pat: Seq<char>) -> bool {
    exists|i: int| matches_at(s, pat, i)
}

/// `s` begins with `p`.
pub open spec fn starts_with(s: Seq<char>, p: Seq<char>) -> bool {
    p.len() <= s.len() && s.subrange(0, p.len() as int) == p
}

/// `s` ends with `p`.
pub open spec fn ends_with(s: Seq<char>, p: Seq<char>) -> bool {
    p.len() <= s.len() && s.subrange(s.len() - p.len(), s.len() as int) == p
}

pub proof fn lemma_first_match_unique(s: Seq<char>, pat: Seq<char>, from: int, i: int, k: int)
    requires
        first_match(s, pat, from, i),
        first_match(s, pat, from, k),
    ensures
        i == k,
{
    if i < k {
        assert(!matches_at(s, pat, i));
    } else if k < i {
        assert(!matches_at(s, pat, k));
    }
}

pub proof fn lemma_find_some(s: Seq<char>, pat: Seq<char>, from: int, i: int)
    requires
        first_match(s, pat, from, i),
    ensures
        find_from(s, pat, from) == Some(i),
{
    let k = choose|k: int| first_match(s, pat, from, k);
    lemma_first_match_unique(s, pat, from, i, k);
}

pub proof fn lemma_find_none(s: Seq<char>, pat: Seq<char>, from: int)
    requires
        forall|j: int| from <= j ==> !matches_at(s, pat, j),
    ensures
        find_from(s, pat, from) is None,
{
}

pub proof fn lemma_find_from_facts(s: Seq<char>, pat: Seq<char>, from: int)
    ensures
        find_from(s, pat, from) matches Some(i) ==> first_match(s, pat, from, i),
{
}

pub proof fn lemma_exists_first(s: Seq<char>, pat: Seq<char>, from: int, j: int)
    requires
        from <= j,
        matches_at(s, pat, j),
    ensures
        exists|i: int| first_match(s, pat, from, i),
    decreases j - from,
{
    if from == j {
        assert(first_match(s, pat, from, j));
    } else if matches_at(s, pat, from) {
        assert(first_match(s, pat, from, from));
    } else {
        let f1 = from + 1;
        lemma_exists_first(s, pat, f1, j);
        let i = choose|i: int| first_match(s, pat, f1, i);
        assert(first_match(s, pat, from, i));
    }
}

/// No occurrence at or after `from` exactly when the search finds none.
pub proof fn lemma_find_none_all(s: Seq<char>, pat: Seq<char>, from: int)
    ensures
        find_from(s, pat, from) is None <==> forall|j: int| from <= j ==> !matches_at(s, pat, j),
{
    if find_from(s, pat, from) is None {
        assert forall|j: int| from <= j implies !matches_at(s, pat, j) by {
            if matches_at(s, pat, j) {
                lemma_exists_first(s, pat, from, j);
            }
        }
    } else {
        lemma_find_from_facts(s, pat, from);
    }
}

/// A search that starts in a stretch without occurrences finds what a search
/// from the end of the stretch finds.
pub proof fn lemma_find_skip(s: Seq<char>, pat: Seq<char>, a: int, b: int)
    requires
        a <= b,
        forall|j: int| a <= j < b ==> !matches_at(s, pat, j),
    ensures
        find_from(s, pat, a) == find_from(s, pat, b),
{
    lemma_find_from_facts(s, pat, a);
    lemma_find_from_facts(s, pat, b);
    lemma_find_none_all(s, pat, a);
    lemma_find_none_all(s, pat, b);
    if let Some(i) = find_from(s, pat, b) {
        assert(first_match(s, pat, a, i));
        lemma_find_some(s, pat, a, i);
    } else if let Some(i) = find_from(s, pat, a) {
        assert(first_match(s, pat, b, i));
        lemma_find_some(s, pat, b, i);
    }
}

/// Searching `p + q` past `p` is searching `q`.
pub proof fn lemma_find_shift(p: Seq<char>, q: Seq<char>, pat: Seq<char>, k: int)
    requires
        k >= 0,
    ensures
        find_from(p + q, pat, p.len() + k) == (match find_from(q, pat, k) {
            Some(i) => Some(i + p.len()),
            None => None,
        }),
{
    let t = p + q;
    assert forall|j: int| j >= 0 implies matches_at(t, pat, p.len() + j) == matches_at(q, pat, j) by {
        if j + pat.len() <= q.len() {
            assert(t.subrange(p.len() + j, p.len() + j + pat.len()) =~= q.subrange(j, j + pat.len()));
        }
    }
    lemma_find_from_facts(q, pat, k);
    lemma_find_none_all(q, pat, k);
    lemma_find_none_all(t, pat, p.len() + k);
    if let Some(i) = find_from(q, pat, k) {
        assert forall|j: int| p.len() + k <= j < i + p.len() implies !matches_at(t, pat, j) by {
            assert(matches_at(t, pat, p.len() + (j - p.len())) == matches_at(q, pat, j - p.len()));
        }
        assert(matches_at(t, pat, p.len() + i));
        assert(first_match(t, pat, p.len() + k, i + p.len()));
        lemma_find_some(t, pat, p.len() + k, i + p.len());
    } else {
        assert forall|j: int| p.len() + k <= j implies !matches_at(t, pat, j) by {
            assert(matches_at(t, pat, p.len() + (j - p.len())) == matches_at(q, pat, j - p.len()));
        }
    }
}

/// What a search for `pat` from `from` found, as an executable index.
pub open spec fn found(r: Option<usize>, s: Seq<char>, pat: Seq<char>, from: int) -> bool {
    match r {
        Some(i) => find_from(s, pat, from) == Some(i as int),
        None => find_from(s, pat, from) is None,
    }
}

/// Whether `pat` occurs in `s` at `i` (executable).
pub fn match_at(s: &Vec<char>, pat: &Vec<char>, i: usize) -> (r: bool)
    ensures
        r == matches_at(s@, pat@, i as int),
{
    if i > s.len() || pat.len() > s.len() - i {
        return false;
    }
    let mut k: usize = 0;
    while k < pat.len()
        invariant
            k <= pat.len(),
            i + pat.len() <= s.len(),
            forall|m: int| 0 <= m < k ==> s@[i + m] == pat@[m],
        decreases pat.len() - k,
    {
        if s[i + k] != pat[k] {
            assert(s@.subrange(i as int, i + pat.len())[k as int] != pat@[k as int]);
            return false;
        }
        k += 1;
    }
    assert(s@.subrange(i as int, i + pat.len()) =~= pat@);
    true
}

/// The first occurrence of `pat` in `s` at or after `from`.
pub fn find_chars(s: &Vec<char>, pat: &Vec<char>, from: usize) -> (r: Option<usize>)
    ensures
        found(r, s@, pat@, from as int),
{
    if from > s.len() {
        proof {
            lemma_find_none(s@, pat@, from as int);
        }
        return None;
    }
    let mut i = from;
    while i < s.len()
        invariant
            from <= i <= s.len(),
            forall|j: int| from <= j < i ==> !matches_at(s@, pat@, j),
        decreases s.len() - i,
    {
        if match_at(s, pat, i) {
            proof {
                lemma_find_some(s@, pat@, from as int, i as int);
            }
            return Some(i);
        }
        i += 1;
    }
    if match_at(s, pat, i) {
        proof {
            lemma_find_some(s@, pat@, from as int, i as int);
        }
        return Some(i);
    }
    proof {
        assert forall|j: int| from <= j implies !matches_at(s@, pat@, j) by {
            if j > i {
                assert(j + pat@.len() > s@.len());
            }
        }
        lemma_find_none(s@, pat@, from as int);
    }
    None
}

/// The first occurrence of the character `c` in `s` at or after `from`.
pub fn find_char(s: &Vec<char>, c: char, from: usize) -> (r: Option<usize>)
    ensures
        found(r, s@, seq![c], from as int),
{
    let mut i = from;
    while i < s.len()
        invariant
            from <= i,
            forall|j: int| from <= j < i ==> !matches_at(s@, seq![c], j),
        decreases s.len() - i,
    {
        if s[i] == c {
            proof {
                assert(s@.subrange(i as int, i + 1) =~= seq![c]);
                lemma_find_some(s@, seq![c], from as int, i as int);
            }
            return Some(i);
        }
        proof {
            assert(s@.subrange(i as int, i + 1)[0] == s@[i as int]);
        }
        i += 1;
    }
    proof {
        lemma_find_none(s@, seq![c], from as int);
    }
    None
}

/// Whether the slice `s[lo..hi]` begins with `p`.
pub fn range_starts_with(s: &Vec<char>, lo: usize, hi: usize, p: &Vec<char>) -> (r: bool)
    requires
        lo <= hi <= s.len(),
    ensures
        r == starts_with(s@.subrange(lo as int, hi as int), p@),
{
    if p.len() > hi - lo {
        return false;
    }
    let r = match_at(s, p, lo);
    proof {
        assert(s@.subrange(lo as int, hi as int).subrange(0, p@.len() as int) =~= s@.subrange(
            lo as int,
            lo + p@.len(),
        ));
    }
    r
}

// ───────────────────────── replacing ─────────────────────────

/// `s[pos..]` with every non-overlapping occurrence of `pat` (taken left to
/// right) replaced by `rep`: what `str::replace` does for a non-empty pattern.
pub open spec fn replace_from(s: Seq<char>, pat: Seq<char>, rep: Seq<char>, pos: int) -> Seq<char>
    decreases s.len() - pos,
{
    if pos < 0 || pos > s.len() || pat.len() == 0 {
        s.subrange(pos, s.len() as int)
    } else {
        match find_from(s, pat, pos) {
            None => s.subrange(pos, s.len() as int),
            Some(i) => {
                proof {
                    lemma_find_from_facts(s, pat, pos);
                }
                s.subrange(pos, i) + rep + replace_from(s, pat, rep, i + pat.len())
            },
        }
    }
}

/// `str::replace(s, pat, rep)` for a non-empty `pat`.
pub open spec fn replace_all(s: Seq<char>, pat: Seq<char>, rep: Seq<char>) -> Seq<char> {
    replace_from(s, pat, rep, 0)
}

/// Replaces every occurrence of `pat` in `s` by `rep`.
pub fn replace_text(s: &Vec<char>, pat: &Vec<char>, rep: &str) -> (r: String)
    requires
        pat.len() > 0,
    ensures
        r@ == replace_all(s@, pat@, rep@),
{
    let mut out = String::new();
    let mut pos: usize = 0;
    while pos <= s.len()
        invariant
            pos <= s.len(),
            pat.len() > 0,
            out@ + replace_from(s@, pat@, rep@, pos as int) == replace_all(s@, pat@, rep@),
        decreases s.len() - pos,
    {
        match find_chars(s, pat, pos) {
            None => {
                push_range(&mut out, s, pos, s.len());
                return out;
            },
            Some(i) => {
                proof {
                    lemma_find_from_facts(s@, pat@, pos as int);
                }
                push_range(&mut out, s, pos, i);
                out.append(rep);
                pos = i + pat.len();
            },
        }
    }
    out
}

// ───────────────────────── characters ─────────────────────────

/// Unicode `White_Space`, the set `char::is_whitespace` tests.
pub open spec fn is_ws(c: char) -> bool {
    ||| c == ' ' || c == '\t' || c == '\n' || c == '\r'
    ||| c == '\u{0B}' || c == '\u{0C}'
    ||| c == '\u{85}' || c == '\u{A0}' || c == '\u{1680}'
    ||| ('\u{2000}' <= c && c <= '\u{200A}')
    ||| c == '\u{2028}' || c == '\u{2029}' || c == '\u{202F}' || c == '\u{205F}'
    ||| c == '\u{3000}'
}

pub fn is_whitespace(c: char) -> (r: bool)
    ensures
        r == is_ws(c),
{
    c == ' ' || c == '\t' || c == '\n' || c == '\r' || c == '\u{0B}' || c == '\u{0C}' || c
        == '\u{85}' || c == '\u{A0}' || c == '\u{1680}' || ('\u{2000}' <= c && c <= '\u{200A}')
        || c == '\u{2028}' || c == '\u{2029}' || c == '\u{202F}' || c == '\u{205F}' || c
        == '\u{3000}'
}

pub open spec fn ascii_lower(c: char) -> char {
    if 'A' <= c && c <= 'Z' {
        ((c as u32) + 32) as char
    } else {
        c
    }
}

pub fn to_ascii_lower(c: char) -> (r: char)
    ensures
        r == ascii_lower(c),
{
    if 'A' <= c && c <= 'Z' {
        let b: u8 = (c as u8) + 32;
        b as char
    } else {
        c
    }
}

pub open spec fn is_ascii_alnum(c: char) -> bool {
    ('a' <= c && c <= 'z') || ('A' <= c && c <= 'Z') || ('0' <= c && c <= '9')
}

pub open spec fn lower_seq(s: Seq<char>) -> Seq<char> {
    s.map_values(|c: char| ascii_lower(c))
}

/// ASCII case-insensitive equality, as `str::eq_ignore_ascii_case`.
pub open spec fn eq_ignore_case(a: Seq<char>, b: Seq<char>) -> bool {
    a.len() == b.len() && lower_seq(a) == lower_seq(b)
}

/// Whether `s[lo..hi]` equals `lit` ignoring ASCII case.
pub fn range_eq_ignore_case(s: &Vec<char>, lo: usize, hi: usize, lit: &Vec<char>) -> (r: bool)
    requires
        lo <= hi <= s.len(),
    ensures
        r == eq_ignore_case(s@.subrange(lo as int, hi as int), lit@),
{
    let ghost a = s@.subrange(lo as int, hi as int);
    if hi - lo != lit.len() {
        return false;
    }
    let mut k: usize = 0;
    while k < lit.len()
        invariant
            k <= lit.len(),
            hi - lo == lit.len(),
            lo <= hi <= s.len(),
            a == s@.subrange(lo as int, hi as int),
            forall|m: int| 0 <= m < k ==> ascii_lower(a[m]) == ascii_lower(lit@[m]),
        decreases lit.len() - k,
    {
        if to_ascii_lower(s[lo + k]) != to_ascii_lower(lit[k]) {
            assert(lower_seq(a)[k as int] != lower_seq(lit@)[k as int]);
            return false;
        }
        k += 1;
    }
    assert(lower_seq(a) =~= lower_seq(lit@));
    true
}

/// Character-wise equality of `s[lo..hi]` and `lit`.
pub fn range_eq(s: &Vec<char>, lo: usize, hi: usize, lit: &Vec<char>) -> (r: bool)
    requires
        lo <= hi <= s.len(),
    ensures
        r == (s@.subrange(lo as int, hi as int) == lit@),
{
    if hi - lo != lit.len() {
        return false;
    }
    let r = match_at(s, lit, lo);
    r
}

/// Equality of two string slices.
pub fn str_eq(a: &str, b: &str) -> (r: bool)
    ensures
        r == (a@ == b@),
{
    let x = chars_of(a);
    let y = chars_of(b);
    assert(x@.subrange(0, x@.len() as int) =~= x@);
    range_eq(&x, 0, x.len(), &y)
}

// ───────────────────────── trimming ─────────────────────────

/// A set of characters that a trim removes.
#[derive(Clone, Copy)]
pub enum TrimSet {
    Whitespace,
    Char(char),
}

pub open spec fn in_set(set: TrimSet, c: char) -> bool {
    match set {
        TrimSet::Whitespace => is_ws(c),
        TrimSet::Char(d) => c == d,
    }
}

pub fn in_set_exec(set: TrimSet, c: char) -> (r: bool)
    ensures
        r == in_set(set, c),
{
    match set {
        TrimSet::Whitespace => is_whitespace(c),
        TrimSet::Char(d) => c == d,
    }
}

/// `s` with leading characters of `set` removed.
pub open spec fn trim_start_by(s: Seq<char>, set: TrimSet) -> Seq<char>
    decreases s.len(),
{
    if s.len() > 0 && in_set(set, s[0]) {
        trim_start_by(s.drop_first(), set)
    } else {
        s
    }
}

/// `s` with trailing characters of `set` removed.
pub open spec fn trim_end_by(s: Seq<char>, set: TrimSet) -> Seq<char>
    decreases s.len(),
{
    if s.len() > 0 && in_set(set, s.last()) {
        trim_end_by(s.drop_last(), set)
    } else {
        s
    }
}

/// `s` with characters of `set` removed from both ends.
pub open spec fn trim_by(s: Seq<char>, set: TrimSet) -> Seq<char> {
    trim_end_by(trim_start_by(s, set), set)
}

/// `str::trim`.
pub open spec fn trim(s: Seq<char>) -> Seq<char> {
    trim_by(s, TrimSet::Whitespace)
}

/// `str::trim_start`.
pub open spec fn trim_start(s: Seq<char>) -> Seq<char> {
    trim_start_by(s, TrimSet::Whitespace)
}

/// `str::trim_end`.
pub open spec fn trim_end(s: Seq<char>) -> Seq<char> {
    trim_end_by(s, TrimSet::Whitespace)
}

pub proof fn lemma_trim_start_len(s: Seq<char>)
    ensures
        trim_start(s).len() <= s.len(),
        trim_start(s) == s.subrange(s.len() - trim_start(s).len(), s.len() as int),
    decreases s.len(),
{
    assert(s.subrange(0, s.len() as int) =~= s);
    if s.len() > 0 && is_ws(s[0]) {
        lemma_trim_start_len(s.drop_first());
        let t = trim_start(s.drop_first());
        assert(s.drop_first().subrange(s.len() - 1 - t.len(), s.len() - 1) =~= s.subrange(
            s.len() - t.len(),
            s.len() as int,
        ));
    }
}

pub proof fn lemma_trim_by_len(s: Seq<char>, set: TrimSet)
    ensures
        trim_start_by(s, set).len() <= s.len(),
        trim_end_by(s, set).len() <= s.len(),
        trim_by(s, set).len() <= s.len(),
    decreases s.len(),
{
    if s.len() > 0 {
        lemma_trim_by_len(s.drop_first(), set);
        lemma_trim_by_len(s.drop_last(), set);
    }
    lemma_trim_end_len(trim_start_by(s, set), set);
}

proof fn lemma_trim_end_len(s: Seq<char>, set: TrimSet)
    ensures
        trim_end_by(s, set).len() <= s.len(),
    decreases s.len(),
{
    if s.len() > 0 {
        lemma_trim_end_len(s.drop_last(), set);
    }
}

/// The start of `s[lo..hi]` once leading characters of `set` are dropped.
pub fn trim_start_index(s: &Vec<char>, lo: usize, hi: usize, set: TrimSet) -> (a: usize)
    requires
        lo <= hi <= s.len(),
    ensures
        lo <= a <= hi,
        s@.subrange(a as int, hi as int) == trim_start_by(s@.subrange(lo as int, hi as int), set),
{
    let mut a = lo;
    while a < hi && in_set_exec(set, s[a])
        invariant
            lo <= a <= hi <= s.len(),
            trim_start_by(s@.subrange(a as int, hi as int), set) == trim_start_by(
                s@.subrange(lo as int, hi as int),
                set,
            ),
        decreases hi - a,
    {
        assert(s@.subrange(a as int, hi as int).drop_first() =~= s@.subrange(a + 1, hi as int));
        a += 1;
    }
    a
}

/// The end of `s[lo..hi]` once trailing characters of `set` are dropped.
pub fn trim_end_index(s: &Vec<char>, lo: usize, hi: usize, set: TrimSet) -> (b: usize)
    requires
        lo <= hi <= s.len(),
    ensures
        lo <= b <= hi,
        s@.subrange(lo as int, b as int) == trim_end_by(s@.subrange(lo as int, hi as int), set),
{
    let mut b = hi;
    while b > lo && in_set_exec(set, s[b - 1])
        invariant
            lo <= b <= hi <= s.len(),
            trim_end_by(s@.subrange(lo as int, b as int), set) == trim_end_by(
                s@.subrange(lo as int, hi as int),
                set,
            ),
        decreases b - lo,
    {
        assert(s@.subrange(lo as int, b as int).drop_last() =~= s@.subrange(lo as int, b - 1));
        b -= 1;
    }
    b
}

/// The bounds of `s[lo..hi]` trimmed of `set` at both ends.
pub fn trim_bounds(s: &Vec<char>, lo: usize, hi: usize, set: TrimSet) -> (r: (usize, usize))
    requires
        lo <= hi <= s.len(),
    ensures
        lo <= r.0 <= r.1 <= hi,
        s@.subrange(r.0 as int, r.1 as int) == trim_by(s@.subrange(lo as int, hi as int), set),
{
    let a = trim_start_index(s, lo, hi, set);
    let b = trim_end_index(s, a, hi, set);
    (a, b)
}

/// The bounds of `s[lo..hi]` trimmed of whitespace.
pub fn trim_ws(s: &Vec<char>, lo: usize, hi: usize) -> (r: (usize, usize))
    requires
        lo <= hi <= s.len(),
    ensures
        lo <= r.0 <= r.1 <= hi,
        s@.subrange(r.0 as int, r.1 as int) == trim(s@.subrange(lo as int, hi as int)),
{
    trim_bounds(s, lo, hi, TrimSet::Whitespace)
}

// ───────────────────────── building text ─────────────────────────

/// The characters of `s`, in order.
pub fn chars_of(s: &str) -> (r: Vec<char>)
    ensures
        r@ == s@,
{
    let mut r: Vec<char> = Vec::new();
    for c in it: s.chars()
        invariant
            r@ == it.seq().take(it.index() as int),
    {
        r.push(c);
    }
    r
}

/// Appends one character to a `String`, as `String::push` does.
#[verifier::external_body]
pub(crate) fn push_char(s: &mut String, c: char)
    ensures
        final(s)@ == old(s)@.push(c),
{
    s.push(c);
}

/// Appends `s[lo..hi]` to `out`.
pub fn push_range(out: &mut String, s: &Vec<char>, lo: usize, hi: usize)
    requires
        lo <= hi <= s.len(),
    ensures
        final(out)@ == old(out)@ + s@.subrange(lo as int, hi as int),
{
    let mut i = lo;
    while i < hi
        invariant
            lo <= i <= hi <= s.len(),
            out@ == old(out)@ + s@.subrange(lo as int, i as int),
        decreases hi - i,
    {
        push_char(out, s[i]);
        assert(s@.subrange(lo as int, i + 1) =~= s@.subrange(lo as int, i as int).push(s@[i as int]));
        i += 1;
    }
}

/// The text of `s[lo..hi]` as a new `String`.
pub fn string_of_range(s: &Vec<char>, lo: usize, hi: usize) -> (r: String)
    requires
        lo <= hi <= s.len(),
    ensures
        r@ == s@.subrange(lo as int, hi as int),
{
    let mut r = String::new();
    push_range(&mut r, s, lo, hi);
    r
}

// ───────────────────────── Unicode case mapping ─────────────────────────

/// What `str::to_uppercase` returns for `s`: its Unicode uppercase.
pub uninterp spec fn unicode_upper(s: Seq<char>) -> Seq<char>;

/// What `str::to_lowercase` returns for `s`: its Unicode lowercase.
pub uninterp spec fn unicode_lower(s: Seq<char>) -> Seq<char>;

/// Calls std's `str::to_uppercase`; claimed of it only that the result is the
/// named Unicode uppercase of `s`, a function of `s` alone.
#[verifier::external_body]
pub(crate) fn str_to_uppercase(s: &str) -> (r: String)
    ensures
        r@ == unicode_upper(s@),
{
    s.to_uppercase()
}

/// Calls std's `str::to_lowercase`; claimed of it only that the result is the
/// named Unicode lowercase of `s`, a function of `s` alone.
#[verifier::external_body]
pub(crate) fn str_to_lowercase(s: &str) -> (r: String)
    ensures
        r@ == unicode_lower(s@),
{
    s.to_lowercase()
}

// ───────────────────────── numbers ─────────────────────────

pub open spec fn digit_char(d: nat) -> char {
    ((d % 10) + 48) as char
}

/// The decimal rendering of `n`, without sign or leading zeros.
pub open spec fn decimal(n: nat) -> Seq<char>
    decreases n,
{
    if n < 10 {
        seq![digit_char(n)]
    } else {
        decimal(n / 10).push(digit_char(n % 10))
    }
}

/// `format!("{}", n)` for an unsigned integer.
pub fn u64_to_text(n: u64) -> (r: String)
    ensures
        r@ == decimal(n as nat),
    decreases n,
{
    if n < 10 {
        let mut r = String::new();
        let b: u8 = (n as u8) + 48;
        push_char(&mut r, b as char);
        r
    } else {
        let mut r = u64_to_text(n / 10);
        let b: u8 = ((n % 10) as u8) + 48;
        push_char(&mut r, b as char);
        r
    }
}

/// The text `true` or `false`, as `format!("{}", b)` writes it.
pub open spec fn bool_text(b: bool) -> Seq<char> {
    if b {
        seq!['t', 'r', 'u', 'e']
    } else {
        seq!['f', 'a', 'l', 's', 'e']
    }
}

pub fn push_bool(out: &mut String, b: bool)
    ensures
        final(out)@ == old(out)@ + bool_text(b),
{
    if b {
        push_char(out, 't');
        push_char(out, 'r');
        push_char(out, 'u');
        push_char(out, 'e');
    } else {
        push_char(out, 'f');
        push_char(out, 'a');
        push_char(out, 'l');
        push_char(out, 's');
        push_char(out, 'e');
    }
    assert(final(out)@ =~= old(out)@ + bool_text(b));
}

} // verus!
