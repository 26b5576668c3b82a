//! The dbt preprocessing pipeline, run before scanning and macro expansion:
//! raw regions, `{% if is_incremental() %}` blocks, `{{ this }}`,
//! `var('name')` and the `dbt_utils.*` builtins.
use vstd::prelude::*;
use vstd::utf8::{decode_utf8, encode_utf8, valid_utf8};

use crate::codec::{b64_decode, b64_decoded, b64_encode, b64_encoded, is_b64_char, string_from_utf8};
use crate::text::{
    lemma_find_none_all, lemma_find_shift, lemma_find_skip, lemma_find_some, first_match,
    matches_at, chars_of, eq_ignore_case, find_char, find_chars, find_from, is_whitespace, is_ws,
    lemma_find_from_facts, push_char, push_range, range_eq_ignore_case, trim, trim_bounds, trim_by,
    trim_ws, TrimSet, trim_start, trim_start_index, replace_all, replace_text,
    lemma_trim_start_len, starts_with, range_starts_with, str_to_uppercase, unicode_upper,
    string_of_range, contains,
};
use crate::strmap::{keys_of, lookup, StrMap};

verus! {

// ───────────────────────── tags ─────────────────────────

/// The `{% ... %}` tags the pipeline recognises.
#[derive(Clone, Copy, PartialEq, Eq, Debug)]
pub enum TagKind {
    IfIsIncremental,
    EndIf,
    Raw,
    EndRaw,
}

/// A tag's words with all whitespace removed, compared ignoring ASCII case.
pub open spec fn tag_word(kind: TagKind) -> Seq<char> {
    match kind {
        TagKind::IfIsIncremental => "ifis_incremental()"@,
        TagKind::EndIf => "endif"@,
        TagKind::Raw => "raw"@,
        TagKind::EndRaw => "endraw"@,
    }
}

fn tag_word_chars(kind: TagKind) -> (r: Vec<char>)
    ensures
        r@ == tag_word(kind),
{
    match kind {
        TagKind::IfIsIncremental => chars_of("ifis_incremental()"),
        TagKind::EndIf => chars_of("endif"),
        TagKind::Raw => chars_of("raw"),
        TagKind::EndRaw => chars_of("endraw"),
    }
}

/// `s` with every whitespace character removed.
pub open spec fn squash(s: Seq<char>) -> Seq<char>
    decreases s.len(),
{
    if s.len() == 0 {
        s
    } else if is_ws(s.last()) {
        squash(s.drop_last())
    } else {
        squash(s.drop_last()).push(s.last())
    }
}

/// Whether a tag's inner text denotes `kind`: trimmed, with Jinja's `-`
/// whitespace-control markers stripped, all whitespace removed, and compared
/// ignoring ASCII case.
pub open spec fn tag_matches(inner: Seq<char>, kind: TagKind) -> bool {
    eq_ignore_case(squash(trim_by(trim(inner), TrimSet::Char('-'))), tag_word(kind))
}

pub open spec fn open_delim() -> Seq<char> {
    seq!['{', '%']
}

pub open spec fn close_delim() -> Seq<char> {
    seq!['%', '}']
}

/// The first `{% ... %}` tag of `kind` in `s` at or after `from`: the index of
/// its `{%` and the index just past its `%}`. Each `%}` is looked for after
/// its `{%`, and a tag of another kind is stepped over whole.
pub open spec fn split_tag_from(s: Seq<char>, kind: TagKind, from: int) -> Option<(int, int)>
    decreases s.len() - from,
{
    if from < 0 || from > s.len() {
        None
    } else {
        match find_from(s, open_delim(), from) {
            None => None,
            Some(o) => match find_from(s, close_delim(), o + 2) {
                None => None,
                Some(c) => {
                    proof {
                        lemma_find_from_facts(s, open_delim(), from);
                        lemma_find_from_facts(s, close_delim(), o + 2);
                    }
                    if tag_matches(s.subrange(o + 2, c), kind) {
                        Some((o, c + 2))
                    } else {
                        split_tag_from(s, kind, c + 2)
                    }
                },
            },
        }
    }
}

pub proof fn lemma_split_tag_bounds(s: Seq<char>, kind: TagKind, from: int)
    ensures
        split_tag_from(s, kind, from) matches Some((o, c)) ==> from <= o && o + 4 <= c <= s.len(),
    decreases s.len() - from,
{
    if 0 <= from <= s.len() {
        lemma_find_from_facts(s, open_delim(), from);
        if let Some(o) = find_from(s, open_delim(), from) {
            lemma_find_from_facts(s, close_delim(), o + 2);
            if let Some(c) = find_from(s, close_delim(), o + 2) {
                if !tag_matches(s.subrange(o + 2, c), kind) {
                    lemma_split_tag_bounds(s, kind, c + 2);
                }
            }
        }
    }
}

fn squash_range(s: &Vec<char>, lo: usize, hi: usize) -> (r: Vec<char>)
    requires
        lo <= hi <= s.len(),
    ensures
        r@ == squash(s@.subrange(lo as int, hi as int)),
{
    let mut r: Vec<char> = Vec::new();
    let mut i = lo;
    assert(s@.subrange(lo as int, lo as int) =~= Seq::<char>::empty());
    while i < hi
        invariant
            lo <= i <= hi <= s.len(),
            r@ == squash(s@.subrange(lo as int, i as int)),
        decreases hi - i,
    {
        assert(s@.subrange(lo as int, i + 1).drop_last() =~= s@.subrange(lo as int, i as int));
        if !is_whitespace(s[i]) {
            r.push(s[i]);
        }
        i += 1;
    }
    r
}

/// Whether `s[lo..hi]`, the inside of a tag, denotes `kind`.
fn tag_matches_range(s: &Vec<char>, lo: usize, hi: usize, kind: TagKind) -> (r: bool)
    requires
        lo <= hi <= s.len(),
    ensures
        r == tag_matches(s@.subrange(lo as int, hi as int), kind),
{
    let (a, b) = trim_ws(s, lo, hi);
    let (a2, b2) = trim_bounds(s, a, b, TrimSet::Char('-'));
    let sq = squash_range(s, a2, b2);
    let word = tag_word_chars(kind);
    assert(sq@.subrange(0, sq@.len() as int) =~= sq@);
    range_eq_ignore_case(&sq, 0, sq.len(), &word)
}

/// Finds the first tag of `kind` at or after `from`.
fn split_at_tag(s: &Vec<char>, from: usize, kind: TagKind) -> (r: Option<(usize, usize)>)
    requires
        from <= s.len(),
    ensures
        r matches Some((o, c)) ==> split_tag_from(s@, kind, from as int) == Some((o as int, c as int)),
        r is None ==> split_tag_from(s@, kind, from as int) is None,
{
    let open = vec!['{', '%'];
    let close = vec!['%', '}'];
    assert(open@ =~= open_delim());
    assert(close@ =~= close_delim());
    let mut cur = from;
    loop
        invariant
            cur <= s.len(),
            open@ == open_delim(),
            close@ == close_delim(),
            split_tag_from(s@, kind, cur as int) == split_tag_from(s@, kind, from as int),
        decreases s.len() - cur,
    {
        proof {
            lemma_find_from_facts(s@, open_delim(), cur as int);
        }
        match find_chars(s, &open, cur) {
            None => {
                return None;
            },
            Some(o) => {
                proof {
                    lemma_find_from_facts(s@, close_delim(), o + 2);
                }
                match find_chars(s, &close, o + 2) {
                    None => {
                        return None;
                    },
                    Some(c) => {
                        if tag_matches_range(s, o + 2, c, kind) {
                            return Some((o, c + 2));
                        }
                        cur = c + 2;
                    },
                }
            },
        }
    }
}

// ───────────────────────── `{% if is_incremental() %}` ─────────────────────────

/// `s[pos..]` with each `{% if is_incremental() %}…{% endif %}` block replaced
/// by its body when `keep` holds and removed when it does not. An opener
/// without a closer leaves the rest of the text as it was.
pub open spec fn incremental_from(s: Seq<char>, keep: bool, pos: int) -> Seq<char>
    decreases s.len() - pos,
{
    if pos < 0 || pos > s.len() {
        Seq::empty()
    } else {
        match split_tag_from(s, TagKind::IfIsIncremental, pos) {
            None => s.subrange(pos, s.len() as int),
            Some((o, c)) => {
                proof {
                    lemma_split_tag_bounds(s, TagKind::IfIsIncremental, pos);
                }
                match split_tag_from(s, TagKind::EndIf, c) {
                    None => s.subrange(pos, s.len() as int),
                    Some((o2, c2)) => {
                        proof {
                            lemma_split_tag_bounds(s, TagKind::EndIf, c);
                        }
                        s.subrange(pos, o) + (if keep {
                            s.subrange(c, o2)
                        } else {
                            Seq::empty()
                        }) + incremental_from(s, keep, c2)
                    },
                }
            },
        }
    }
}

/// Remove or retain `{% if is_incremental() %}…{% endif %}` blocks.
///
/// Matching is whitespace-tolerant and ignores ASCII case and Jinja's `-`
/// markers, so every natural spelling of the tags is recognised.
pub fn handle_incremental_blocks(sql: &str, keep: bool) -> (r: String)
    ensures
        r@ == incremental_from(sql@, keep, 0),
{
    let s = chars_of(sql);
    let mut result = String::new();
    let mut pos: usize = 0;
    loop
        invariant
            pos <= s.len(),
            s@ == sql@,
            result@ + incremental_from(s@, keep, pos as int) == incremental_from(s@, keep, 0),
        decreases s.len() - pos,
    {
        proof {
            lemma_split_tag_bounds(s@, TagKind::IfIsIncremental, pos as int);
        }
        match split_at_tag(&s, pos, TagKind::IfIsIncremental) {
            None => {
                push_range(&mut result, &s, pos, s.len());
                return result;
            },
            Some((o, c)) => {
                proof {
                    lemma_split_tag_bounds(s@, TagKind::EndIf, c as int);
                }
                match split_at_tag(&s, c, TagKind::EndIf) {
                    Some((o2, c2)) => {
                        let ghost before = result@;
                        push_range(&mut result, &s, pos, o);
                        if keep {
                            push_range(&mut result, &s, c, o2);
                        }
                        proof {
                            let body = if keep {
                                s@.subrange(c as int, o2 as int)
                            } else {
                                Seq::<char>::empty()
                            };
                            assert(result@ =~= before + s@.subrange(pos as int, o as int) + body);
                            assert(incremental_from(s@, keep, pos as int) == s@.subrange(
                                pos as int,
                                o as int,
                            ) + body + incremental_from(s@, keep, c2 as int));
                        }
                        pos = c2;
                    },
                    None => {
                        push_range(&mut result, &s, pos, s.len());
                        return result;
                    },
                }
            },
        }
    }
}

// ───────────────────────── raw regions ─────────────────────────

/// The marker that opens a protected raw region: NUL, then `RAW:`.
pub open spec fn raw_prefix() -> Seq<char> {
    seq!['\0', 'R', 'A', 'W', ':']
}

/// What stands in for a raw region's body while the pipeline runs: the
/// marker, the base64 of the body's UTF-8 bytes, and a closing NUL.
pub open spec fn sentinel(body: Seq<char>) -> Seq<char> {
    raw_prefix() + b64_encoded(encode_utf8(body)) + seq!['\0']
}

/// `s[pos..]` with each `{% raw %}…{% endraw %}` region replaced by
/// `sentinel(body)`; an unclosed raw block leaves the rest as it was.
pub open spec fn protect_from(s: Seq<char>, pos: int) -> Seq<char>
    decreases s.len() - pos,
{
    if pos < 0 || pos > s.len() {
        Seq::empty()
    } else {
        match split_tag_from(s, TagKind::Raw, pos) {
            None => s.subrange(pos, s.len() as int),
            Some((o, c)) => {
                proof {
                    lemma_split_tag_bounds(s, TagKind::Raw, pos);
                }
                match split_tag_from(s, TagKind::EndRaw, c) {
                    None => s.subrange(pos, s.len() as int),
                    Some((o2, c2)) => {
                        proof {
                            lemma_split_tag_bounds(s, TagKind::EndRaw, c);
                        }
                        s.subrange(pos, o) + sentinel(s.subrange(c, o2)) + protect_from(s, c2)
                    },
                }
            },
        }
    }
}

/// `s[pos..]` with each `{% raw %}…{% endraw %}` region replaced by its body,
/// markers gone: the text a raw region stands for.
pub open spec fn unraw_from(s: Seq<char>, pos: int) -> Seq<char>
    decreases s.len() - pos,
{
    if pos < 0 || pos > s.len() {
        Seq::empty()
    } else {
        match split_tag_from(s, TagKind::Raw, pos) {
            None => s.subrange(pos, s.len() as int),
            Some((o, c)) => {
                proof {
                    lemma_split_tag_bounds(s, TagKind::Raw, pos);
                }
                match split_tag_from(s, TagKind::EndRaw, c) {
                    None => s.subrange(pos, s.len() as int),
                    Some((o2, c2)) => {
                        proof {
                            lemma_split_tag_bounds(s, TagKind::EndRaw, c);
                        }
                        s.subrange(pos, o) + s.subrange(c, o2) + unraw_from(s, c2)
                    },
                }
            },
        }
    }
}

/// Unwrapping raw regions keeps text that has no raw tag, and text whose
/// first raw tag is never closed, exactly as written.
pub proof fn law_unraw_keeps_text_without_regions(s: Seq<char>)
    requires
        split_tag_from(s, TagKind::Raw, 0) is None || (split_tag_from(s, TagKind::Raw, 0) matches Some(
            (o, c),
        ) && split_tag_from(s, TagKind::EndRaw, c) is None),
    ensures
        unraw_from(s, 0) == s,
{
    assert(s.subrange(0, s.len() as int) =~= s);
}

pub open spec fn has_nul(s: Seq<char>) -> bool {
    exists|i: int| 0 <= i < s.len() && s[i] == '\0'
}

/// Errors of the preprocessing pipeline.
#[derive(Debug)]
pub enum PreprocessError {
    UnknownVar { name: String, available: String },
    UnsupportedInput { reason: String },
}

impl PreprocessError {
    /// The error's message.
    pub fn to_string(&self) -> (r: String)
        ensures
            r@ == self.message(),
    {
        match self {
            PreprocessError::UnknownVar { name, available } => {
                let mut r = String::new();
                r.append("unknown variable '");
                r.append(name.as_str());
                r.append("' — available vars: [");
                r.append(available.as_str());
                r.append("]");
                r
            },
            PreprocessError::UnsupportedInput { reason } => {
                let mut r = String::new();
                r.append("unsupported SQL: ");
                r.append(reason.as_str());
                r
            },
        }
    }

    pub open spec fn message(&self) -> Seq<char> {
        match self {
            PreprocessError::UnknownVar { name, available } => "unknown variable '"@ + name@
                + "' — available vars: ["@ + available@ + "]"@,
            PreprocessError::UnsupportedInput { reason } => "unsupported SQL: "@ + reason@,
        }
    }
}

proof fn lemma_utf8_len(s: Seq<char>)
    ensures
        encode_utf8(s).len() <= 4 * s.len(),
    decreases s.len(),
{
    if s.len() > 0 {
        lemma_utf8_len(s.drop_first());
    }
}

fn has_nul_char(s: &Vec<char>) -> (r: bool)
    ensures
        r == has_nul(s@),
{
    let mut i: usize = 0;
    while i < s.len()
        invariant
            i <= s.len(),
            forall|j: int| 0 <= j < i ==> s@[j] != '\0',
        decreases s.len() - i,
    {
        if s[i] == '\0' {
            return true;
        }
        i += 1;
    }
    false
}

/// Replace every `{% raw %}…{% endraw %}` region with an opaque sentinel, so
/// no later stage can mistake its contents for a template. Input holding a
/// NUL is rejected, since NUL delimits the sentinel.
pub fn protect_raw_regions(sql: &str) -> (r: Result<String, PreprocessError>)
    requires
        sql@.len() <= usize::MAX / 8,
    ensures
        has_nul(sql@) <==> r is Err,
        r matches Err(e) ==> e matches PreprocessError::UnsupportedInput { reason } && reason@
            == "SQL may not contain NUL bytes"@,
        r matches Ok(t) ==> t@ == protect_from(sql@, 0),
        r matches Ok(t) ==> restore_from(t@, 0) == unraw_from(sql@, 0),
{
    let s = chars_of(sql);
    if has_nul_char(&s) {
        return Err(
            PreprocessError::UnsupportedInput { reason: "SQL may not contain NUL bytes".to_owned() },
        );
    }
    let mut out = String::new();
    let mut pos: usize = 0;
    loop
        invariant
            pos <= s.len(),
            s@ == sql@,
            !has_nul(sql@),
            s@.len() <= usize::MAX / 8,
            out@ + protect_from(s@, pos as int) == protect_from(s@, 0),
            payloads_ok(s@, pos as int) ==> payloads_ok(s@, 0),
        decreases s.len() - pos,
    {
        proof {
            lemma_split_tag_bounds(s@, TagKind::Raw, pos as int);
        }
        match split_at_tag(&s, pos, TagKind::Raw) {
            None => {
                push_range(&mut out, &s, pos, s.len());
                proof {
                    lemma_restore_protect(s@, 0);
                }
                return Ok(out);
            },
            Some((o, c)) => {
                proof {
                    lemma_split_tag_bounds(s@, TagKind::EndRaw, c as int);
                }
                match split_at_tag(&s, c, TagKind::EndRaw) {
                    Some((o2, c2)) => {
                        let ghost before = out@;
                        push_range(&mut out, &s, pos, o);
                        let body = sql.substring_char(c, o2);
                        let bytes = body.as_bytes();
                        proof {
                            lemma_utf8_len(body@);
                        }
                        let enc = b64_encode(bytes);
                        push_char(&mut out, '\0');
                        push_char(&mut out, 'R');
                        push_char(&mut out, 'A');
                        push_char(&mut out, 'W');
                        push_char(&mut out, ':');
                        out.append(enc.as_str());
                        push_char(&mut out, '\0');
                        proof {
                            assert(out@ =~= before + s@.subrange(pos as int, o as int) + sentinel(
                                s@.subrange(c as int, o2 as int),
                            ));
                            let b = s@.subrange(c as int, o2 as int);
                            let bb = choose|x: Seq<u8>| enc@ == b64_encoded(x);
                            assert(enc@ == b64_encoded(encode_utf8(b)));
                            assert(bb == encode_utf8(b));
                            vstd::utf8::encode_utf8_valid_utf8(b);
                            vstd::utf8::encode_utf8_decode_utf8(b);
                            assert(region_ok(b));
                        }
                        pos = c2;
                    },
                    None => {
                        push_range(&mut out, &s, pos, s.len());
                        proof {
                            lemma_restore_protect(s@, 0);
                        }
                        return Ok(out);
                    },
                }
            },
        }
    }
}

/// The text a decoded payload stands for: the bytes it is the encoding of,
/// read as UTF-8, or empty when they are not valid UTF-8 or it decodes to
/// nothing.
pub open spec fn decoded_payload(p: Seq<char>) -> Seq<char> {
    if exists|b: Seq<u8>| p == b64_encoded(b) {
        utf8_text(choose|b: Seq<u8>| p == b64_encoded(b))
    } else {
        match b64_decoded(encode_utf8(p)) {
            Some(b) => utf8_text(b),
            None => Seq::empty(),
        }
    }
}

pub open spec fn utf8_text(b: Seq<u8>) -> Seq<char> {
    if valid_utf8(b) {
        decode_utf8(b)
    } else {
        Seq::empty()
    }
}

/// `t[pos..]` with each sentinel replaced by the text its payload decodes to.
/// A marker without its closing NUL is left as it is.
pub open spec fn restore_from(t: Seq<char>, pos: int) -> Seq<char>
    decreases t.len() - pos,
{
    if pos < 0 || pos > t.len() {
        Seq::empty()
    } else {
        match find_from(t, raw_prefix(), pos) {
            None => t.subrange(pos, t.len() as int),
            Some(st) => {
                proof {
                    lemma_find_from_facts(t, raw_prefix(), pos);
                    lemma_find_from_facts(t, seq!['\0'], st + 5);
                }
                match find_from(t, seq!['\0'], st + 5) {
                    None => t.subrange(pos, t.len() as int),
                    Some(e) => t.subrange(pos, st) + decoded_payload(t.subrange(st + 5, e))
                        + restore_from(t, e + 1),
                }
            },
        }
    }
}

/// A raw body whose sentinel carries it faithfully: its payload decodes back
/// to it and holds no NUL.
pub open spec fn region_ok(body: Seq<char>) -> bool {
    &&& decoded_payload(b64_encoded(encode_utf8(body))) == body
    &&& !has_nul(b64_encoded(encode_utf8(body)))
}

/// Every raw region of `s[pos..]` is carried faithfully by its sentinel.
pub open spec fn payloads_ok(s: Seq<char>, pos: int) -> bool
    decreases s.len() - pos,
{
    if pos < 0 || pos > s.len() {
        true
    } else {
        match split_tag_from(s, TagKind::Raw, pos) {
            None => true,
            Some((o, c)) => {
                proof {
                    lemma_split_tag_bounds(s, TagKind::Raw, pos);
                }
                match split_tag_from(s, TagKind::EndRaw, c) {
                    None => true,
                    Some((o2, c2)) => {
                        proof {
                            lemma_split_tag_bounds(s, TagKind::EndRaw, c);
                        }
                        region_ok(s.subrange(c, o2)) && payloads_ok(s, c2)
                    },
                }
            },
        }
    }
}

proof fn lemma_restore_shift(p: Seq<char>, q: Seq<char>, k: int)
    requires
        0 <= k <= q.len(),
    ensures
        restore_from(p + q, p.len() + k) == restore_from(q, k),
    decreases q.len() - k,
{
    let t = p + q;
    lemma_find_shift(p, q, raw_prefix(), k);
    lemma_find_from_facts(q, raw_prefix(), k);
    assert(t.subrange(p.len() + k, t.len() as int) =~= q.subrange(k, q.len() as int));
    if let Some(st) = find_from(q, raw_prefix(), k) {
        lemma_find_shift(p, q, seq!['\0'], st + 5);
        lemma_find_from_facts(q, seq!['\0'], st + 5);
        if let Some(e) = find_from(q, seq!['\0'], st + 5) {
            assert(t.subrange(p.len() + k, p.len() + st) =~= q.subrange(k, st));
            assert(t.subrange(p.len() + st + 5, p.len() + e) =~= q.subrange(st + 5, e));
            lemma_restore_shift(p, q, e + 1);
        }
    }
}

proof fn lemma_has_nul_sub(s: Seq<char>, a: int, b: int)
    requires
        !has_nul(s),
        0 <= a <= b <= s.len(),
    ensures
        !has_nul(s.subrange(a, b)),
{
    assert forall|i: int| 0 <= i < b - a implies s.subrange(a, b)[i] != '\0' by {
        assert(s.subrange(a, b)[i] == s[a + i]);
    }
}

/// Text without NUL passes through restoration unchanged.
proof fn lemma_restore_plain(x: Seq<char>, y: Seq<char>)
    requires
        !has_nul(x),
    ensures
        restore_from(x + y, 0) == x + restore_from(y, 0),
{
    let t = x + y;
    assert forall|j: int| 0 <= j < x.len() implies !matches_at(t, raw_prefix(), j) by {
        if matches_at(t, raw_prefix(), j) {
            assert(t.subrange(j, j + 5)[0] == t[j]);
        }
    }
    lemma_find_skip(t, raw_prefix(), 0, x.len() as int);
    lemma_find_shift(x, y, raw_prefix(), 0);
    lemma_find_from_facts(y, raw_prefix(), 0);
    assert(t.subrange(0, t.len() as int) =~= x + y.subrange(0, y.len() as int));
    if let Some(st) = find_from(y, raw_prefix(), 0) {
        lemma_find_shift(x, y, seq!['\0'], st + 5);
        lemma_find_from_facts(y, seq!['\0'], st + 5);
        if let Some(e) = find_from(y, seq!['\0'], st + 5) {
            assert(t.subrange(0, x.len() + st) =~= x + y.subrange(0, st));
            assert(t.subrange(x.len() + st + 5, x.len() + e) =~= y.subrange(st + 5, e));
            lemma_restore_shift(x, y, e + 1);
        }
    }
}

/// A sentinel restores to the body it stands for.
proof fn lemma_restore_sentinel(body: Seq<char>, rest: Seq<char>)
    requires
        region_ok(body),
    ensures
        restore_from(sentinel(body) + rest, 0) == body + restore_from(rest, 0),
{
    let enc = b64_encoded(encode_utf8(body));
    let head = sentinel(body);
    let t = head + rest;
    assert(t.subrange(0, 5) =~= raw_prefix());
    assert(first_match(t, raw_prefix(), 0, 0));
    lemma_find_some(t, raw_prefix(), 0, 0);
    let e: int = 5 + enc.len() as int;
    assert forall|j: int| 5 <= j < e implies !matches_at(t, seq!['\0'], j) by {
        if matches_at(t, seq!['\0'], j) {
            assert(t.subrange(j, j + 1)[0] == t[j]);
            assert(t[j] == enc[j - 5]);
        }
    }
    assert(t.subrange(e, e + 1) =~= seq!['\0']);
    assert(first_match(t, seq!['\0'], 5, e));
    lemma_find_some(t, seq!['\0'], 5, e);
    assert(t.subrange(5, e) =~= enc);
    assert(t.subrange(0, 0) =~= Seq::<char>::empty());
    lemma_restore_shift(head, rest, 0);
    assert(head.len() == e + 1);
}

/// Restoring protected text gives the text with raw regions unwrapped.
proof fn lemma_restore_protect(s: Seq<char>, pos: int)
    requires
        !has_nul(s),
        0 <= pos <= s.len(),
        payloads_ok(s, pos),
    ensures
        restore_from(protect_from(s, pos), 0) == unraw_from(s, pos),
    decreases s.len() - pos,
{
    lemma_split_tag_bounds(s, TagKind::Raw, pos);
    let whole = s.subrange(pos, s.len() as int);
    lemma_has_nul_sub(s, pos, s.len() as int);
    lemma_restore_plain(whole, Seq::empty());
    assert(whole + Seq::<char>::empty() =~= whole);
    assert(restore_from(Seq::<char>::empty(), 0) =~= Seq::<char>::empty());
    if let Some((o, c)) = split_tag_from(s, TagKind::Raw, pos) {
        lemma_split_tag_bounds(s, TagKind::EndRaw, c);
        if let Some((o2, c2)) = split_tag_from(s, TagKind::EndRaw, c) {
            let a = s.subrange(pos, o);
            let body = s.subrange(c, o2);
            let rest = protect_from(s, c2);
            lemma_has_nul_sub(s, pos, o);
            assert(protect_from(s, pos) =~= a + (sentinel(body) + rest));
            lemma_restore_plain(a, sentinel(body) + rest);
            lemma_restore_sentinel(body, rest);
            lemma_restore_protect(s, c2);
            assert(unraw_from(s, pos) =~= a + body + unraw_from(s, c2));
        }
    }
}

fn decode_payload(p: &str) -> (r: String)
    ensures
        r@ == decoded_payload(p@),
{
    let bytes = p.as_bytes();
    match b64_decode(bytes) {
        Some(v) => {
            let ghost vb = v@;
            match string_from_utf8(v) {
                Some(s) => s,
                None => String::new(),
            }
        },
        None => String::new(),
    }
}

/// Put the raw regions back, markers gone and contents exactly as written.
pub fn restore_raw_regions(text: &str) -> (r: String)
    ensures
        r@ == restore_from(text@, 0),
{
    let t = chars_of(text);
    let prefix = vec!['\0', 'R', 'A', 'W', ':'];
    assert(prefix@ =~= raw_prefix());
    let mut out = String::new();
    let mut pos: usize = 0;
    loop
        invariant
            pos <= t.len(),
            t@ == text@,
            prefix@ == raw_prefix(),
            out@ + restore_from(t@, pos as int) == restore_from(t@, 0),
        decreases t.len() - pos,
    {
        proof {
            lemma_find_from_facts(t@, raw_prefix(), pos as int);
        }
        match find_chars(&t, &prefix, pos) {
            None => {
                push_range(&mut out, &t, pos, t.len());
                return out;
            },
            Some(st) => {
                proof {
                    lemma_find_from_facts(t@, seq!['\0'], st + 5);
                }
                match find_char(&t, '\0', st + 5) {
                    None => {
                        push_range(&mut out, &t, pos, t.len());
                        return out;
                    },
                    Some(e) => {
                        let ghost before = out@;
                        push_range(&mut out, &t, pos, st);
                        let payload = text.substring_char(st + 5, e);
                        let dec = decode_payload(payload);
                        out.append(dec.as_str());
                        proof {
                            assert(out@ =~= before + t@.subrange(pos as int, st as int)
                                + decoded_payload(t@.subrange(st + 5, e as int)));
                        }
                        pos = e + 1;
                    },
                }
            },
        }
    }
}

} // verus!

verus! {

// ───────────────────────── whole-body raw ─────────────────────────

/// Whether the trimmed body is exactly one raw region: nothing but whitespace
/// before its opening tag, a closing tag, and nothing but whitespace after.
pub open spec fn entirely_raw(sql: Seq<char>) -> bool {
    let t = trim(sql);
    match split_tag_from(t, TagKind::Raw, 0) {
        None => false,
        Some((o, c)) => trim(t.subrange(0, o)).len() == 0 && match split_tag_from(
            t,
            TagKind::EndRaw,
            c,
        ) {
            Some((o2, c2)) => trim(t.subrange(c2, t.len() as int)).len() == 0,
            None => false,
        },
    }
}

/// Whether the entire body is one raw region.
///
/// A model that is entirely literal has no reason to be a dbt model, so this
/// shape can only be a mistake, and is detected so the error can say so.
pub fn is_entirely_raw(sql: &str) -> (r: bool)
    ensures
        r == entirely_raw(sql@),
{
    let s = chars_of(sql);
    let (a, b) = trim_ws(&s, 0, s.len());
    assert(s@.subrange(0, s@.len() as int) =~= sql@);
    let t = chars_of(sql.substring_char(a, b));
    proof {
        lemma_split_tag_bounds(t@, TagKind::Raw, 0);
    }
    match split_at_tag(&t, 0, TagKind::Raw) {
        None => false,
        Some((o, c)) => {
            let (x, y) = trim_ws(&t, 0, o);
            if x != y {
                return false;
            }
            proof {
                lemma_split_tag_bounds(t@, TagKind::EndRaw, c as int);
            }
            match split_at_tag(&t, c, TagKind::EndRaw) {
                Some((o2, c2)) => {
                    let (x2, y2) = trim_ws(&t, c2, t.len());
                    x2 == y2
                },
                None => false,
            }
        },
    }
}

// ───────────────────────── `{{ this }}` ─────────────────────────

/// `{{ this }}` and then `{{this}}` replaced by the table reference.
pub open spec fn this_replaced(sql: Seq<char>, table_ref: Seq<char>) -> Seq<char> {
    replace_all(
        replace_all(sql, "{{ this }}"@, table_ref),
        "{{this}}"@,
        table_ref,
    )
}

/// Replace `{{ this }}` (and `{{this}}`) with the backtick-quoted table reference.
pub fn replace_this(sql: &str, table_ref: &str) -> (r: String)
    ensures
        r@ == this_replaced(sql@, table_ref@),
{
    let s = chars_of(sql);
    let spaced = chars_of("{{ this }}");
    let tight = chars_of("{{this}}");
    proof {
        reveal_strlit("{{ this }}");
        reveal_strlit("{{this}}");
    }
    let step = replace_text(&s, &spaced, table_ref);
    let s2 = chars_of(step.as_str());
    replace_text(&s2, &tight, table_ref)
}

// ───────────────────────── `var('name')` ─────────────────────────

pub open spec fn var_open() -> Seq<char> {
    seq!['v', 'a', 'r', '(']
}

/// The next `var('name')` or `var("name")` call in `s` at or after `from`:
/// where `var(` starts, the bounds of the name, and the index just past the
/// closing parenthesis (whitespace may precede it). A `var(` not followed by
/// a complete call is skipped.
pub open spec fn var_call_from(s: Seq<char>, from: int) -> Option<(int, int, int, int)>
    decreases s.len() - from,
{
    if from < 0 || from > s.len() {
        None
    } else {
        match find_from(s, var_open(), from) {
            None => None,
            Some(p) => {
                proof {
                    lemma_find_from_facts(s, var_open(), from);
                }
                let q = p + 4;
                if q < s.len() && (s[q] == '\'' || s[q] == '"') {
                    match find_from(s, seq![s[q]], q + 1) {
                        Some(e) => {
                            let rest = trim_start(s.subrange(e + 1, s.len() as int));
                            if rest.len() > 0 && rest[0] == ')' {
                                Some((p, q + 1, e, s.len() - rest.len() + 1))
                            } else {
                                var_call_from(s, p + 4)
                            }
                        },
                        None => var_call_from(s, p + 4),
                    }
                } else {
                    var_call_from(s, p + 4)
                }
            },
        }
    }
}

pub proof fn lemma_var_call_bounds(s: Seq<char>, from: int)
    ensures
        var_call_from(s, from) matches Some((p, nl, nh, after)) ==> from <= p && p + 5 == nl && nl
            <= nh && nh < after <= s.len(),
    decreases s.len() - from,
{
    if 0 <= from <= s.len() {
        lemma_find_from_facts(s, var_open(), from);
        if let Some(p) = find_from(s, var_open(), from) {
            let q = p + 4;
            if q < s.len() && (s[q] == '\'' || s[q] == '"') {
                lemma_find_from_facts(s, seq![s[q]], q + 1);
                if let Some(e) = find_from(s, seq![s[q]], q + 1) {
                    let rest = trim_start(s.subrange(e + 1, s.len() as int));
                    lemma_trim_start_len(s.subrange(e + 1, s.len() as int));
                    if !(rest.len() > 0 && rest[0] == ')') {
                        lemma_var_call_bounds(s, p + 4);
                    }
                } else {
                    lemma_var_call_bounds(s, p + 4);
                }
            } else {
                lemma_var_call_bounds(s, p + 4);
            }
        }
    }
}

/// Finds the next `var(...)` call at or after `from`.
fn find_var_call(s: &Vec<char>, from: usize) -> (r: Option<(usize, usize, usize, usize)>)
    requires
        from <= s.len(),
    ensures
        r matches Some((p, nl, nh, after)) ==> var_call_from(s@, from as int) == Some(
            (p as int, nl as int, nh as int, after as int),
        ),
        r is None ==> var_call_from(s@, from as int) is None,
{
    let pat = vec!['v', 'a', 'r', '('];
    assert(pat@ =~= var_open());
    let mut cur = from;
    loop
        invariant
            cur <= s.len(),
            pat@ == var_open(),
            var_call_from(s@, cur as int) == var_call_from(s@, from as int),
        decreases s.len() - cur,
    {
        proof {
            lemma_find_from_facts(s@, var_open(), cur as int);
        }
        match find_chars(s, &pat, cur) {
            None => {
                return None;
            },
            Some(p) => {
                let q = p + 4;
                if q < s.len() && (s[q] == '\'' || s[q] == '"') {
                    let quote = s[q];
                    proof {
                        lemma_find_from_facts(s@, seq![quote], q + 1);
                    }
                    match find_char(s, quote, q + 1) {
                        Some(e) => {
                            let t = trim_start_index(s, e + 1, s.len(), TrimSet::Whitespace);
                            if t < s.len() && s[t] == ')' {
                                proof {
                                    let rest = trim_start(s@.subrange(e + 1, s@.len() as int));
                                    assert(rest == s@.subrange(t as int, s@.len() as int));
                                    assert(rest[0] == s@[t as int]);
                                }
                                return Some((p, q + 1, e, t + 1));
                            }
                            proof {
                                let rest = trim_start(s@.subrange(e + 1, s@.len() as int));
                                assert(rest == s@.subrange(t as int, s@.len() as int));
                                if t < s.len() {
                                    assert(rest[0] == s@[t as int]);
                                }
                            }
                        },
                        None => {},
                    }
                }
                cur = p + 4;
            },
        }
    }
}

/// `s[pos..]` with each `var(...)` call replaced by the variable's value, or
/// the first name that has no value.
pub open spec fn vars_from(s: Seq<char>, vars: Seq<(Seq<char>, String)>, pos: int) -> Result<
    Seq<char>,
    Seq<char>,
>
    decreases s.len() - pos,
{
    if pos < 0 || pos > s.len() {
        Ok(Seq::empty())
    } else {
        match var_call_from(s, pos) {
            None => Ok(s.subrange(pos, s.len() as int)),
            Some((p, nl, nh, after)) => {
                proof {
                    lemma_var_call_bounds(s, pos);
                }
                match lookup(vars, s.subrange(nl, nh)) {
                    None => Err(s.subrange(nl, nh)),
                    Some(v) => match vars_from(s, vars, after) {
                        Ok(r) => Ok(s.subrange(pos, p) + v@ + r),
                        Err(n) => Err(n),
                    },
                }
            },
        }
    }
}

/// `items` separated by `sep`, as `join` on a vector of strings does.
pub open spec fn join(items: Seq<Seq<char>>, sep: Seq<char>) -> Seq<char>
    decreases items.len(),
{
    if items.len() == 0 {
        Seq::empty()
    } else if items.len() == 1 {
        items[0]
    } else {
        join(items.drop_last(), sep) + sep + items.last()
    }
}

/// The map's keys in order, separated by `sep`.
pub fn join_keys<T>(m: &StrMap<T>, sep: &str) -> (r: String)
    ensures
        r@ == join(keys_of(m@), sep@),
{
    let mut r = String::new();
    let mut i: usize = 0;
    let ghost ks = keys_of(m@);
    while i < m.len()
        invariant
            i <= m@.len(),
            ks == keys_of(m@),
            r@ == join(ks.take(i as int), sep@),
        decreases m@.len() - i,
    {
        if i > 0 {
            r.append(sep);
        }
        r.append(m.key_at(i));
        proof {
            assert(ks.take(i + 1).drop_last() =~= ks.take(i as int));
            assert(ks.take(i + 1).last() == m@[i as int].0);
            if i == 0 {
                assert(ks.take(0) =~= Seq::<Seq<char>>::empty());
            }
        }
        i += 1;
    }
    assert(ks.take(m@.len() as int) =~= ks);
    r
}

/// Expand `var('name')` calls with project-level variable values. An unknown
/// name is an error that lists the variables that are defined.
pub fn expand_vars(sql: &str, vars: &StrMap<String>) -> (r: Result<String, PreprocessError>)
    ensures
        match vars_from(sql@, vars@, 0) {
            Ok(t) => r matches Ok(x) && x@ == t,
            Err(n) => r matches Err(e) && e matches PreprocessError::UnknownVar { name, available }
                && name@ == n && available@ == join(keys_of(vars@), ", "@),
        },
{
    let s = chars_of(sql);
    let mut result = String::new();
    let mut pos: usize = 0;
    loop
        invariant
            pos <= s.len(),
            s@ == sql@,
            match vars_from(s@, vars@, pos as int) {
                Ok(t) => vars_from(s@, vars@, 0) == Ok::<Seq<char>, Seq<char>>(result@ + t),
                Err(n) => vars_from(s@, vars@, 0) == Err::<Seq<char>, Seq<char>>(n),
            },
        decreases s.len() - pos,
    {
        proof {
            lemma_var_call_bounds(s@, pos as int);
        }
        match find_var_call(&s, pos) {
            None => {
                push_range(&mut result, &s, pos, s.len());
                return Ok(result);
            },
            Some((p, nl, nh, after)) => {
                let name = sql.substring_char(nl, nh);
                match vars.get(name) {
                    None => {
                        let available = join_keys(vars, ", ");
                        return Err(
                            PreprocessError::UnknownVar { name: name.to_owned(), available },
                        );
                    },
                    Some(v) => {
                        let ghost before = result@;
                        push_range(&mut result, &s, pos, p);
                        result.append(v.as_str());
                        proof {
                            assert(result@ =~= before + s@.subrange(pos as int, p as int) + v@);
                            match vars_from(s@, vars@, after as int) {
                                Ok(t) => {
                                    assert(before + (s@.subrange(pos as int, p as int) + v@ + t)
                                        =~= result@ + t);
                                },
                                Err(n) => {},
                            }
                        }
                        pos = after;
                    },
                }
            },
        }
    }
}

} // verus!

verus! {

// ───────────────────────── `dbt_utils.*` builtins ─────────────────────────

/// Where a single-quoted string ends: from `i`, just past its opening quote,
/// the index of the closing quote, with `\` escaping the character after it;
/// at or past `hi` when the quote is not closed before `hi`.
pub open spec fn skip_quote(s: Seq<char>, hi: int, i: int) -> int
    decreases hi + 1 - i,
{
    if i >= hi || s[i] == '\'' {
        i
    } else if s[i] == '\\' {
        skip_quote(s, hi, i + 2)
    } else {
        skip_quote(s, hi, i + 1)
    }
}

pub proof fn lemma_skip_quote_bounds(s: Seq<char>, hi: int, i: int)
    requires
        i <= hi,
    ensures
        i <= skip_quote(s, hi, i) <= hi + 1,
        skip_quote(s, hi, i) < hi ==> s[skip_quote(s, hi, i)] == '\'',
    decreases hi + 1 - i,
{
    if i < hi && s[i] != '\'' {
        if s[i] == '\\' {
            if i + 2 <= hi {
                lemma_skip_quote_bounds(s, hi, i + 2);
            } else {
                assert(skip_quote(s, hi, i + 2) == i + 2);
            }
        } else {
            lemma_skip_quote_bounds(s, hi, i + 1);
        }
    }
}

/// The index of the `)` that closes a call whose arguments start at `i`,
/// with `depth` parentheses and `bd` brackets open: nested parentheses count,
/// a `)` inside brackets does not, and quoted strings are skipped whole.
pub open spec fn balanced_close(s: Seq<char>, i: int, depth: nat, bd: nat) -> Option<int>
    decreases s.len() + 2 - i,
{
    if i < 0 || i >= s.len() || depth == 0 {
        None
    } else {
        let c = s[i];
        if c == '(' {
            balanced_close(s, i + 1, depth + 1, bd)
        } else if c == ')' && bd == 0 {
            if depth == 1 {
                Some(i)
            } else {
                balanced_close(s, i + 1, (depth - 1) as nat, bd)
            }
        } else if c == '[' {
            balanced_close(s, i + 1, depth, bd + 1)
        } else if c == ']' {
            balanced_close(s, i + 1, depth, if bd > 0 { (bd - 1) as nat } else { 0 })
        } else if c == '\'' {
            proof {
                lemma_skip_quote_bounds(s, s.len() as int, i + 1);
            }
            balanced_close(s, skip_quote(s, s.len() as int, i + 1) + 1, depth, bd)
        } else {
            balanced_close(s, i + 1, depth, bd)
        }
    }
}

pub proof fn lemma_balanced_bounds(s: Seq<char>, i: int, depth: nat, bd: nat)
    ensures
        balanced_close(s, i, depth, bd) matches Some(c) ==> i <= c < s.len() && s[c] == ')',
    decreases s.len() + 2 - i,
{
    if 0 <= i < s.len() && depth > 0 {
        let c = s[i];
        if c == '(' {
            lemma_balanced_bounds(s, i + 1, depth + 1, bd);
        } else if c == ')' && bd == 0 {
            if depth != 1 {
                lemma_balanced_bounds(s, i + 1, (depth - 1) as nat, bd);
            }
        } else if c == '[' {
            lemma_balanced_bounds(s, i + 1, depth, bd + 1);
        } else if c == ']' {
            lemma_balanced_bounds(s, i + 1, depth, if bd > 0 { (bd - 1) as nat } else { 0 });
        } else if c == '\'' {
            lemma_skip_quote_bounds(s, s.len() as int, i + 1);
            lemma_balanced_bounds(s, skip_quote(s, s.len() as int, i + 1) + 1, depth, bd);
        } else {
            lemma_balanced_bounds(s, i + 1, depth, bd);
        }
    }
}

/// Skips a quoted string (see `skip_quote`), stopping at `hi` at the latest.
fn skip_quote_exec(s: &Vec<char>, hi: usize, i: usize) -> (r: usize)
    requires
        i <= hi <= s.len(),
    ensures
        r <= hi,
        r < hi ==> r == skip_quote(s@, hi as int, i as int),
        r == hi ==> skip_quote(s@, hi as int, i as int) >= hi,
{
    let mut j = i;
    while j < hi && s[j] != '\''
        invariant
            i <= j <= hi <= s.len(),
            skip_quote(s@, hi as int, j as int) == skip_quote(s@, hi as int, i as int),
        decreases hi - j,
    {
        if s[j] == '\\' {
            if j + 1 >= hi {
                proof {
                    lemma_skip_quote_bounds(s@, hi as int, j as int);
                }
                return hi;
            }
            j += 2;
        } else {
            j += 1;
        }
    }
    proof {
        lemma_skip_quote_bounds(s@, hi as int, j as int);
    }
    j
}

/// The index of the `)` closing the call whose arguments start at `from`.
fn extract_balanced_args(s: &Vec<char>, from: usize) -> (r: Option<usize>)
    requires
        1 <= from <= s.len(),
    ensures
        r matches Some(c) ==> balanced_close(s@, from as int, 1, 0) == Some(c as int),
        r is None ==> balanced_close(s@, from as int, 1, 0) is None,
{
    let mut i = from;
    let mut depth: usize = 1;
    let mut bd: usize = 0;
    while i < s.len()
        invariant
            from <= i <= s.len(),
            1 <= from,
            1 <= depth <= i - from + 1,
            bd <= i - from,
            balanced_close(s@, i as int, depth as nat, bd as nat) == balanced_close(
                s@,
                from as int,
                1,
                0,
            ),
        decreases s.len() - i,
    {
        let c = s[i];
        if c == '(' {
            depth += 1;
            i += 1;
        } else if c == ')' && bd == 0 {
            if depth == 1 {
                return Some(i);
            }
            depth -= 1;
            i += 1;
        } else if c == '[' {
            bd += 1;
            i += 1;
        } else if c == ']' {
            if bd > 0 {
                bd -= 1;
            }
            i += 1;
        } else if c == '\'' {
            let j = skip_quote_exec(s, s.len(), i + 1);
            proof {
                lemma_skip_quote_bounds(s@, s@.len() as int, i + 1);
                assert(balanced_close(s@, i as int, depth as nat, bd as nat) == balanced_close(
                    s@,
                    skip_quote(s@, s@.len() as int, i + 1) + 1,
                    depth as nat,
                    bd as nat,
                ));
            }
            if j >= s.len() {
                return None;
            }
            i = j + 1;
        } else {
            i += 1;
        }
    }
    None
}

/// The top-level pieces of `s[i..hi]`: split at commas outside parentheses,
/// brackets and quoted strings, as `(start, end)` index pairs; a trailing
/// empty piece is dropped.
pub open spec fn split_top(s: Seq<char>, hi: int, i: int, depth: nat, bd: nat, start: int) -> Seq<
    (int, int),
>
    decreases hi + 2 - i,
{
    if i < 0 || i >= hi {
        if start < hi {
            seq![(start, hi)]
        } else {
            Seq::empty()
        }
    } else {
        let c = s[i];
        if c == '(' {
            split_top(s, hi, i + 1, depth + 1, bd, start)
        } else if c == ')' {
            split_top(s, hi, i + 1, if depth > 0 { (depth - 1) as nat } else { 0 }, bd, start)
        } else if c == '[' {
            split_top(s, hi, i + 1, depth, bd + 1, start)
        } else if c == ']' {
            split_top(s, hi, i + 1, depth, if bd > 0 { (bd - 1) as nat } else { 0 }, start)
        } else if c == '\'' {
            proof {
                lemma_skip_quote_bounds(s, hi, i + 1);
            }
            split_top(s, hi, skip_quote(s, hi, i + 1) + 1, depth, bd, start)
        } else if c == ',' && depth == 0 && bd == 0 {
            seq![(start, i)] + split_top(s, hi, i + 1, depth, bd, i + 1)
        } else {
            split_top(s, hi, i + 1, depth, bd, start)
        }
    }
}

/// Splits `s[lo..hi]` at top-level commas.
fn split_top_level_args(s: &Vec<char>, lo: usize, hi: usize) -> (r: Vec<(usize, usize)>)
    requires
        lo <= hi <= s.len(),
    ensures
        r@.map_values(|p: (usize, usize)| (p.0 as int, p.1 as int)) == split_top(
            s@,
            hi as int,
            lo as int,
            0,
            0,
            lo as int,
        ),
        forall|k: int| 0 <= k < r@.len() ==> lo <= (#[trigger] r@[k]).0 <= r@[k].1 <= hi,
{
    let mut result: Vec<(usize, usize)> = Vec::new();
    let mut i = lo;
    let mut depth: usize = 0;
    let mut bd: usize = 0;
    let mut start = lo;
    while i < hi
        invariant
            lo <= start <= i <= hi <= s.len(),
            depth <= i - lo,
            bd <= i - lo,
            forall|k: int| 0 <= k < result@.len() ==> lo <= (#[trigger] result@[k]).0 <= result@[k].1 <= start,
            result@.map_values(|p: (usize, usize)| (p.0 as int, p.1 as int)) + split_top(
                s@,
                hi as int,
                i as int,
                depth as nat,
                bd as nat,
                start as int,
            ) == split_top(s@, hi as int, lo as int, 0, 0, lo as int),
        decreases hi - i,
    {
        let c = s[i];
        if c == '(' {
            depth += 1;
            i += 1;
        } else if c == ')' {
            if depth > 0 {
                depth -= 1;
            }
            i += 1;
        } else if c == '[' {
            bd += 1;
            i += 1;
        } else if c == ']' {
            if bd > 0 {
                bd -= 1;
            }
            i += 1;
        } else if c == '\'' {
            let j = skip_quote_exec(s, hi, i + 1);
            proof {
                lemma_skip_quote_bounds(s@, hi as int, i + 1);
                assert(split_top(s@, hi as int, i as int, depth as nat, bd as nat, start as int)
                    == split_top(
                    s@,
                    hi as int,
                    skip_quote(s@, hi as int, i + 1) + 1,
                    depth as nat,
                    bd as nat,
                    start as int,
                ));
            }
            if j >= hi {
                i = hi;
            } else {
                i = j + 1;
            }
        } else if c == ',' && depth == 0 && bd == 0 {
            let ghost before = result@.map_values(|p: (usize, usize)| (p.0 as int, p.1 as int));
            let ghost tail = split_top(s@, hi as int, i + 1, depth as nat, bd as nat, i + 1);
            assert(split_top(s@, hi as int, i as int, depth as nat, bd as nat, start as int) == seq![
                (start as int, i as int),
            ] + tail);
            result.push((start, i));
            proof {
                assert(result@.map_values(|p: (usize, usize)| (p.0 as int, p.1 as int)) =~= before
                    + seq![(start as int, i as int)]);
                assert(before + seq![(start as int, i as int)] + tail =~= before + (seq![
                    (start as int, i as int),
                ] + tail));
            }
            i += 1;
            start = i;
        } else {
            i += 1;
        }
    }
    if start < hi {
        let ghost before = result@.map_values(|p: (usize, usize)| (p.0 as int, p.1 as int));
        result.push((start, hi));
        proof {
            assert(result@.map_values(|p: (usize, usize)| (p.0 as int, p.1 as int)) =~= before
                + seq![(start as int, hi as int)]);
        }
    } else {
        proof {
            assert(result@.map_values(|p: (usize, usize)| (p.0 as int, p.1 as int)) + Seq::<
                (int, int),
            >::empty() =~= result@.map_values(|p: (usize, usize)| (p.0 as int, p.1 as int)));
        }
    }
    result
}

} // verus!

verus! {

/// `x` without surrounding single quotes, then without surrounding double quotes.
pub open spec fn unquote(x: Seq<char>) -> Seq<char> {
    trim_by(trim_by(x, TrimSet::Char('\'')), TrimSet::Char('"'))
}

/// A surrogate-key column as written: trimmed, unquoted, trimmed again.
pub open spec fn clean_col(c: Seq<char>) -> Seq<char> {
    trim(unquote(trim(c)))
}

/// The non-empty cleaned pieces of `t[pos..]`, split at every comma.
pub open spec fn cols_from(t: Seq<char>, pos: int) -> Seq<Seq<char>>
    decreases t.len() - pos,
{
    if pos < 0 || pos > t.len() {
        Seq::empty()
    } else {
        match find_from(t, seq![','], pos) {
            Some(i) => {
                proof {
                    lemma_find_from_facts(t, seq![','], pos);
                }
                let c = clean_col(t.subrange(pos, i));
                let rest = cols_from(t, i + 1);
                if c.len() > 0 {
                    seq![c] + rest
                } else {
                    rest
                }
            },
            None => {
                let c = clean_col(t.subrange(pos, t.len() as int));
                if c.len() > 0 {
                    seq![c]
                } else {
                    Seq::empty()
                }
            },
        }
    }
}

/// The columns of a `generate_surrogate_key` argument: `['a', 'b']` or `a, b`.
pub open spec fn surrogate_cols(args: Seq<char>) -> Seq<Seq<char>> {
    let t = trim(trim(args));
    let inner = if t.len() > 0 && t[0] == '[' && t[t.len() - 1] == ']' {
        t.subrange(1, t.len() - 1)
    } else {
        t
    };
    cols_from(inner, 0)
}

/// One column's null-safe text form.
pub open spec fn coalesce(c: Seq<char>) -> Seq<char> {
    "COALESCE(CAST("@ + c + " AS STRING), '_dbt_utils_surrogate_key_null_')"@
}

/// The concatenation a surrogate key hashes.
pub open spec fn surrogate_expr(cols: Seq<Seq<char>>) -> Seq<char> {
    if cols.len() == 1 {
        coalesce(cols[0])
    } else {
        "CONCAT("@ + join(cols.map_values(|c: Seq<char>| coalesce(c)), ", "@) + ")"@
    }
}

/// A top-level argument, trimmed.
pub open spec fn piece(s: Seq<char>, p: (int, int)) -> Seq<char> {
    trim(s.subrange(p.0, p.1))
}

pub open spec fn dbt_utils_prefix() -> Seq<char> {
    seq!['d', 'b', 't', '_', 'u', 't', 'i', 'l', 's', '.']
}

/// The expansion of the builtin call that starts at `a` (just past
/// `dbt_utils.`): its BigQuery text and the index just past the call.
pub open spec fn builtin_at(s: Seq<char>, a: int) -> Option<(Seq<char>, int)> {
    let rest = s.subrange(a, s.len() as int);
    if starts_with(rest, "current_timestamp()"@) {
        Some(("CURRENT_TIMESTAMP()"@, a + "current_timestamp()"@.len()))
    } else if starts_with(rest, "datediff("@) {
        let b = a + "datediff("@.len();
        match balanced_close(s, b, 1, 0) {
            None => None,
            Some(cl) => {
                let parts = split_top(s, cl, b, 0, 0, b);
                if parts.len() == 3 {
                    Some(
                        (
                            "TIMESTAMP_DIFF("@ + piece(s, parts[1]) + ", "@ + piece(s, parts[0])
                                + ", "@ + unicode_upper(unquote(piece(s, parts[2]))) + ")"@,
                            cl + 1,
                        ),
                    )
                } else {
                    None
                }
            },
        }
    } else if starts_with(rest, "dateadd("@) {
        let b = a + "dateadd("@.len();
        match balanced_close(s, b, 1, 0) {
            None => None,
            Some(cl) => {
                let parts = split_top(s, cl, b, 0, 0, b);
                if parts.len() == 3 {
                    Some(
                        (
                            "TIMESTAMP_ADD("@ + piece(s, parts[2]) + ", INTERVAL "@ + piece(
                                s,
                                parts[1],
                            ) + " "@ + unicode_upper(unquote(piece(s, parts[0]))) + ")"@,
                            cl + 1,
                        ),
                    )
                } else {
                    None
                }
            },
        }
    } else if starts_with(rest, "generate_surrogate_key("@) {
        let b = a + "generate_surrogate_key("@.len();
        match balanced_close(s, b, 1, 0) {
            None => None,
            Some(cl) => {
                let cols = surrogate_cols(s.subrange(b, cl));
                if cols.len() > 0 {
                    Some(("TO_HEX(MD5("@ + surrogate_expr(cols) + "))"@, cl + 1))
                } else {
                    None
                }
            },
        }
    } else if starts_with(rest, "listagg("@) {
        let b = a + "listagg("@.len();
        match balanced_close(s, b, 1, 0) {
            None => None,
            Some(cl) => {
                let parts = split_top(s, cl, b, 0, 0, b);
                if parts.len() >= 3 {
                    Some(
                        (
                            "STRING_AGG("@ + piece(s, parts[0]) + ", "@ + piece(s, parts[1])
                                + " ORDER BY "@ + piece(s, parts[2]) + ")"@,
                            cl + 1,
                        ),
                    )
                } else if parts.len() == 2 {
                    Some(("STRING_AGG("@ + piece(s, parts[0]) + ", "@ + piece(s, parts[1]) + ")"@, cl + 1))
                } else {
                    None
                }
            },
        }
    } else {
        None
    }
}

pub proof fn lemma_builtin_bounds(s: Seq<char>, a: int)
    requires
        0 <= a <= s.len(),
    ensures
        builtin_at(s, a) matches Some((r, e)) ==> a < e <= s.len(),
{
    reveal_strlit("current_timestamp()");
    reveal_strlit("datediff(");
    reveal_strlit("dateadd(");
    reveal_strlit("generate_surrogate_key(");
    reveal_strlit("listagg(");
    let rest = s.subrange(a, s.len() as int);
    if starts_with(rest, "current_timestamp()"@) {
    } else if starts_with(rest, "datediff("@) {
        lemma_balanced_bounds(s, a + "datediff("@.len(), 1, 0);
    } else if starts_with(rest, "dateadd("@) {
        lemma_balanced_bounds(s, a + "dateadd("@.len(), 1, 0);
    } else if starts_with(rest, "generate_surrogate_key("@) {
        lemma_balanced_bounds(s, a + "generate_surrogate_key("@.len(), 1, 0);
    } else if starts_with(rest, "listagg("@) {
        lemma_balanced_bounds(s, a + "listagg("@.len(), 1, 0);
    }
}

/// One pass over `s[pos..]`: each recognised `dbt_utils.<builtin>(...)` call
/// is replaced by its BigQuery text; an unrecognised one is left as written.
pub open spec fn builtins_once_from(s: Seq<char>, pos: int) -> Seq<char>
    decreases s.len() - pos,
{
    if pos < 0 || pos > s.len() {
        Seq::empty()
    } else {
        match find_from(s, dbt_utils_prefix(), pos) {
            None => s.subrange(pos, s.len() as int),
            Some(i) => {
                proof {
                    lemma_find_from_facts(s, dbt_utils_prefix(), pos);
                    lemma_builtin_bounds(s, i + 10);
                }
                match builtin_at(s, i + 10) {
                    Some((rep, e)) => s.subrange(pos, i) + rep + builtins_once_from(s, e),
                    None => s.subrange(pos, i) + dbt_utils_prefix() + builtins_once_from(s, i + 10),
                }
            },
        }
    }
}

/// Up to `n` passes, stopping early once a pass changes nothing.
pub open spec fn builtins_rounds(s: Seq<char>, n: nat) -> Seq<char>
    decreases n,
{
    if n == 0 {
        s
    } else {
        let t = builtins_once_from(s, 0);
        if t == s {
            t
        } else {
            builtins_rounds(t, (n - 1) as nat)
        }
    }
}

/// Copies `s[lo..hi]` into a new vector.
fn copy_range(s: &Vec<char>, lo: usize, hi: usize) -> (r: Vec<char>)
    requires
        lo <= hi <= s.len(),
    ensures
        r@ == s@.subrange(lo as int, hi as int),
{
    let mut r: Vec<char> = Vec::new();
    let mut i = lo;
    while i < hi
        invariant
            lo <= i <= hi <= s.len(),
            r@ == s@.subrange(lo as int, i as int),
        decreases hi - i,
    {
        r.push(s[i]);
        assert(s@.subrange(lo as int, i + 1) =~= s@.subrange(lo as int, i as int).push(s@[i as int]));
        i += 1;
    }
    r
}

/// The bounds of `clean_col(t[lo..hi])`.
fn clean_col_bounds(t: &Vec<char>, lo: usize, hi: usize) -> (r: (usize, usize))
    requires
        lo <= hi <= t.len(),
    ensures
        r.0 <= r.1 <= t.len(),
        t@.subrange(r.0 as int, r.1 as int) == clean_col(t@.subrange(lo as int, hi as int)),
{
    let (a, b) = trim_ws(t, lo, hi);
    let (a2, b2) = trim_bounds(t, a, b, TrimSet::Char('\''));
    let (a3, b3) = trim_bounds(t, a2, b2, TrimSet::Char('"'));
    let (a4, b4) = trim_ws(t, a3, b3);
    (a4, b4)
}

/// The columns of `t`, as bounds into `t`.
fn cols_of(t: &Vec<char>) -> (r: Vec<(usize, usize)>)
    ensures
        r@.map_values(|p: (usize, usize)| t@.subrange(p.0 as int, p.1 as int)) == cols_from(t@, 0),
        forall|k: int| 0 <= k < r@.len() ==> (#[trigger] r@[k]).0 <= r@[k].1 <= t@.len(),
{
    let mut r: Vec<(usize, usize)> = Vec::new();
    let mut pos: usize = 0;
    loop
        invariant
            pos <= t.len(),
            forall|k: int| 0 <= k < r@.len() ==> (#[trigger] r@[k]).0 <= r@[k].1 <= t@.len(),
            r@.map_values(|p: (usize, usize)| t@.subrange(p.0 as int, p.1 as int)) + cols_from(
                t@,
                pos as int,
            ) == cols_from(t@, 0),
        decreases t.len() - pos,
    {
        let ghost before = r@.map_values(|p: (usize, usize)| t@.subrange(p.0 as int, p.1 as int));
        proof {
            lemma_find_from_facts(t@, seq![','], pos as int);
        }
        match find_char(t, ',', pos) {
            Some(i) => {
                let (a, b) = clean_col_bounds(t, pos, i);
                let ghost rest = cols_from(t@, i + 1);
                if a < b {
                    r.push((a, b));
                    proof {
                        assert(r@.map_values(|p: (usize, usize)| t@.subrange(p.0 as int, p.1 as int))
                            =~= before + seq![t@.subrange(a as int, b as int)]);
                        assert(before + seq![t@.subrange(a as int, b as int)] + rest =~= before + (
                        seq![t@.subrange(a as int, b as int)] + rest));
                    }
                }
                pos = i + 1;
            },
            None => {
                let (a, b) = clean_col_bounds(t, pos, t.len());
                if a < b {
                    r.push((a, b));
                    proof {
                        assert(r@.map_values(|p: (usize, usize)| t@.subrange(p.0 as int, p.1 as int))
                            =~= before + seq![t@.subrange(a as int, b as int)]);
                    }
                } else {
                    proof {
                        assert(before + Seq::<Seq<char>>::empty() =~= before);
                    }
                }
                return r;
            },
        }
    }
}

/// Appends `coalesce(t[p.0..p.1])`.
fn push_coalesce(out: &mut String, t: &Vec<char>, p: (usize, usize))
    requires
        p.0 <= p.1 <= t.len(),
    ensures
        final(out)@ == old(out)@ + coalesce(t@.subrange(p.0 as int, p.1 as int)),
{
    out.append("COALESCE(CAST(");
    push_range(out, t, p.0, p.1);
    out.append(" AS STRING), '_dbt_utils_surrogate_key_null_')");
    assert(final(out)@ =~= old(out)@ + coalesce(t@.subrange(p.0 as int, p.1 as int)));
}

/// Appends the trimmed argument `s[p.0..p.1]`.
fn push_piece(out: &mut String, s: &Vec<char>, p: (usize, usize))
    requires
        p.0 <= p.1 <= s.len(),
    ensures
        final(out)@ == old(out)@ + piece(s@, (p.0 as int, p.1 as int)),
{
    let (a, b) = trim_ws(s, p.0, p.1);
    push_range(out, s, a, b);
}

/// Appends the uppercased, unquoted, trimmed argument `s[p.0..p.1]`.
fn push_upper_part(out: &mut String, s: &Vec<char>, p: (usize, usize))
    requires
        p.0 <= p.1 <= s.len(),
    ensures
        final(out)@ == old(out)@ + unicode_upper(unquote(piece(s@, (p.0 as int, p.1 as int)))),
{
    let (a, b) = trim_ws(s, p.0, p.1);
    let (a2, b2) = trim_bounds(s, a, b, TrimSet::Char('\''));
    let (a3, b3) = trim_bounds(s, a2, b2, TrimSet::Char('"'));
    let part = string_of_range(s, a3, b3);
    let up = str_to_uppercase(part.as_str());
    out.append(up.as_str());
}

/// The expansion of the builtin call starting at `a`, if it is one.
fn try_expand_builtin(s: &Vec<char>, a: usize) -> (r: Option<(String, usize)>)
    requires
        1 <= a <= s.len(),
    ensures
        r matches Some((rep, e)) ==> builtin_at(s@, a as int) == Some((rep@, e as int)),
        r is None ==> builtin_at(s@, a as int) is None,
{
    let ct = chars_of("current_timestamp()");
    let dd = chars_of("datediff(");
    let da = chars_of("dateadd(");
    let sk = chars_of("generate_surrogate_key(");
    let la = chars_of("listagg(");
    if range_starts_with(s, a, s.len(), &ct) {
        return Some(("CURRENT_TIMESTAMP()".to_owned(), a + ct.len()));
    } else if range_starts_with(s, a, s.len(), &dd) {
        let b = a + dd.len();
        match extract_balanced_args(s, b) {
            None => None,
            Some(cl) => {
                proof {
                    lemma_balanced_bounds(s@, b as int, 1, 0);
                }
                let parts = split_top_level_args(s, b, cl);
                if parts.len() == 3 {
                    proof {
                        assert(parts@[0].0 as int == split_top(s@, cl as int, b as int, 0, 0, b as int)[0].0);
                    }
                    let mut out = String::new();
                    out.append("TIMESTAMP_DIFF(");
                    push_piece(&mut out, s, parts[1]);
                    out.append(", ");
                    push_piece(&mut out, s, parts[0]);
                    out.append(", ");
                    push_upper_part(&mut out, s, parts[2]);
                    out.append(")");
                    proof {
                        let sp = split_top(s@, cl as int, b as int, 0, 0, b as int);
                        assert(sp[0] == (parts@[0].0 as int, parts@[0].1 as int));
                        assert(sp[1] == (parts@[1].0 as int, parts@[1].1 as int));
                        assert(sp[2] == (parts@[2].0 as int, parts@[2].1 as int));
                    }
                    Some((out, cl + 1))
                } else {
                    None
                }
            },
        }
    } else if range_starts_with(s, a, s.len(), &da) {
        let b = a + da.len();
        match extract_balanced_args(s, b) {
            None => None,
            Some(cl) => {
                proof {
                    lemma_balanced_bounds(s@, b as int, 1, 0);
                }
                let parts = split_top_level_args(s, b, cl);
                if parts.len() == 3 {
                    let mut out = String::new();
                    out.append("TIMESTAMP_ADD(");
                    push_piece(&mut out, s, parts[2]);
                    out.append(", INTERVAL ");
                    push_piece(&mut out, s, parts[1]);
                    out.append(" ");
                    push_upper_part(&mut out, s, parts[0]);
                    out.append(")");
                    proof {
                        let sp = split_top(s@, cl as int, b as int, 0, 0, b as int);
                        assert(sp[0] == (parts@[0].0 as int, parts@[0].1 as int));
                        assert(sp[1] == (parts@[1].0 as int, parts@[1].1 as int));
                        assert(sp[2] == (parts@[2].0 as int, parts@[2].1 as int));
                    }
                    Some((out, cl + 1))
                } else {
                    None
                }
            },
        }
    } else if range_starts_with(s, a, s.len(), &sk) {
        let b = a + sk.len();
        match extract_balanced_args(s, b) {
            None => None,
            Some(cl) => {
                proof {
                    lemma_balanced_bounds(s@, b as int, 1, 0);
                }
                let args = copy_range(s, b, cl);
                let (a1, b1) = trim_ws(&args, 0, args.len());
                assert(args@.subrange(0, args@.len() as int) =~= args@);
                let (a2, b2) = trim_ws(&args, a1, b1);
                let t = copy_range(&args, a2, b2);
                let inner = if t.len() > 0 && t[0] == '[' && t[t.len() - 1] == ']' {
                    copy_range(&t, 1, t.len() - 1)
                } else {
                    assert(t@.subrange(0, t@.len() as int) =~= t@);
                    copy_range(&t, 0, t.len())
                };
                let cols = cols_of(&inner);
                if cols.len() == 0 {
                    return None;
                }
                let ghost cs = cols@.map_values(
                    |p: (usize, usize)| inner@.subrange(p.0 as int, p.1 as int),
                );
                let mut out = String::new();
                out.append("TO_HEX(MD5(");
                if cols.len() == 1 {
                    push_coalesce(&mut out, &inner, cols[0]);
                } else {
                    out.append("CONCAT(");
                    let ghost cm = cs.map_values(|c: Seq<char>| coalesce(c));
                    let ghost start = out@;
                    let mut k: usize = 0;
                    while k < cols.len()
                        invariant
                            k <= cols@.len(),
                            cm.len() == cols@.len(),
                            cs.len() == cols@.len(),
                            forall|j: int| 0 <= j < cols@.len() ==> (#[trigger] cols@[j]).0 <= cols@[j].1 <= inner@.len(),
                            forall|j: int| 0 <= j < cols@.len() ==> #[trigger] cm[j] == coalesce(inner@.subrange(cols@[j].0 as int, cols@[j].1 as int)),
                            out@ == start + join(cm.take(k as int), ", "@),
                        decreases cols.len() - k,
                    {
                        if k > 0 {
                            out.append(", ");
                        }
                        push_coalesce(&mut out, &inner, cols[k]);
                        proof {
                            assert(cm.take(k + 1).drop_last() =~= cm.take(k as int));
                            if k == 0 {
                                assert(cm.take(0) =~= Seq::<Seq<char>>::empty());
                            }
                        }
                        k += 1;
                    }
                    assert(cm.take(cols@.len() as int) =~= cm);
                    out.append(")");
                }
                out.append("))");
                Some((out, cl + 1))
            },
        }
    } else if range_starts_with(s, a, s.len(), &la) {
        let b = a + la.len();
        match extract_balanced_args(s, b) {
            None => None,
            Some(cl) => {
                proof {
                    lemma_balanced_bounds(s@, b as int, 1, 0);
                }
                let parts = split_top_level_args(s, b, cl);
                proof {
                    let sp = split_top(s@, cl as int, b as int, 0, 0, b as int);
                    assert(sp.len() == parts@.len());
                    if parts@.len() >= 2 {
                        assert(sp[0] == (parts@[0].0 as int, parts@[0].1 as int));
                        assert(sp[1] == (parts@[1].0 as int, parts@[1].1 as int));
                    }
                    if parts@.len() >= 3 {
                        assert(sp[2] == (parts@[2].0 as int, parts@[2].1 as int));
                    }
                }
                if parts.len() >= 2 {
                    let mut out = String::new();
                    out.append("STRING_AGG(");
                    push_piece(&mut out, s, parts[0]);
                    out.append(", ");
                    push_piece(&mut out, s, parts[1]);
                    if parts.len() >= 3 {
                        out.append(" ORDER BY ");
                        push_piece(&mut out, s, parts[2]);
                    }
                    out.append(")");
                    Some((out, cl + 1))
                } else {
                    None
                }
            },
        }
    } else {
        None
    }
}

/// One pass of builtin expansion over `sql`.
fn expand_builtins_once(s: &Vec<char>) -> (r: String)
    ensures
        r@ == builtins_once_from(s@, 0),
{
    let pat = vec!['d', 'b', 't', '_', 'u', 't', 'i', 'l', 's', '.'];
    assert(pat@ =~= dbt_utils_prefix());
    let mut out = String::new();
    let mut pos: usize = 0;
    loop
        invariant
            pos <= s.len(),
            pat@ == dbt_utils_prefix(),
            out@ + builtins_once_from(s@, pos as int) == builtins_once_from(s@, 0),
        decreases s.len() - pos,
    {
        proof {
            lemma_find_from_facts(s@, dbt_utils_prefix(), pos as int);
        }
        match find_chars(s, &pat, pos) {
            None => {
                push_range(&mut out, s, pos, s.len());
                return out;
            },
            Some(i) => {
                let a = i + 10;
                proof {
                    lemma_builtin_bounds(s@, a as int);
                }
                let ghost before = out@;
                push_range(&mut out, s, pos, i);
                match try_expand_builtin(s, a) {
                    Some((rep, e)) => {
                        out.append(rep.as_str());
                        proof {
                            assert(out@ =~= before + s@.subrange(pos as int, i as int) + rep@);
                        }
                        pos = e;
                    },
                    None => {
                        out.append("dbt_utils.");
                        proof {
                            reveal_strlit("dbt_utils.");
                            assert("dbt_utils."@ =~= dbt_utils_prefix());
                            assert(out@ =~= before + s@.subrange(pos as int, i as int)
                                + dbt_utils_prefix());
                        }
                        pos = a;
                    },
                }
            },
        }
    }
}

/// Expand `dbt_utils.*` builtin macro calls to BigQuery SQL, repeating until
/// nothing changes (at most ten passes) so nested calls are expanded too.
pub fn expand_builtins(sql: &str) -> (r: String)
    ensures
        r@ == builtins_rounds(sql@, 10),
{
    let mut current = sql.to_owned();
    let mut k: usize = 0;
    while k < 10
        invariant
            k <= 10,
            builtins_rounds(current@, (10 - k) as nat) == builtins_rounds(sql@, 10),
        decreases 10 - k,
    {
        let cs = chars_of(current.as_str());
        let next = expand_builtins_once(&cs);
        if next == current {
            return next;
        }
        current = next;
        k += 1;
    }
    current
}

} // verus!

verus! {

// ───────────────────────── the pipeline ─────────────────────────

/// Why the pipeline refused its input.
pub enum PreprocessFailure {
    /// The SQL holds a NUL character.
    Nul,
    /// A `var(...)` names a variable that has no value.
    UnknownVar(Seq<char>),
}

/// The whole pipeline: raw regions protected, incremental blocks handled,
/// `{{ this }}` replaced, variables substituted, builtins expanded.
pub open spec fn preprocessed(
    sql: Seq<char>,
    vars: Seq<(Seq<char>, String)>,
    table_ref: Seq<char>,
    is_incremental: bool,
) -> Result<Seq<char>, PreprocessFailure> {
    if has_nul(sql) {
        Err(PreprocessFailure::Nul)
    } else {
        let step1 = incremental_from(protect_from(sql, 0), is_incremental, 0);
        let step2 = this_replaced(step1, table_ref);
        match vars_from(step2, vars, 0) {
            Err(n) => Err(PreprocessFailure::UnknownVar(n)),
            Ok(step3) => Ok(builtins_rounds(step3, 10)),
        }
    }
}

/// Top-level preprocessor: runs all phases in order. Raw regions are set aside
/// first, so nothing downstream can mistake their contents for a template.
pub fn preprocess(sql: &str, vars: &StrMap<String>, table_ref: &str, is_incremental: bool) -> (r:
    Result<String, PreprocessError>)
    requires
        sql@.len() <= usize::MAX / 8,
    ensures
        match preprocessed(sql@, vars@, table_ref@, is_incremental) {
            Ok(t) => r matches Ok(x) && x@ == t,
            Err(PreprocessFailure::Nul) => r matches Err(e) && e matches PreprocessError::UnsupportedInput {
                reason,
            } && reason@ == "SQL may not contain NUL bytes"@,
            Err(PreprocessFailure::UnknownVar(n)) => r matches Err(e)
                && e matches PreprocessError::UnknownVar { name, available } && name@ == n
                && available@ == join(keys_of(vars@), ", "@),
        },
{
    let protected = match protect_raw_regions(sql) {
        Ok(p) => p,
        Err(e) => {
            return Err(e);
        },
    };
    let step1 = handle_incremental_blocks(protected.as_str(), is_incremental);
    let step2 = replace_this(step1.as_str(), table_ref);
    let step3 = match expand_vars(step2.as_str(), vars) {
        Ok(t) => t,
        Err(e) => {
            return Err(e);
        },
    };
    let step4 = expand_builtins(step3.as_str());
    Ok(step4)
}

proof fn lemma_no_match(s: Seq<char>, pat: Seq<char>, from: int)
    requires
        !contains(s, pat),
    ensures
        find_from(s, pat, from) is None,
{
    lemma_find_from_facts(s, pat, from);
}

proof fn lemma_split_none(s: Seq<char>, kind: TagKind, from: int)
    requires
        !contains(s, close_delim()),
    ensures
        split_tag_from(s, kind, from) is None,
{
    if 0 <= from <= s.len() {
        lemma_find_from_facts(s, open_delim(), from);
        if let Some(o) = find_from(s, open_delim(), from) {
            lemma_no_match(s, close_delim(), o + 2);
        }
    }
}

proof fn lemma_replace_none(s: Seq<char>, pat: Seq<char>, rep: Seq<char>)
    requires
        !contains(s, pat),
    ensures
        replace_all(s, pat, rep) == s,
{
    lemma_no_match(s, pat, 0);
    assert(s.subrange(0, s.len() as int) =~= s);
}

proof fn lemma_var_none(s: Seq<char>, from: int)
    requires
        !contains(s, var_open()),
    ensures
        var_call_from(s, from) is None,
{
    lemma_no_match(s, var_open(), from);
}

/// SQL that holds none of the constructs the pipeline rewrites — no tag
/// closer `%}`, no `{{ this }}` or `{{this}}`, no `var(`, no `dbt_utils.` and
/// no NUL — comes through preprocessing unchanged, whatever the variables,
/// table reference and incremental flag.
pub proof fn law_plain_sql_is_untouched(
    sql: Seq<char>,
    vars: Seq<(Seq<char>, String)>,
    table_ref: Seq<char>,
    is_incremental: bool,
)
    requires
        !has_nul(sql),
        !contains(sql, close_delim()),
        !contains(sql, "{{ this }}"@),
        !contains(sql, "{{this}}"@),
        !contains(sql, var_open()),
        !contains(sql, dbt_utils_prefix()),
    ensures
        preprocessed(sql, vars, table_ref, is_incremental) == Ok::<Seq<char>, PreprocessFailure>(
            sql,
        ),
{
    assert(sql.subrange(0, sql.len() as int) =~= sql);
    lemma_split_none(sql, TagKind::Raw, 0);
    assert(protect_from(sql, 0) == sql);
    lemma_split_none(sql, TagKind::IfIsIncremental, 0);
    assert(incremental_from(sql, is_incremental, 0) == sql);
    lemma_replace_none(sql, "{{ this }}"@, table_ref);
    lemma_replace_none(sql, "{{this}}"@, table_ref);
    lemma_var_none(sql, 0);
    assert(vars_from(sql, vars, 0) == Ok::<Seq<char>, Seq<char>>(sql));
    lemma_no_match(sql, dbt_utils_prefix(), 0);
    assert(builtins_once_from(sql, 0) == sql);
}

} // verus!
