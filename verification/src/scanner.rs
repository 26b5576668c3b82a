//! The dbt template scanner: splits SQL into plain text and `{{ ... }}`
//! expressions classified as `config()`, `ref()`, `source()` or macro calls,
//! and reads the arguments of a `config(...)` call.
use vstd::prelude::*;

use crate::text::{
    chars_of, eq_ignore_case, first_match, ends_with, find_char, find_chars, find_from, lemma_find_from_facts,
    range_eq_ignore_case, trim, trim_bounds, trim_by, trim_ws, TrimSet,
};

verus! {

// ───────────────────────── segments ─────────────────────────

/// A piece of scanned SQL, as text.
pub enum SpecSegment {
    Sql(Seq<char>),
    Config { raw_args: Seq<char> },
    Ref { model: Seq<char> },
    Source { source: Seq<char>, table: Seq<char> },
    Call { name: Seq<char>, raw_args: Seq<char> },
}

/// A piece of scanned SQL, borrowing from the input.
#[derive(Debug, Clone, Copy, PartialEq, Eq)]
pub enum DbtSegment<'a> {
    Sql(&'a str),
    Config { raw_args: &'a str },
    Ref { model: &'a str },
    Source { source: &'a str, table: &'a str },
    Call { name: &'a str, raw_args: &'a str },
}

impl<'a> View for DbtSegment<'a> {
    type V = SpecSegment;

    open spec fn view(&self) -> SpecSegment {
        match *self {
            DbtSegment::Sql(s) => SpecSegment::Sql(s@),
            DbtSegment::Config { raw_args } => SpecSegment::Config { raw_args: raw_args@ },
            DbtSegment::Ref { model } => SpecSegment::Ref { model: model@ },
            DbtSegment::Source { source, table } => SpecSegment::Source {
                source: source@,
                table: table@,
            },
            DbtSegment::Call { name, raw_args } => SpecSegment::Call {
                name: name@,
                raw_args: raw_args@,
            },
        }
    }
}

/// `s` begins with `prefix`, ignoring ASCII case (what `strip_prefix_ci` tests).
pub open spec fn has_prefix_ci(s: Seq<char>, prefix: Seq<char>) -> bool {
    prefix.len() <= s.len() && eq_ignore_case(s.subrange(0, prefix.len() as int), prefix)
}

/// `'value'` → `value`, after trimming; `None` unless quoted on both ends.
pub open spec fn single_quoted(s: Seq<char>) -> Option<Seq<char>> {
    let t = trim(s);
    if t.len() >= 2 && t[0] == '\'' && t[t.len() - 1] == '\'' {
        Some(t.subrange(1, t.len() - 1))
    } else {
        None
    }
}

/// `'a', 'b'` → `(a, b)`: split at the first comma, each side single-quoted.
pub open spec fn two_quoted(s: Seq<char>) -> Option<(Seq<char>, Seq<char>)> {
    match find_from(s, seq![','], 0) {
        None => None,
        Some(c) => match (
            single_quoted(trim(s.subrange(0, c))),
            single_quoted(trim(s.subrange(c + 1, s.len() as int))),
        ) {
            (Some(a), Some(b)) => Some((a, b)),
            _ => None,
        },
    }
}

/// What the inside of `{{ ... }}` (already trimmed) is: `config(...)`,
/// `ref('m')`, `source('s', 't')`, a call `name(...)`, or — anything else —
/// plain text (which [`template_segment`] widens to the whole template).
pub open spec fn classify(inner: Seq<char>) -> SpecSegment {
    let n = inner.len();
    if has_prefix_ci(inner, "config("@) && ends_with(inner, seq![')']) && "config("@.len() <= n - 1 {
        SpecSegment::Config { raw_args: inner.subrange("config("@.len() as int, n - 1) }
    } else if has_prefix_ci(inner, "ref("@) && ends_with(inner, seq![')']) && "ref("@.len() <= n - 1
        && single_quoted(inner.subrange("ref("@.len() as int, n - 1)) is Some {
        SpecSegment::Ref {
            model: single_quoted(inner.subrange("ref("@.len() as int, n - 1))->0,
        }
    } else if has_prefix_ci(inner, "source("@) && ends_with(inner, seq![')']) && "source("@.len()
        <= n - 1 && two_quoted(inner.subrange("source("@.len() as int, n - 1)) is Some {
        let p = two_quoted(inner.subrange("source("@.len() as int, n - 1))->0;
        SpecSegment::Source { source: p.0, table: p.1 }
    } else {
        match find_from(inner, seq!['('], 0) {
            Some(p) => {
                if trim(inner.subrange(0, p)).len() > 0 && ends_with(inner, seq![')']) && p < n - 1 {
                    SpecSegment::Call {
                        name: trim(inner.subrange(0, p)),
                        raw_args: inner.subrange(p + 1, n - 1),
                    }
                } else {
                    SpecSegment::Sql(inner)
                }
            },
            None => SpecSegment::Sql(inner),
        }
    }
}

/// The segment the template `s[b..c + 2]` (`{{`, the inside, `}}`) makes:
/// its classification, or, for an unrecognised expression, the whole
/// template text with its braces, so that it stays in the output as written.
pub open spec fn template_segment(s: Seq<char>, b: int, c: int) -> SpecSegment {
    match classify(trim(s.subrange(b + 2, c))) {
        SpecSegment::Sql(_) => SpecSegment::Sql(s.subrange(b, c + 2)),
        seg => seg,
    }
}

/// One step of the scanner over `s` from `pos`: the segment it yields, where
/// it continues, and whether it is done afterwards. `None` when nothing is
/// left.
///
/// Text up to a `{{` is one segment; a `{{ ... }}` is classified; a lone `{`
/// ends a segment of text that includes it; an unclosed `{{` makes the rest
/// text.
pub open spec fn scan_step(s: Seq<char>, pos: int) -> Option<(SpecSegment, int, bool)> {
    match find_from(s, seq!['{'], pos) {
        Some(b) => if b + 1 < s.len() && s[b + 1] == '{' {
            if b > pos {
                Some((SpecSegment::Sql(s.subrange(pos, b)), b, false))
            } else {
                match find_from(s, seq!['}', '}'], b + 2) {
                    Some(c) => Some((template_segment(s, b, c), c + 2, false)),
                    None => Some((SpecSegment::Sql(s.subrange(pos, s.len() as int)), pos, true)),
                }
            }
        } else {
            Some((SpecSegment::Sql(s.subrange(pos, b + 1)), b + 1, false))
        },
        None => if pos < s.len() {
            Some((SpecSegment::Sql(s.subrange(pos, s.len() as int)), pos, true))
        } else {
            None
        },
    }
}

pub proof fn lemma_scan_step_bounds(s: Seq<char>, pos: int)
    requires
        0 <= pos <= s.len(),
    ensures
        scan_step(s, pos) matches Some((seg, p2, d)) ==> (d || pos < p2 <= s.len()),
{
    lemma_find_from_facts(s, seq!['{'], pos);
    if let Some(b) = find_from(s, seq!['{'], pos) {
        lemma_find_from_facts(s, seq!['}', '}'], b + 2);
    }
}

/// Every segment the scanner yields from `pos` on, in order.
pub open spec fn scan_from(s: Seq<char>, pos: int, done: bool) -> Seq<SpecSegment>
    decreases (if done { 0 } else { s.len() + 1 - pos }),
{
    if done || pos < 0 || pos > s.len() {
        Seq::empty()
    } else {
        match scan_step(s, pos) {
            None => Seq::empty(),
            Some((seg, p2, d)) => {
                proof {
                    lemma_scan_step_bounds(s, pos);
                }
                seq![seg] + scan_from(s, p2, d)
            },
        }
    }
}

/// Every segment of `s`.
pub open spec fn segments_of(s: Seq<char>) -> Seq<SpecSegment> {
    scan_from(s, 0, false)
}

/// A scanner over SQL text that yields its segments one at a time.
pub struct DbtScanner<'a> {
    input: &'a str,
    chars: Vec<char>,
    pos: usize,
    done: bool,
}

impl<'a> DbtScanner<'a> {
    /// The whole input.
    pub closed spec fn input_text(&self) -> Seq<char> {
        self.input@
    }

    /// Where the next segment starts.
    pub closed spec fn position(&self) -> int {
        self.pos as int
    }

    /// Whether the scanner has finished.
    pub closed spec fn is_done(&self) -> bool {
        self.done
    }

    pub closed spec fn wf(&self) -> bool {
        self.chars@ == self.input@ && self.pos <= self.chars@.len()
    }

    /// The segments still to come.
    pub open spec fn remaining(&self) -> Seq<SpecSegment> {
        scan_from(self.input_text(), self.position(), self.is_done())
    }

    pub fn new(input: &'a str) -> (r: Self)
        ensures
            r.wf(),
            r.input_text() == input@,
            r.remaining() == segments_of(input@),
    {
        DbtScanner { input, chars: chars_of(input), pos: 0, done: false }
    }

    /// The segment `classify` makes of `self.chars[lo..hi]`, borrowing from the input.
    fn classify_range(&self, lo: usize, hi: usize) -> (r: DbtSegment<'a>)
        requires
            self.wf(),
            lo <= hi <= self.chars@.len(),
        ensures
            r@ == classify(self.input@.subrange(lo as int, hi as int)),
    {
        classify_template(self.input, &self.chars, lo, hi)
    }

    /// The next segment.
    pub fn next(&mut self) -> (r: Option<DbtSegment<'a>>)
        requires
            old(self).wf(),
        ensures
            final(self).wf(),
            final(self).input_text() == old(self).input_text(),
            old(self).remaining().len() == 0 ==> r is None && final(self).remaining().len() == 0,
            old(self).remaining().len() > 0 ==> (r matches Some(seg) && seg@ == old(self).remaining()[0]
                && final(self).remaining() == old(self).remaining().drop_first()),
    {
        let ghost s = self.input@;
        let ghost pos0 = self.pos as int;
        if self.done {
            return None;
        }
        let start = self.pos;
        proof {
            lemma_scan_step_bounds(s, pos0);
            lemma_find_from_facts(self.chars@, seq!['{'], pos0);
        }
        match find_char(&self.chars, '{', start) {
            Some(b) => {
                assert(first_match(self.chars@, seq!['{'], pos0, b as int));
                let n = self.chars.len();
                assert(b < n);
                let b1: usize = b + 1;
                if b1 < self.chars.len() && self.chars[b1] == '{' {
                    if b > start {
                        self.pos = b;
                        let seg = DbtSegment::Sql(self.input.substring_char(start, b));
                        proof {
                            assert(scan_from(s, pos0, false) == seq![seg@] + scan_from(s, b as int, false));
                            assert(scan_from(s, pos0, false).drop_first() =~= scan_from(s, b as int, false));
                        }
                        return Some(seg);
                    }
                    let pat = vec!['}', '}'];
                    assert(pat@ =~= seq!['}', '}']);
                    proof {
                        lemma_find_from_facts(s, seq!['}', '}'], b + 2);
                    }
                    match find_chars(&self.chars, &pat, b + 2) {
                        Some(c) => {
                            let (x, y) = trim_ws(&self.chars, b + 2, c);
                            let classified = self.classify_range(x, y);
                            let seg = match classified {
                                DbtSegment::Sql(_) => DbtSegment::Sql(self.input.substring_char(b, c + 2)),
                                other => other,
                            };
                            self.pos = c + 2;
                            proof {
                                assert(scan_from(s, pos0, false) == seq![seg@] + scan_from(s, c + 2, false));
                                assert(scan_from(s, pos0, false).drop_first() =~= scan_from(s, c + 2, false));
                            }
                            Some(seg)
                        },
                        None => {
                            self.done = true;
                            let seg = DbtSegment::Sql(self.input.substring_char(start, self.chars.len()));
                            proof {
                                assert(scan_from(s, pos0, false) == seq![seg@] + scan_from(s, pos0, true));
                                assert(scan_from(s, pos0, false).drop_first() =~= scan_from(s, pos0, true));
                            }
                            Some(seg)
                        },
                    }
                } else {
                    self.pos = b1;
                    let seg = DbtSegment::Sql(self.input.substring_char(start, b1));
                    proof {
                        assert(scan_from(s, pos0, false) == seq![seg@] + scan_from(s, b + 1, false));
                        assert(scan_from(s, pos0, false).drop_first() =~= scan_from(s, b + 1, false));
                    }
                    Some(seg)
                }
            },
            None => {
                self.done = true;
                if start < self.chars.len() {
                    let seg = DbtSegment::Sql(self.input.substring_char(start, self.chars.len()));
                    proof {
                        assert(scan_from(s, pos0, false) == seq![seg@] + scan_from(s, pos0, true));
                        assert(scan_from(s, pos0, false).drop_first() =~= scan_from(s, pos0, true));
                    }
                    Some(seg)
                } else {
                    None
                }
            },
        }
    }

    /// Every remaining segment, in order.
    pub fn collect(self) -> (r: Vec<DbtSegment<'a>>)
        requires
            self.wf(),
        ensures
            r@.map_values(|g: DbtSegment<'a>| g@) == self.remaining(),
    {
        let ghost all = self.remaining();
        let mut it = self;
        let mut r: Vec<DbtSegment<'a>> = Vec::new();
        loop
            invariant
                it.wf(),
                all == self.remaining(),
                r@.map_values(|g: DbtSegment<'a>| g@) + it.remaining() == all,
            decreases it.remaining().len(),
        {
            let ghost before = r@.map_values(|g: DbtSegment<'a>| g@);
            let ghost rem = it.remaining();
            match it.next() {
                Some(seg) => {
                    r.push(seg);
                    proof {
                        assert(r@.map_values(|g: DbtSegment<'a>| g@) =~= before.push(seg@));
                        assert(before.push(seg@) + rem.drop_first() =~= before + rem);
                    }
                },
                None => {
                    proof {
                        assert(before + rem =~= before);
                    }
                    return r;
                },
            }
        }
    }
}

// ───────────────────────── classification ─────────────────────────

/// Whether `s[lo..hi]` begins with `prefix` ignoring ASCII case.
fn prefix_ci(s: &Vec<char>, lo: usize, hi: usize, prefix: &Vec<char>) -> (r: bool)
    requires
        lo <= hi <= s.len(),
    ensures
        r == has_prefix_ci(s@.subrange(lo as int, hi as int), prefix@),
{
    if prefix.len() > hi - lo {
        return false;
    }
    let r = range_eq_ignore_case(s, lo, lo + prefix.len(), prefix);
    assert(s@.subrange(lo as int, hi as int).subrange(0, prefix@.len() as int) =~= s@.subrange(
        lo as int,
        lo + prefix@.len(),
    ));
    r
}

/// `single_quoted(s[lo..hi])` as bounds.
fn single_quoted_bounds(s: &Vec<char>, lo: usize, hi: usize) -> (r: Option<(usize, usize)>)
    requires
        lo <= hi <= s.len(),
    ensures
        r matches Some((a, b)) ==> a <= b <= s.len() && single_quoted(s@.subrange(lo as int, hi as int))
            == Some(s@.subrange(a as int, b as int)),
        r is None ==> single_quoted(s@.subrange(lo as int, hi as int)) is None,
{
    let (a, b) = trim_ws(s, lo, hi);
    if b - a >= 2 && s[a] == '\'' && s[b - 1] == '\'' {
        let ghost t = s@.subrange(a as int, b as int);
        assert(t[0] == s@[a as int]);
        assert(t[t.len() - 1] == s@[b - 1]);
        assert(t.subrange(1, t.len() - 1) =~= s@.subrange(a + 1, b - 1));
        Some((a + 1, b - 1))
    } else {
        proof {
            let t = s@.subrange(a as int, b as int);
            if t.len() >= 2 {
                assert(t[0] == s@[a as int]);
                assert(t[t.len() - 1] == s@[b - 1]);
            }
        }
        None
    }
}

/// `two_quoted(s[lo..hi])` as bounds.
fn two_quoted_bounds(s: &Vec<char>, lo: usize, hi: usize) -> (r: Option<((usize, usize), (usize, usize))>)
    requires
        lo <= hi <= s.len(),
    ensures
        r matches Some((p, q)) ==> p.0 <= p.1 <= s.len() && q.0 <= q.1 <= s.len() && two_quoted(
            s@.subrange(lo as int, hi as int),
        ) == Some((s@.subrange(p.0 as int, p.1 as int), s@.subrange(q.0 as int, q.1 as int))),
        r is None ==> two_quoted(s@.subrange(lo as int, hi as int)) is None,
{
    let t = copy_chars(s, lo, hi);
    proof {
        lemma_find_from_facts(t@, seq![','], 0);
    }
    match find_char(&t, ',', 0) {
        None => None,
        Some(c) => {
            assert(t@.subrange(0, c as int) =~= s@.subrange(lo as int, lo + c));
            assert(t@.subrange(c + 1, t@.len() as int) =~= s@.subrange(lo + c + 1, hi as int));
            let (a1, b1) = trim_ws(s, lo, lo + c);
            let (a2, b2) = trim_ws(s, lo + c + 1, hi);
            match (single_quoted_bounds(s, a1, b1), single_quoted_bounds(s, a2, b2)) {
                (Some(p), Some(q)) => Some((p, q)),
                _ => None,
            }
        },
    }
}

/// Copies `s[lo..hi]`.
fn copy_chars(s: &Vec<char>, lo: usize, hi: usize) -> (r: Vec<char>)
    requires
        lo <= hi <= s.len(),
    ensures
        r@ == s@.subrange(lo as int, hi as int),
{
    let mut r: Vec<char> = Vec::new();
    let mut i = lo;
    while i < hi
        invariant
            lo <= i <= hi <= s.len(),
            r@ == s@.subrange(lo as int, i as int),
        decreases hi - i,
    {
        r.push(s[i]);
        assert(s@.subrange(lo as int, i + 1) =~= s@.subrange(lo as int, i as int).push(s@[i as int]));
        i += 1;
    }
    r
}

/// Classifies `input[lo..hi]` (the trimmed inside of `{{ ... }}`).
fn classify_template<'a>(input: &'a str, s: &Vec<char>, lo: usize, hi: usize) -> (r: DbtSegment<'a>)
    requires
        s@ == input@,
        lo <= hi <= s.len(),
    ensures
        r@ == classify(s@.subrange(lo as int, hi as int)),
{
    let ghost inner = s@.subrange(lo as int, hi as int);
    let n = hi - lo;
    let closes = n >= 1 && s[hi - 1] == ')';
    proof {
        if n >= 1 {
            assert(inner.subrange(inner.len() - 1, inner.len() as int) =~= seq![s@[hi - 1]]);
        }
        if n >= 1 && s@[hi - 1] != ')' {
            assert(seq![s@[hi - 1]][0] != seq![')'][0]);
        }
        assert(closes == ends_with(inner, seq![')']));
    }
    let config = chars_of("config(");
    let refp = chars_of("ref(");
    let source = chars_of("source(");
    if closes && prefix_ci(s, lo, hi, &config) && config.len() <= n - 1 {
        let seg = DbtSegment::Config { raw_args: input.substring_char(lo + config.len(), hi - 1) };
        assert(inner.subrange(config@.len() as int, n - 1) =~= s@.subrange(lo + config@.len(), hi - 1));
        return seg;
    }
    if closes && prefix_ci(s, lo, hi, &refp) && refp.len() <= n - 1 {
        assert(inner.subrange(refp@.len() as int, n - 1) =~= s@.subrange(lo + refp@.len(), hi - 1));
        if let Some((a, b)) = single_quoted_bounds(s, lo + refp.len(), hi - 1) {
            return DbtSegment::Ref { model: input.substring_char(a, b) };
        }
    }
    if closes && prefix_ci(s, lo, hi, &source) && source.len() <= n - 1 {
        assert(inner.subrange(source@.len() as int, n - 1) =~= s@.subrange(lo + source@.len(), hi - 1));
        if let Some((p, q)) = two_quoted_bounds(s, lo + source.len(), hi - 1) {
            return DbtSegment::Source {
                source: input.substring_char(p.0, p.1),
                table: input.substring_char(q.0, q.1),
            };
        }
    }
    let t = copy_chars(s, lo, hi);
    proof {
        lemma_find_from_facts(t@, seq!['('], 0);
    }
    match find_char(&t, '(', 0) {
        Some(p) => {
            let (a, b) = trim_ws(s, lo, lo + p);
            assert(t@.subrange(0, p as int) =~= s@.subrange(lo as int, lo + p));
            if a < b && closes && p < n - 1 {
                assert(inner.subrange(p + 1, n - 1) =~= s@.subrange(lo + p + 1, hi - 1));
                return DbtSegment::Call {
                    name: input.substring_char(a, b),
                    raw_args: input.substring_char(lo + p + 1, hi - 1),
                };
            }
            DbtSegment::Sql(input.substring_char(lo, hi))
        },
        None => DbtSegment::Sql(input.substring_char(lo, hi)),
    }
}

} // verus!

verus! {

// ───────────────────────── config arguments ─────────────────────────

/// A `config(...)` argument value, as text.
pub enum SpecConfigValue {
    Str(Seq<char>),
    Bool(bool),
    List(Seq<Seq<char>>),
    Dict(Seq<(Seq<char>, Seq<char>)>),
}

/// One `key=value` argument of `config(...)`, as text.
pub struct SpecConfigEntry {
    pub key: Seq<char>,
    pub value: SpecConfigValue,
}

/// A `config(...)` argument value, borrowing from the arguments.
pub enum ConfigValue<'a> {
    Str(&'a str),
    Bool(bool),
    List(Vec<&'a str>),
    Dict(Vec<(&'a str, &'a str)>),
}

/// One `key=value` argument of `config(...)`.
pub struct ConfigEntry<'a> {
    pub key: &'a str,
    pub value: ConfigValue<'a>,
}

impl<'a> View for ConfigValue<'a> {
    type V = SpecConfigValue;

    open spec fn view(&self) -> SpecConfigValue {
        match self {
            ConfigValue::Str(s) => SpecConfigValue::Str(s@),
            ConfigValue::Bool(b) => SpecConfigValue::Bool(*b),
            ConfigValue::List(v) => SpecConfigValue::List(v@.map_values(|x: &'a str| x@)),
            ConfigValue::Dict(v) => SpecConfigValue::Dict(
                v@.map_values(|p: (&'a str, &'a str)| (p.0@, p.1@)),
            ),
        }
    }
}

impl<'a> View for ConfigEntry<'a> {
    type V = SpecConfigEntry;

    open spec fn view(&self) -> SpecConfigEntry {
        SpecConfigEntry { key: self.key@, value: self.value@ }
    }
}

/// What follows a value: trimmed, one leading comma dropped, trimmed again.
pub open spec fn after_value(rest: Seq<char>) -> Seq<char> {
    let t = trim(rest);
    trim(
        if t.len() > 0 && t[0] == ',' {
            t.drop_first()
        } else {
            t
        },
    )
}

/// The single-quoted items of a list body `t[pos..]`, split at every comma;
/// unquoted items are dropped.
pub open spec fn list_items_from(t: Seq<char>, pos: int) -> Seq<Seq<char>>
    decreases t.len() - pos,
{
    if pos < 0 || pos > t.len() {
        Seq::empty()
    } else {
        let end = match find_from(t, seq![','], pos) {
            Some(i) => i,
            None => t.len() as int,
        };
        proof {
            lemma_find_from_facts(t, seq![','], pos);
        }
        let item = match single_quoted(t.subrange(pos, end)) {
            Some(x) => seq![x],
            None => Seq::empty(),
        };
        if end < t.len() {
            item + list_items_from(t, end + 1)
        } else {
            item
        }
    }
}

/// `x` with surrounding single quotes, then double quotes, removed.
pub open spec fn unquoted(x: Seq<char>) -> Seq<char> {
    trim_by(trim_by(x, TrimSet::Char('\'')), TrimSet::Char('"'))
}

/// One `key: value` pair of a dict body; `None` without a `:` or with an
/// empty key.
pub open spec fn dict_pair(p: Seq<char>) -> Option<(Seq<char>, Seq<char>)> {
    match find_from(p, seq![':'], 0) {
        None => None,
        Some(c) => {
            let k = unquoted(trim(p.subrange(0, c)));
            let v = unquoted(trim(p.subrange(c + 1, p.len() as int)));
            if k.len() == 0 {
                None
            } else {
                Some((k, v))
            }
        },
    }
}

/// The pairs of a dict body `t[pos..]`, split at every comma.
pub open spec fn dict_pairs_from(t: Seq<char>, pos: int) -> Seq<(Seq<char>, Seq<char>)>
    decreases t.len() - pos,
{
    if pos < 0 || pos > t.len() {
        Seq::empty()
    } else {
        let end = match find_from(t, seq![','], pos) {
            Some(i) => i,
            None => t.len() as int,
        };
        proof {
            lemma_find_from_facts(t, seq![','], pos);
        }
        let item = match dict_pair(t.subrange(pos, end)) {
            Some(x) => seq![x],
            None => Seq::empty(),
        };
        if end < t.len() {
            item + dict_pairs_from(t, end + 1)
        } else {
            item
        }
    }
}

/// A bare value: `true` and `false` (any ASCII case) are booleans, anything
/// else is text.
pub open spec fn bare_value(v: Seq<char>) -> SpecConfigValue {
    if eq_ignore_case(v, "true"@) {
        SpecConfigValue::Bool(true)
    } else if eq_ignore_case(v, "false"@) {
        SpecConfigValue::Bool(false)
    } else {
        SpecConfigValue::Str(v)
    }
}

/// The value at the start of `a` (the trimmed text after `=`) and the text
/// left after it: a quoted string, a `{...}` dict, a `[...]` list, or a bare
/// value up to the next comma. `None` when a quote or bracket is not closed.
pub open spec fn value_step(a: Seq<char>) -> Option<(SpecConfigValue, Seq<char>)> {
    if a.len() > 0 && a[0] == '\'' {
        let st = a.drop_first();
        match find_from(st, seq!['\''], 0) {
            None => None,
            Some(q) => Some(
                (SpecConfigValue::Str(st.subrange(0, q)), after_value(st.subrange(q + 1, st.len() as int))),
            ),
        }
    } else if a.len() > 0 && a[0] == '{' {
        match find_from(a, seq!['}'], 0) {
            None => None,
            Some(b) => Some(
                (
                    SpecConfigValue::Dict(dict_pairs_from(a.subrange(1, b), 0)),
                    after_value(a.subrange(b + 1, a.len() as int)),
                ),
            ),
        }
    } else if a.len() > 0 && a[0] == '[' {
        match find_from(a, seq![']'], 0) {
            None => None,
            Some(b) => Some(
                (
                    SpecConfigValue::List(list_items_from(a.subrange(1, b), 0)),
                    after_value(a.subrange(b + 1, a.len() as int)),
                ),
            ),
        }
    } else {
        match find_from(a, seq![','], 0) {
            Some(c) => Some(
                (bare_value(trim(a.subrange(0, c))), trim(a.subrange(c + 1, a.len() as int))),
            ),
            None => Some((bare_value(trim(a)), Seq::empty())),
        }
    }
}

/// The next argument of `rem` and the text left after it; `None` when `rem`
/// is empty or malformed (then nothing is consumed).
pub open spec fn config_step(rem: Seq<char>) -> Option<(SpecConfigEntry, Seq<char>)> {
    if rem.len() == 0 {
        None
    } else {
        match find_from(rem, seq!['='], 0) {
            None => None,
            Some(e) => match value_step(trim(rem.subrange(e + 1, rem.len() as int))) {
                None => None,
                Some((v, rest)) => Some((SpecConfigEntry { key: trim(rem.subrange(0, e)), value: v }, rest)),
            },
        }
    }
}

proof fn lemma_value_step_len(a: Seq<char>)
    ensures
        value_step(a) matches Some((v, r)) ==> r.len() <= a.len(),
{
    if a.len() > 0 && a[0] == '\'' {
        let st = a.drop_first();
        lemma_find_from_facts(st, seq!['\''], 0);
        if let Some(q) = find_from(st, seq!['\''], 0) {
            lemma_after_value_len(st.subrange(q + 1, st.len() as int));
        }
    } else if a.len() > 0 && a[0] == '{' {
        lemma_find_from_facts(a, seq!['}'], 0);
        if let Some(b) = find_from(a, seq!['}'], 0) {
            lemma_after_value_len(a.subrange(b + 1, a.len() as int));
        }
    } else if a.len() > 0 && a[0] == '[' {
        lemma_find_from_facts(a, seq![']'], 0);
        if let Some(b) = find_from(a, seq![']'], 0) {
            lemma_after_value_len(a.subrange(b + 1, a.len() as int));
        }
    } else {
        lemma_find_from_facts(a, seq![','], 0);
        if let Some(c) = find_from(a, seq![','], 0) {
            crate::text::lemma_trim_by_len(a.subrange(c + 1, a.len() as int), TrimSet::Whitespace);
        }
    }
}

pub proof fn lemma_config_step_shrinks(rem: Seq<char>)
    ensures
        config_step(rem) matches Some((e, r)) ==> r.len() < rem.len(),
{
    if rem.len() > 0 {
        lemma_find_from_facts(rem, seq!['='], 0);
        if let Some(e) = find_from(rem, seq!['='], 0) {
            let tail = rem.subrange(e + 1, rem.len() as int);
            crate::text::lemma_trim_by_len(tail, TrimSet::Whitespace);
            lemma_value_step_len(trim(tail));
        }
    }
}

proof fn lemma_after_value_len(rest: Seq<char>)
    ensures
        after_value(rest).len() <= rest.len(),
{
    let t = trim(rest);
    crate::text::lemma_trim_by_len(rest, TrimSet::Whitespace);
    let u = if t.len() > 0 && t[0] == ',' {
        t.drop_first()
    } else {
        t
    };
    crate::text::lemma_trim_by_len(u, TrimSet::Whitespace);
}

/// Every argument of `rem`, in order, up to the first malformed one.
pub open spec fn config_entries(rem: Seq<char>) -> Seq<SpecConfigEntry>
    decreases rem.len(),
{
    match config_step(rem) {
        None => Seq::empty(),
        Some((e, r)) => {
            proof {
                lemma_config_step_shrinks(rem);
            }
            seq![e] + config_entries(r)
        },
    }
}

/// Reads the `key=value` arguments of a `config(...)` call one at a time.
pub struct ConfigArgIter<'a> {
    remaining: &'a str,
}

impl<'a> View for ConfigArgIter<'a> {
    type V = Seq<char>;

    closed spec fn view(&self) -> Seq<char> {
        self.remaining@
    }
}

/// Trimmed `s`, borrowing from it.
fn trim_str<'a>(s: &'a str) -> (r: &'a str)
    ensures
        r@ == trim(s@),
{
    let c = chars_of(s);
    let (a, b) = trim_ws(&c, 0, c.len());
    assert(c@.subrange(0, c@.len() as int) =~= c@);
    s.substring_char(a, b)
}

impl<'a> ConfigArgIter<'a> {
    pub fn new(raw_args: &'a str) -> (r: Self)
        ensures
            r@ == trim(raw_args@),
    {
        ConfigArgIter { remaining: trim_str(raw_args) }
    }

    /// The next argument; `None` (consuming nothing) when none is left or the
    /// next one is malformed.
    pub fn next(&mut self) -> (r: Option<ConfigEntry<'a>>)
        ensures
            match config_step(old(self)@) {
                None => r is None && final(self)@ == old(self)@,
                Some((e, rest)) => r matches Some(x) && x@ == e && final(self)@ == rest,
            },
    {
        let rem = self.remaining;
        let s = chars_of(rem);
        if s.len() == 0 {
            return None;
        }
        proof {
            lemma_find_from_facts(s@, seq!['='], 0);
        }
        let e = match find_char(&s, '=', 0) {
            None => {
                return None;
            },
            Some(e) => e,
        };
        let (k0, k1) = trim_ws(&s, 0, e);
        let key = rem.substring_char(k0, k1);
        let (a0, a1) = trim_ws(&s, e + 1, s.len());
        match value_at(rem, &s, a0, a1) {
            None => None,
            Some((value, rest)) => {
                self.remaining = rest;
                Some(ConfigEntry { key, value })
            },
        }
    }

    /// Every remaining argument, up to the first malformed one.
    pub fn collect(self) -> (r: Vec<ConfigEntry<'a>>)
        ensures
            r@.map_values(|e: ConfigEntry<'a>| e@) == config_entries(self@),
    {
        let ghost all = config_entries(self@);
        let mut it = self;
        let mut r: Vec<ConfigEntry<'a>> = Vec::new();
        loop
            invariant
                all == config_entries(self@),
                r@.map_values(|e: ConfigEntry<'a>| e@) + config_entries(it@) == all,
            decreases it@.len(),
        {
            let ghost before = r@.map_values(|e: ConfigEntry<'a>| e@);
            let ghost rem = it@;
            proof {
                lemma_config_step_shrinks(rem);
            }
            match it.next() {
                Some(e) => {
                    let ghost ev = e@;
                    r.push(e);
                    proof {
                        assert(r@.map_values(|e: ConfigEntry<'a>| e@) =~= before.push(ev));
                        assert(config_entries(rem) == seq![ev] + config_entries(it@));
                        assert(before.push(ev) + config_entries(it@) =~= before + (seq![ev]
                            + config_entries(it@)));
                    }
                },
                None => {
                    proof {
                        assert(before + config_entries(rem) =~= before);
                    }
                    return r;
                },
            }
        }
    }
}

/// `value_step(s[a0..a1])`, borrowing from `src`.
fn value_at<'a>(src: &'a str, s: &Vec<char>, a0: usize, a1: usize) -> (r: Option<(ConfigValue<'a>, &'a str)>)
    requires
        s@ == src@,
        a0 <= a1 <= s.len(),
    ensures
        match value_step(s@.subrange(a0 as int, a1 as int)) {
            None => r is None,
            Some((v, rest)) => r matches Some((x, t)) && x@ == v && t@ == rest,
        },
{
    let ghost a = s@.subrange(a0 as int, a1 as int);
    if a0 < a1 && s[a0] == '\'' {
        quoted_value(src, s, a0, a1)
    } else if a0 < a1 && s[a0] == '{' {
        bracketed_value(src, s, a0, a1, true)
    } else if a0 < a1 && s[a0] == '[' {
        bracketed_value(src, s, a0, a1, false)
    } else {
        proof {
            if a.len() > 0 {
                assert(a[0] == s@[a0 as int]);
            }
        }
        bare_step(src, s, a0, a1)
    }
}

fn quoted_value<'a>(src: &'a str, s: &Vec<char>, a0: usize, a1: usize) -> (r: Option<(ConfigValue<'a>, &'a str)>)
    requires
        s@ == src@,
        a0 < a1 <= s.len(),
        s@[a0 as int] == '\'',
    ensures
        match value_step(s@.subrange(a0 as int, a1 as int)) {
            None => r is None,
            Some((v, rest)) => r matches Some((x, t)) && x@ == v && t@ == rest,
        },
{
    let ghost a = s@.subrange(a0 as int, a1 as int);
    assert(a[0] == '\'');
    let st = copy_chars(s, a0 + 1, a1);
    assert(st@ =~= a.drop_first());
    proof {
        lemma_find_from_facts(st@, seq!['\''], 0);
    }
    match find_char(&st, '\'', 0) {
        None => None,
        Some(q) => {
            let value = src.substring_char(a0 + 1, a0 + 1 + q);
            assert(st@.subrange(0, q as int) =~= s@.subrange(a0 + 1, a0 + 1 + q));
            let rest = after_value_str(src, s, a0 + 1 + q + 1, a1);
            assert(st@.subrange(q + 1, st@.len() as int) =~= s@.subrange(a0 + 1 + q + 1, a1 as int));
            Some((ConfigValue::Str(value), rest))
        },
    }
}

fn bracketed_value<'a>(src: &'a str, s: &Vec<char>, a0: usize, a1: usize, dict: bool) -> (r: Option<(ConfigValue<'a>, &'a str)>)
    requires
        s@ == src@,
        a0 < a1 <= s.len(),
        dict ==> s@[a0 as int] == '{',
        !dict ==> s@[a0 as int] == '[',
    ensures
        match value_step(s@.subrange(a0 as int, a1 as int)) {
            None => r is None,
            Some((v, rest)) => r matches Some((x, t)) && x@ == v && t@ == rest,
        },
{
    let ghost a = s@.subrange(a0 as int, a1 as int);
    let close = if dict { '}' } else { ']' };
    let av = copy_chars(s, a0, a1);
    assert(av@ =~= a);
    assert(av@[0] == s@[a0 as int]);
    proof {
        lemma_find_from_facts(av@, seq![close], 0);
    }
    match find_char(&av, close, 0) {
        None => None,
        Some(b) => {
            assert(av@.subrange(b as int, b + 1)[0] == av@[b as int]);
            assert(b >= 1);
            assert(av@.subrange(1, b as int) =~= s@.subrange(a0 + 1, a0 + b));
            let rest = after_value_str(src, s, a0 + b + 1, a1);
            assert(av@.subrange(b + 1, av@.len() as int) =~= s@.subrange(a0 + b + 1, a1 as int));
            if dict {
                let pairs = dict_pairs(src, s, a0 + 1, a0 + b);
                Some((ConfigValue::Dict(pairs), rest))
            } else {
                let items = list_items(src, s, a0 + 1, a0 + b);
                Some((ConfigValue::List(items), rest))
            }
        },
    }
}

fn bare_step<'a>(src: &'a str, s: &Vec<char>, a0: usize, a1: usize) -> (r: Option<(ConfigValue<'a>, &'a str)>)
    requires
        s@ == src@,
        a0 <= a1 <= s.len(),
        !(a0 < a1 && (s@[a0 as int] == '\'' || s@[a0 as int] == '{' || s@[a0 as int] == '[')),
    ensures
        match value_step(s@.subrange(a0 as int, a1 as int)) {
            None => r is None,
            Some((v, rest)) => r matches Some((x, t)) && x@ == v && t@ == rest,
        },
{
    let ghost a = s@.subrange(a0 as int, a1 as int);
    proof {
        if a.len() > 0 {
            assert(a[0] == s@[a0 as int]);
        }
    }
    let av = copy_chars(s, a0, a1);
    proof {
        lemma_find_from_facts(av@, seq![','], 0);
    }
    match find_char(&av, ',', 0) {
        Some(c) => {
            let (v0, v1) = trim_ws(s, a0, a0 + c);
            assert(av@.subrange(0, c as int) =~= s@.subrange(a0 as int, a0 + c));
            let (r0, r1) = trim_ws(s, a0 + c + 1, a1);
            assert(av@.subrange(c + 1, av@.len() as int) =~= s@.subrange(a0 + c + 1, a1 as int));
            let value = bare(src, s, v0, v1);
            Some((value, src.substring_char(r0, r1)))
        },
        None => {
            let (v0, v1) = trim_ws(s, a0, a1);
            let value = bare(src, s, v0, v1);
            let rest = src.substring_char(a1, a1);
            assert(rest@ =~= Seq::<char>::empty());
            Some((value, rest))
        },
    }
}

/// `after_value(s[lo..hi])`, borrowing from `src`.
fn after_value_str<'a>(src: &'a str, s: &Vec<char>, lo: usize, hi: usize) -> (r: &'a str)
    requires
        s@ == src@,
        lo <= hi <= s.len(),
    ensures
        r@ == after_value(s@.subrange(lo as int, hi as int)),
{
    let (t0, t1) = trim_ws(s, lo, hi);
    let ghost t = s@.subrange(t0 as int, t1 as int);
    let u0 = if t0 < t1 && s[t0] == ',' {
        assert(t[0] == s@[t0 as int]);
        assert(t.drop_first() =~= s@.subrange(t0 + 1, t1 as int));
        t0 + 1
    } else {
        proof {
            if t.len() > 0 {
                assert(t[0] == s@[t0 as int]);
            }
        }
        t0
    };
    let (w0, w1) = trim_ws(s, u0, t1);
    src.substring_char(w0, w1)
}

/// The boolean or text a bare value `s[lo..hi]` stands for.
fn bare<'a>(src: &'a str, s: &Vec<char>, lo: usize, hi: usize) -> (r: ConfigValue<'a>)
    requires
        s@ == src@,
        lo <= hi <= s.len(),
    ensures
        r@ == bare_value(s@.subrange(lo as int, hi as int)),
{
    let t = chars_of("true");
    let f = chars_of("false");
    if range_eq_ignore_case(s, lo, hi, &t) {
        ConfigValue::Bool(true)
    } else if range_eq_ignore_case(s, lo, hi, &f) {
        ConfigValue::Bool(false)
    } else {
        ConfigValue::Str(src.substring_char(lo, hi))
    }
}

/// The list items of `s[lo..hi]`, borrowing from `src`.
fn list_items<'a>(src: &'a str, s: &Vec<char>, lo: usize, hi: usize) -> (r: Vec<&'a str>)
    requires
        s@ == src@,
        lo <= hi <= s.len(),
    ensures
        r@.map_values(|x: &'a str| x@) == list_items_from(s@.subrange(lo as int, hi as int), 0),
{
    let t = copy_chars(s, lo, hi);
    let mut r: Vec<&'a str> = Vec::new();
    let mut pos: usize = 0;
    loop
        invariant
            pos <= t.len(),
            t@ == s@.subrange(lo as int, hi as int),
            lo <= hi <= s.len(),
            s@ == src@,
            r@.map_values(|x: &'a str| x@) + list_items_from(t@, pos as int) == list_items_from(
                t@,
                0,
            ),
        decreases t.len() - pos,
    {
        let ghost before = r@.map_values(|x: &'a str| x@);
        proof {
            lemma_find_from_facts(t@, seq![','], pos as int);
        }
        let found = find_char(&t, ',', pos);
        let end = match found {
            Some(i) => i,
            None => t.len(),
        };
        assert(t@.subrange(pos as int, end as int) =~= s@.subrange(lo + pos, lo + end));
        let ghost item = match single_quoted(t@.subrange(pos as int, end as int)) {
            Some(x) => seq![x],
            None => Seq::<Seq<char>>::empty(),
        };
        match single_quoted_bounds(s, lo + pos, lo + end) {
            Some((a, b)) => {
                r.push(src.substring_char(a, b));
                proof {
                    assert(r@.map_values(|x: &'a str| x@) =~= before + item);
                }
            },
            None => {
                proof {
                    assert(before + item =~= before);
                }
            },
        }
        if end < t.len() {
            proof {
                assert(list_items_from(t@, pos as int) == item + list_items_from(t@, end + 1));
                assert(before + item + list_items_from(t@, end + 1) =~= before + (item
                    + list_items_from(t@, end + 1)));
            }
            pos = end + 1;
        } else {
            proof {
                assert(list_items_from(t@, pos as int) == item);
            }
            return r;
        }
    }
}

/// The dict pairs of `s[lo..hi]`, borrowing from `src`.
fn dict_pairs<'a>(src: &'a str, s: &Vec<char>, lo: usize, hi: usize) -> (r: Vec<(&'a str, &'a str)>)
    requires
        s@ == src@,
        lo <= hi <= s.len(),
    ensures
        r@.map_values(|p: (&'a str, &'a str)| (p.0@, p.1@)) == dict_pairs_from(
            s@.subrange(lo as int, hi as int),
            0,
        ),
{
    let t = copy_chars(s, lo, hi);
    let mut r: Vec<(&'a str, &'a str)> = Vec::new();
    let mut pos: usize = 0;
    loop
        invariant
            pos <= t.len(),
            t@ == s@.subrange(lo as int, hi as int),
            lo <= hi <= s.len(),
            s@ == src@,
            r@.map_values(|p: (&'a str, &'a str)| (p.0@, p.1@)) + dict_pairs_from(t@, pos as int)
                == dict_pairs_from(t@, 0),
        decreases t.len() - pos,
    {
        let ghost before = r@.map_values(|p: (&'a str, &'a str)| (p.0@, p.1@));
        proof {
            lemma_find_from_facts(t@, seq![','], pos as int);
        }
        let found = find_char(&t, ',', pos);
        let end = match found {
            Some(i) => i,
            None => t.len(),
        };
        let ghost piece = t@.subrange(pos as int, end as int);
        let ghost item = match dict_pair(piece) {
            Some(x) => seq![x],
            None => Seq::<(Seq<char>, Seq<char>)>::empty(),
        };
        match dict_pair_bounds(s, lo + pos, lo + end) {
            Some((k, v)) => {
                assert(piece =~= s@.subrange(lo + pos, lo + end));
                r.push((src.substring_char(k.0, k.1), src.substring_char(v.0, v.1)));
                proof {
                    assert(r@.map_values(|p: (&'a str, &'a str)| (p.0@, p.1@)) =~= before + item);
                }
            },
            None => {
                assert(piece =~= s@.subrange(lo + pos, lo + end));
                proof {
                    assert(before + item =~= before);
                }
            },
        }
        if end < t.len() {
            proof {
                assert(dict_pairs_from(t@, pos as int) == item + dict_pairs_from(t@, end + 1));
                assert(before + item + dict_pairs_from(t@, end + 1) =~= before + (item
                    + dict_pairs_from(t@, end + 1)));
            }
            pos = end + 1;
        } else {
            proof {
                assert(dict_pairs_from(t@, pos as int) == item);
            }
            return r;
        }
    }
}

/// `dict_pair(s[lo..hi])` as bounds of key and value.
fn dict_pair_bounds(s: &Vec<char>, lo: usize, hi: usize) -> (r: Option<((usize, usize), (usize, usize))>)
    requires
        lo <= hi <= s.len(),
    ensures
        r matches Some((k, v)) ==> k.0 <= k.1 <= s.len() && v.0 <= v.1 <= s.len() && dict_pair(
            s@.subrange(lo as int, hi as int),
        ) == Some((s@.subrange(k.0 as int, k.1 as int), s@.subrange(v.0 as int, v.1 as int))),
        r is None ==> dict_pair(s@.subrange(lo as int, hi as int)) is None,
{
    let p = copy_chars(s, lo, hi);
    proof {
        lemma_find_from_facts(p@, seq![':'], 0);
    }
    match find_char(&p, ':', 0) {
        None => None,
        Some(c) => {
            assert(p@.subrange(0, c as int) =~= s@.subrange(lo as int, lo + c));
            assert(p@.subrange(c + 1, p@.len() as int) =~= s@.subrange(lo + c + 1, hi as int));
            let (k0, k1) = trim_ws(s, lo, lo + c);
            let (k2, k3) = trim_bounds(s, k0, k1, TrimSet::Char('\''));
            let (k4, k5) = trim_bounds(s, k2, k3, TrimSet::Char('"'));
            let (v0, v1) = trim_ws(s, lo + c + 1, hi);
            let (v2, v3) = trim_bounds(s, v0, v1, TrimSet::Char('\''));
            let (v4, v5) = trim_bounds(s, v2, v3, TrimSet::Char('"'));
            if k4 == k5 {
                None
            } else {
                Some(((k4, k5), (v4, v5)))
            }
        },
    }
}

} // verus!
