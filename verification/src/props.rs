//! Resource properties: the structured values a deployment engine sends as
//! a resource's inputs and keeps as its outputs, and the typed reads and
//! writes the resources make of them.
//!
//! Numbers are held as integers: every number a resource reads or writes is
//! a whole one (a count, a byte limit, days, minutes). The edge converts.
use vstd::prelude::*;

use crate::strmap::{lemma_lex_irreflexive, lemma_lookup_at, lookup, sorted_keys, StrMap};

verus! {

/// One property value.
pub enum PropValue {
    Null,
    Bool(bool),
    Number(i64),
    Text(String),
    List(Vec<PropValue>),
    Fields(Props),
}

/// A set of named property values.
pub struct Props {
    pub fields: StrMap<PropValue>,
}

/// The text under `k`, when the value there is text.
pub open spec fn text_at(p: Props, k: Seq<char>) -> Option<Seq<char>> {
    match lookup(p.fields@, k) {
        Some(PropValue::Text(s)) => Some(s@),
        _ => None,
    }
}

/// The flag under `k`, when the value there is one.
pub open spec fn bool_at(p: Props, k: Seq<char>) -> Option<bool> {
    match lookup(p.fields@, k) {
        Some(PropValue::Bool(b)) => Some(b),
        _ => None,
    }
}

/// The number under `k`, when the value there is one.
pub open spec fn number_at(p: Props, k: Seq<char>) -> Option<i64> {
    match lookup(p.fields@, k) {
        Some(PropValue::Number(n)) => Some(n),
        _ => None,
    }
}

/// The list under `k`, when the value there is one.
pub open spec fn list_at(p: Props, k: Seq<char>) -> Option<Seq<PropValue>> {
    match lookup(p.fields@, k) {
        Some(PropValue::List(l)) => Some(l@),
        _ => None,
    }
}

/// The nested properties under `k`, when the value there is a set of them.
pub open spec fn fields_at(p: Props, k: Seq<char>) -> Option<Props> {
    match lookup(p.fields@, k) {
        Some(PropValue::Fields(f)) => Some(f),
        _ => None,
    }
}

/// The texts among `items`, in order; other values are skipped.
pub open spec fn texts_in(items: Seq<PropValue>) -> Seq<Seq<char>>
    decreases items.len(),
{
    if items.len() == 0 {
        Seq::empty()
    } else {
        texts_in(items.drop_last()) + match items.last() {
            PropValue::Text(s) => seq![s@],
            _ => Seq::empty(),
        }
    }
}

/// The texts of the list under `k`; none when there is no list.
pub open spec fn text_list_at(p: Props, k: Seq<char>) -> Seq<Seq<char>> {
    match list_at(p, k) {
        Some(l) => texts_in(l),
        None => Seq::empty(),
    }
}

pub open spec fn str_views<'a>(v: Seq<&'a str>) -> Seq<Seq<char>> {
    v.map_values(|s: &'a str| s@)
}

impl PropValue {
    /// The text this value holds, when it is one.
    pub fn as_str(&self) -> (r: Option<&str>)
        ensures
            match r {
                Some(s) => self matches PropValue::Text(t) && t@ == s@,
                None => !(self is Text),
            },
    {
        match self {
            PropValue::Text(t) => Some(t.as_str()),
            _ => None,
        }
    }
}

impl Props {
    pub fn new() -> (r: Props)
        ensures
            r.fields@ == Seq::<(Seq<char>, PropValue)>::empty(),
    {
        Props { fields: StrMap::new() }
    }

    /// The text under `k`.
    pub fn get_str(&self, k: &str) -> (r: Option<&str>)
        ensures
            match r {
                Some(s) => text_at(*self, k@) == Some(s@),
                None => text_at(*self, k@) is None,
            },
    {
        match self.fields.get(k) {
            Some(PropValue::Text(s)) => Some(s.as_str()),
            _ => None,
        }
    }

    /// The flag under `k`.
    pub fn get_bool(&self, k: &str) -> (r: Option<bool>)
        ensures
            r == bool_at(*self, k@),
    {
        match self.fields.get(k) {
            Some(PropValue::Bool(b)) => Some(*b),
            _ => None,
        }
    }

    /// The number under `k`.
    pub fn get_number(&self, k: &str) -> (r: Option<i64>)
        ensures
            r == number_at(*self, k@),
    {
        match self.fields.get(k) {
            Some(PropValue::Number(n)) => Some(*n),
            _ => None,
        }
    }

    /// The list under `k`.
    pub fn get_list(&self, k: &str) -> (r: Option<&Vec<PropValue>>)
        ensures
            match r {
                Some(l) => list_at(*self, k@) == Some(l@),
                None => list_at(*self, k@) is None,
            },
    {
        match self.fields.get(k) {
            Some(PropValue::List(l)) => Some(l),
            _ => None,
        }
    }

    /// The nested properties under `k`.
    pub fn get_fields(&self, k: &str) -> (r: Option<&Props>)
        ensures
            match r {
                Some(f) => fields_at(*self, k@) == Some(*f),
                None => fields_at(*self, k@) is None,
            },
    {
        match self.fields.get(k) {
            Some(PropValue::Fields(f)) => Some(f),
            _ => None,
        }
    }

    /// The texts of the list under `k`, in order; none when there is no list.
    pub fn get_string_list(&self, k: &str) -> (r: Vec<&str>)
        ensures
            str_views(r@) == text_list_at(*self, k@),
    {
        match self.get_list(k) {
            Some(l) => texts_of(l),
            None => {
                let r: Vec<&str> = Vec::new();
                assert(str_views(r@) =~= Seq::<Seq<char>>::empty());
                r
            },
        }
    }

    /// Sets `k` to the text `v`.
    pub fn put_str(&mut self, k: &str, v: &str)
        ensures
            text_at(*final(self), k@) == Some(v@),
            forall|q: Seq<char>| q != k@ ==> lookup(#[trigger] final(self).fields@, q) == lookup(
                old(self).fields@,
                q,
            ),
    {
        let mut s = String::new();
        s.append(v);
        self.fields.insert(k, PropValue::Text(s));
    }

    /// Sets `k` to the flag `v` when there is one.
    pub fn put_opt_bool(&mut self, k: &str, v: Option<bool>)
        ensures
            v matches Some(b) ==> bool_at(*final(self), k@) == Some(b),
            v is None ==> lookup(final(self).fields@, k@) == lookup(old(self).fields@, k@),
            forall|q: Seq<char>| q != k@ ==> lookup(#[trigger] final(self).fields@, q) == lookup(
                old(self).fields@,
                q,
            ),
    {
        match v {
            Some(b) => self.fields.insert(k, PropValue::Bool(b)),
            None => {},
        }
    }

    /// Sets `k` to the number `v` when there is one.
    pub fn put_opt_number(&mut self, k: &str, v: Option<i64>)
        ensures
            v matches Some(n) ==> number_at(*final(self), k@) == Some(n),
            v is None ==> lookup(final(self).fields@, k@) == lookup(old(self).fields@, k@),
            forall|q: Seq<char>| q != k@ ==> lookup(#[trigger] final(self).fields@, q) == lookup(
                old(self).fields@,
                q,
            ),
    {
        match v {
            Some(n) => self.fields.insert(k, PropValue::Number(n)),
            None => {},
        }
    }

}

/// The texts among `items`.
pub fn texts_of(items: &Vec<PropValue>) -> (r: Vec<&str>)
    ensures
        str_views(r@) == texts_in(items@),
{
    let mut r: Vec<&str> = Vec::new();
    let mut i: usize = 0;
    assert(items@.take(0) =~= Seq::<PropValue>::empty());
    while i < items.len()
        invariant
            i <= items@.len(),
            str_views(r@) == texts_in(items@.take(i as int)),
        decreases items.len() - i,
    {
        assert(items@.take(i + 1).drop_last() =~= items@.take(i as int));
        let ghost before = r@;
        match &items[i] {
            PropValue::Text(s) => {
                r.push(s.as_str());
                assert(str_views(r@) =~= str_views(before) + seq![s@]);
            },
            _ => {
                assert(str_views(r@) =~= str_views(before) + Seq::<Seq<char>>::empty());
            },
        }
        i += 1;
    }
    assert(items@.take(items@.len() as int) =~= items@);
    r
}

/// Each text as a text value.
pub fn text_values(v: &[&str]) -> (r: Vec<PropValue>)
    ensures
        r@.len() == v@.len(),
        forall|i: int| 0 <= i < r@.len() ==> (#[trigger] r@[i] matches PropValue::Text(s) && s@ == v@[i]@),
{
    let mut r: Vec<PropValue> = Vec::new();
    let mut i: usize = 0;
    while i < v.len()
        invariant
            i <= v@.len(),
            r@.len() == i,
            forall|j: int| 0 <= j < i ==> (#[trigger] r@[j] matches PropValue::Text(s) && s@ == v@[j]@),
        decreases v.len() - i,
    {
        let mut s = String::new();
        s.append(v[i]);
        r.push(PropValue::Text(s));
        i += 1;
    }
    r
}

// ───────────────────────── keyed conversions ─────────────────────────

/// The entries of the nested properties under `k`; none when there are none.
pub open spec fn entries_at(p: Props, k: Seq<char>) -> Seq<(Seq<char>, PropValue)> {
    match fields_at(p, k) {
        Some(f) => f.fields@,
        None => Seq::empty(),
    }
}

/// `r` holds, under each key of `src` whose value `sel` selects, what `rel`
/// relates to that value, and nothing under any other key.
pub open spec fn maps_values<T>(
    r: Seq<(Seq<char>, T)>,
    src: Seq<(Seq<char>, PropValue)>,
    sel: spec_fn(PropValue) -> bool,
    rel: spec_fn(T, PropValue) -> bool,
) -> bool {
    forall|q: Seq<char>|
        match #[trigger] lookup(src, q) {
            Some(v) => if sel(v) {
                lookup(r, q) matches Some(d) && rel(d, v)
            } else {
                lookup(r, q) is None
            },
            None => lookup(r, q) is None,
        }
}

/// What a conversion loop has done after the first `i` entries of `src`.
pub open spec fn maps_upto<T>(
    r: Seq<(Seq<char>, T)>,
    src: Seq<(Seq<char>, PropValue)>,
    sel: spec_fn(PropValue) -> bool,
    rel: spec_fn(T, PropValue) -> bool,
    i: int,
) -> bool {
    &&& forall|q: Seq<char>|
        #![trigger lookup(r, q)]
        (exists|j: int| 0 <= j < i && src[j].0 == q) || lookup(r, q) is None
    &&& forall|j: int|
        0 <= j < i ==> if sel(#[trigger] src[j].1) {
            lookup(r, src[j].0) matches Some(d) && rel(d, src[j].1)
        } else {
            lookup(r, src[j].0) is None
        }
}

pub proof fn lemma_keys_distinct<T>(e: Seq<(Seq<char>, T)>, j: int, i: int)
    requires
        sorted_keys(e),
        0 <= j < i < e.len(),
    ensures
        e[j].0 != e[i].0,
{
    lemma_lex_irreflexive(e[j].0);
}

/// One more entry: stored (when selected) under its key, which no earlier
/// entry has.
pub proof fn lemma_maps_step<T>(
    r0: Seq<(Seq<char>, T)>,
    r1: Seq<(Seq<char>, T)>,
    src: Seq<(Seq<char>, PropValue)>,
    sel: spec_fn(PropValue) -> bool,
    rel: spec_fn(T, PropValue) -> bool,
    i: int,
)
    requires
        sorted_keys(src),
        0 <= i < src.len(),
        maps_upto(r0, src, sel, rel, i),
        forall|q: Seq<char>| q != src[i].0 ==> #[trigger] lookup(r1, q) == lookup(r0, q),
        if sel(src[i].1) {
            lookup(r1, src[i].0) matches Some(d) && rel(d, src[i].1)
        } else {
            lookup(r1, src[i].0) == lookup(r0, src[i].0)
        },
    ensures
        maps_upto(r1, src, sel, rel, i + 1),
{
    if !sel(src[i].1) {
        assert(forall|q: Seq<char>| lookup(r1, q) == lookup(r0, q));
        let k = src[i].0;
        if lookup(r0, k) is Some {
            let j = choose|j: int| 0 <= j < i && src[j].0 == k;
            lemma_keys_distinct(src, j, i);
        }
    }
    assert forall|j: int| 0 <= j < i implies src[j].0 != src[i].0 by {
        lemma_keys_distinct(src, j, i);
    }
    assert forall|q: Seq<char>|
        #![trigger lookup(r1, q)]
        (exists|j: int| 0 <= j < i + 1 && src[j].0 == q) || lookup(r1, q) is None by {
        if q == src[i].0 {
            assert(0 <= i < i + 1 && src[i].0 == q);
        } else {
            assert(lookup(r1, q) == lookup(r0, q));
            if lookup(r0, q) is Some {
                let j = choose|j: int| 0 <= j < i && src[j].0 == q;
                assert(0 <= j < i + 1 && src[j].0 == q);
            }
        }
    }
}

/// A finished conversion loop.
pub proof fn lemma_maps_done<T>(
    r: Seq<(Seq<char>, T)>,
    src: Seq<(Seq<char>, PropValue)>,
    sel: spec_fn(PropValue) -> bool,
    rel: spec_fn(T, PropValue) -> bool,
)
    requires
        sorted_keys(src),
        maps_upto(r, src, sel, rel, src.len() as int),
    ensures
        maps_values(r, src, sel, rel),
{
    assert forall|q: Seq<char>|
        match #[trigger] lookup(src, q) {
            Some(v) => if sel(v) {
                lookup(r, q) matches Some(d) && rel(d, v)
            } else {
                lookup(r, q) is None
            },
            None => lookup(r, q) is None,
        } by {
        if exists|j: int| 0 <= j < src.len() && src[j].0 == q {
            let j = choose|j: int| 0 <= j < src.len() && src[j].0 == q;
            lemma_lookup_at(src, j);
        } else {
            assert(lookup(src, q) is None);
        }
    }
}

/// No entries convert to nothing.
pub proof fn lemma_maps_empty<T>(
    r: Seq<(Seq<char>, T)>,
    src: Seq<(Seq<char>, PropValue)>,
    sel: spec_fn(PropValue) -> bool,
    rel: spec_fn(T, PropValue) -> bool,
)
    requires
        r.len() == 0,
    ensures
        maps_upto(r, src, sel, rel, 0),
{
}

// ───────────────────────── reading outputs back ─────────────────────────

/// The last entry under a key of entries written in two parts: from the
/// second part when it has one, else from the first.
pub proof fn lemma_last_in_append(a: Seq<(Seq<char>, PropView)>, b: Seq<(Seq<char>, PropView)>)
    ensures
        forall|q: Seq<char>|
            #[trigger] last_in(a + b, q) == match last_in(b, q) {
                Some(v) => Some(v),
                None => last_in(a, q),
            },
    decreases b.len(),
{
    if b.len() == 0 {
        assert(a + b =~= a);
    } else {
        lemma_last_in_append(a, b.drop_last());
        assert((a + b).drop_last() =~= a + b.drop_last());
        assert((a + b).last() == b.last());
        assert forall|q: Seq<char>|
            #[trigger] last_in(a + b, q) == match last_in(b, q) {
                Some(v) => Some(v),
                None => last_in(a, q),
            } by {
            if b.last().0 != q {
                assert(last_in(a + b, q) == last_in((a + b).drop_last(), q));
                assert(last_in(a + b.drop_last(), q) == match last_in(b.drop_last(), q) {
                    Some(v) => Some(v),
                    None => last_in(a, q),
                });
            }
        }
    }
}

/// The last entry under a key of a single entry, or of none.
pub proof fn lemma_last_in_one(k: Seq<char>, v: PropView)
    ensures
        forall|q: Seq<char>|
            #[trigger] last_in(seq![(k, v)], q) == if k == q {
                Some(v)
            } else {
                None
            },
        forall|q: Seq<char>| #[trigger] last_in(Seq::<(Seq<char>, PropView)>::empty(), q) is None,
{
    let e = seq![(k, v)];
    assert(e.drop_last() =~= Seq::<(Seq<char>, PropView)>::empty());
    assert(e.last() == (k, v));
    assert forall|q: Seq<char>|
        #[trigger] last_in(seq![(k, v)], q) == if k == q {
            Some(v)
        } else {
            None
        } by {
        assert(last_in(Seq::<(Seq<char>, PropView)>::empty(), q) is None);
    }
}

/// The last entry under a key of an entry written only when there is a text.
pub proof fn lemma_last_in_opt_text(k: Seq<char>, o: Option<Seq<char>>)
    ensures
        forall|q: Seq<char>|
            #[trigger] last_in(opt_text_entry(k, o), q) == if k == q {
                opt_text_view(o)
            } else {
                None
            },
{
    match o {
        Some(t) => lemma_last_in_one(k, PropView::Text(t)),
        None => lemma_last_in_one(k, PropView::Bool(false)),
    }
}

/// The last entry under a key of an entry written only when there is a flag.
pub proof fn lemma_last_in_opt_bool(k: Seq<char>, o: Option<bool>)
    ensures
        forall|q: Seq<char>|
            #[trigger] last_in(opt_bool_entry(k, o), q) == if k == q {
                opt_bool_view(o)
            } else {
                None
            },
{
    match o {
        Some(b) => lemma_last_in_one(k, PropView::Bool(b)),
        None => lemma_last_in_one(k, PropView::Bool(false)),
    }
}

/// The last entry under a key of an entry written only when there is a number.
pub proof fn lemma_last_in_opt_number(k: Seq<char>, o: Option<i64>)
    ensures
        forall|q: Seq<char>|
            #[trigger] last_in(opt_number_entry(k, o), q) == if k == q {
                opt_number_view(o)
            } else {
                None
            },
{
    match o {
        Some(n) => lemma_last_in_one(k, PropView::Number(n)),
        None => lemma_last_in_one(k, PropView::Bool(false)),
    }
}

pub open spec fn opt_text_view(o: Option<Seq<char>>) -> Option<PropView> {
    match o {
        Some(t) => Some(PropView::Text(t)),
        None => None,
    }
}

pub open spec fn opt_bool_view(o: Option<bool>) -> Option<PropView> {
    match o {
        Some(b) => Some(PropView::Bool(b)),
        None => None,
    }
}

pub open spec fn opt_number_view(o: Option<i64>) -> Option<PropView> {
    match o {
        Some(n) => Some(PropView::Number(n)),
        None => None,
    }
}

/// A text written last under `k`, or nothing, reads back.
pub proof fn lemma_read_opt_text(out: Props, entries: Seq<(Seq<char>, PropView)>, k: Seq<char>, o: Option<Seq<char>>)
    requires
        output_matches(out, entries),
        last_in(entries, k) == opt_text_view(o),
    ensures
        text_at(out, k) == o,
{
}

/// A flag written last under `k`, or nothing, reads back.
pub proof fn lemma_read_opt_bool(out: Props, entries: Seq<(Seq<char>, PropView)>, k: Seq<char>, o: Option<bool>)
    requires
        output_matches(out, entries),
        last_in(entries, k) == opt_bool_view(o),
    ensures
        bool_at(out, k) == o,
{
}

/// A number written last under `k`, or nothing, reads back.
pub proof fn lemma_read_opt_number(out: Props, entries: Seq<(Seq<char>, PropView)>, k: Seq<char>, o: Option<i64>)
    requires
        output_matches(out, entries),
        last_in(entries, k) == opt_number_view(o),
    ensures
        number_at(out, k) == o,
{
}

/// A text written last under `k` reads back.
pub proof fn lemma_read_text(out: Props, entries: Seq<(Seq<char>, PropView)>, k: Seq<char>, t: Seq<char>)
    requires
        output_matches(out, entries),
        last_in(entries, k) == Some(PropView::Text(t)),
    ensures
        text_at(out, k) == Some(t),
{
}

proof fn lemma_texts_in_of(l: Seq<PropValue>, ts: Seq<Seq<char>>)
    requires
        l.len() == ts.len(),
        forall|i: int| 0 <= i < ts.len() ==> (#[trigger] l[i] matches PropValue::Text(s) && s@ == ts[i]),
    ensures
        texts_in(l) == ts,
    decreases l.len(),
{
    if l.len() > 0 {
        lemma_texts_in_of(l.drop_last(), ts.drop_last());
        assert(ts =~= ts.drop_last() + seq![ts.last()]);
    } else {
        assert(ts =~= Seq::<Seq<char>>::empty());
    }
}

/// A list of texts written last under `k` reads back.
pub proof fn lemma_read_text_list(out: Props, entries: Seq<(Seq<char>, PropView)>, k: Seq<char>, ts: Seq<Seq<char>>)
    requires
        output_matches(out, entries),
        last_in(entries, k) == Some(PropView::TextList(ts)),
    ensures
        text_list_at(out, k) == ts,
{
    let v = lookup(out.fields@, k)->Some_0;
    let l = v->List_0;
    lemma_texts_in_of(l@, ts);
}

// ───────────────────────── outputs ─────────────────────────

/// Flat entries hold in the flat sense exactly when they hold.
pub proof fn lemma_flat_output(p: Props, entries: Seq<(Seq<char>, PropView)>)
    requires
        output_matches(p, entries),
        forall|i: int| 0 <= i < entries.len() ==> !(#[trigger] entries[i].1 is TextMap) && !(entries[i].1 is SourceMap),
    ensures
        flat_output_matches(p, entries),
{
    assert forall|q: Seq<char>|
        match #[trigger] last_in(entries, q) {
            Some(pv) => lookup(p.fields@, q) matches Some(v) && flat_value_matches(v, pv),
            None => lookup(p.fields@, q) is None,
        } by {
        lemma_last_in_is_entry(entries, q);
    }
}

pub proof fn lemma_last_in_is_entry(entries: Seq<(Seq<char>, PropView)>, q: Seq<char>)
    ensures
        last_in(entries, q) matches Some(pv) ==> exists|i: int| 0 <= i < entries.len() && entries[i].1 == pv,
    decreases entries.len(),
{
    if entries.len() > 0 {
        if entries.last().0 == q {
            assert(entries[entries.len() - 1].1 == entries.last().1);
        } else {
            lemma_last_in_is_entry(entries.drop_last(), q);
            if last_in(entries, q) is Some {
                let i = choose|i: int| 0 <= i < entries.drop_last().len() && entries.drop_last()[i].1 == last_in(entries, q)->Some_0;
                assert(entries[i].1 == entries.drop_last()[i].1);
            }
        }
    }
}

/// What an output entry holds: a text, a flag, a number, a list of texts;
/// nested properties with text entries; or nested properties of sources,
/// each with a dataset and a list of tables.
pub enum PropView {
    Text(Seq<char>),
    Bool(bool),
    Number(i64),
    TextList(Seq<Seq<char>>),
    TextMap(Seq<(Seq<char>, PropView)>),
    SourceMap(Seq<(Seq<char>, Seq<char>, Seq<Seq<char>>)>),
}

/// `v` holds what the flat view `pv` describes (no nesting).
pub open spec fn flat_value_matches(v: PropValue, pv: PropView) -> bool {
    match pv {
        PropView::Text(t) => v matches PropValue::Text(s) && s@ == t,
        PropView::Bool(b) => v == PropValue::Bool(b),
        PropView::Number(n) => v == PropValue::Number(n),
        PropView::TextList(ts) => v matches PropValue::List(l) && l@.len() == ts.len() && forall|i: int|
            0 <= i < ts.len() ==> (#[trigger] l@[i] matches PropValue::Text(s) && s@ == ts[i]),
        _ => false,
    }
}

/// `p` holds exactly the flat entries written, the last one under each key
/// winning.
pub open spec fn flat_output_matches(p: Props, entries: Seq<(Seq<char>, PropView)>) -> bool {
    forall|q: Seq<char>|
        match #[trigger] last_in(entries, q) {
            Some(pv) => lookup(p.fields@, q) matches Some(v) && flat_value_matches(v, pv),
            None => lookup(p.fields@, q) is None,
        }
}

/// The last source written under `q`: its dataset and tables.
pub open spec fn last_source(es: Seq<(Seq<char>, Seq<char>, Seq<Seq<char>>)>, q: Seq<char>) -> Option<
    (Seq<char>, Seq<Seq<char>>),
>
    decreases es.len(),
{
    if es.len() == 0 {
        None
    } else if es.last().0 == q {
        Some((es.last().1, es.last().2))
    } else {
        last_source(es.drop_last(), q)
    }
}

/// The properties of one source: its dataset and its tables.
pub open spec fn is_source_output(sg: Props, dataset: Seq<char>, tables: Seq<Seq<char>>) -> bool {
    flat_output_matches(sg, seq![("dataset"@, PropView::Text(dataset)), ("tables"@, PropView::TextList(tables))])
}

/// `g` holds exactly the sources written, the last one under each name
/// winning.
pub open spec fn sources_match(g: Props, es: Seq<(Seq<char>, Seq<char>, Seq<Seq<char>>)>) -> bool {
    forall|q: Seq<char>|
        match #[trigger] last_source(es, q) {
            Some((ds, ts)) => lookup(g.fields@, q) matches Some(PropValue::Fields(sg)) && is_source_output(sg, ds, ts),
            None => lookup(g.fields@, q) is None,
        }
}

/// `v` holds what `pv` describes.
pub open spec fn value_matches(v: PropValue, pv: PropView) -> bool {
    match pv {
        PropView::TextMap(es) => v matches PropValue::Fields(g) && flat_output_matches(g, es),
        PropView::SourceMap(es) => v matches PropValue::Fields(g) && sources_match(g, es),
        _ => flat_value_matches(v, pv),
    }
}

/// The last entry written under `q`.
pub open spec fn last_in(entries: Seq<(Seq<char>, PropView)>, q: Seq<char>) -> Option<PropView>
    decreases entries.len(),
{
    if entries.len() == 0 {
        None
    } else if entries.last().0 == q {
        Some(entries.last().1)
    } else {
        last_in(entries.drop_last(), q)
    }
}

/// `p` holds exactly the entries written, the last one under each key
/// winning.
pub open spec fn output_matches(p: Props, entries: Seq<(Seq<char>, PropView)>) -> bool {
    forall|q: Seq<char>|
        match #[trigger] last_in(entries, q) {
            Some(pv) => lookup(p.fields@, q) matches Some(v) && value_matches(v, pv),
            None => lookup(p.fields@, q) is None,
        }
}

/// An entry when there is a value.
pub open spec fn opt_text_entry(k: Seq<char>, v: Option<Seq<char>>) -> Seq<(Seq<char>, PropView)> {
    match v {
        Some(t) => seq![(k, PropView::Text(t))],
        None => Seq::empty(),
    }
}

/// An entry when there is a flag.
pub open spec fn opt_bool_entry(k: Seq<char>, v: Option<bool>) -> Seq<(Seq<char>, PropView)> {
    match v {
        Some(b) => seq![(k, PropView::Bool(b))],
        None => Seq::empty(),
    }
}

/// An entry when there is a number.
pub open spec fn opt_number_entry(k: Seq<char>, v: Option<i64>) -> Seq<(Seq<char>, PropView)> {
    match v {
        Some(n) => seq![(k, PropView::Number(n))],
        None => Seq::empty(),
    }
}

/// Writes the entries of an output one by one.
pub struct OutputBuilder {
    pub props: Props,
    pub entries: Ghost<Seq<(Seq<char>, PropView)>>,
}

impl OutputBuilder {
    pub open spec fn wf(&self) -> bool {
        output_matches(self.props, self.entries@)
    }

    pub fn new() -> (r: OutputBuilder)
        ensures
            r.wf(),
            r.entries@ == Seq::<(Seq<char>, PropView)>::empty(),
    {
        OutputBuilder { props: Props::new(), entries: Ghost(Seq::empty()) }
    }

    proof fn lemma_put(&self, old_props: Props, k: Seq<char>, pv: PropView)
        requires
            output_matches(old_props, self.entries@),
            lookup(self.props.fields@, k) matches Some(v) && value_matches(v, pv),
            forall|q: Seq<char>| q != k ==> lookup(#[trigger] self.props.fields@, q) == lookup(
                old_props.fields@,
                q,
            ),
        ensures
            output_matches(self.props, self.entries@.push((k, pv))),
    {
        let es = self.entries@.push((k, pv));
        assert forall|q: Seq<char>|
            match #[trigger] last_in(es, q) {
                Some(pv2) => lookup(self.props.fields@, q) matches Some(v) && value_matches(v, pv2),
                None => lookup(self.props.fields@, q) is None,
            } by {
            assert(es.drop_last() =~= self.entries@);
            if q != k {
                assert(last_in(es, q) == last_in(self.entries@, q));
            }
        }
    }

    /// Writes the text `v` under `k`.
    pub fn str(&mut self, k: &str, v: &str)
        requires
            old(self).wf(),
        ensures
            final(self).wf(),
            final(self).entries@ == old(self).entries@.push((k@, PropView::Text(v@))),
    {
        let ghost old_props = self.props;
        self.props.put_str(k, v);
        proof {
            self.lemma_put(old_props, k@, PropView::Text(v@));
        }
        self.entries = Ghost(self.entries@.push((k@, PropView::Text(v@))));
    }

    /// Writes the text `v` under `k` when there is one.
    pub fn str_opt(&mut self, k: &str, v: Option<&str>)
        requires
            old(self).wf(),
        ensures
            final(self).wf(),
            final(self).entries@ == old(self).entries@ + opt_text_entry(
                k@,
                match v {
                    Some(t) => Some(t@),
                    None => None,
                },
            ),
    {
        match v {
            Some(t) => {
                self.str(k, t);
                assert(self.entries@ =~= old(self).entries@ + seq![(k@, PropView::Text(t@))]);
            },
            None => {
                assert(self.entries@ =~= old(self).entries@ + Seq::<(Seq<char>, PropView)>::empty());
            },
        }
    }

    /// Writes the flag `v` under `k` when there is one.
    pub fn bool_opt(&mut self, k: &str, v: Option<bool>)
        requires
            old(self).wf(),
        ensures
            final(self).wf(),
            final(self).entries@ == old(self).entries@ + opt_bool_entry(k@, v),
    {
        match v {
            Some(b) => {
                let ghost old_props = self.props;
                self.props.put_opt_bool(k, Some(b));
                proof {
                    self.lemma_put(old_props, k@, PropView::Bool(b));
                }
                self.entries = Ghost(self.entries@.push((k@, PropView::Bool(b))));
                assert(self.entries@ =~= old(self).entries@ + seq![(k@, PropView::Bool(b))]);
            },
            None => {
                assert(self.entries@ =~= old(self).entries@ + Seq::<(Seq<char>, PropView)>::empty());
            },
        }
    }

    /// Writes the number `v` under `k` when there is one.
    pub fn num_opt(&mut self, k: &str, v: Option<i64>)
        requires
            old(self).wf(),
        ensures
            final(self).wf(),
            final(self).entries@ == old(self).entries@ + opt_number_entry(k@, v),
    {
        match v {
            Some(n) => {
                let ghost old_props = self.props;
                self.props.put_opt_number(k, Some(n));
                proof {
                    self.lemma_put(old_props, k@, PropView::Number(n));
                }
                self.entries = Ghost(self.entries@.push((k@, PropView::Number(n))));
                assert(self.entries@ =~= old(self).entries@ + seq![(k@, PropView::Number(n))]);
            },
            None => {
                assert(self.entries@ =~= old(self).entries@ + Seq::<(Seq<char>, PropView)>::empty());
            },
        }
    }

    /// Writes the list of the texts `v` under `k`.
    pub fn str_list(&mut self, k: &str, v: &[&str])
        requires
            old(self).wf(),
        ensures
            final(self).wf(),
            final(self).entries@ == old(self).entries@.push((k@, PropView::TextList(str_views(v@)))),
    {
        let ghost old_props = self.props;
        let l = text_values(v);
        self.props.fields.insert(k, PropValue::List(l));
        proof {
            self.lemma_put(old_props, k@, PropView::TextList(str_views(v@)));
        }
        self.entries = Ghost(self.entries@.push((k@, PropView::TextList(str_views(v@)))));
    }

    /// Writes the value `v`, which holds what `pv` describes, under `k`.
    pub fn value(&mut self, k: &str, v: PropValue, Ghost(pv): Ghost<PropView>)
        requires
            old(self).wf(),
            value_matches(v, pv),
        ensures
            final(self).wf(),
            final(self).entries@ == old(self).entries@.push((k@, pv)),
    {
        let ghost old_props = self.props;
        self.props.fields.insert(k, v);
        proof {
            self.lemma_put(old_props, k@, pv);
        }
        self.entries = Ghost(self.entries@.push((k@, pv)));
    }

    pub fn build(self) -> (r: Props)
        requires
            self.wf(),
        ensures
            output_matches(r, self.entries@),
    {
        self.props
    }
}

} // verus!
