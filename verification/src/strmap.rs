//! A map from text keys to values, kept in ascending key order with each key
//! present once — the ordered-map behaviour the templating and DDL code relies
//! on (sorted iteration, last insert wins).
use vstd::prelude::*;

use crate::text::{chars_of, str_eq};

verus! {

/// Lexicographic order on text, character by character (code point order,
/// which is also the byte order of the UTF-8 encoding).
pub open spec fn lex_lt(a: Seq<char>, b: Seq<char>) -> bool
    decreases a.len(),
{
    if a.len() == 0 {
        b.len() > 0
    } else if b.len() == 0 {
        false
    } else if a[0] == b[0] {
        lex_lt(a.drop_first(), b.drop_first())
    } else {
        a[0] < b[0]
    }
}

pub proof fn lemma_lex_irreflexive(a: Seq<char>)
    ensures
        !lex_lt(a, a),
    decreases a.len(),
{
    if a.len() > 0 {
        lemma_lex_irreflexive(a.drop_first());
    }
}

pub proof fn lemma_lex_total(a: Seq<char>, b: Seq<char>)
    ensures
        a == b || lex_lt(a, b) || lex_lt(b, a),
    decreases a.len(),
{
    if a.len() > 0 && b.len() > 0 {
        if a[0] == b[0] {
            lemma_lex_total(a.drop_first(), b.drop_first());
            if a.drop_first() == b.drop_first() {
                assert(a =~= seq![a[0]] + a.drop_first());
                assert(b =~= seq![b[0]] + b.drop_first());
            }
        } else {
        }
    } else if a.len() == 0 && b.len() == 0 {
        assert(a =~= b);
    }
}

pub proof fn lemma_lex_asym(a: Seq<char>, b: Seq<char>)
    requires
        lex_lt(a, b),
    ensures
        !lex_lt(b, a),
    decreases a.len(),
{
    if a.len() > 0 && b.len() > 0 && a[0] == b[0] {
        lemma_lex_asym(a.drop_first(), b.drop_first());
    }
}

pub proof fn lemma_lex_trans(a: Seq<char>, b: Seq<char>, c: Seq<char>)
    requires
        lex_lt(a, b),
        lex_lt(b, c),
    ensures
        lex_lt(a, c),
    decreases a.len(),
{
    if a.len() > 0 && b.len() > 0 && c.len() > 0 {
        if a[0] == b[0] && b[0] == c[0] {
            lemma_lex_trans(a.drop_first(), b.drop_first(), c.drop_first());
        }
    }
}

/// Whether `a` sorts strictly before `b`.
pub fn text_lt(a: &str, b: &str) -> (r: bool)
    ensures
        r == lex_lt(a@, b@),
{
    let x = chars_of(a);
    let y = chars_of(b);
    assert(x@.subrange(0, x@.len() as int) =~= x@);
    assert(y@.subrange(0, y@.len() as int) =~= y@);
    let mut i: usize = 0;
    while i < x.len() && i < y.len() && x[i] == y[i]
        invariant
            i <= x.len(),
            i <= y.len(),
            lex_lt(x@.subrange(i as int, x@.len() as int), y@.subrange(i as int, y@.len() as int))
                == lex_lt(x@, y@),
        decreases x.len() - i,
    {
        assert(x@.subrange(i as int, x@.len() as int).drop_first() =~= x@.subrange(
            i + 1,
            x@.len() as int,
        ));
        assert(y@.subrange(i as int, y@.len() as int).drop_first() =~= y@.subrange(
            i + 1,
            y@.len() as int,
        ));
        i += 1;
    }
    let ghost xs = x@.subrange(i as int, x@.len() as int);
    let ghost ys = y@.subrange(i as int, y@.len() as int);
    if i == x.len() {
        assert(xs.len() == 0);
        i < y.len()
    } else if i == y.len() {
        false
    } else {
        assert(xs[0] == x@[i as int] && ys[0] == y@[i as int]);
        x[i] < y[i]
    }
}

/// Keys in strictly ascending order.
pub open spec fn sorted_keys<T>(e: Seq<(Seq<char>, T)>) -> bool {
    forall|i: int, j: int| 0 <= i < j < e.len() ==> lex_lt(#[trigger] e[i].0, #[trigger] e[j].0)
}

/// A position at which `k` is stored.
pub open spec fn key_index<T>(e: Seq<(Seq<char>, T)>, k: Seq<char>) -> int {
    choose|i: int| 0 <= i < e.len() && e[i].0 == k
}

/// The value stored under `k`, if any.
pub open spec fn lookup<T>(e: Seq<(Seq<char>, T)>, k: Seq<char>) -> Option<T> {
    if exists|i: int| 0 <= i < e.len() && e[i].0 == k {
        Some(e[key_index(e, k)].1)
    } else {
        None
    }
}

pub proof fn lemma_lookup_at<T>(e: Seq<(Seq<char>, T)>, i: int)
    requires
        sorted_keys(e),
        0 <= i < e.len(),
    ensures
        lookup(e, e[i].0) == Some(e[i].1),
{
    let k = e[i].0;
    assert(0 <= i < e.len() && e[i].0 == k);
    let j = key_index(e, k);
    if j != i {
        if j < i {
            assert(lex_lt(e[j].0, e[i].0));
        } else {
            assert(lex_lt(e[i].0, e[j].0));
        }
        lemma_lex_irreflexive(k);
    }
    assert(j == i);
    assert(lookup(e, k) == Some(e[j].1));
}

/// The keys, in ascending order.
pub open spec fn keys_of<T>(e: Seq<(Seq<char>, T)>) -> Seq<Seq<char>> {
    e.map_values(|p: (Seq<char>, T)| p.0)
}

/// An ordered map from text keys to values.
pub struct StrMap<T> {
    entries: Vec<(String, T)>,
}

impl<T> View for StrMap<T> {
    type V = Seq<(Seq<char>, T)>;

    closed spec fn view(&self) -> Seq<(Seq<char>, T)> {
        entries_view(self.entries@)
    }
}

/// The entries with their keys as text.
pub open spec fn entries_view<T>(e: Seq<(String, T)>) -> Seq<(Seq<char>, T)> {
    e.map_values(|p: (String, T)| (p.0@, p.1))
}

impl<T> StrMap<T> {
    /// The map keeps its keys ascending and distinct.
    #[verifier::type_invariant]
    closed spec fn wf(&self) -> bool {
        sorted_keys(self@)
    }

    pub fn new() -> (r: Self)
        ensures
            r@ == Seq::<(Seq<char>, T)>::empty(),
    {
        let r = StrMap { entries: Vec::new() };
        assert(r@ =~= Seq::<(Seq<char>, T)>::empty());
        r
    }

    /// The number of entries; the keys are ascending and distinct.
    pub fn len(&self) -> (r: usize)
        ensures
            r == self@.len(),
            sorted_keys(self@),
    {
        proof {
            use_type_invariant(self);
        }
        self.entries.len()
    }

    pub fn is_empty(&self) -> (r: bool)
        ensures
            r == (self@.len() == 0),
    {
        self.entries.len() == 0
    }

    pub fn key_at(&self, i: usize) -> (r: &str)
        requires
            i < self@.len(),
        ensures
            r@ == self@[i as int].0,
    {
        self.entries[i].0.as_str()
    }

    pub fn value_at(&self, i: usize) -> (r: &T)
        requires
            i < self@.len(),
        ensures
            *r == self@[i as int].1,
    {
        &self.entries[i].1
    }

    /// The value stored under `k`.
    pub fn get(&self, k: &str) -> (r: Option<&T>)
        ensures
            r matches Some(v) ==> lookup(self@, k@) == Some(*v),
            r is None ==> lookup(self@, k@) is None,
    {
        proof {
            use_type_invariant(self);
        }
        let mut i: usize = 0;
        while i < self.entries.len()
            invariant
                i <= self@.len(),
                self@.len() == self.entries@.len(),
                sorted_keys(self@),
                forall|j: int| 0 <= j < i ==> self@[j].0 != k@,
            decreases self.entries.len() - i,
        {
            if str_eq(self.entries[i].0.as_str(), k) {
                proof {
                    lemma_lookup_at(self@, i as int);
                }
                return Some(&self.entries[i].1);
            }
            i += 1;
        }
        None
    }

    /// Stores `v` under `k`, replacing any value already there.
    pub fn insert(&mut self, k: &str, v: T)
        ensures
            sorted_keys(final(self)@),
            lookup(final(self)@, k@) == Some(v),
            forall|q: Seq<char>| q != k@ ==> lookup(#[trigger] final(self)@, q) == lookup(
                old(self)@,
                q,
            ),
    {
        proof {
            use_type_invariant(&*self);
        }
        let ghost e0 = self@;
        let mut entries: Vec<(String, T)> = Vec::new();
        std::mem::swap(&mut entries, &mut self.entries);
        assert(entries_view(entries@) == e0);
        let mut i: usize = 0;
        while i < entries.len()
            invariant
                i <= e0.len(),
                entries_view(entries@) == e0,
                e0.len() == entries@.len(),
                sorted_keys(e0),
                forall|j: int| 0 <= j < i ==> lex_lt(#[trigger] e0[j].0, k@),
            ensures
                i <= e0.len(),
                i < e0.len() ==> !lex_lt(e0[i as int].0, k@),
                forall|j: int| 0 <= j < i ==> lex_lt(#[trigger] e0[j].0, k@),
            decreases entries.len() - i,
        {
            assert(entries_view(entries@)[i as int].0 == entries@[i as int].0@);
            if !text_lt(entries[i].0.as_str(), k) {
                break;
            }
            i += 1;
        }
        if i < entries.len() && str_eq(entries[i].0.as_str(), k) {
            let key = entries[i].0.clone();
            entries.set(i, (key, v));
            proof {
                let e1 = entries_view(entries@);
                assert(e1 =~= e0.update(i as int, (k@, v)));
                assert(sorted_keys(e1));
                lemma_lookup_at(e1, i as int);
                assert forall|q: Seq<char>| q != k@ implies lookup(e1, q) == lookup(e0, q) by {
                    assert forall|j: int| 0 <= j < e0.len() implies (e0[j].0 == q) == (e1[j].0
                        == q) by {}
                    if exists|j: int| 0 <= j < e0.len() && e0[j].0 == q {
                        let j = choose|j: int| 0 <= j < e0.len() && e0[j].0 == q;
                        lemma_lookup_at(e0, j);
                        lemma_lookup_at(e1, j);
                    }
                }
            }
        } else {
            entries.insert(i, (k.to_owned(), v));
            proof {
                let e1 = entries_view(entries@);
                assert(e1 =~= e0.insert(i as int, (k@, v)));
                if i < e0.len() {
                    lemma_lex_total(e0[i as int].0, k@);
                }
                assert forall|a: int, b: int| 0 <= a < b < e1.len() implies lex_lt(
                    #[trigger] e1[a].0,
                    #[trigger] e1[b].0,
                ) by {
                    if b == i {
                    } else if a == i {
                        if b - 1 > i {
                            lemma_lex_trans(k@, e0[i as int].0, e0[b - 1].0);
                        }
                    } else if a < i && b > i {
                        assert(lex_lt(e0[a].0, e0[b - 1].0));
                    } else if a > i {
                        assert(lex_lt(e0[a - 1].0, e0[b - 1].0));
                    }
                }
                lemma_lookup_at(e1, i as int);
                assert forall|q: Seq<char>| q != k@ implies lookup(e1, q) == lookup(e0, q) by {
                    if exists|j: int| 0 <= j < e0.len() && e0[j].0 == q {
                        let j = choose|j: int| 0 <= j < e0.len() && e0[j].0 == q;
                        lemma_lookup_at(e0, j);
                        if j < i {
                            lemma_lookup_at(e1, j);
                        } else {
                            lemma_lookup_at(e1, j + 1);
                        }
                    } else {
                        assert forall|j: int| 0 <= j < e1.len() implies e1[j].0 != q by {
                            if j < i {
                                assert(e1[j] == e0[j]);
                            } else if j > i {
                                assert(e1[j] == e0[j - 1]);
                            }
                        }
                    }
                }
            }
        }
        self.entries = entries;
    }
}


/// What a merge of `base` with `over` stores under `q`: the override when
/// there is one, else the base value.
pub open spec fn merged_lookup<T>(
    base: Seq<(Seq<char>, T)>,
    over: Seq<(Seq<char>, T)>,
    q: Seq<char>,
) -> Option<T> {
    match lookup(over, q) {
        Some(v) => Some(v),
        None => lookup(base, q),
    }
}

impl<T: Copy> StrMap<T> {
    /// An entry-for-entry copy.
    pub fn copy(&self) -> (r: Self)
        ensures
            r@ == self@,
    {
        proof {
            use_type_invariant(self);
        }
        let mut entries: Vec<(String, T)> = Vec::new();
        let mut i: usize = 0;
        while i < self.entries.len()
            invariant
                i <= self.entries@.len(),
                entries@.len() == i,
                entries_view(entries@) == entries_view(self.entries@).take(i as int),
            decreases self.entries.len() - i,
        {
            let key = self.entries[i].0.clone();
            let v = self.entries[i].1;
            let ghost prev = entries@;
            entries.push((key, v));
            proof {
                assert(entries@ == prev.push((key, v)));
                assert(entries_view(entries@)[i as int] == entries_view(self.entries@)[i as int]);
                assert(entries_view(entries@) =~= entries_view(self.entries@).take(i + 1));
            }
            i += 1;
        }
        assert(entries_view(self.entries@).take(self.entries@.len() as int) =~= self@);
        StrMap { entries }
    }

    /// This map with every entry of `over` inserted in turn.
    pub fn merged(&self, over: &Self) -> (r: Self)
        ensures
            forall|q: Seq<char>| #[trigger] lookup(r@, q) == merged_lookup(self@, over@, q),
    {
        proof {
            use_type_invariant(over);
        }
        let mut m = self.copy();
        let mut i: usize = 0;
        while i < over.len()
            invariant
                i <= over@.len(),
                sorted_keys(over@),
                forall|q: Seq<char>|
                    #[trigger] lookup(m@, q) == if exists|j: int| 0 <= j < i && over@[j].0 == q {
                        lookup(over@, q)
                    } else {
                        lookup(self@, q)
                    },
            decreases over@.len() - i,
        {
            let k = over.key_at(i);
            let v = *over.value_at(i);
            let ghost before = m@;
            m.insert(k, v);
            proof {
                lemma_lookup_at(over@, i as int);
                assert forall|q: Seq<char>|
                    #[trigger] lookup(m@, q) == if exists|j: int| 0 <= j < i + 1 && over@[j].0 == q {
                        lookup(over@, q)
                    } else {
                        lookup(self@, q)
                    } by {
                    if q == k@ {
                        assert(over@[i as int].0 == q);
                    } else {
                        assert(lookup(m@, q) == lookup(before, q));
                        if exists|j: int| 0 <= j < i + 1 && over@[j].0 == q {
                            let j = choose|j: int| 0 <= j < i + 1 && over@[j].0 == q;
                            assert(j != i);
                        }
                    }
                }
            }
            i += 1;
        }
        proof {
            assert forall|q: Seq<char>| #[trigger] lookup(m@, q) == merged_lookup(self@, over@, q) by {
                if exists|j: int| 0 <= j < over@.len() && over@[j].0 == q {
                } else {
                    assert(lookup(over@, q) is None);
                }
            }
        }
        m
    }
}

impl StrMap<String> {
    /// The entries as owned pairs, in key order.
    pub fn to_pairs(&self) -> (r: Vec<(String, String)>)
        ensures
            r@.len() == self@.len(),
            forall|i: int|
                0 <= i < self@.len() ==> (#[trigger] r@[i]).0@ == self@[i].0 && r@[i].1@
                    == self@[i].1@,
    {
        let mut r: Vec<(String, String)> = Vec::new();
        let mut i: usize = 0;
        while i < self.entries.len()
            invariant
                i <= self.entries@.len(),
                self@ == entries_view(self.entries@),
                r@.len() == i,
                forall|j: int|
                    0 <= j < i ==> (#[trigger] r@[j]).0@ == self@[j].0 && r@[j].1@ == self@[j].1@,
            decreases self.entries.len() - i,
        {
            let k = self.entries[i].0.clone();
            let v = self.entries[i].1.clone();
            r.push((k, v));
            i += 1;
        }
        r
    }

    /// The same entries, each value borrowed as `&str`.
    pub fn borrowed(&self) -> (r: StrMap<&str>)
        ensures
            r@.len() == self@.len(),
            forall|i: int|
                0 <= i < self@.len() ==> (#[trigger] r@[i]).0 == self@[i].0 && r@[i].1@
                    == self@[i].1@,
    {
        proof {
            use_type_invariant(self);
        }
        let mut entries: Vec<(String, &str)> = Vec::new();
        let mut i: usize = 0;
        while i < self.entries.len()
            invariant
                i <= self.entries@.len(),
                self@ == entries_view(self.entries@),
                sorted_keys(self@),
                entries@.len() == i,
                forall|j: int|
                    0 <= j < i ==> (#[trigger] entries_view(entries@)[j]).0 == self@[j].0
                        && entries_view(entries@)[j].1@ == self@[j].1@,
            decreases self.entries.len() - i,
        {
            let key = self.entries[i].0.clone();
            let v = self.entries[i].1.as_str();
            let ghost prev = entries@;
            entries.push((key, v));
            proof {
                assert(entries@ == prev.push((key, v)));
                assert forall|j: int| 0 <= j < i + 1 implies (#[trigger] entries_view(entries@)[j]).0
                    == self@[j].0 && entries_view(entries@)[j].1@ == self@[j].1@ by {
                    if j < i {
                        assert(entries@[j] == prev[j]);
                        assert(entries_view(prev)[j] == entries_view(entries@)[j]);
                    } else {
                        assert(self@[j] == (self.entries@[j].0@, self.entries@[j].1));
                    }
                }
            }
            i += 1;
        }
        let r = StrMap { entries };
        proof {
            assert forall|a: int, b: int| 0 <= a < b < r@.len() implies lex_lt(
                #[trigger] r@[a].0,
                #[trigger] r@[b].0,
            ) by {
                assert(lex_lt(self@[a].0, self@[b].0));
            }
        }
        r
    }
}

} // verus!
