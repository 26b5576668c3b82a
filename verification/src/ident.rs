//! Counting the backticks of a quoted identifier that are not escaped: the
//! measure of whether quoting kept a name to a single identifier.
use vstd::prelude::*;

use crate::text::chars_of;

verus! {

/// The unescaped backticks of `s` from position `i` on: a backslash escapes
/// whatever follows it.
pub open spec fn backticks_from(s: Seq<char>, i: int) -> nat
    decreases s.len() - i,
{
    if i < 0 || i >= s.len() {
        0
    } else if s[i] == '\\' {
        backticks_from(s, if i + 2 <= s.len() { i + 2 } else { s.len() as int })
    } else if s[i] == '`' {
        1 + backticks_from(s, i + 1)
    } else {
        backticks_from(s, i + 1)
    }
}

proof fn lemma_backticks_bound(s: Seq<char>, i: int)
    requires
        0 <= i,
    ensures
        backticks_from(s, i) <= if i <= s.len() { s.len() - i } else { 0 },
    decreases s.len() - i,
{
    if i < s.len() {
        if s[i] == '\\' {
            lemma_backticks_bound(s, if i + 2 <= s.len() { i + 2 } else { s.len() as int });
        } else {
            lemma_backticks_bound(s, i + 1);
        }
    }
}

/// Counts the backticks of `s` that are not escaped by a backslash.
pub fn unescaped_backticks(s: &str) -> (r: usize)
    ensures
        r == backticks_from(s@, 0),
{
    let c = chars_of(s);
    let mut count: usize = 0;
    let mut i: usize = 0;
    proof {
        lemma_backticks_bound(c@, 0);
    }
    while i < c.len()
        invariant
            c@ == s@,
            i <= c@.len(),
            count + backticks_from(c@, i as int) == backticks_from(c@, 0),
            backticks_from(c@, 0) <= c@.len(),
        decreases c.len() - i,
    {
        if c[i] == '\\' {
            i = if c.len() - i >= 2 {
                i + 2
            } else {
                c.len()
            };
        } else if c[i] == '`' {
            count = count + 1;
            i = i + 1;
        } else {
            i = i + 1;
        }
    }
    count
}

} // verus!
