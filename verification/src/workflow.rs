//! Cloud Workflows steps that run a BigQuery query: the SQL embedded in a
//! YAML block scalar, one line per SQL line.
use vstd::prelude::*;

use crate::preprocess::join;
use crate::text::{chars_of, find_char, lemma_find_from_facts, find_from, push_range};

verus! {

/// `l` without one trailing carriage return.
pub open spec fn strip_cr(l: Seq<char>) -> Seq<char> {
    if l.len() > 0 && l.last() == '\r' {
        l.drop_last()
    } else {
        l
    }
}

/// The lines of `s[start..]` as `str::lines` gives them: split at each `\n`,
/// a `\r` right before the `\n` dropped, and no empty line after a final `\n`.
pub open spec fn lines_from(s: Seq<char>, start: int) -> Seq<Seq<char>>
    decreases s.len() - start,
{
    if start < 0 || start >= s.len() {
        Seq::empty()
    } else {
        match find_from(s, seq!['\n'], start) {
            None => seq![s.subrange(start, s.len() as int)],
            Some(i) => {
                if i < start || i >= s.len() {
                    Seq::empty()
                } else {
                    seq![strip_cr(s.subrange(start, i))] + lines_from(s, i + 1)
                }
            },
        }
    }
}

pub open spec fn lines(s: Seq<char>) -> Seq<Seq<char>> {
    lines_from(s, 0)
}

/// The line break inside the block scalar: a newline and sixteen spaces.
pub const CONTINUATION: &'static str = "\n                ";

/// The SQL with each of its lines after the first indented to continue a
/// YAML block scalar.
pub open spec fn yaml_sql(sql: Seq<char>) -> Seq<char> {
    join(lines(sql), CONTINUATION@)
}

/// Indents every line of `sql` after the first by sixteen spaces, so that it
/// stays inside the YAML block scalar it is written into.
pub fn escape_sql_for_yaml(sql: &str) -> (r: String)
    ensures
        r@ == yaml_sql(sql@),
{
    let c = chars_of(sql);
    let ghost s = c@;
    let mut r = String::new();
    let mut start: usize = 0;
    let ghost mut done: Seq<Seq<char>> = Seq::empty();
    while start < c.len()
        invariant
            s == sql@,
            c@ == s,
            start <= c@.len(),
            done + lines_from(s, start as int) == lines(s),
            r@ == join(done, CONTINUATION@),
            (start == 0) == (done.len() == 0),
        decreases c.len() - start,
    {
        proof {
            lemma_find_from_facts(s, seq!['\n'], start as int);
        }
        let (end, next) = match find_char(&c, '\n', start) {
            Some(i) => {
                let e = if i > start && c[i - 1] == '\r' {
                    i - 1
                } else {
                    i
                };
                (e, i + 1)
            },
            None => (c.len(), c.len()),
        };
        let ghost line = s.subrange(start as int, end as int);
        proof {
            match find_from(s, seq!['\n'], start as int) {
                Some(i) => {
                    assert(line == strip_cr(s.subrange(start as int, i)));
                    assert(lines_from(s, start as int) == seq![line] + lines_from(s, next as int));
                },
                None => {
                    assert(lines_from(s, start as int) == seq![line]);
                    assert(lines_from(s, next as int) =~= Seq::<Seq<char>>::empty());
                },
            }
        }
        if start > 0 {
            r.append(CONTINUATION);
        }
        push_range(&mut r, &c, start, end);
        proof {
            let d2 = done.push(line);
            assert(d2.drop_last() =~= done);
            assert(d2 + lines_from(s, next as int) =~= done + (seq![line] + lines_from(s, next as int)));
            done = d2;
        }
        start = next;
    }
    proof {
        assert(lines_from(s, start as int) =~= Seq::<Seq<char>>::empty());
        assert(done + Seq::<Seq<char>>::empty() =~= done);
    }
    r
}

pub const STEP_HEAD: &'static str = "- ";

pub const STEP_CALL: &'static str = ":\n    call: googleapis.bigquery.v2.jobs.query\n    args:\n        projectId: ";

pub const STEP_BODY: &'static str = "\n        body:\n            useLegacySql: false\n            useQueryCache: false\n            timeoutMs: 600000\n            query: |\n                ";

/// One workflow step that runs `sql` in `project` through the BigQuery
/// connector.
pub open spec fn step_yaml(step: Seq<char>, project: Seq<char>, sql: Seq<char>) -> Seq<char> {
    STEP_HEAD@ + step + STEP_CALL@ + project + STEP_BODY@ + yaml_sql(sql)
}

/// Writes one query step of a workflow.
pub fn format_step(step_name: &str, project: &str, sql: &str) -> (r: String)
    ensures
        r@ == step_yaml(step_name@, project@, sql@),
{
    let escaped = escape_sql_for_yaml(sql);
    let mut r = String::new();
    r.append(STEP_HEAD);
    r.append(step_name);
    r.append(STEP_CALL);
    r.append(project);
    r.append(STEP_BODY);
    r.append(escaped.as_str());
    r
}

/// The workflow of a scheduled SQL job: a single `runQuery` step.
pub fn generate_workflow_yaml(project: &str, sql: &str) -> (r: String)
    ensures
        r@ == step_yaml("runQuery"@, project@, sql@),
{
    format_step("runQuery", project, sql)
}

} // verus!
