//! Resolving a model's SQL: macros expanded, `ref`s replaced by the table
//! or inlined CTE they name, `source`s marked for their table reference,
//! ephemeral models flattened into one CTE list; and the DDL a model's
//! materialization calls for.
//!
//! Quoting identifiers belongs to the identifier-quoting code at the edge:
//! a resolution lists the source tables it needs quoted, and the quoted
//! references are handed back to [`assemble`]; the DDL generators take the
//! quoted table and column references.
use vstd::prelude::*;

use crate::macros::{expand_macros, expanded, reports, MacroDef, MacroError, MacroFailure};
use crate::model::{
    partition_expr, query_text, ctes_view, granularity_or_day, ModelRefData, PartitionConfig, ResolvedSql,
    SourceDef,
};
use crate::options::TableOptions;
use crate::preprocess::join;
use crate::scanner::{segments_of, DbtScanner, DbtSegment, SpecSegment};
use crate::strmap::{lookup, StrMap};
use crate::text::{chars_of, contains, eq_ignore_case, matches_at, push_char, str_eq, string_of_range, trim, trim_ws, unicode_lower, unicode_upper};

verus! {

// ───────────────────────── errors ─────────────────────────

/// Why a model's SQL cannot be resolved.
#[derive(Debug)]
pub enum ResolveError {
    MacroExpansion(MacroError),
    UnknownRef(String),
    UnknownSource { src: String, table: String },
}

/// Why resolution stops, as text.
pub enum ResolveFailure {
    Macro(MacroFailure),
    UnknownRef(Seq<char>),
    UnknownSource(Seq<char>, Seq<char>),
}

/// The error `resolve_segments` reports for a failure.
pub open spec fn reports_failure(e: ResolveError, f: ResolveFailure) -> bool {
    match f {
        ResolveFailure::Macro(m) => e matches ResolveError::MacroExpansion(x) && reports(x, m),
        ResolveFailure::UnknownRef(n) => e matches ResolveError::UnknownRef(x) && x@ == n,
        ResolveFailure::UnknownSource(s, t) => e matches ResolveError::UnknownSource { src, table } && src@
            == s && table@ == t,
    }
}

impl ResolveError {
    pub open spec fn message(&self) -> Seq<char> {
        match self {
            ResolveError::MacroExpansion(e) => "macro expansion failed: "@ + e.message(),
            ResolveError::UnknownRef(n) => "unknown ref '"@ + n@ + "'"@,
            ResolveError::UnknownSource { src, table } => "unknown source '"@ + src@ + "."@ + table@
                + "'"@,
        }
    }

    /// The error's message.
    pub fn to_string(&self) -> (r: String)
        ensures
            r@ == self.message(),
    {
        let mut r = String::new();
        match self {
            ResolveError::MacroExpansion(e) => {
                r.append("macro expansion failed: ");
                r.append(e.to_string().as_str());
            },
            ResolveError::UnknownRef(n) => {
                r.append("unknown ref '");
                r.append(n.as_str());
                r.append("'");
            },
            ResolveError::UnknownSource { src, table } => {
                r.append("unknown source '");
                r.append(src.as_str());
                r.append(".");
                r.append(table.as_str());
                r.append("'");
            },
        }
        r
    }
}

// ───────────────────────── upstream CTEs ─────────────────────────

/// What `serde_json::from_str::<Vec<(String, String)>>` gives for `text`: the
/// list of name/SQL pairs a JSON array of two-string arrays holds, or `None`
/// when `text` is not such an array.
pub uninterp spec fn json_pairs(text: Seq<char>) -> Option<Seq<(Seq<char>, Seq<char>)>>;

pub open spec fn pairs_view(v: Seq<(String, String)>) -> Seq<(Seq<char>, Seq<char>)> {
    v.map_values(|p: (String, String)| (p.0@, p.1@))
}

/// Calls `serde_json::from_str::<Vec<(String, String)>>(text)`, with the
/// error case as `None`. Claimed of it: the result is the named parse of
/// `text`.
#[verifier::external_body]
fn parse_pairs(text: &str) -> (r: Option<Vec<(String, String)>>)
    ensures
        r matches Some(v) ==> json_pairs(text@) == Some(pairs_view(v@)),
        r is None ==> json_pairs(text@) is None,
{
    serde_json::from_str::<Vec<(String, String)>>(text).ok()
}

/// What `serde_json::to_string` writes for a list of text pairs.
pub uninterp spec fn pairs_json(pairs: Seq<(Seq<char>, Seq<char>)>) -> Seq<char>;

/// Calls `serde_json::to_string` on a list of text pairs: a JSON array of
/// two-element string arrays. It cannot fail on such a list (strings and
/// sequences always serialise). Claimed of it: the result is the named
/// JSON of the pairs, and `serde_json::from_str` reads it back as the same
/// pairs.
#[verifier::external_body]
pub(crate) fn pairs_to_json(pairs: &Vec<(String, String)>) -> (r: String)
    ensures
        r@ == pairs_json(pairs_view(pairs@)),
        json_pairs(r@) == Some(pairs_view(pairs@)),
{
    serde_json::to_string(pairs).unwrap_or_default()
}

// ───────────────────────── resolution ─────────────────────────

/// A piece of the resolved body: text, or a source table whose quoted
/// reference is filled in later.
pub enum BodyPiece {
    Text(String),
    SourceTable { dataset: String, table: String },
}

pub enum SpecPiece {
    Text(Seq<char>),
    SourceTable { dataset: Seq<char>, table: Seq<char> },
}

impl View for BodyPiece {
    type V = SpecPiece;

    open spec fn view(&self) -> SpecPiece {
        match self {
            BodyPiece::Text(t) => SpecPiece::Text(t@),
            BodyPiece::SourceTable { dataset, table } => SpecPiece::SourceTable {
                dataset: dataset@,
                table: table@,
            },
        }
    }
}

/// A resolution in progress or done: the CTEs so far, and the body pieces.
pub struct Resolution {
    pub ctes: Vec<(String, String)>,
    pub pieces: Vec<BodyPiece>,
}

pub struct SpecResolution {
    pub ctes: Seq<(Seq<char>, Seq<char>)>,
    pub pieces: Seq<SpecPiece>,
}

impl View for Resolution {
    type V = SpecResolution;

    open spec fn view(&self) -> SpecResolution {
        SpecResolution {
            ctes: pairs_view(self.ctes@),
            pieces: self.pieces@.map_values(|p: BodyPiece| p@),
        }
    }
}

pub open spec fn cte_names(ctes: Seq<(Seq<char>, Seq<char>)>) -> Seq<Seq<char>> {
    ctes.map_values(|c: (Seq<char>, Seq<char>)| c.0)
}

/// `ctes` with each upstream CTE whose name is not yet present appended, in
/// order.
pub open spec fn add_upstream(ctes: Seq<(Seq<char>, Seq<char>)>, up: Seq<(Seq<char>, Seq<char>)>) -> Seq<
    (Seq<char>, Seq<char>),
>
    decreases up.len(),
{
    if up.len() == 0 {
        ctes
    } else {
        let c = add_upstream(ctes, up.drop_last());
        if cte_names(c).contains(up.last().0) {
            c
        } else {
            c.push(up.last())
        }
    }
}

/// The name an ephemeral model's CTE goes by.
pub open spec fn ephemeral_name(model: Seq<char>) -> Seq<char> {
    "__dbt__cte__"@ + model
}

/// The CTEs after a `ref` to an ephemeral model: unless its CTE is already
/// there, its upstream CTEs (from its JSON list, when that parses and is not
/// empty) that are missing, then its own.
pub open spec fn with_ephemeral(ctes: Seq<(Seq<char>, Seq<char>)>, model: Seq<char>, d: ModelRefData) -> Seq<
    (Seq<char>, Seq<char>),
> {
    let name = ephemeral_name(model);
    if cte_names(ctes).contains(name) {
        ctes
    } else {
        let json = d.resolved_ctes_json@;
        let c1 = if json.len() > 0 && json != "[]"@ {
            match json_pairs(json) {
                Some(up) => add_upstream(ctes, up),
                None => ctes,
            }
        } else {
            ctes
        };
        c1.push((name, d.resolved_body@))
    }
}

/// The text a call of an unknown macro is written back as.
pub open spec fn call_text(name: Seq<char>, raw_args: Seq<char>) -> Seq<char> {
    "{{ "@ + name + "("@ + raw_args + ") }}"@
}

/// Whether a text segment is a whole `{{ ... }}` template: the scanner keeps
/// an expression it does not recognise as text, braces and all.
pub open spec fn is_expression_template(s: Seq<char>) -> bool {
    s.len() >= 4 && s[0] == '{' && s[1] == '{' && s[s.len() - 2] == '}' && s[s.len() - 1] == '}'
}

/// The SQL a text segment renders to: a `{{ expression }}` renders as its
/// (trimmed) expression, so that a value substituted there reaches the
/// query as that value; other text as it is.
pub open spec fn rendered_text(s: Seq<char>) -> Seq<char> {
    if is_expression_template(s) {
        trim(s.subrange(2, s.len() - 2))
    } else {
        s
    }
}

fn render_text(s: &str) -> (r: String)
    ensures
        r@ == rendered_text(s@),
{
    let c = chars_of(s);
    let n = c.len();
    if n >= 4 && c[0] == '{' && c[1] == '{' && c[n - 2] == '}' && c[n - 1] == '}' {
        let (a, b) = trim_ws(&c, 2, n - 2);
        string_of_range(&c, a, b)
    } else {
        owned(s)
    }
}

/// One segment's effect on the resolution.
pub open spec fn resolve_step(
    st: SpecResolution,
    seg: SpecSegment,
    sources: Seq<(Seq<char>, SourceDef)>,
    refs: Seq<(Seq<char>, ModelRefData)>,
) -> Result<SpecResolution, ResolveFailure> {
    match seg {
        SpecSegment::Config { .. } => Ok(st),
        SpecSegment::Sql(s) => Ok(
            SpecResolution { pieces: st.pieces.push(SpecPiece::Text(rendered_text(s))), ..st },
        ),
        SpecSegment::Ref { model } => match lookup(refs, model) {
            None => Err(ResolveFailure::UnknownRef(model)),
            Some(d) => if d.materialization@ == "ephemeral"@ {
                Ok(
                    SpecResolution {
                        ctes: with_ephemeral(st.ctes, model, d),
                        pieces: st.pieces.push(SpecPiece::Text(ephemeral_name(model))),
                    },
                )
            } else {
                Ok(SpecResolution { pieces: st.pieces.push(SpecPiece::Text(d.table_ref@)), ..st })
            },
        },
        SpecSegment::Source { source, table } => match lookup(sources, source) {
            None => Err(ResolveFailure::UnknownSource(source, table)),
            Some(def) => Ok(
                SpecResolution {
                    pieces: st.pieces.push(SpecPiece::SourceTable { dataset: def.dataset@, table }),
                    ..st
                },
            ),
        },
        SpecSegment::Call { name, raw_args } => Ok(
            SpecResolution { pieces: st.pieces.push(SpecPiece::Text(call_text(name, raw_args))), ..st },
        ),
    }
}

/// The resolution after each segment in turn, stopping at the first failure.
pub open spec fn resolve_all(
    segs: Seq<SpecSegment>,
    sources: Seq<(Seq<char>, SourceDef)>,
    refs: Seq<(Seq<char>, ModelRefData)>,
) -> Result<SpecResolution, ResolveFailure>
    decreases segs.len(),
{
    if segs.len() == 0 {
        Ok(SpecResolution { ctes: Seq::empty(), pieces: Seq::empty() })
    } else {
        match resolve_all(segs.drop_last(), sources, refs) {
            Err(f) => Err(f),
            Ok(st) => resolve_step(st, segs.last(), sources, refs),
        }
    }
}

/// The resolution of a model's SQL: its macros expanded, then its segments
/// resolved in order.
pub open spec fn resolution(
    sql: Seq<char>,
    sources: Seq<(Seq<char>, SourceDef)>,
    refs: Seq<(Seq<char>, ModelRefData)>,
    macros: Seq<(Seq<char>, MacroDef)>,
) -> Result<SpecResolution, ResolveFailure> {
    match expanded(sql, macros) {
        Err(f) => Err(ResolveFailure::Macro(f)),
        Ok(t) => resolve_all(segments_of(t), sources, refs),
    }
}

fn owned(s: &str) -> (r: String)
    ensures
        r@ == s@,
{
    let mut r = String::new();
    r.append(s);
    r
}

fn has_cte(ctes: &Vec<(String, String)>, name: &str) -> (r: bool)
    ensures
        r == cte_names(pairs_view(ctes@)).contains(name@),
{
    let ghost names = cte_names(pairs_view(ctes@));
    let mut j: usize = 0;
    while j < ctes.len()
        invariant
            j <= ctes@.len(),
            names == cte_names(pairs_view(ctes@)),
            forall|k: int| 0 <= k < j ==> names[k] != name@,
        decreases ctes.len() - j,
    {
        if str_eq(ctes[j].0.as_str(), name) {
            assert(names[j as int] == name@);
            return true;
        }
        j += 1;
    }
    false
}

fn push_cte(ctes: &mut Vec<(String, String)>, name: String, sql: String)
    ensures
        pairs_view(final(ctes)@) == pairs_view(old(ctes)@).push((name@, sql@)),
{
    let ghost n = name@;
    let ghost q = sql@;
    ctes.push((name, sql));
    assert(pairs_view(final(ctes)@) =~= pairs_view(old(ctes)@).push((n, q)));
}

fn add_upstream_ctes(ctes: &mut Vec<(String, String)>, up: Vec<(String, String)>)
    ensures
        pairs_view(final(ctes)@) == add_upstream(pairs_view(old(ctes)@), pairs_view(up@)),
{
    let ghost start = pairs_view(ctes@);
    let ghost all = pairs_view(up@);
    let mut i: usize = 0;
    while i < up.len()
        invariant
            i <= up@.len(),
            all == pairs_view(up@),
            pairs_view(ctes@) == add_upstream(start, all.take(i as int)),
        decreases up.len() - i,
    {
        let name = up[i].0.as_str();
        proof {
            assert(all.take(i + 1).drop_last() =~= all.take(i as int));
            assert(all.take(i + 1).last() == all[i as int]);
        }
        if !has_cte(ctes, name) {
            push_cte(ctes, owned(name), owned(up[i].1.as_str()));
        }
        i += 1;
    }
    assert(all.take(up@.len() as int) =~= all);
}

fn add_ephemeral(ctes: &mut Vec<(String, String)>, model: &str, d: &ModelRefData)
    ensures
        pairs_view(final(ctes)@) == with_ephemeral(pairs_view(old(ctes)@), model@, *d),
{
    let mut name = owned("__dbt__cte__");
    name.append(model);
    if has_cte(ctes, name.as_str()) {
        return;
    }
    let json = d.resolved_ctes_json.as_str();
    let nonempty = json.unicode_len() > 0 && !str_eq(json, "[]");
    if nonempty {
        match parse_pairs(json) {
            Some(up) => {
                add_upstream_ctes(ctes, up);
            },
            None => {},
        }
    }
    push_cte(ctes, name, owned(d.resolved_body.as_str()));
}

fn push_piece(pieces: &mut Vec<BodyPiece>, p: BodyPiece)
    ensures
        final(pieces)@.map_values(|x: BodyPiece| x@) == old(pieces)@.map_values(|x: BodyPiece| x@).push(p@),
{
    let ghost v = p@;
    pieces.push(p);
    assert(final(pieces)@.map_values(|x: BodyPiece| x@) =~= old(pieces)@.map_values(|x: BodyPiece| x@).push(v));
}

/// Applies one segment.
fn step(
    res: &mut Resolution,
    seg: DbtSegment,
    sources: &StrMap<SourceDef>,
    model_refs: &StrMap<ModelRefData>,
) -> (r: Result<(), ResolveError>)
    ensures
        match resolve_step(old(res)@, seg@, sources@, model_refs@) {
            Ok(st) => r is Ok && final(res)@ == st,
            Err(f) => r matches Err(e) && reports_failure(e, f),
        },
{
    match seg {
        DbtSegment::Config { .. } => Ok(()),
        DbtSegment::Sql(s) => {
            push_piece(&mut res.pieces, BodyPiece::Text(render_text(s)));
            Ok(())
        },
        DbtSegment::Ref { model } => match model_refs.get(model) {
            None => Err(ResolveError::UnknownRef(owned(model))),
            Some(d) => {
                if str_eq(d.materialization.as_str(), "ephemeral") {
                    add_ephemeral(&mut res.ctes, model, d);
                    let mut name = owned("__dbt__cte__");
                    name.append(model);
                    push_piece(&mut res.pieces, BodyPiece::Text(name));
                } else {
                    push_piece(&mut res.pieces, BodyPiece::Text(owned(d.table_ref.as_str())));
                }
                Ok(())
            },
        },
        DbtSegment::Source { source, table } => match sources.get(source) {
            None => Err(ResolveError::UnknownSource { src: owned(source), table: owned(table) }),
            Some(def) => {
                push_piece(
                    &mut res.pieces,
                    BodyPiece::SourceTable { dataset: owned(def.dataset.as_str()), table: owned(table) },
                );
                Ok(())
            },
        },
        DbtSegment::Call { name, raw_args } => {
            let mut t = owned("{{ ");
            t.append(name);
            t.append("(");
            t.append(raw_args);
            t.append(") }}");
            push_piece(&mut res.pieces, BodyPiece::Text(t));
            Ok(())
        },
    }
}

/// Resolves a model's SQL up to the source table references: macros are
/// expanded, `config(...)` is dropped, a `ref` becomes its table reference
/// or (for an ephemeral model) its CTE name with the CTE and its upstream
/// CTEs collected once each, a `source` becomes a piece for its table, and
/// any remaining call is written back. A `ref` or `source` the project does
/// not know is an error, as is a failed expansion.
pub fn resolve_segments(
    sql: &str,
    sources: &StrMap<SourceDef>,
    model_refs: &StrMap<ModelRefData>,
    macros: &StrMap<MacroDef>,
) -> (r: Result<Resolution, ResolveError>)
    ensures
        match resolution(sql@, sources@, model_refs@, macros@) {
            Ok(st) => r matches Ok(x) && x@ == st,
            Err(f) => r matches Err(e) && reports_failure(e, f),
        },
{
    let text = match expand_macros(sql, macros) {
        Ok(t) => t,
        Err(e) => {
            return Err(ResolveError::MacroExpansion(e));
        },
    };
    let ghost segs = segments_of(text@);
    let ghost mut seen: Seq<SpecSegment> = Seq::empty();
    let mut res = Resolution { ctes: Vec::new(), pieces: Vec::new() };
    assert(res@.ctes =~= Seq::<(Seq<char>, Seq<char>)>::empty());
    assert(res@.pieces =~= Seq::<SpecPiece>::empty());
    let mut scanner = DbtScanner::new(text.as_str());
    loop
        invariant
            scanner.wf(),
            seen + scanner.remaining() == segs,
            resolution(sql@, sources@, model_refs@, macros@) == resolve_all(segs, sources@, model_refs@),
            resolve_all(seen, sources@, model_refs@) == Ok::<SpecResolution, ResolveFailure>(res@),
        ensures
            seen == segs,
            resolve_all(seen, sources@, model_refs@) == Ok::<SpecResolution, ResolveFailure>(res@),
        decreases scanner.remaining().len(),
    {
        let ghost rem = scanner.remaining();
        match scanner.next() {
            Some(seg) => {
                let ghost s2 = seen.push(seg@);
                let ghost before = res@;
                proof {
                    assert(s2.drop_last() =~= seen);
                    assert(s2 + scanner.remaining() =~= seen + rem);
                    assert(s2 =~= segs.take(s2.len() as int));
                    assert(resolve_all(s2, sources@, model_refs@) == resolve_step(before, seg@, sources@, model_refs@));
                }
                match step(&mut res, seg, sources, model_refs) {
                    Ok(()) => {},
                    Err(e) => {
                        proof {
                            lemma_resolve_all_stops(s2, segs, sources@, model_refs@);
                        }
                        return Err(e);
                    },
                }
                proof {
                    seen = s2;
                }
            },
            None => {
                proof {
                    assert(seen =~= segs);
                }
                break;
            },
        }
    }
    Ok(res)
}

/// A failure part way through is the failure of the whole.
proof fn lemma_resolve_all_stops(
    pre: Seq<SpecSegment>,
    all: Seq<SpecSegment>,
    sources: Seq<(Seq<char>, SourceDef)>,
    refs: Seq<(Seq<char>, ModelRefData)>,
)
    requires
        pre.len() <= all.len(),
        pre == all.take(pre.len() as int),
        resolve_all(pre, sources, refs) is Err,
    ensures
        resolve_all(all, sources, refs) == resolve_all(pre, sources, refs),
    decreases all.len() - pre.len(),
{
    if pre.len() < all.len() {
        let next = all.take(pre.len() + 1int);
        assert(next.drop_last() =~= pre);
        lemma_resolve_all_stops(next, all, sources, refs);
    } else {
        assert(pre =~= all);
    }
}

/// No name occurs twice.
pub open spec fn distinct_names(names: Seq<Seq<char>>) -> bool {
    forall|i: int, j: int| 0 <= i < j < names.len() ==> names[i] != names[j]
}

proof fn lemma_push_distinct(ctes: Seq<(Seq<char>, Seq<char>)>, c: (Seq<char>, Seq<char>))
    requires
        distinct_names(cte_names(ctes)),
        !cte_names(ctes).contains(c.0),
    ensures
        distinct_names(cte_names(ctes.push(c))),
{
    assert(cte_names(ctes.push(c)) =~= cte_names(ctes).push(c.0));
    assert forall|i: int, j: int| 0 <= i < j < cte_names(ctes.push(c)).len() implies cte_names(
        ctes.push(c),
    )[i] != cte_names(ctes.push(c))[j] by {
        if j == ctes.len() {
            assert(cte_names(ctes)[i] == cte_names(ctes.push(c))[i]);
        }
    }
}

proof fn lemma_add_upstream_distinct(ctes: Seq<(Seq<char>, Seq<char>)>, up: Seq<(Seq<char>, Seq<char>)>)
    requires
        distinct_names(cte_names(ctes)),
    ensures
        distinct_names(cte_names(add_upstream(ctes, up))),
        forall|n: Seq<char>| cte_names(ctes).contains(n) ==> #[trigger] cte_names(add_upstream(ctes, up)).contains(n),
        forall|n: Seq<char>|
            #[trigger] cte_names(add_upstream(ctes, up)).contains(n) ==> cte_names(ctes).contains(n)
                || cte_names(up).contains(n),
    decreases up.len(),
{
    if up.len() > 0 {
        let c = add_upstream(ctes, up.drop_last());
        lemma_add_upstream_distinct(ctes, up.drop_last());
        assert(cte_names(up.drop_last()) =~= cte_names(up).drop_last());
        assert forall|n: Seq<char>| cte_names(up.drop_last()).contains(n) implies cte_names(up).contains(n) by {
            let k = choose|k: int| 0 <= k < cte_names(up.drop_last()).len() && cte_names(up.drop_last())[k] == n;
            assert(cte_names(up)[k] == n);
        }
        assert(cte_names(up)[up.len() - 1] == up.last().0);
        if !cte_names(c).contains(up.last().0) {
            lemma_push_distinct(c, up.last());
            assert(cte_names(c.push(up.last())) =~= cte_names(c).push(up.last().0));
            assert forall|n: Seq<char>| cte_names(c).contains(n) implies #[trigger] cte_names(c.push(up.last())).contains(n) by {
                let k = choose|k: int| 0 <= k < cte_names(c).len() && cte_names(c)[k] == n;
                assert(cte_names(c.push(up.last()))[k] == n);
            }
            assert forall|n: Seq<char>| #[trigger] cte_names(c.push(up.last())).contains(n) implies cte_names(ctes).contains(n)
                || cte_names(up).contains(n) by {
                let k = choose|k: int| 0 <= k < cte_names(c.push(up.last())).len() && cte_names(c.push(up.last()))[k] == n;
                if k < c.len() {
                    assert(cte_names(c)[k] == n);
                    assert(cte_names(c).contains(n));
                } else {
                    assert(n == up.last().0);
                }
            }
        } else {
            assert forall|n: Seq<char>| #[trigger] cte_names(c).contains(n) implies cte_names(ctes).contains(n)
                || cte_names(up).contains(n) by {
                if cte_names(up.drop_last()).contains(n) {
                }
            }
        }
    }
}

/// An ephemeral model whose upstream CTE list does not hold its own CTE name.
pub open spec fn upstream_excludes_self(refs: Seq<(Seq<char>, ModelRefData)>) -> bool {
    forall|m: Seq<char>|
        #[trigger] lookup(refs, m) matches Some(d) ==> (json_pairs(d.resolved_ctes_json@) matches Some(
            up,
        ) ==> !cte_names(up).contains(ephemeral_name(m)))
}

/// The opening of a template expression.
pub open spec fn template_open() -> Seq<char> {
    seq!['{', '{']
}

proof fn lemma_no_open_in_concat(a: Seq<char>, b: Seq<char>)
    requires
        !contains(a, template_open()),
        !contains(b, template_open()),
        a.len() > 0 ==> a.last() != '{',
    ensures
        !contains(a + b, template_open()),
{
    let o = template_open();
    if contains(a + b, o) {
        let i = choose|i: int| matches_at(a + b, o, i);
        assert((a + b).subrange(i, i + 2)[0] == '{' && (a + b).subrange(i, i + 2)[1] == '{');
        if i + 2 <= a.len() {
            assert((a + b).subrange(i, i + 2) =~= a.subrange(i, i + 2));
            assert(matches_at(a, o, i));
        } else if i >= a.len() {
            assert((a + b).subrange(i, i + 2) =~= b.subrange(i - a.len(), i - a.len() + 2));
            assert(matches_at(b, o, i - a.len()));
        } else {
            assert((a + b)[i] == a.last());
        }
    }
}

/// A segment the resolver consumes whole: config, a `ref` to a model whose
/// name holds no `{{`, a source, or text (an expression template counting
/// as its expression) holding no `{{`. (A call of an unknown macro is
/// written back as it was.)
pub open spec fn consumable(seg: SpecSegment) -> bool {
    match seg {
        SpecSegment::Config { .. } => true,
        SpecSegment::Ref { model } => !contains(model, template_open()),
        SpecSegment::Source { .. } => true,
        SpecSegment::Sql(s) => !contains(rendered_text(s), template_open()),
        SpecSegment::Call { .. } => false,
    }
}

/// The referenced models publish table references free of `{{`.
pub open spec fn refs_untemplated(refs: Seq<(Seq<char>, ModelRefData)>) -> bool {
    forall|m: Seq<char>|
        #[trigger] lookup(refs, m) matches Some(d) ==> !contains(d.table_ref@, template_open())
}

/// Every construct the resolver owns is consumed: when each segment is one
/// it consumes whole and the referenced models' table references hold no
/// `{{`, no text of the resolved body holds `{{` — nothing template-shaped
/// is left for BigQuery.
pub proof fn law_constructs_consumed(
    segs: Seq<SpecSegment>,
    sources: Seq<(Seq<char>, SourceDef)>,
    refs: Seq<(Seq<char>, ModelRefData)>,
)
    requires
        forall|i: int| 0 <= i < segs.len() ==> consumable(#[trigger] segs[i]),
        refs_untemplated(refs),
    ensures
        resolve_all(segs, sources, refs) matches Ok(st) ==> forall|j: int|
            0 <= j < st.pieces.len() ==> (#[trigger] st.pieces[j] matches SpecPiece::Text(t) ==> !contains(
                t,
                template_open(),
            )),
    decreases segs.len(),
{
    if segs.len() > 0 {
        assert forall|i: int| 0 <= i < segs.drop_last().len() implies consumable(#[trigger] segs.drop_last()[i]) by {
            assert(segs.drop_last()[i] == segs[i]);
        }
        law_constructs_consumed(segs.drop_last(), sources, refs);
        assert(consumable(segs[segs.len() - 1]));
        match resolve_all(segs.drop_last(), sources, refs) {
            Ok(st) => {
                match segs.last() {
                    SpecSegment::Ref { model } => {
                        match lookup(refs, model) {
                            Some(d) => {
                                if d.materialization@ == "ephemeral"@ {
                                    let prefix = "__dbt__cte__"@;
                                    reveal_strlit("__dbt__cte__");
                                    assert(prefix.len() == 12 && prefix.last() == '_');
                                    if contains(prefix, template_open()) {
                                        let i = choose|i: int| matches_at(prefix, template_open(), i);
                                        assert(prefix.subrange(i, i + 2)[0] == prefix[i]);
                                    }
                                    lemma_no_open_in_concat(prefix, model);
                                }
                            },
                            None => {},
                        }
                    },
                    _ => {},
                }
            },
            Err(_) => {},
        }
    }
}

/// Each CTE of a resolution is collected once: no two CTEs share a name,
/// provided no ephemeral model lists its own CTE among its upstream ones.
pub proof fn law_ctes_collected_once(
    segs: Seq<SpecSegment>,
    sources: Seq<(Seq<char>, SourceDef)>,
    refs: Seq<(Seq<char>, ModelRefData)>,
)
    requires
        upstream_excludes_self(refs),
    ensures
        resolve_all(segs, sources, refs) matches Ok(st) ==> distinct_names(cte_names(st.ctes)),
    decreases segs.len(),
{
    if segs.len() > 0 {
        law_ctes_collected_once(segs.drop_last(), sources, refs);
        match resolve_all(segs.drop_last(), sources, refs) {
            Ok(st) => {
                match segs.last() {
                    SpecSegment::Ref { model } => {
                        match lookup(refs, model) {
                            Some(d) => {
                                if d.materialization@ == "ephemeral"@ {
                                    let name = ephemeral_name(model);
                                    if !cte_names(st.ctes).contains(name) {
                                        let json = d.resolved_ctes_json@;
                                        let c1 = if json.len() > 0 && json != "[]"@ {
                                            match json_pairs(json) {
                                                Some(up) => add_upstream(st.ctes, up),
                                                None => st.ctes,
                                            }
                                        } else {
                                            st.ctes
                                        };
                                        if json.len() > 0 && json != "[]"@ {
                                            match json_pairs(json) {
                                                Some(up) => {
                                                    lemma_add_upstream_distinct(st.ctes, up);
                                                    assert(!cte_names(up).contains(name));
                                                },
                                                None => {},
                                            }
                                        }
                                        lemma_push_distinct(c1, (name, d.resolved_body@));
                                    }
                                }
                            },
                            None => {},
                        }
                    },
                    _ => {},
                }
            },
            Err(_) => {},
        }
    }
}

// ───────────────────────── assembling the body ─────────────────────────

/// The number of source pieces among the first `n`.
pub open spec fn sources_before(pieces: Seq<SpecPiece>, n: int) -> nat
    decreases n,
{
    if n <= 0 {
        0
    } else {
        sources_before(pieces, n - 1) + if pieces[n - 1] is SourceTable {
            1nat
        } else {
            0nat
        }
    }
}

/// The text of the first `n` pieces, each source piece taking the next of
/// `refs` (empty when `refs` has run out).
pub open spec fn body_upto(pieces: Seq<SpecPiece>, refs: Seq<Seq<char>>, n: int) -> Seq<char>
    decreases n,
{
    if n <= 0 {
        Seq::empty()
    } else {
        body_upto(pieces, refs, n - 1) + match pieces[n - 1] {
            SpecPiece::Text(t) => t,
            SpecPiece::SourceTable { .. } => {
                let k = sources_before(pieces, n - 1) as int;
                if k < refs.len() {
                    refs[k]
                } else {
                    Seq::empty()
                }
            },
        }
    }
}

/// The source tables a resolution needs quoted, in order: (dataset, table).
pub open spec fn source_tables(pieces: Seq<SpecPiece>, n: int) -> Seq<(Seq<char>, Seq<char>)>
    decreases n,
{
    if n <= 0 {
        Seq::empty()
    } else {
        source_tables(pieces, n - 1) + match pieces[n - 1] {
            SpecPiece::SourceTable { dataset, table } => seq![(dataset, table)],
            SpecPiece::Text(_) => Seq::empty(),
        }
    }
}

/// The (dataset, table) of each source piece, in order; each is to be
/// quoted as a table reference of the model's project.
pub fn source_lookups(res: &Resolution) -> (r: Vec<(String, String)>)
    ensures
        pairs_view(r@) == source_tables(res@.pieces, res@.pieces.len() as int),
{
    let ghost ps = res@.pieces;
    let mut r: Vec<(String, String)> = Vec::new();
    let mut i: usize = 0;
    while i < res.pieces.len()
        invariant
            i <= res.pieces@.len(),
            ps == res@.pieces,
            pairs_view(r@) == source_tables(ps, i as int),
        decreases res.pieces.len() - i,
    {
        match &res.pieces[i] {
            BodyPiece::SourceTable { dataset, table } => {
                push_cte(&mut r, owned(dataset.as_str()), owned(table.as_str()));
            },
            BodyPiece::Text(_) => {
                assert(pairs_view(r@) =~= source_tables(ps, i as int) + Seq::<(Seq<char>, Seq<char>)>::empty());
            },
        }
        i += 1;
    }
    r
}

pub open spec fn texts_view(v: Seq<String>) -> Seq<Seq<char>> {
    v.map_values(|s: String| s@)
}

/// Finishes a resolution: each source piece takes the next quoted reference
/// of `source_refs`, and the body is trimmed.
pub fn assemble(res: &Resolution, source_refs: &[String]) -> (r: ResolvedSql)
    ensures
        ctes_view(r.ctes@) == res@.ctes,
        r.body@ == trim(body_upto(res@.pieces, texts_view(source_refs@), res@.pieces.len() as int)),
{
    let ghost ps = res@.pieces;
    let ghost refs = texts_view(source_refs@);
    let mut body = String::new();
    let mut k: usize = 0;
    let mut i: usize = 0;
    while i < res.pieces.len()
        invariant
            i <= res.pieces@.len(),
            ps == res@.pieces,
            refs == texts_view(source_refs@),
            k == sources_before(ps, i as int),
            k <= i,
            body@ == body_upto(ps, refs, i as int),
        decreases res.pieces.len() - i,
    {
        match &res.pieces[i] {
            BodyPiece::Text(t) => {
                body.append(t.as_str());
            },
            BodyPiece::SourceTable { .. } => {
                if k < source_refs.len() {
                    body.append(source_refs[k].as_str());
                }
                k = k + 1;
            },
        }
        i += 1;
    }
    let c = chars_of(body.as_str());
    let (a, b) = trim_ws(&c, 0, c.len());
    assert(c@.subrange(0, c@.len() as int) =~= body@);
    let mut trimmed = String::new();
    crate::text::push_range(&mut trimmed, &c, a, b);
    let mut ctes: Vec<(String, String)> = Vec::new();
    let mut j: usize = 0;
    while j < res.ctes.len()
        invariant
            j <= res.ctes@.len(),
            ctes_view(ctes@) == res@.ctes.take(j as int),
        decreases res.ctes.len() - j,
    {
        push_cte(&mut ctes, owned(res.ctes[j].0.as_str()), owned(res.ctes[j].1.as_str()));
        assert(res@.ctes.take(j + 1) =~= res@.ctes.take(j as int).push(res@.ctes[j as int]));
        j += 1;
    }
    assert(res@.ctes.take(res.ctes@.len() as int) =~= res@.ctes);
    ResolvedSql { ctes, body: trimmed }
}

// ───────────────────────── DDL ─────────────────────────

/// A column name with its quoted reference.
pub struct QuotedName {
    pub name: String,
    pub quoted: String,
}

/// The resolved query as SQL text.
pub open spec fn query_of(r: ResolvedSql) -> Seq<char> {
    query_text(ctes_view(r.ctes@), r.body@)
}

/// The `OPTIONS(...)` clause of a DDL statement, on a line of its own, when
/// options are given and not all unset.
pub open spec fn options_line<'a>(options: Option<TableOptions<'a>>) -> Seq<char> {
    match options {
        Some(o) => if o.is_empty_spec() {
            Seq::empty()
        } else {
            "\n"@ + o.ddl()
        },
        None => Seq::empty(),
    }
}

/// The partition expression of a partition setting.
pub open spec fn partition_of(p: PartitionConfig) -> Seq<char> {
    partition_expr(p.field@, unicode_lower(p.data_type@), unicode_upper(granularity_or_day(p.granularity)))
}

/// The `PARTITION BY` and `CLUSTER BY` lines of a table.
pub open spec fn layout_lines(part: Option<PartitionConfig>, cluster: Option<Seq<Seq<char>>>) -> Seq<char> {
    (match part {
        Some(p) => "\nPARTITION BY "@ + partition_of(p),
        None => Seq::empty(),
    }) + (match cluster {
        Some(cols) => if cols.len() > 0 {
            "\nCLUSTER BY "@ + join(cols, ", "@)
        } else {
            Seq::empty()
        },
        None => Seq::empty(),
    })
}

/// The DDL that creates a model's table or view for its materialization;
/// nothing for an ephemeral model or an unknown materialization.
pub open spec fn ddl_text<'a>(
    table_ref: Seq<char>,
    materialization: Seq<char>,
    query: Seq<char>,
    part: Option<PartitionConfig>,
    cluster: Option<Seq<Seq<char>>>,
    options: Option<TableOptions<'a>>,
) -> Seq<char> {
    if materialization == "table"@ || materialization == "incremental"@ {
        "CREATE OR REPLACE TABLE "@ + table_ref + layout_lines(part, cluster) + options_line(options)
            + " AS "@ + query
    } else if materialization == "view"@ {
        "CREATE OR REPLACE VIEW "@ + table_ref + options_line(options) + " AS "@ + query
    } else if materialization == "materialized_view"@ {
        "CREATE MATERIALIZED VIEW "@ + table_ref + options_line(options) + " AS "@ + query
    } else {
        Seq::empty()
    }
}

fn options_clause(options: Option<&TableOptions<'_>>) -> (r: String)
    ensures
        r@ == options_line(
            match options {
                Some(o) => Some(*o),
                None => None,
            },
        ),
{
    match options {
        Some(o) => {
            if o.is_empty() {
                String::new()
            } else {
                let mut r = owned("\n");
                r.append(o.to_ddl().as_str());
                r
            }
        },
        None => String::new(),
    }
}

/// The DDL that creates a model: `CREATE OR REPLACE TABLE` (with partition,
/// clustering and options) for a table or incremental model, `CREATE OR
/// REPLACE VIEW` or `CREATE MATERIALIZED VIEW` (with options) for views, and
/// nothing for an ephemeral model.
pub fn generate_ddl(
    table_ref: &str,
    materialization: &str,
    resolved: &ResolvedSql,
    partition_by: Option<&PartitionConfig>,
    cluster_by: Option<&[String]>,
    options: Option<&TableOptions<'_>>,
) -> (r: String)
    ensures
        r@ == ddl_text(
            table_ref@,
            materialization@,
            query_of(*resolved),
            match partition_by {
                Some(p) => Some(*p),
                None => None,
            },
            match cluster_by {
                Some(c) => Some(texts_view(c@)),
                None => None,
            },
            match options {
                Some(o) => Some(*o),
                None => None,
            },
        ),
{
    let full_sql = resolved.to_sql();
    let clause = options_clause(options);
    let is_table = str_eq(materialization, "table") || str_eq(materialization, "incremental");
    if is_table {
        let mut ddl = owned("CREATE OR REPLACE TABLE ");
        ddl.append(table_ref);
        let ghost head = ddl@;
        match partition_by {
            Some(p) => {
                ddl.append("\nPARTITION BY ");
                ddl.append(p.to_ddl().as_str());
            },
            None => {},
        }
        match cluster_by {
            Some(cols) => {
                if cols.len() > 0 {
                    ddl.append("\nCLUSTER BY ");
                    let v = slice_to_vec(cols);
                    ddl.append(crate::options::join_strings(&v, ", ").as_str());
                }
            },
            None => {},
        }
        ddl.append(clause.as_str());
        ddl.append(" AS ");
        ddl.append(full_sql.as_str());
        ddl
    } else if str_eq(materialization, "view") {
        let mut ddl = owned("CREATE OR REPLACE VIEW ");
        ddl.append(table_ref);
        ddl.append(clause.as_str());
        ddl.append(" AS ");
        ddl.append(full_sql.as_str());
        ddl
    } else if str_eq(materialization, "materialized_view") {
        let mut ddl = owned("CREATE MATERIALIZED VIEW ");
        ddl.append(table_ref);
        ddl.append(clause.as_str());
        ddl.append(" AS ");
        ddl.append(full_sql.as_str());
        ddl
    } else {
        String::new()
    }
}

fn slice_to_vec(s: &[String]) -> (r: Vec<String>)
    ensures
        texts_view(r@) == texts_view(s@),
{
    let mut r: Vec<String> = Vec::new();
    let mut i: usize = 0;
    while i < s.len()
        invariant
            i <= s@.len(),
            r@.len() == i,
            texts_view(r@) == texts_view(s@).take(i as int),
        decreases s.len() - i,
    {
        let ghost prev = r@;
        let x = owned(s[i].as_str());
        r.push(x);
        assert(r@ == prev.push(x));
        assert(texts_view(r@) =~= texts_view(s@).take(i + 1));
        i += 1;
    }
    assert(texts_view(s@).take(s@.len() as int) =~= texts_view(s@));
    r
}

/// `T.c = S.c` for a quoted column `c`.
pub open spec fn assign_text(quoted: Seq<char>) -> Seq<char> {
    "T."@ + quoted + " = S."@ + quoted
}

pub open spec fn quoted_of(v: Seq<QuotedName>) -> Seq<Seq<char>> {
    v.map_values(|q: QuotedName| q.quoted@)
}

/// The `ON` condition of a merge: the keys of target and source equal.
pub open spec fn on_text(keys: Seq<QuotedName>) -> Seq<char> {
    join(quoted_of(keys).map_values(|q: Seq<char>| assign_text(q)), " AND "@)
}

/// Whether `name` is one of the keys, ignoring ASCII case.
pub open spec fn is_key(keys: Seq<QuotedName>, name: Seq<char>) -> bool {
    exists|j: int| 0 <= j < keys.len() && eq_ignore_case(#[trigger] keys[j].name@, name)
}

/// The assignments of the non-key columns among the first `n`.
pub open spec fn updates_upto(keys: Seq<QuotedName>, cols: Seq<QuotedName>, n: int) -> Seq<Seq<char>>
    decreases n,
{
    if n <= 0 {
        Seq::empty()
    } else {
        updates_upto(keys, cols, n - 1) + if is_key(keys, cols[n - 1].name@) {
            Seq::empty()
        } else {
            seq![assign_text(cols[n - 1].quoted@)]
        }
    }
}

pub open spec fn merge_text(table_ref: Seq<char>, query: Seq<char>, on: Seq<char>, set: Seq<char>) -> Seq<char> {
    if set.len() == 0 {
        "MERGE "@ + table_ref + " T USING ("@ + query + ") S ON "@ + on
            + " WHEN NOT MATCHED THEN INSERT ROW"@
    } else {
        "MERGE "@ + table_ref + " T USING ("@ + query + ") S ON "@ + on
            + " WHEN MATCHED THEN UPDATE SET "@ + set + " WHEN NOT MATCHED THEN INSERT ROW"@
    }
}

fn assignments(items: &[QuotedName], sep: &str) -> (r: String)
    ensures
        r@ == join(quoted_of(items@).map_values(|q: Seq<char>| assign_text(q)), sep@),
{
    let ghost v = quoted_of(items@).map_values(|q: Seq<char>| assign_text(q));
    let mut r = String::new();
    let mut i: usize = 0;
    while i < items.len()
        invariant
            i <= items@.len(),
            v == quoted_of(items@).map_values(|q: Seq<char>| assign_text(q)),
            r@ == join(v.take(i as int), sep@),
        decreases items.len() - i,
    {
        if i > 0 {
            r.append(sep);
        }
        r.append("T.");
        r.append(items[i].quoted.as_str());
        r.append(" = S.");
        r.append(items[i].quoted.as_str());
        proof {
            assert(v[i as int] == assign_text(items@[i as int].quoted@));
            assert(v.take(i + 1).drop_last() =~= v.take(i as int));
            if i == 0 {
                assert(v.take(0) =~= Seq::<Seq<char>>::empty());
            }
        }
        i += 1;
    }
    assert(v.take(items@.len() as int) =~= v);
    r
}

fn key_match(keys: &[QuotedName], name: &str) -> (r: bool)
    ensures
        r == is_key(keys@, name@),
{
    let mut j: usize = 0;
    while j < keys.len()
        invariant
            j <= keys@.len(),
            forall|k: int| 0 <= k < j ==> !eq_ignore_case(#[trigger] keys@[k].name@, name@),
        decreases keys.len() - j,
    {
        if crate::config::eq_ignore_ascii_case(keys[j].name.as_str(), name) {
            return true;
        }
        j += 1;
    }
    false
}

/// The MERGE that upserts an incremental model's rows: matched on the unique
/// keys, updating every other column (by name, ignoring ASCII case), and
/// inserting new rows; with no column left to update it only inserts.
pub fn generate_merge_ddl(table_ref: &str, unique_keys: &[QuotedName], columns: &[QuotedName], resolved: &ResolvedSql) -> (r: String)
    ensures
        r@ == merge_text(
            table_ref@,
            query_of(*resolved),
            on_text(unique_keys@),
            join(updates_upto(unique_keys@, columns@, columns@.len() as int), ", "@),
        ),
{
    let full_sql = resolved.to_sql();
    let on = assignments(unique_keys, " AND ");
    let ghost all = updates_upto(unique_keys@, columns@, columns@.len() as int);
    let mut set = String::new();
    let ghost mut items: Seq<Seq<char>> = Seq::empty();
    let mut i: usize = 0;
    while i < columns.len()
        invariant
            i <= columns@.len(),
            items == updates_upto(unique_keys@, columns@, i as int),
            set@ == join(items, ", "@),
            (set@.len() == 0) == (items.len() == 0),
        decreases columns.len() - i,
    {
        let c = &columns[i];
        if !key_match(unique_keys, c.name.as_str()) {
            if set.unicode_len() > 0 {
                set.append(", ");
            }
            set.append("T.");
            set.append(c.quoted.as_str());
            set.append(" = S.");
            set.append(c.quoted.as_str());
            proof {
                reveal_strlit("T.");
                let it2 = items.push(assign_text(c.quoted@));
                assert(it2.drop_last() =~= items);
                assert(updates_upto(unique_keys@, columns@, i + 1) =~= it2);
                items = it2;
            }
        } else {
            proof {
                assert(updates_upto(unique_keys@, columns@, i + 1) =~= items);
            }
        }
        i += 1;
    }
    let mut r = owned("MERGE ");
    r.append(table_ref);
    r.append(" T USING (");
    r.append(full_sql.as_str());
    r.append(") S ON ");
    r.append(on.as_str());
    if set.unicode_len() == 0 {
        r.append(" WHEN NOT MATCHED THEN INSERT ROW");
    } else {
        r.append(" WHEN MATCHED THEN UPDATE SET ");
        r.append(set.as_str());
        r.append(" WHEN NOT MATCHED THEN INSERT ROW");
    }
    r
}

/// The insert-only MERGE matched on the unique keys.
pub open spec fn placeholder_text(table_ref: Seq<char>, query: Seq<char>, keys: Seq<QuotedName>) -> Seq<char> {
    "MERGE "@ + table_ref + " T USING ("@ + query + ") S ON "@ + on_text(keys)
        + " WHEN NOT MATCHED THEN INSERT ROW"@
}

/// The insert-only MERGE used before the table exists (during a preview).
pub fn generate_merge_ddl_placeholder(table_ref: &str, unique_keys: &[QuotedName], resolved: &ResolvedSql) -> (r: String)
    ensures
        r@ == placeholder_text(table_ref@, query_of(*resolved), unique_keys@),
{
    let full_sql = resolved.to_sql();
    let on = assignments(unique_keys, " AND ");
    let mut r = owned("MERGE ");
    r.append(table_ref);
    r.append(" T USING (");
    r.append(full_sql.as_str());
    r.append(") S ON ");
    r.append(on.as_str());
    r.append(" WHEN NOT MATCHED THEN INSERT ROW");
    r
}

/// The condition that selects the target rows whose keys are in `__src`: the
/// key alone, or the key tuple.
pub open spec fn delete_where_text(keys: Seq<Seq<char>>) -> Seq<char> {
    if keys.len() == 1 {
        keys[0] + " IN (SELECT "@ + keys[0] + " FROM __src)"@
    } else {
        "("@ + join(keys, ", "@) + ") IN (SELECT "@ + join(keys, ", "@) + " FROM __src)"@
    }
}

/// The delete+insert script of an incremental model: stage the new rows,
/// delete the target rows with the same keys, insert the staged rows.
pub open spec fn delete_insert_text(table_ref: Seq<char>, query: Seq<char>, keys: Seq<Seq<char>>) -> Seq<char> {
    "BEGIN\n  CREATE TEMP TABLE __src AS ("@ + query + ");\n  DELETE FROM "@ + table_ref + " WHERE "@
        + delete_where_text(keys) + ";\n  INSERT INTO "@ + table_ref
        + " SELECT * FROM __src;\n  DROP TABLE __src;\nEND;"@
}

fn joined_quoted(keys: &[QuotedName]) -> (r: String)
    ensures
        r@ == join(quoted_of(keys@), ", "@),
{
    let ghost v = quoted_of(keys@);
    let mut r = String::new();
    let mut i: usize = 0;
    while i < keys.len()
        invariant
            i <= keys@.len(),
            v == quoted_of(keys@),
            r@ == join(v.take(i as int), ", "@),
        decreases keys.len() - i,
    {
        if i > 0 {
            r.append(", ");
        }
        r.append(keys[i].quoted.as_str());
        proof {
            assert(v.take(i + 1).drop_last() =~= v.take(i as int));
            if i == 0 {
                assert(v.take(0) =~= Seq::<Seq<char>>::empty());
            }
        }
        i += 1;
    }
    assert(v.take(keys@.len() as int) =~= v);
    r
}

/// A MERGE matches target and source rows on equal keys: for the quoted
/// keys `k1, …`, the condition is `T.k1 = S.k1 AND …`.
pub proof fn law_merge_matches_on_equal_keys(keys: Seq<QuotedName>)
    ensures
        keys.len() == 1 ==> on_text(keys) == "T."@ + keys[0].quoted@ + " = S."@ + keys[0].quoted@,
        keys.len() == 2 ==> on_text(keys) == "T."@ + keys[0].quoted@ + " = S."@ + keys[0].quoted@
            + " AND "@ + "T."@ + keys[1].quoted@ + " = S."@ + keys[1].quoted@,
{
    let v = quoted_of(keys).map_values(|q: Seq<char>| assign_text(q));
    if keys.len() == 1 {
        assert(v.len() == 1);
    }
    if keys.len() == 2 {
        assert(v.len() == 2);
        assert(v.drop_last().len() == 1);
        assert(v.drop_last()[0] == v[0]);
        assert(v.drop_last().len() == 1);
        assert(join(v.drop_last(), " AND "@) == v[0]);
        assert(on_text(keys) == v[0] + " AND "@ + v[1]);
        assert(v[0] + " AND "@ + v[1] =~= "T."@ + keys[0].quoted@ + " = S."@ + keys[0].quoted@ + " AND "@ + "T."@
            + keys[1].quoted@ + " = S."@ + keys[1].quoted@);
    }
}

/// A delete+insert stages the new rows, deletes exactly the target rows
/// whose key (for several keys, whose key tuple) is among the staged rows'
/// keys, and inserts the staged rows: the DELETE tests membership of the
/// key, or of the parenthesised key tuple, in the staged key columns.
pub proof fn law_delete_insert_deletes_rows_with_new_keys(
    table_ref: Seq<char>,
    query: Seq<char>,
    keys: Seq<Seq<char>>,
)
    requires
        keys.len() > 0,
    ensures
        ({
            let cols = if keys.len() == 1 {
                keys[0]
            } else {
                join(keys, ", "@)
            };
            let target = if keys.len() == 1 {
                keys[0]
            } else {
                "("@ + join(keys, ", "@) + ")"@
            };
            delete_insert_text(table_ref, query, keys) == "BEGIN\n  CREATE TEMP TABLE __src AS ("@
                + query + ");\n  DELETE FROM "@ + table_ref + " WHERE "@ + target + " IN (SELECT "@ + cols
                + " FROM __src)"@ + ";\n  INSERT INTO "@ + table_ref + " SELECT * FROM __src;\n  DROP TABLE __src;\nEND;"@
        }),
{
    let cols = if keys.len() == 1 {
        keys[0]
    } else {
        join(keys, ", "@)
    };
    let target = if keys.len() == 1 {
        keys[0]
    } else {
        "("@ + join(keys, ", "@) + ")"@
    };
    if keys.len() > 1 {
        reveal_strlit(") IN (SELECT ");
        reveal_strlit(")");
        reveal_strlit(" IN (SELECT ");
        assert(") IN (SELECT "@ =~= ")"@ + " IN (SELECT "@);
    }
    assert(delete_where_text(keys) =~= target + " IN (SELECT "@ + cols + " FROM __src)"@);
}

/// Writes the delete+insert script of an incremental model.
pub fn generate_delete_insert_ddl(table_ref: &str, unique_keys: &[QuotedName], resolved: &ResolvedSql) -> (r: String)
    ensures
        r@ == delete_insert_text(table_ref@, query_of(*resolved), quoted_of(unique_keys@)),
{
    let full_sql = resolved.to_sql();
    let mut cond = String::new();
    if unique_keys.len() == 1 {
        let k = unique_keys[0].quoted.as_str();
        cond.append(k);
        cond.append(" IN (SELECT ");
        cond.append(k);
        cond.append(" FROM __src)");
    } else {
        let tuple = joined_quoted(unique_keys);
        cond.append("(");
        cond.append(tuple.as_str());
        cond.append(") IN (SELECT ");
        cond.append(tuple.as_str());
        cond.append(" FROM __src)");
    }
    let mut r = owned("BEGIN\n  CREATE TEMP TABLE __src AS (");
    r.append(full_sql.as_str());
    r.append(");\n  DELETE FROM ");
    r.append(table_ref);
    r.append(" WHERE ");
    r.append(cond.as_str());
    r.append(";\n  INSERT INTO ");
    r.append(table_ref);
    r.append(" SELECT * FROM __src;\n  DROP TABLE __src;\nEND;");
    r
}

/// An insert of every row of the query.
pub open spec fn append_text(table_ref: Seq<char>, query: Seq<char>) -> Seq<char> {
    "INSERT INTO "@ + table_ref + " "@ + query
}

/// The append of an incremental model: insert every row, no deduplication.
pub fn generate_append_ddl(table_ref: &str, resolved: &ResolvedSql) -> (r: String)
    ensures
        r@ == append_text(table_ref@, query_of(*resolved)),
{
    let full_sql = resolved.to_sql();
    let mut r = owned("INSERT INTO ");
    r.append(table_ref);
    r.append(" ");
    r.append(full_sql.as_str());
    r
}

/// A MERGE that makes the table's rows exactly the query's.
pub open spec fn merge_replace_text(table_ref: Seq<char>, query: Seq<char>) -> Seq<char> {
    "MERGE "@ + table_ref + " T USING ("@ + query
        + ") S ON FALSE WHEN NOT MATCHED BY TARGET THEN INSERT ROW WHEN NOT MATCHED BY SOURCE THEN DELETE"@
}

/// The full replacement of a table's rows by a MERGE, which keeps the
/// table's metadata, partitioning and clustering.
pub fn generate_merge_replace_ddl(table_ref: &str, resolved: &ResolvedSql) -> (r: String)
    ensures
        r@ == merge_replace_text(table_ref@, query_of(*resolved)),
{
    let full_sql = resolved.to_sql();
    let mut r = owned("MERGE ");
    r.append(table_ref);
    r.append(" T USING (");
    r.append(full_sql.as_str());
    r.append(") S ON FALSE WHEN NOT MATCHED BY TARGET THEN INSERT ROW WHEN NOT MATCHED BY SOURCE THEN DELETE");
    r
}

} // verus!
