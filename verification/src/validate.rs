//! Checks of dbt projects, macros and models: each rejected property with a
//! reason that says how to fix it, in the order they are found.
use vstd::prelude::*;

use crate::checks::CheckFailure;
use crate::options::OwnedTableOptions;
use crate::config::eq_ignore_ascii_case;
use crate::macros::{expand_macros, expanded, reports, MacroDef, MacroError, MacroFailure, MAX_INPUT_SIZE, MAX_ITERATIONS};
use crate::model::{found_text, last_value, MacroInputs, ModelConfig, ModelRefData, ProjectContext, ProjectInputs, SourceDef, SourceInputs};
use crate::preprocess::{entirely_raw, is_entirely_raw};
use crate::scanner::{config_entries, segments_of, ConfigArgIter, DbtScanner, DbtSegment, SpecConfigEntry, SpecSegment};
use crate::strmap::{keys_of, lookup, sorted_keys, StrMap};
use crate::text::{bool_text, push_bool, chars_of, contains, find_chars, str_eq, str_to_uppercase, trim, unicode_upper};
use crate::text::{decimal, eq_ignore_case, u64_to_text};

verus! {

/// The failures as (property, reason) text pairs.
pub open spec fn failures_text(v: Seq<CheckFailure>) -> Seq<(Seq<char>, Seq<char>)> {
    v.map_values(|f: CheckFailure| (f.property@, f.reason@))
}

/// `f(0) + f(1) + ... + f(n - 1)`.
pub open spec fn concat_upto<T>(n: int, f: spec_fn(int) -> Seq<T>) -> Seq<T>
    decreases n,
{
    if n <= 0 {
        Seq::empty()
    } else {
        concat_upto(n - 1, f) + f(n - 1)
    }
}

/// One failure when `cond` holds, none otherwise.
pub open spec fn when(cond: bool, property: Seq<char>, reason: Seq<char>) -> Seq<(Seq<char>, Seq<char>)> {
    if cond {
        seq![(property, reason)]
    } else {
        Seq::empty()
    }
}

pub(crate) fn owned(s: &str) -> (r: String)
    ensures
        r@ == s@,
{
    let mut r = String::new();
    r.append(s);
    r
}

/// Adds one failure.
pub(crate) fn fail(out: &mut Vec<CheckFailure>, property: &str, reason: String)
    ensures
        failures_text(final(out)@) == failures_text(old(out)@).push((property@, reason@)),
{
    let ghost r = reason@;
    out.push(CheckFailure { property: owned(property), reason });
    assert(failures_text(final(out)@) =~= failures_text(old(out)@).push((property@, r)));
}

/// The names that are reserved for dbt's own constructs.
pub open spec fn reserved(name: Seq<char>) -> bool {
    eq_ignore_case("config"@, name) || eq_ignore_case("ref"@, name) || eq_ignore_case("source"@, name)
}

pub(crate) fn is_reserved(name: &str) -> (r: bool)
    ensures
        r == reserved(name@),
{
    eq_ignore_ascii_case("config", name) || eq_ignore_ascii_case("ref", name) || eq_ignore_ascii_case(
        "source",
        name,
    )
}

/// Some name before position `i` equals `names[i]` ignoring ASCII case.
pub open spec fn seen_before(names: Seq<Seq<char>>, i: int) -> bool {
    exists|j: int| 0 <= j < i && eq_ignore_case(#[trigger] names[j], names[i])
}

/// Some name equals `name` ignoring ASCII case.
pub open spec fn any_eq_ignore_case(names: Seq<Seq<char>>, name: Seq<char>) -> bool {
    exists|j: int| 0 <= j < names.len() && eq_ignore_case(#[trigger] names[j], name)
}

pub open spec fn strs<'a>(v: Seq<&'a str>) -> Seq<Seq<char>> {
    v.map_values(|s: &'a str| s@)
}

/// Whether `items[j]` equals `name` ignoring ASCII case for some `j < n`.
fn any_before(items: &Vec<&str>, n: usize, name: &str) -> (r: bool)
    requires
        n <= items@.len(),
    ensures
        r == exists|j: int| 0 <= j < n && eq_ignore_case(#[trigger] strs(items@)[j], name@),
{
    let mut j: usize = 0;
    while j < n
        invariant
            j <= n <= items@.len(),
            forall|k: int| 0 <= k < j ==> !eq_ignore_case(#[trigger] strs(items@)[k], name@),
        decreases n - j,
    {
        if eq_ignore_ascii_case(items[j], name) {
            assert(eq_ignore_case(strs(items@)[j as int], name@));
            return true;
        }
        j += 1;
    }
    false
}

// ───────────────────────── projects ─────────────────────────

pub open spec fn source_failures<'a>(name: Seq<char>, src: SourceInputs<'a>) -> Seq<(Seq<char>, Seq<char>)> {
    when(
        src.dataset@.len() == 0,
        "sources."@ + name + ".dataset"@,
        "source '"@ + name + "' dataset must not be empty: provide the dataset to read from"@,
    ) + when(
        src.tables@.len() == 0,
        "sources."@ + name + ".tables"@,
        "source '"@ + name
            + "' must have at least one table: define tables that dbt can reference via source('"@
            + name + "', 'table_name')"@,
    )
}

pub open spec fn model_dup_failure(models: Seq<Seq<char>>, i: int) -> Seq<(Seq<char>, Seq<char>)> {
    when(
        seen_before(models, i),
        "declaredModels"@,
        "duplicate model name '"@ + models[i] + "' (case-insensitive) — each model name must be unique"@,
    )
}

pub open spec fn macro_name_failures(macros: Seq<Seq<char>>, i: int) -> Seq<(Seq<char>, Seq<char>)> {
    when(seen_before(macros, i), "declaredMacros"@, "duplicate macro name '"@ + macros[i] + "'"@)
        + when(reserved(macros[i]), "declaredMacros"@, "macro name '"@ + macros[i] + "' is reserved"@)
}

pub open spec fn collision_failure(models: Seq<Seq<char>>, macros: Seq<Seq<char>>, i: int) -> Seq<
    (Seq<char>, Seq<char>),
> {
    when(
        any_eq_ignore_case(macros, models[i]),
        "declaredModels"@,
        "name '"@ + models[i] + "' collides between models and macros"@,
    )
}

/// Every failure of a project's inputs, in report order: an empty project or
/// dataset, sources without a dataset or tables, model or macro names given
/// twice (ignoring ASCII case), reserved macro names, and names used for
/// both a model and a macro.
pub open spec fn project_failures<'a>(inputs: ProjectInputs<'a>) -> Seq<(Seq<char>, Seq<char>)> {
    let models = strs(inputs.declared_models@);
    let macros = strs(inputs.declared_macros@);
    when(
        inputs.gcp_project@.len() == 0,
        "gcpProject"@,
        "gcpProject cannot be empty: provide the target GCP project ID (e.g., 'analytics-prod')"@,
    ) + when(
        inputs.dataset@.len() == 0,
        "dataset"@,
        "dataset cannot be empty: provide the target BigQuery dataset where models will be created"@,
    ) + concat_upto(
        inputs.sources@.len() as int,
        |i: int| source_failures(inputs.sources@[i].0@, inputs.sources@[i].1),
    ) + concat_upto(models.len() as int, |i: int| model_dup_failure(models, i)) + concat_upto(
        macros.len() as int,
        |i: int| macro_name_failures(macros, i),
    ) + concat_upto(models.len() as int, |i: int| collision_failure(models, macros, i))
}

fn push_when(out: &mut Vec<CheckFailure>, cond: bool, property: &str, reason: String)
    ensures
        failures_text(final(out)@) == failures_text(old(out)@) + when(cond, property@, reason@),
{
    let ghost before = failures_text(out@);
    if cond {
        fail(out, property, reason);
    }
    assert(failures_text(out@) =~= before + when(cond, property@, reason@));
}

fn text3(a: &str, b: &str, c: &str) -> (r: String)
    ensures
        r@ == a@ + b@ + c@,
{
    let mut r = String::new();
    r.append(a);
    r.append(b);
    r.append(c);
    r
}

/// Checks a project's inputs; see [`project_failures`].
pub fn validate_project(inputs: &ProjectInputs<'_>) -> (r: Vec<CheckFailure>)
    ensures
        failures_text(r@) == project_failures(*inputs),
{
    let ghost models = strs(inputs.declared_models@);
    let ghost macros = strs(inputs.declared_macros@);
    let mut out: Vec<CheckFailure> = Vec::new();
    assert(failures_text(out@) =~= Seq::<(Seq<char>, Seq<char>)>::empty());
    push_when(
        &mut out,
        inputs.gcp_project.unicode_len() == 0,
        "gcpProject",
        owned("gcpProject cannot be empty: provide the target GCP project ID (e.g., 'analytics-prod')"),
    );
    push_when(
        &mut out,
        inputs.dataset.unicode_len() == 0,
        "dataset",
        owned("dataset cannot be empty: provide the target BigQuery dataset where models will be created"),
    );
    let ghost head = failures_text(out@);
    let ghost fs = |i: int| source_failures(inputs.sources@[i].0@, inputs.sources@[i].1);
    let mut i: usize = 0;
    while i < inputs.sources.len()
        invariant
            i <= inputs.sources@.len(),
            fs == (|i: int| source_failures(inputs.sources@[i].0@, inputs.sources@[i].1)),
            failures_text(out@) == head + concat_upto(i as int, fs),
        decreases inputs.sources.len() - i,
    {
        let name = inputs.sources[i].0;
        let src = &inputs.sources[i].1;
        let mut p1 = owned("sources.");
        p1.append(name);
        p1.append(".dataset");
        let r1 = text3("source '", name, "' dataset must not be empty: provide the dataset to read from");
        let ghost before = failures_text(out@);
        push_when(&mut out, src.dataset.unicode_len() == 0, p1.as_str(), r1);
        let mut p2 = owned("sources.");
        p2.append(name);
        p2.append(".tables");
        let mut r2 = text3(
            "source '",
            name,
            "' must have at least one table: define tables that dbt can reference via source('",
        );
        r2.append(name);
        r2.append("', 'table_name')");
        push_when(&mut out, src.tables.len() == 0, p2.as_str(), r2);
        assert(failures_text(out@) =~= before + fs(i as int));
        i += 1;
    }
    let ghost after_sources = failures_text(out@);
    let ghost fm = |i: int| model_dup_failure(models, i);
    let mut i: usize = 0;
    while i < inputs.declared_models.len()
        invariant
            i <= inputs.declared_models@.len(),
            models == strs(inputs.declared_models@),
            fm == (|i: int| model_dup_failure(models, i)),
            failures_text(out@) == after_sources + concat_upto(i as int, fm),
        decreases inputs.declared_models.len() - i,
    {
        let m = inputs.declared_models[i];
        let dup = any_before(&inputs.declared_models, i, m);
        let r = text3("duplicate model name '", m, "' (case-insensitive) — each model name must be unique");
        push_when(&mut out, dup, "declaredModels", r);
        i += 1;
    }
    let ghost after_models = failures_text(out@);
    let ghost fc = |i: int| macro_name_failures(macros, i);
    let mut i: usize = 0;
    while i < inputs.declared_macros.len()
        invariant
            i <= inputs.declared_macros@.len(),
            macros == strs(inputs.declared_macros@),
            fc == (|i: int| macro_name_failures(macros, i)),
            failures_text(out@) == after_models + concat_upto(i as int, fc),
        decreases inputs.declared_macros.len() - i,
    {
        let m = inputs.declared_macros[i];
        let ghost before = failures_text(out@);
        let dup = any_before(&inputs.declared_macros, i, m);
        push_when(&mut out, dup, "declaredMacros", text3("duplicate macro name '", m, "'"));
        push_when(&mut out, is_reserved(m), "declaredMacros", text3("macro name '", m, "' is reserved"));
        assert(failures_text(out@) =~= before + fc(i as int));
        i += 1;
    }
    let ghost after_macros = failures_text(out@);
    let ghost fx = |i: int| collision_failure(models, macros, i);
    let mut i: usize = 0;
    while i < inputs.declared_models.len()
        invariant
            i <= inputs.declared_models@.len(),
            models == strs(inputs.declared_models@),
            macros == strs(inputs.declared_macros@),
            fx == (|i: int| collision_failure(models, macros, i)),
            failures_text(out@) == after_macros + concat_upto(i as int, fx),
        decreases inputs.declared_models.len() - i,
    {
        let m = inputs.declared_models[i];
        let hit = any_before(&inputs.declared_macros, inputs.declared_macros.len(), m);
        push_when(
            &mut out,
            hit,
            "declaredModels",
            text3("name '", m, "' collides between models and macros"),
        );
        i += 1;
    }
    out
}

// ───────────────────────── macros ─────────────────────────

pub open spec fn arg_failures(args: Seq<Seq<char>>, i: int) -> Seq<(Seq<char>, Seq<char>)> {
    when(
        seen_before(args, i),
        "args"@,
        "duplicate argument name '"@ + args[i] + "' — each argument name must be unique"@,
    ) + when(
        reserved(args[i]),
        "args"@,
        "argument name '"@ + args[i]
            + "' is reserved — cannot use config, ref, or source as argument names"@,
    )
}

/// Every failure of a macro's inputs: an empty name or SQL, a reserved name,
/// and argument names given twice (ignoring ASCII case) or reserved.
pub open spec fn macro_failures<'a>(inputs: MacroInputs<'a>) -> Seq<(Seq<char>, Seq<char>)> {
    let args = strs(inputs.args@);
    when(inputs.name@.len() == 0, "name"@, "macro name must not be empty"@) + when(
        inputs.sql@.len() == 0,
        "sql"@,
        "macro sql must not be empty"@,
    ) + when(reserved(inputs.name@), "name"@, "macro name '"@ + inputs.name@ + "' is reserved"@)
        + concat_upto(args.len() as int, |i: int| arg_failures(args, i))
}

/// Checks a macro's inputs; see [`macro_failures`].
pub fn validate_macro(inputs: &MacroInputs<'_>) -> (r: Vec<CheckFailure>)
    ensures
        failures_text(r@) == macro_failures(*inputs),
{
    let ghost args = strs(inputs.args@);
    let mut out: Vec<CheckFailure> = Vec::new();
    assert(failures_text(out@) =~= Seq::<(Seq<char>, Seq<char>)>::empty());
    push_when(&mut out, inputs.name.unicode_len() == 0, "name", owned("macro name must not be empty"));
    push_when(&mut out, inputs.sql.unicode_len() == 0, "sql", owned("macro sql must not be empty"));
    push_when(&mut out, is_reserved(inputs.name), "name", text3("macro name '", inputs.name, "' is reserved"));
    let ghost head = failures_text(out@);
    let ghost fa = |i: int| arg_failures(args, i);
    let mut i: usize = 0;
    while i < inputs.args.len()
        invariant
            i <= inputs.args@.len(),
            args == strs(inputs.args@),
            fa == (|i: int| arg_failures(args, i)),
            failures_text(out@) == head + concat_upto(i as int, fa),
        decreases inputs.args.len() - i,
    {
        let a = inputs.args[i];
        let ghost before = failures_text(out@);
        let dup = any_before(&inputs.args, i, a);
        push_when(
            &mut out,
            dup,
            "args",
            text3("duplicate argument name '", a, "' — each argument name must be unique"),
        );
        push_when(
            &mut out,
            is_reserved(a),
            "args",
            text3("argument name '", a, "' is reserved — cannot use config, ref, or source as argument names"),
        );
        assert(failures_text(out@) =~= before + fa(i as int));
        i += 1;
    }
    out
}

// ───────────────────────── cost governance ─────────────────────────

/// The decimal rendering of a signed number.
pub open spec fn signed_decimal(n: int) -> Seq<char> {
    if n < 0 {
        "-"@ + decimal((-n) as nat)
    } else {
        decimal(n as nat)
    }
}

/// Renders a signed 64-bit number in decimal.
pub fn i64_to_text(n: i64) -> (r: String)
    ensures
        r@ == signed_decimal(n as int),
{
    if n < 0 {
        let m: u64 = if n == i64::MIN {
            9223372036854775808u64
        } else {
            (-n) as u64
        };
        let mut r = owned("-");
        r.append(u64_to_text(m).as_str());
        r
    } else {
        u64_to_text(n as u64)
    }
}

/// The failure of a `maxBytesBilled` that is set but not positive.
pub open spec fn max_bytes_failures(max_bytes_billed: Option<i64>) -> Seq<(Seq<char>, Seq<char>)> {
    match max_bytes_billed {
        Some(limit) => when(
            limit <= 0,
            "maxBytesBilled"@,
            "maxBytesBilled must be greater than 0, got "@ + signed_decimal(limit as int)
                + ". Set a positive byte limit or remove the field to disable cost governance."@,
        ),
        None => Seq::empty(),
    }
}

/// Checks the `maxBytesBilled` input: when set it must be positive.
pub fn validate_max_bytes_billed(max_bytes_billed: Option<i64>) -> (r: Vec<CheckFailure>)
    ensures
        failures_text(r@) == max_bytes_failures(max_bytes_billed),
{
    let mut out: Vec<CheckFailure> = Vec::new();
    assert(failures_text(out@) =~= Seq::<(Seq<char>, Seq<char>)>::empty());
    if let Some(limit) = max_bytes_billed {
        let mut reason = owned("maxBytesBilled must be greater than 0, got ");
        reason.append(i64_to_text(limit).as_str());
        reason.append(". Set a positive byte limit or remove the field to disable cost governance.");
        push_when(&mut out, limit <= 0, "maxBytesBilled", reason);
    }
    out
}

// ───────────────────────── models ─────────────────────────

/// What `{:?}` writes for a list of strings: `["a", "b"]`, each string
/// quoted and escaped the way `Debug` escapes it.
pub uninterp spec fn debug_list(items: Seq<Seq<char>>) -> Seq<char>;

/// Formats a list of strings with `{:?}` (std's `Debug` for `[&str]`).
/// Claimed of it: the result is the named rendering of the strings.
#[verifier::external_body]
fn debug_strs(items: &[&str]) -> (r: String)
    ensures
        r@ == debug_list(strs(items@)),
{
    format!("{:?}", items)
}

pub open spec fn string_texts(v: Seq<String>) -> Seq<Seq<char>> {
    v.map_values(|s: String| s@)
}

/// The reason for a `ref` to a model the project does not declare.
pub open spec fn unknown_ref_text(model: Seq<char>, available: Seq<char>) -> Seq<char> {
    "ref('"@ + model + "') references unknown model — available models: "@ + available + ". Add '"@
        + model + "' to the project's declaredModels list."@
}

/// The reason for a `source` the project does not declare.
pub open spec fn unknown_source_text(source: Seq<char>, available: Seq<char>) -> Seq<char> {
    "unknown source '"@ + source + "' — available sources: "@ + available
        + ". Add '"@ + source + "' to project sources."@
}

/// The reason for a table a declared source does not list.
pub open spec fn undeclared_table_text(source: Seq<char>, table: Seq<char>, available: Seq<char>) -> Seq<
    char,
> {
    "source '"@ + source + "' does not declare table '"@ + table + "' — available tables in '"@
        + source + "': "@ + available
}

/// The reason for a call of a macro that is not registered.
pub open spec fn unknown_macro_text(name: Seq<char>, available: Seq<char>) -> Seq<char> {
    "unknown macro '"@ + name + "' — available macros: "@ + available
        + ". Register the macro via the macros property."@
}

/// Writes the reason for an unknown `ref`, given the formatted list of
/// declared models.
pub fn unknown_ref_reason(model: &str, available: &str) -> (r: String)
    ensures
        r@ == unknown_ref_text(model@, available@),
{
    let mut r = text3("ref('", model, "') references unknown model — available models: ");
    r.append(available);
    r.append(". Add '");
    r.append(model);
    r.append("' to the project's declaredModels list.");
    r
}

/// Writes the reason for an unknown source, given the formatted list of
/// declared sources.
pub fn unknown_source_reason(source: &str, available: &str) -> (r: String)
    ensures
        r@ == unknown_source_text(source@, available@),
{
    let mut r = text3("unknown source '", source, "' — available sources: ");
    r.append(available);
    r.append(". Add '");
    r.append(source);
    r.append("' to project sources.");
    r
}

/// Writes the reason for an undeclared source table, given the formatted
/// list of the source's tables.
pub fn undeclared_table_reason(source: &str, table: &str, available: &str) -> (r: String)
    ensures
        r@ == undeclared_table_text(source@, table@, available@),
{
    let mut r = text3("source '", source, "' does not declare table '");
    r.append(table);
    r.append("' — available tables in '");
    r.append(source);
    r.append("': ");
    r.append(available);
    r
}

/// Writes the reason for an unknown macro, given the formatted list of
/// registered macros.
pub fn unknown_macro_reason(name: &str, available: &str) -> (r: String)
    ensures
        r@ == unknown_macro_text(name@, available@),
{
    let mut r = text3("unknown macro '", name, "' — available macros: ");
    r.append(available);
    r.append(". Register the macro via the macros property.");
    r
}

/// The failures one segment of the expanded SQL contributes.
pub open spec fn segment_failures(
    seg: SpecSegment,
    declared: Seq<Seq<char>>,
    refs: Seq<(Seq<char>, ModelRefData)>,
    sources: Seq<(Seq<char>, SourceDef)>,
    macros: Seq<(Seq<char>, MacroDef)>,
) -> Seq<(Seq<char>, Seq<char>)> {
    match seg {
        SpecSegment::Config { .. } => Seq::empty(),
        SpecSegment::Ref { model } => when(
            !declared.contains(model),
            "sql"@,
            unknown_ref_text(model, debug_list(declared)),
        ) + when(
            lookup(refs, model) is None && declared.contains(model),
            "modelRefs"@,
            "model '"@ + model + "' is declared in project but not wired — add modelRefs."@ + model
                + ": ${resourceName.modelOutput}"@,
        ),
        SpecSegment::Source { source, table } => match lookup(sources, source) {
            None => seq![("sql"@, unknown_source_text(source, debug_list(keys_of(sources))))],
            Some(def) => when(
                !string_texts(def.tables@).contains(table),
                "sql"@,
                undeclared_table_text(source, table, debug_list(string_texts(def.tables@))),
            ),
        },
        SpecSegment::Call { name, .. } => when(
            lookup(macros, name) is None,
            "sql"@,
            unknown_macro_text(name, debug_list(keys_of(macros))),
        ),
        SpecSegment::Sql(s) => when(
            contains(s, "__dbt__cte__"@),
            "sql"@,
            "'__dbt__cte__' prefix is reserved for internal use"@,
        ),
    }
}

/// The number of `config(...)` calls among the segments.
pub open spec fn config_count(segs: Seq<SpecSegment>) -> nat
    decreases segs.len(),
{
    if segs.len() == 0 {
        0
    } else {
        config_count(segs.drop_last()) + if segs.last() is Config {
            1nat
        } else {
            0nat
        }
    }
}

/// Some argument of a `config(...)` call sets `materialized`.
pub open spec fn sets_materialized(segs: Seq<SpecSegment>) -> bool
    decreases segs.len(),
{
    if segs.len() == 0 {
        false
    } else {
        sets_materialized(segs.drop_last()) || match segs.last() {
            SpecSegment::Config { raw_args } => exists|j: int|
                0 <= j < config_entries(trim(raw_args)).len() && (#[trigger] config_entries(
                    trim(raw_args),
                )[j]).key == "materialized"@,
            _ => false,
        }
    }
}

pub open spec fn one_of(s: Seq<char>, options: Seq<Seq<char>>) -> bool {
    options.contains(s)
}

/// An invalid materialization, and an incremental one without a unique key.
pub open spec fn materialization_failures(config: ModelConfig) -> Seq<(Seq<char>, Seq<char>)> {
    let mat = config.materialization@;
    when(
        !one_of(mat, seq!["table"@, "view"@, "materialized_view"@, "ephemeral"@, "incremental"@]),
        "sql"@,
        "invalid materialization '"@ + mat
            + "' — valid options: table, view, materialized_view, ephemeral, incremental"@,
    ) + when(
        mat == "incremental"@ && config.unique_key is None && config.unique_key_list is None,
        "sql"@,
        "incremental materialization requires unique_key in config: add unique_key='column_name' or change materialization"@,
    )
}

/// An unknown incremental strategy.
pub open spec fn strategy_failures(config: ModelConfig) -> Seq<(Seq<char>, Seq<char>)> {
    match config.incremental_strategy {
        Some(s) => when(
            !one_of(s@, seq!["merge"@, "delete+insert"@, "append"@]),
            "sql"@,
            "invalid incremental_strategy '"@ + s@ + "' — valid options: merge, delete+insert, append"@,
        ),
        None => Seq::empty(),
    }
}

/// A partition without a field, and more than four clustering columns.
pub open spec fn layout_failures(config: ModelConfig) -> Seq<(Seq<char>, Seq<char>)> {
    (match config.partition_by {
        Some(p) => when(
            p.field@.len() == 0,
            "sql"@,
            "partition_by must include a 'field' key: e.g., partition_by={'field': 'created_at', 'data_type': 'date'}"@,
        ),
        None => Seq::empty(),
    }) + (match config.cluster_by {
        Some(cols) => when(
            cols@.len() > 4,
            "sql"@,
            "cluster_by has "@ + decimal(cols@.len()) + " columns but BigQuery allows maximum 4"@,
        ),
        None => Seq::empty(),
    })
}

/// Table options that need a partition, a refresh that needs a materialized
/// view, and a refresh interval that needs a refresh.
pub open spec fn option_dependency_failures(config: ModelConfig) -> Seq<(Seq<char>, Seq<char>)> {
    when(
        config.require_partition_filter == Some(true) && config.partition_by is None,
        "sql"@,
        "require_partition_filter=true requires partition_by to be set"@,
    ) + when(
        config.partition_expiration_days is Some && config.partition_by is None,
        "sql"@,
        "partition_expiration_days requires partition_by to be set"@,
    ) + when(
        config.enable_refresh == Some(true) && config.materialization@ != "materialized_view"@,
        "sql"@,
        "enable_refresh is only valid for materialized_view materialization"@,
    ) + when(
        config.refresh_interval_minutes is Some && config.enable_refresh != Some(true),
        "sql"@,
        "refresh_interval_minutes requires enable_refresh=true"@,
    )
}

/// Each option that depends on another is refused exactly when what it
/// depends on is missing: a partition filter or partition expiry without a
/// partitioning, refresh on anything but a materialized view, and a refresh
/// interval without refresh enabled.
pub proof fn law_option_dependencies(config: ModelConfig)
    ensures
        option_dependency_failures(config).contains(("sql"@, "require_partition_filter=true requires partition_by to be set"@)) <==> (config.require_partition_filter == Some(true) && config.partition_by is None),
        option_dependency_failures(config).contains(("sql"@, "partition_expiration_days requires partition_by to be set"@)) <==> (config.partition_expiration_days is Some && config.partition_by is None),
        option_dependency_failures(config).contains(("sql"@, "enable_refresh is only valid for materialized_view materialization"@)) <==> (config.enable_refresh == Some(true) && config.materialization@
            != "materialized_view"@),
        option_dependency_failures(config).contains(("sql"@, "refresh_interval_minutes requires enable_refresh=true"@)) <==> (config.refresh_interval_minutes is Some && config.enable_refresh != Some(true)),
{
    reveal_strlit("require_partition_filter=true requires partition_by to be set");
    assert("require_partition_filter=true requires partition_by to be set"@.len() == 61);
    reveal_strlit("partition_expiration_days requires partition_by to be set");
    assert("partition_expiration_days requires partition_by to be set"@.len() == 57);
    reveal_strlit("enable_refresh is only valid for materialized_view materialization");
    assert("enable_refresh is only valid for materialized_view materialization"@.len() == 66);
    reveal_strlit("refresh_interval_minutes requires enable_refresh=true");
    assert("refresh_interval_minutes requires enable_refresh=true"@.len() == 53);
    let cond_a = config.require_partition_filter == Some(true) && config.partition_by is None;
    let a = when(cond_a, "sql"@, "require_partition_filter=true requires partition_by to be set"@);
    let cond_b = config.partition_expiration_days is Some && config.partition_by is None;
    let b = when(cond_b, "sql"@, "partition_expiration_days requires partition_by to be set"@);
    let cond_c = config.enable_refresh == Some(true) && config.materialization@ != "materialized_view"@;
    let c = when(cond_c, "sql"@, "enable_refresh is only valid for materialized_view materialization"@);
    let cond_d = config.refresh_interval_minutes is Some && config.enable_refresh != Some(true);
    let d = when(cond_d, "sql"@, "refresh_interval_minutes requires enable_refresh=true"@);
    assert(option_dependency_failures(config) == a + b + c + d);
    lemma_failures_concat(a, b, ("sql"@, "require_partition_filter=true requires partition_by to be set"@));
    lemma_failures_concat(a + b, c, ("sql"@, "require_partition_filter=true requires partition_by to be set"@));
    lemma_failures_concat(a + b + c, d, ("sql"@, "require_partition_filter=true requires partition_by to be set"@));
    lemma_when_contains(cond_a, a, ("sql"@, "require_partition_filter=true requires partition_by to be set"@));
    lemma_when_contains(cond_b, b, ("sql"@, "require_partition_filter=true requires partition_by to be set"@));
    lemma_when_contains(cond_c, c, ("sql"@, "require_partition_filter=true requires partition_by to be set"@));
    lemma_when_contains(cond_d, d, ("sql"@, "require_partition_filter=true requires partition_by to be set"@));
    lemma_failures_concat(a, b, ("sql"@, "partition_expiration_days requires partition_by to be set"@));
    lemma_failures_concat(a + b, c, ("sql"@, "partition_expiration_days requires partition_by to be set"@));
    lemma_failures_concat(a + b + c, d, ("sql"@, "partition_expiration_days requires partition_by to be set"@));
    lemma_when_contains(cond_a, a, ("sql"@, "partition_expiration_days requires partition_by to be set"@));
    lemma_when_contains(cond_b, b, ("sql"@, "partition_expiration_days requires partition_by to be set"@));
    lemma_when_contains(cond_c, c, ("sql"@, "partition_expiration_days requires partition_by to be set"@));
    lemma_when_contains(cond_d, d, ("sql"@, "partition_expiration_days requires partition_by to be set"@));
    lemma_failures_concat(a, b, ("sql"@, "enable_refresh is only valid for materialized_view materialization"@));
    lemma_failures_concat(a + b, c, ("sql"@, "enable_refresh is only valid for materialized_view materialization"@));
    lemma_failures_concat(a + b + c, d, ("sql"@, "enable_refresh is only valid for materialized_view materialization"@));
    lemma_when_contains(cond_a, a, ("sql"@, "enable_refresh is only valid for materialized_view materialization"@));
    lemma_when_contains(cond_b, b, ("sql"@, "enable_refresh is only valid for materialized_view materialization"@));
    lemma_when_contains(cond_c, c, ("sql"@, "enable_refresh is only valid for materialized_view materialization"@));
    lemma_when_contains(cond_d, d, ("sql"@, "enable_refresh is only valid for materialized_view materialization"@));
    lemma_failures_concat(a, b, ("sql"@, "refresh_interval_minutes requires enable_refresh=true"@));
    lemma_failures_concat(a + b, c, ("sql"@, "refresh_interval_minutes requires enable_refresh=true"@));
    lemma_failures_concat(a + b + c, d, ("sql"@, "refresh_interval_minutes requires enable_refresh=true"@));
    lemma_when_contains(cond_a, a, ("sql"@, "refresh_interval_minutes requires enable_refresh=true"@));
    lemma_when_contains(cond_b, b, ("sql"@, "refresh_interval_minutes requires enable_refresh=true"@));
    lemma_when_contains(cond_c, c, ("sql"@, "refresh_interval_minutes requires enable_refresh=true"@));
    lemma_when_contains(cond_d, d, ("sql"@, "refresh_interval_minutes requires enable_refresh=true"@));
}

/// A failure is in two lists joined exactly when it is in one of them.
proof fn lemma_failures_concat(
    x: Seq<(Seq<char>, Seq<char>)>,
    y: Seq<(Seq<char>, Seq<char>)>,
    f: (Seq<char>, Seq<char>),
)
    ensures
        (x + y).contains(f) <==> x.contains(f) || y.contains(f),
{
    if (x + y).contains(f) {
        let i = choose|i: int| 0 <= i < (x + y).len() && (x + y)[i] == f;
        if i < x.len() {
            assert(x[i] == f);
        } else {
            assert(y[i - x.len()] == f);
        }
    }
    if x.contains(f) {
        let i = choose|i: int| 0 <= i < x.len() && x[i] == f;
        assert((x + y)[i] == f);
    }
    if y.contains(f) {
        let i = choose|i: int| 0 <= i < y.len() && y[i] == f;
        assert((x + y)[i + x.len()] == f);
    }
}

/// A one-or-no-failure list holds `f` exactly when its condition holds and
/// `f` is its failure.
proof fn lemma_when_contains(cond: bool, v: Seq<(Seq<char>, Seq<char>)>, f: (Seq<char>, Seq<char>))
    requires
        v.len() <= 1,
        cond <==> v.len() == 1,
    ensures
        v.contains(f) <==> cond && v[0] == f,
{
    if cond && v[0] == f {
        assert(v[0] == f);
    }
}

/// The failures of the model's configuration, checked only when a
/// `config(...)` sets `materialized`; a lone config without that key is a
/// failure of its own.
pub open spec fn config_failures(config: ModelConfig, count: nat, has_mat: bool) -> Seq<
    (Seq<char>, Seq<char>),
> {
    if count >= 1 && has_mat {
        materialization_failures(config) + strategy_failures(config) + layout_failures(config)
            + option_dependency_failures(config)
    } else {
        when(
            count == 1 && !has_mat,
            "sql"@,
            "config() block missing materialized key: add materialized='table|view|incremental|ephemeral|materialized_view'"@,
        )
    }
}

/// The message of a macro expansion failure.
pub open spec fn macro_failure_text(f: MacroFailure) -> Seq<char> {
    match f {
        MacroFailure::ArgCount { name, expected, got } => "macro '"@ + name + "' expects "@ + decimal(
            expected,
        ) + " args, got "@ + decimal(got),
        MacroFailure::RecursionLimit => "macro expansion did not converge after "@ + decimal(
            MAX_ITERATIONS as nat,
        ) + " iterations (possible recursion)"@,
        MacroFailure::TooLarge(n) => "input too large ("@ + decimal(n) + " bytes, max "@ + decimal(
            MAX_INPUT_SIZE as nat,
        ) + ")"@,
    }
}

pub const RAW_MODEL_REASON: &'static str = "the whole model is wrapped in a raw block, so none of it is templated — ref, source and config inside it are literal text and will reach BigQuery unresolved. A raw block is only needed for SQL written inline in the stack file, where the YAML runtime would otherwise render it; SQL loaded with fn::readFile never passes through that stage and needs no wrapper.";

/// The failures of a model's name against the project.
pub open spec fn model_head_failures(name: Seq<char>, sql: Seq<char>, declared: Seq<Seq<char>>) -> Seq<
    (Seq<char>, Seq<char>),
> {
    when(name.len() == 0, "name"@, "model name cannot be empty: provide a unique model identifier"@)
        + when(
        sql.len() == 0,
        "sql"@,
        "model sql cannot be empty: provide the SELECT statement that defines the model"@,
    ) + when(
        declared.len() > 0 && !declared.contains(name),
        "name"@,
        "model '"@ + name + "' is not in project's declaredModels"@,
    )
}

/// Every failure of a model, in report order: its name against the project;
/// then, when its macros expand, each reference, source, macro call and
/// reserved name in the expanded SQL, more than one `config(...)`, the
/// configuration itself, and a model wholly wrapped in a raw block. When
/// expansion fails, its error is the last failure.
pub open spec fn model_failures(
    name: Seq<char>,
    sql: Seq<char>,
    config: ModelConfig,
    declared: Seq<Seq<char>>,
    refs: Seq<(Seq<char>, ModelRefData)>,
    sources: Seq<(Seq<char>, SourceDef)>,
    macros: Seq<(Seq<char>, MacroDef)>,
) -> Seq<(Seq<char>, Seq<char>)> {
    let head = model_head_failures(name, sql, declared);
    match expanded(sql, macros) {
        Err(f) => head + seq![("sql"@, "macro expansion failed: "@ + macro_failure_text(f))],
        Ok(t) => {
            let segs = segments_of(t);
            head + concat_upto(
                segs.len() as int,
                |i: int| segment_failures(segs[i], declared, refs, sources, macros),
            ) + when(
                config_count(segs) > 1,
                "sql"@,
                "model SQL must contain at most one {{ config(...) }} block"@,
            ) + config_failures(config, config_count(segs), sets_materialized(segs)) + when(
                entirely_raw(sql),
                "sql"@,
                RAW_MODEL_REASON@,
            )
        },
    }
}

fn contains_string(v: &Vec<String>, s: &str) -> (r: bool)
    ensures
        r == string_texts(v@).contains(s@),
{
    let mut j: usize = 0;
    while j < v.len()
        invariant
            j <= v@.len(),
            forall|k: int| 0 <= k < j ==> string_texts(v@)[k] != s@,
        decreases v.len() - j,
    {
        if str_eq(v[j].as_str(), s) {
            assert(string_texts(v@)[j as int] == s@);
            return true;
        }
        j += 1;
    }
    false
}

fn borrow_all(v: &Vec<String>) -> (r: Vec<&str>)
    ensures
        strs(r@) == string_texts(v@),
{
    let mut r: Vec<&str> = Vec::new();
    let mut j: usize = 0;
    while j < v.len()
        invariant
            j <= v@.len(),
            r@.len() == j,
            strs(r@) == string_texts(v@).take(j as int),
        decreases v.len() - j,
    {
        let ghost prev = r@;
        let x = v[j].as_str();
        r.push(x);
        assert(r@ == prev.push(x));
        assert(strs(r@) =~= string_texts(v@).take(j + 1));
        j += 1;
    }
    assert(string_texts(v@).take(v@.len() as int) =~= string_texts(v@));
    r
}

fn key_list<T>(m: &StrMap<T>) -> (r: Vec<&str>)
    ensures
        strs(r@) == keys_of(m@),
{
    let mut r: Vec<&str> = Vec::new();
    let mut j: usize = 0;
    while j < m.len()
        invariant
            j <= m@.len(),
            r@.len() == j,
            strs(r@) == keys_of(m@).take(j as int),
        decreases m@.len() - j,
    {
        let ghost prev = r@;
        let k = m.key_at(j);
        r.push(k);
        assert(r@ == prev.push(k));
        assert(strs(r@) =~= keys_of(m@).take(j + 1));
        j += 1;
    }
    assert(keys_of(m@).take(m@.len() as int) =~= keys_of(m@));
    r
}

/// Whether a `config(...)` call's arguments set `materialized`.
fn sets_materialized_key(raw_args: &str) -> (r: bool)
    ensures
        r == exists|j: int|
            0 <= j < config_entries(trim(raw_args@)).len() && (#[trigger] config_entries(
                trim(raw_args@),
            )[j]).key == "materialized"@,
{
    let mut it = ConfigArgIter::new(raw_args);
    let ghost all = config_entries(trim(raw_args@));
    let ghost mut done: Seq<SpecConfigEntry> = Seq::empty();
    let mut found = false;
    loop
        invariant
            done + config_entries(it@) == all,
            found == exists|j: int| 0 <= j < done.len() && (#[trigger] done[j]).key == "materialized"@,
        ensures
            found == exists|j: int| 0 <= j < all.len() && (#[trigger] all[j]).key == "materialized"@,
        decreases it@.len(),
    {
        let ghost rem = it@;
        proof {
            crate::scanner::lemma_config_step_shrinks(rem);
        }
        match it.next() {
            Some(e) => {
                let hit = str_eq(e.key, "materialized");
                proof {
                    let d2 = done.push(e@);
                    assert(config_entries(rem) == seq![e@] + config_entries(it@));
                    assert(d2 + config_entries(it@) =~= done + config_entries(rem));
                    assert(d2[done.len() as int] == e@);
                    if found {
                        let j = choose|j: int| 0 <= j < done.len() && (#[trigger] done[j]).key == "materialized"@;
                        assert(d2[j] == done[j]);
                    }
                    if !found && !hit {
                        assert forall|j: int| 0 <= j < d2.len() implies (#[trigger] d2[j]).key != "materialized"@ by {
                            if j < done.len() {
                                assert(d2[j] == done[j]);
                            }
                        }
                    }
                    done = d2;
                }
                found = found || hit;
            },
            None => {
                proof {
                    assert(config_entries(rem).len() == 0);
                    assert(done =~= all);
                }
                break;
            },
        }
    }
    found
}

/// Checks one segment of the expanded SQL.
fn check_segment(
    out: &mut Vec<CheckFailure>,
    seg: DbtSegment,
    context: &ProjectContext<'_>,
    model_refs: &StrMap<ModelRefData>,
    macros: &StrMap<MacroDef>,
)
    ensures
        failures_text(final(out)@) == failures_text(old(out)@) + segment_failures(
            seg@,
            string_texts(context.declared_models@),
            model_refs@,
            context.sources@,
            macros@,
        ),
{
    let ghost before = failures_text(out@);
    let ghost declared = string_texts(context.declared_models@);
    match seg {
        DbtSegment::Config { .. } => {
            assert(failures_text(out@) =~= before + Seq::<(Seq<char>, Seq<char>)>::empty());
        },
        DbtSegment::Ref { model } => {
            let known = contains_string(&context.declared_models, model);
            if !known {
                let avail = debug_strs(borrow_all(&context.declared_models).as_slice());
                fail(out, "sql", unknown_ref_reason(model, avail.as_str()));
            }
            let ghost mid = failures_text(out@);
            assert(mid =~= before + when(!declared.contains(model@), "sql"@, unknown_ref_text(model@, debug_list(declared))));
            let mut r = text3("model '", model, "' is declared in project but not wired — add modelRefs.");
            r.append(model);
            r.append(": ${resourceName.modelOutput}");
            push_when(out, model_refs.get(model).is_none() && known, "modelRefs", r);
        },
        DbtSegment::Source { source, table } => {
            match context.sources.get(source) {
                None => {
                    let avail = debug_strs(key_list(&context.sources).as_slice());
                    fail(out, "sql", unknown_source_reason(source, avail.as_str()));
                },
                Some(def) => {
                    let listed = contains_string(&def.tables, table);
                    if !listed {
                        let avail = debug_strs(borrow_all(&def.tables).as_slice());
                        fail(out, "sql", undeclared_table_reason(source, table, avail.as_str()));
                    }
                    assert(failures_text(out@) =~= before + when(
                        !string_texts(def.tables@).contains(table@),
                        "sql"@,
                        undeclared_table_text(source@, table@, debug_list(string_texts(def.tables@))),
                    ));
                },
            }
        },
        DbtSegment::Call { name, .. } => {
            let unknown = macros.get(name).is_none();
            if unknown {
                let avail = debug_strs(key_list(macros).as_slice());
                fail(out, "sql", unknown_macro_reason(name, avail.as_str()));
            }
            assert(failures_text(out@) =~= before + when(
                unknown,
                "sql"@,
                unknown_macro_text(name@, debug_list(keys_of(macros@))),
            ));
        },
        DbtSegment::Sql(s) => {
            let c = chars_of(s);
            let pat = chars_of("__dbt__cte__");
            proof {
                crate::text::lemma_find_none_all(c@, pat@, 0);
            }
            let hit = find_chars(&c, &pat, 0).is_some();
            push_when(out, hit, "sql", owned("'__dbt__cte__' prefix is reserved for internal use"));
        },
    }
}

fn check_materialization(out: &mut Vec<CheckFailure>, config: &ModelConfig)
    ensures
        failures_text(final(out)@) == failures_text(old(out)@) + materialization_failures(*config),
{
    let ghost before = failures_text(out@);
    let mat = config.materialization.as_str();
    let valid = str_eq(mat, "table") || str_eq(mat, "view") || str_eq(mat, "materialized_view")
        || str_eq(mat, "ephemeral") || str_eq(mat, "incremental");
    proof {
        let opts = seq!["table"@, "view"@, "materialized_view"@, "ephemeral"@, "incremental"@];
        assert(valid == opts.contains(mat@)) by {
            if opts.contains(mat@) {
                let k = choose|k: int| 0 <= k < opts.len() && opts[k] == mat@;
            }
            if valid {
                if mat@ == "table"@ { assert(opts[0] == mat@); }
                if mat@ == "view"@ { assert(opts[1] == mat@); }
                if mat@ == "materialized_view"@ { assert(opts[2] == mat@); }
                if mat@ == "ephemeral"@ { assert(opts[3] == mat@); }
                if mat@ == "incremental"@ { assert(opts[4] == mat@); }
            }
        }
    }
    push_when(
        out,
        !valid,
        "sql",
        text3(
            "invalid materialization '",
            mat,
            "' — valid options: table, view, materialized_view, ephemeral, incremental",
        ),
    );
    push_when(
        out,
        str_eq(mat, "incremental") && config.unique_key.is_none() && config.unique_key_list.is_none(),
        "sql",
        owned(
            "incremental materialization requires unique_key in config: add unique_key='column_name' or change materialization",
        ),
    );
    assert(failures_text(out@) =~= before + materialization_failures(*config));
}

fn check_strategy(out: &mut Vec<CheckFailure>, config: &ModelConfig)
    ensures
        failures_text(final(out)@) == failures_text(old(out)@) + strategy_failures(*config),
{
    let ghost before = failures_text(out@);
    match &config.incremental_strategy {
        Some(s) => {
            let ok = str_eq(s.as_str(), "merge") || str_eq(s.as_str(), "delete+insert") || str_eq(
                s.as_str(),
                "append",
            );
            proof {
                let opts = seq!["merge"@, "delete+insert"@, "append"@];
                assert(ok == opts.contains(s@)) by {
                    if opts.contains(s@) {
                        let k = choose|k: int| 0 <= k < opts.len() && opts[k] == s@;
                    }
                    if ok {
                        if s@ == "merge"@ { assert(opts[0] == s@); }
                        if s@ == "delete+insert"@ { assert(opts[1] == s@); }
                        if s@ == "append"@ { assert(opts[2] == s@); }
                    }
                }
            }
            push_when(
                out,
                !ok,
                "sql",
                text3("invalid incremental_strategy '", s.as_str(), "' — valid options: merge, delete+insert, append"),
            );
        },
        None => {
            assert(failures_text(out@) =~= before + Seq::<(Seq<char>, Seq<char>)>::empty());
        },
    }
}

fn check_layout(out: &mut Vec<CheckFailure>, config: &ModelConfig)
    ensures
        failures_text(final(out)@) == failures_text(old(out)@) + layout_failures(*config),
{
    let ghost before = failures_text(out@);
    match &config.partition_by {
        Some(p) => {
            push_when(
                out,
                p.field.unicode_len() == 0,
                "sql",
                owned(
                    "partition_by must include a 'field' key: e.g., partition_by={'field': 'created_at', 'data_type': 'date'}",
                ),
            );
        },
        None => {
            assert(failures_text(out@) =~= before + Seq::<(Seq<char>, Seq<char>)>::empty());
        },
    }
    let ghost mid = failures_text(out@);
    match &config.cluster_by {
        Some(cols) => {
            let mut r = owned("cluster_by has ");
            r.append(u64_to_text(cols.len() as u64).as_str());
            r.append(" columns but BigQuery allows maximum 4");
            push_when(out, cols.len() > 4, "sql", r);
        },
        None => {
            assert(failures_text(out@) =~= mid + Seq::<(Seq<char>, Seq<char>)>::empty());
        },
    }
    assert(failures_text(out@) =~= before + layout_failures(*config));
}

fn check_option_dependencies(out: &mut Vec<CheckFailure>, config: &ModelConfig)
    ensures
        failures_text(final(out)@) == failures_text(old(out)@) + option_dependency_failures(*config),
{
    let ghost before = failures_text(out@);
    let rpf = match config.require_partition_filter {
        Some(b) => b,
        None => false,
    };
    let refresh = match config.enable_refresh {
        Some(b) => b,
        None => false,
    };
    push_when(
        out,
        rpf && config.partition_by.is_none(),
        "sql",
        owned("require_partition_filter=true requires partition_by to be set"),
    );
    push_when(
        out,
        config.partition_expiration_days.is_some() && config.partition_by.is_none(),
        "sql",
        owned("partition_expiration_days requires partition_by to be set"),
    );
    push_when(
        out,
        refresh && !str_eq(config.materialization.as_str(), "materialized_view"),
        "sql",
        owned("enable_refresh is only valid for materialized_view materialization"),
    );
    push_when(
        out,
        config.refresh_interval_minutes.is_some() && !refresh,
        "sql",
        owned("refresh_interval_minutes requires enable_refresh=true"),
    );
    assert(failures_text(out@) =~= before + option_dependency_failures(*config));
}

/// Checks the configuration of a model whose SQL holds `count` config calls
/// (counted up to 2).
fn check_config(out: &mut Vec<CheckFailure>, config: &ModelConfig, count: u8, has_mat: bool)
    requires
        count <= 2,
    ensures
        forall|n: nat|
            (if n >= 2 { count == 2 } else { count == n }) ==> failures_text(final(out)@)
                == failures_text(old(out)@) + config_failures(*config, n, has_mat),
{
    let ghost before = failures_text(out@);
    if count >= 1 && has_mat {
        check_materialization(out, config);
        check_strategy(out, config);
        check_layout(out, config);
        check_option_dependencies(out, config);
        assert(failures_text(out@) =~= before + (materialization_failures(*config) + strategy_failures(
            *config,
        ) + layout_failures(*config) + option_dependency_failures(*config)));
    } else {
        push_when(
            out,
            count == 1 && !has_mat,
            "sql",
            owned(
                "config() block missing materialized key: add materialized='table|view|incremental|ephemeral|materialized_view'",
            ),
        );
    }
}

/// Checks a model against its project, its references and the registered
/// macros; see [`model_failures`].
pub fn validate_model(
    name: &str,
    sql: &str,
    config: &ModelConfig,
    context: &ProjectContext<'_>,
    model_refs: &StrMap<ModelRefData>,
    macros: &StrMap<MacroDef>,
) -> (r: Vec<CheckFailure>)
    ensures
        failures_text(r@) == model_failures(
            name@,
            sql@,
            *config,
            string_texts(context.declared_models@),
            model_refs@,
            context.sources@,
            macros@,
        ),
{
    let ghost declared = string_texts(context.declared_models@);
    let raw = is_entirely_raw(sql);
    let mut out: Vec<CheckFailure> = Vec::new();
    assert(failures_text(out@) =~= Seq::<(Seq<char>, Seq<char>)>::empty());
    push_when(
        &mut out,
        name.unicode_len() == 0,
        "name",
        owned("model name cannot be empty: provide a unique model identifier"),
    );
    push_when(
        &mut out,
        sql.unicode_len() == 0,
        "sql",
        owned("model sql cannot be empty: provide the SELECT statement that defines the model"),
    );
    let undeclared = context.declared_models.len() > 0 && !contains_string(&context.declared_models, name);
    push_when(&mut out, undeclared, "name", text3("model '", name, "' is not in project's declaredModels"));
    let ghost head = failures_text(out@);
    assert(head =~= model_head_failures(name@, sql@, declared));
    let expanded_sql = match expand_macros(sql, macros) {
        Ok(s) => s,
        Err(e) => {
            let mut reason = owned("macro expansion failed: ");
            reason.append(e.to_string().as_str());
            proof {
                match expanded(sql@, macros@) {
                    Err(f) => {
                        assert(e.message() == macro_failure_text(f));
                    },
                    Ok(_) => {},
                }
            }
            fail(&mut out, "sql", reason);
            return out;
        },
    };
    let ghost segs = segments_of(expanded_sql@);
    let ghost f = |i: int| segment_failures(segs[i], declared, model_refs@, context.sources@, macros@);
    let ghost mut seen: Seq<SpecSegment> = Seq::empty();
    let mut count: u8 = 0;
    let mut has_mat = false;
    let mut scanner = DbtScanner::new(expanded_sql.as_str());
    loop
        invariant
            scanner.wf(),
            seen + scanner.remaining() == segs,
            declared == string_texts(context.declared_models@),
            f == (|i: int| segment_failures(segs[i], declared, model_refs@, context.sources@, macros@)),
            failures_text(out@) == head + concat_upto(seen.len() as int, f),
            count <= 2,
            if config_count(seen) >= 2 { count == 2 } else { count == config_count(seen) },
            has_mat == sets_materialized(seen),
        ensures
            seen == segs,
            failures_text(out@) == head + concat_upto(segs.len() as int, f),
            if config_count(segs) >= 2 { count == 2 } else { count == config_count(segs) },
            has_mat == sets_materialized(segs),
        decreases scanner.remaining().len(),
    {
        let ghost rem = scanner.remaining();
        match scanner.next() {
            Some(seg) => {
                proof {
                    assert(segs[seen.len() as int] == seg@);
                }
                check_segment(&mut out, seg, context, model_refs, macros);
                if let DbtSegment::Config { raw_args } = seg {
                    if count < 2 {
                        count = count + 1;
                    }
                    if sets_materialized_key(raw_args) {
                        has_mat = true;
                    }
                }
                proof {
                    let s2 = seen.push(seg@);
                    assert(s2.drop_last() =~= seen);
                    assert(s2 + scanner.remaining() =~= seen + rem);
                    seen = s2;
                }
            },
            None => {
                proof {
                    assert(seen =~= segs);
                }
                break;
            },
        }
    }
    let ghost before_count = failures_text(out@);
    push_when(
        &mut out,
        count > 1,
        "sql",
        owned("model SQL must contain at most one {{ config(...) }} block"),
    );
    check_config(&mut out, config, count, has_mat);
    push_when(&mut out, raw, "sql", owned(RAW_MODEL_REASON));
    out
}

// ───────────────────────── model schemas ─────────────────────────

/// A column of a query result or of a declared table schema, with what the
/// checks read of it: its name, type as written, mode, description, and the
/// type in its normalized spelling (as the BigQuery type normalizer gives it).
pub struct BqField {
    pub name: String,
    pub field_type: String,
    pub mode: String,
    pub description: String,
    pub normalized_type: String,
}

/// Some column is named `n`, ignoring ASCII case.
pub open spec fn has_column(cols: Seq<BqField>, n: Seq<char>) -> bool {
    exists|i: int| 0 <= i < cols.len() && eq_ignore_case(#[trigger] cols[i].name@, n)
}

/// The first column from `k` on named `n`, ignoring ASCII case.
pub open spec fn first_column_from(cols: Seq<BqField>, n: Seq<char>, k: int) -> Option<int>
    decreases cols.len() - k,
{
    if k < 0 || k >= cols.len() {
        None
    } else if eq_ignore_case(cols[k].name@, n) {
        Some(k)
    } else {
        first_column_from(cols, n, k + 1)
    }
}

/// The column names, separated by `, `.
pub open spec fn column_list(cols: Seq<BqField>) -> Seq<char> {
    crate::preprocess::join(cols.map_values(|c: BqField| c.name@), ", "@)
}

/// One message when `cond` holds, none otherwise.
pub open spec fn note(cond: bool, msg: Seq<char>) -> Seq<Seq<char>> {
    if cond {
        seq![msg]
    } else {
        Seq::empty()
    }
}

/// A column a schema declares that the model need not produce: a repeated
/// field, or one the table schema adds after the model writes.
pub open spec fn exempt(f: BqField) -> bool {
    unicode_upper(f.mode@) == "REPEATED"@ || contains(f.description@, "__gcpx_alter_insert__"@)
}

/// Config columns missing from the model's output.
pub open spec fn config_column_errors(cols: Seq<BqField>, config: ModelConfig) -> Seq<Seq<char>> {
    let avail = column_list(cols);
    (match config.unique_key {
        Some(k) => note(
            !has_column(cols, k@),
            "unique_key '"@ + k@ + "' not found in model output columns. Available: ["@ + avail + "]"@,
        ),
        None => Seq::empty(),
    }) + (match config.unique_key_list {
        Some(keys) => concat_upto(
            keys@.len() as int,
            |i: int|
                note(
                    !has_column(cols, keys@[i]@),
                    "composite unique_key column '"@ + keys@[i]@
                        + "' not found in model output columns. Available: ["@ + avail + "]"@,
                ),
        ),
        None => Seq::empty(),
    }) + (match config.partition_by {
        Some(p) => note(
            !has_column(cols, p.field@),
            "partition_by field '"@ + p.field@ + "' not found in model output columns. Available: ["@
                + avail + "]"@,
        ),
        None => Seq::empty(),
    }) + (match config.cluster_by {
        Some(cs) => concat_upto(
            cs@.len() as int,
            |i: int|
                note(
                    !has_column(cols, cs@[i]@),
                    "cluster_by column '"@ + cs@[i]@ + "' not found in model output columns. Available: ["@
                        + avail + "]"@,
                ),
        ),
        None => Seq::empty(),
    })
}

/// Model columns the schema does not declare.
pub open spec fn undeclared_column_errors(cols: Seq<BqField>, schema: Seq<BqField>) -> Seq<Seq<char>> {
    concat_upto(
        cols.len() as int,
        |i: int|
            note(
                !has_column(schema, cols[i].name@),
                "Model produces column '"@ + cols[i].name@ + "' (type "@ + cols[i].field_type@
                    + ") not declared in schema. Add it to TableSchema or remove from SQL."@,
            ),
    )
}

/// Declared columns (not exempt) the model does not produce.
pub open spec fn unproduced_column_errors(cols: Seq<BqField>, schema: Seq<BqField>) -> Seq<Seq<char>> {
    concat_upto(
        schema.len() as int,
        |i: int|
            note(
                !exempt(schema[i]) && !has_column(cols, schema[i].name@),
                "Schema declares column '"@ + schema[i].name@ + "' (type "@ + schema[i].field_type@
                    + ") but model SQL does not produce it."@,
            ),
    )
}

/// The type mismatch of one model column against the first declared column
/// of its name.
pub open spec fn mismatch_error(c: BqField, schema: Seq<BqField>) -> Seq<Seq<char>> {
    match first_column_from(schema, c.name@, 0) {
        Some(j) => note(
            c.normalized_type@ != schema[j].normalized_type@,
            "Column '"@ + c.name@ + "' type mismatch: model produces "@ + c.normalized_type@
                + " but schema declares "@ + schema[j].normalized_type@ + "."@,
        ),
        None => Seq::empty(),
    }
}

/// Every error of a model's output columns: config columns it lacks and,
/// against a declared schema, columns it adds, columns it lacks and types
/// that differ.
pub open spec fn schema_errors(cols: Seq<BqField>, schema: Option<Seq<BqField>>, config: ModelConfig) -> Seq<
    Seq<char>,
> {
    config_column_errors(cols, config) + match schema {
        Some(s) => undeclared_column_errors(cols, s) + unproduced_column_errors(cols, s) + concat_upto(
            cols.len() as int,
            |i: int| mismatch_error(cols[i], s),
        ),
        None => Seq::empty(),
    }
}

fn find_column(cols: &[BqField], n: &str, from: usize) -> (r: Option<usize>)
    requires
        from <= cols@.len(),
    ensures
        r matches Some(j) ==> first_column_from(cols@, n@, from as int) == Some(j as int) && j
            < cols@.len(),
        r is None ==> first_column_from(cols@, n@, from as int) is None,
        r is None ==> forall|i: int| from <= i < cols@.len() ==> !eq_ignore_case(#[trigger] cols@[i].name@, n@),
    decreases cols@.len() - from,
{
    if from == cols.len() {
        return None;
    }
    if eq_ignore_ascii_case(cols[from].name.as_str(), n) {
        Some(from)
    } else {
        find_column(cols, n, from + 1)
    }
}

fn column_present(cols: &[BqField], n: &str) -> (r: bool)
    ensures
        r == has_column(cols@, n@),
{
    let f = find_column(cols, n, 0);
    proof {
        if let Some(j) = f {
            lemma_first_column_matches(cols@, n@, 0);
        }
    }
    f.is_some()
}

proof fn lemma_first_column_matches(cols: Seq<BqField>, n: Seq<char>, k: int)
    ensures
        first_column_from(cols, n, k) matches Some(j) ==> 0 <= j < cols.len() && eq_ignore_case(
            cols[j].name@,
            n,
        ),
    decreases cols.len() - k,
{
    if 0 <= k < cols.len() && !eq_ignore_case(cols[k].name@, n) {
        lemma_first_column_matches(cols, n, k + 1);
    }
}

fn names_joined(cols: &[BqField]) -> (r: String)
    ensures
        r@ == column_list(cols@),
{
    let ghost v = cols@.map_values(|c: BqField| c.name@);
    let mut r = String::new();
    let mut i: usize = 0;
    while i < cols.len()
        invariant
            i <= cols@.len(),
            v == cols@.map_values(|c: BqField| c.name@),
            r@ == crate::preprocess::join(v.take(i as int), ", "@),
        decreases cols.len() - i,
    {
        if i > 0 {
            r.append(", ");
        }
        r.append(cols[i].name.as_str());
        proof {
            assert(v.take(i + 1).drop_last() =~= v.take(i as int));
            if i == 0 {
                assert(v.take(0) =~= Seq::<Seq<char>>::empty());
            }
        }
        i += 1;
    }
    assert(v.take(cols@.len() as int) =~= v);
    r
}

fn push_note(out: &mut Vec<String>, cond: bool, msg: String)
    ensures
        final(out)@.map_values(|s: String| s@) == old(out)@.map_values(|s: String| s@) + note(cond, msg@),
{
    let ghost before = out@.map_values(|s: String| s@);
    let ghost m = msg@;
    if cond {
        out.push(msg);
    }
    assert(out@.map_values(|s: String| s@) =~= before + note(cond, m));
}

fn missing_msg(prefix: &str, name: &str, avail: &str) -> (r: String)
    ensures
        r@ == prefix@ + name@ + "' not found in model output columns. Available: ["@ + avail@ + "]"@,
{
    let mut r = text3(prefix, name, "' not found in model output columns. Available: [");
    r.append(avail);
    r.append("]");
    r
}

fn check_config_columns(out: &mut Vec<String>, cols: &[BqField], config: &ModelConfig)
    ensures
        final(out)@.map_values(|s: String| s@) == old(out)@.map_values(|s: String| s@)
            + config_column_errors(cols@, *config),
{
    let ghost before = out@.map_values(|s: String| s@);
    let avail = names_joined(cols);
    match &config.unique_key {
        Some(k) => {
            push_note(out, !column_present(cols, k.as_str()), missing_msg("unique_key '", k.as_str(), avail.as_str()));
        },
        None => {},
    }
    let ghost a1 = out@.map_values(|s: String| s@);
    match &config.unique_key_list {
        Some(keys) => {
            let ghost f = |i: int|
                note(
                    !has_column(cols@, keys@[i]@),
                    "composite unique_key column '"@ + keys@[i]@
                        + "' not found in model output columns. Available: ["@ + avail@ + "]"@,
                );
            let mut i: usize = 0;
            while i < keys.len()
                invariant
                    i <= keys@.len(),
                    avail@ == column_list(cols@),
                    f == (|i: int|
                        note(
                            !has_column(cols@, keys@[i]@),
                            "composite unique_key column '"@ + keys@[i]@
                                + "' not found in model output columns. Available: ["@ + avail@ + "]"@,
                        )),
                    out@.map_values(|s: String| s@) == a1 + concat_upto(i as int, f),
                decreases keys.len() - i,
            {
                push_note(
                    out,
                    !column_present(cols, keys[i].as_str()),
                    missing_msg("composite unique_key column '", keys[i].as_str(), avail.as_str()),
                );
                i += 1;
            }
        },
        None => {},
    }
    let ghost a2 = out@.map_values(|s: String| s@);
    match &config.partition_by {
        Some(p) => {
            push_note(
                out,
                !column_present(cols, p.field.as_str()),
                missing_msg("partition_by field '", p.field.as_str(), avail.as_str()),
            );
        },
        None => {},
    }
    let ghost a3 = out@.map_values(|s: String| s@);
    match &config.cluster_by {
        Some(cs) => {
            let ghost f = |i: int|
                note(
                    !has_column(cols@, cs@[i]@),
                    "cluster_by column '"@ + cs@[i]@ + "' not found in model output columns. Available: ["@
                        + avail@ + "]"@,
                );
            let mut i: usize = 0;
            while i < cs.len()
                invariant
                    i <= cs@.len(),
                    avail@ == column_list(cols@),
                    f == (|i: int|
                        note(
                            !has_column(cols@, cs@[i]@),
                            "cluster_by column '"@ + cs@[i]@
                                + "' not found in model output columns. Available: ["@ + avail@ + "]"@,
                        )),
                    out@.map_values(|s: String| s@) == a3 + concat_upto(i as int, f),
                decreases cs.len() - i,
            {
                push_note(
                    out,
                    !column_present(cols, cs[i].as_str()),
                    missing_msg("cluster_by column '", cs[i].as_str(), avail.as_str()),
                );
                i += 1;
            }
        },
        None => {},
    }
    assert(out@.map_values(|s: String| s@) =~= before + config_column_errors(cols@, *config));
}

fn check_against_schema(out: &mut Vec<String>, cols: &[BqField], schema: &[BqField])
    ensures
        final(out)@.map_values(|s: String| s@) == old(out)@.map_values(|s: String| s@)
            + undeclared_column_errors(cols@, schema@) + unproduced_column_errors(cols@, schema@)
            + concat_upto(cols@.len() as int, |i: int| mismatch_error(cols@[i], schema@)),
{
    let ghost before = out@.map_values(|s: String| s@);
    let ghost f1 = |i: int|
        note(
            !has_column(schema@, cols@[i].name@),
            "Model produces column '"@ + cols@[i].name@ + "' (type "@ + cols@[i].field_type@
                + ") not declared in schema. Add it to TableSchema or remove from SQL."@,
        );
    let mut i: usize = 0;
    while i < cols.len()
        invariant
            i <= cols@.len(),
            f1 == (|i: int|
                note(
                    !has_column(schema@, cols@[i].name@),
                    "Model produces column '"@ + cols@[i].name@ + "' (type "@ + cols@[i].field_type@
                        + ") not declared in schema. Add it to TableSchema or remove from SQL."@,
                )),
            out@.map_values(|s: String| s@) == before + concat_upto(i as int, f1),
        decreases cols.len() - i,
    {
        let c = &cols[i];
        let mut m = text3("Model produces column '", c.name.as_str(), "' (type ");
        m.append(c.field_type.as_str());
        m.append(") not declared in schema. Add it to TableSchema or remove from SQL.");
        push_note(out, !column_present(schema, c.name.as_str()), m);
        i += 1;
    }
    let ghost b1 = out@.map_values(|s: String| s@);
    let ghost f2 = |i: int|
        note(
            !exempt(schema@[i]) && !has_column(cols@, schema@[i].name@),
            "Schema declares column '"@ + schema@[i].name@ + "' (type "@ + schema@[i].field_type@
                + ") but model SQL does not produce it."@,
        );
    let mut i: usize = 0;
    while i < schema.len()
        invariant
            i <= schema@.len(),
            f2 == (|i: int|
                note(
                    !exempt(schema@[i]) && !has_column(cols@, schema@[i].name@),
                    "Schema declares column '"@ + schema@[i].name@ + "' (type "@ + schema@[i].field_type@
                        + ") but model SQL does not produce it."@,
                )),
            out@.map_values(|s: String| s@) == b1 + concat_upto(i as int, f2),
        decreases schema.len() - i,
    {
        let sf = &schema[i];
        let upper = str_to_uppercase(sf.mode.as_str());
        let repeated = str_eq(upper.as_str(), "REPEATED");
        let d = chars_of(sf.description.as_str());
        let pat = chars_of("__gcpx_alter_insert__");
        proof {
            crate::text::lemma_find_none_all(d@, pat@, 0);
        }
        let alter = find_chars(&d, &pat, 0).is_some();
        let mut m = text3("Schema declares column '", sf.name.as_str(), "' (type ");
        m.append(sf.field_type.as_str());
        m.append(") but model SQL does not produce it.");
        let missing = !repeated && !alter && !column_present(cols, sf.name.as_str());
        push_note(out, missing, m);
        i += 1;
    }
    let ghost b2 = out@.map_values(|s: String| s@);
    let ghost f3 = |i: int| mismatch_error(cols@[i], schema@);
    let mut i: usize = 0;
    while i < cols.len()
        invariant
            i <= cols@.len(),
            f3 == (|i: int| mismatch_error(cols@[i], schema@)),
            out@.map_values(|s: String| s@) == b2 + concat_upto(i as int, f3),
        decreases cols.len() - i,
    {
        let c = &cols[i];
        let ghost b = out@.map_values(|s: String| s@);
        match find_column(schema, c.name.as_str(), 0) {
            Some(j) => {
                let sf = &schema[j];
                let mut m = text3("Column '", c.name.as_str(), "' type mismatch: model produces ");
                m.append(c.normalized_type.as_str());
                m.append(" but schema declares ");
                m.append(sf.normalized_type.as_str());
                m.append(".");
                push_note(out, !str_eq(c.normalized_type.as_str(), sf.normalized_type.as_str()), m);
            },
            None => {
                assert(out@.map_values(|s: String| s@) =~= b + Seq::<Seq<char>>::empty());
            },
        }
        i += 1;
    }
}

/// Checks a model's output columns against its configuration and, when one
/// is declared, against the table's schema; see [`schema_errors`].
pub fn validate_model_schema(model_columns: &[BqField], declared_schema: Option<&[BqField]>, config: &ModelConfig) -> (r: Vec<String>)
    ensures
        r@.map_values(|s: String| s@) == schema_errors(
            model_columns@,
            match declared_schema {
                Some(s) => Some(s@),
                None => None,
            },
            *config,
        ),
{
    let mut out: Vec<String> = Vec::new();
    assert(out@.map_values(|s: String| s@) =~= Seq::<Seq<char>>::empty());
    check_config_columns(&mut out, model_columns, config);
    let ghost mid = out@.map_values(|s: String| s@);
    match declared_schema {
        Some(schema) => {
            check_against_schema(&mut out, model_columns, schema);
        },
        None => {
            assert(out@.map_values(|s: String| s@) =~= mid + Seq::<Seq<char>>::empty());
        },
    }
    out
}

// ───────────────────────── SQL options against declared options ─────────────────────────

/// The reason for an option set in SQL but not declared in the resource's
/// options.
pub open spec fn sql_only_text(sql_key: Seq<char>, v: Seq<char>, yaml_key: Seq<char>) -> Seq<char> {
    "SQL config option '"@ + sql_key + "' is set to '"@ + v
        + "' but not declared in resource-level YAML options.\n\n  SQL:  {{ config("@ + sql_key + "="@
        + v
        + ") }}\n  YAML: (not declared)\n\nWhen resource-level YAML options are provided, all SQL config options must also be declared in YAML to prevent silent configuration conflicts.\n\nAdd to your YAML:\n  options:\n    "@
        + yaml_key + ": "@ + v + "\n\nOr remove '"@ + sql_key + "' from your SQL config block."@
}

/// The reason for an option whose SQL and declared values differ.
pub open spec fn conflict_text(sql_key: Seq<char>, s: Seq<char>, y: Seq<char>) -> Seq<char> {
    "Option '"@ + sql_key
        + "' has conflicting values in SQL config and resource-level YAML options.\n\n  SQL config:  '"@
        + s + "'\n  YAML options: '"@ + y
        + "'\n\nResource-level YAML options override SQL config settings.\n\nTo resolve, either:\n  1. Remove '"@
        + sql_key + "' from your SQL config block (YAML value '"@ + y
        + "' will be used)\n  2. Update the SQL config to match: {{ config("@ + sql_key + "='"@ + y
        + "') }}"@
}

/// The failure one option contributes: set only in SQL, or set to different
/// values in SQL and in the declared options.
pub open spec fn field_diff<T>(
    sql: Option<T>,
    yaml: Option<T>,
    show: spec_fn(T) -> Seq<char>,
    sql_key: Seq<char>,
    yaml_key: Seq<char>,
) -> Seq<(Seq<char>, Seq<char>)> {
    match sql {
        Some(s) => match yaml {
            None => seq![("options"@, sql_only_text(sql_key, show(s), yaml_key))],
            Some(y) => when(s != y, "options"@, conflict_text(sql_key, show(s), show(y))),
        },
        None => Seq::empty(),
    }
}

pub open spec fn texts_of(o: Option<String>) -> Option<Seq<char>> {
    match o {
        Some(s) => Some(s@),
        None => None,
    }
}

/// The option failures, in the order the options are listed.
pub open spec fn option_diffs(c: ModelConfig, y: OwnedTableOptions) -> Seq<(Seq<char>, Seq<char>)> {
    field_diff(
        c.require_partition_filter,
        y.require_partition_filter,
        |b: bool| bool_text(b),
        "require_partition_filter"@,
        "requirePartitionFilter"@,
    ) + field_diff(
        c.partition_expiration_days,
        y.partition_expiration_days,
        |n: u32| decimal(n as nat),
        "partition_expiration_days"@,
        "partitionExpirationDays"@,
    ) + field_diff(
        texts_of(c.friendly_name),
        texts_of(y.friendly_name),
        |t: Seq<char>| t,
        "friendly_name"@,
        "friendlyName"@,
    ) + field_diff(
        texts_of(c.description),
        texts_of(y.description),
        |t: Seq<char>| t,
        "description"@,
        "description"@,
    ) + field_diff(
        texts_of(c.kms_key_name),
        texts_of(y.kms_key_name),
        |t: Seq<char>| t,
        "kms_key_name"@,
        "kmsKeyName"@,
    ) + field_diff(
        texts_of(c.default_collation_name),
        texts_of(y.default_collation_name),
        |t: Seq<char>| t,
        "default_collation_name"@,
        "defaultCollationName"@,
    ) + field_diff(
        c.enable_refresh,
        y.enable_refresh,
        |b: bool| bool_text(b),
        "enable_refresh"@,
        "enableRefresh"@,
    ) + field_diff(
        c.refresh_interval_minutes,
        y.refresh_interval_minutes,
        |n: u32| decimal(n as nat),
        "refresh_interval_minutes"@,
        "refreshIntervalMinutes"@,
    ) + field_diff(
        texts_of(c.max_staleness),
        texts_of(y.max_staleness),
        |t: Seq<char>| t,
        "max_staleness"@,
        "maxStaleness"@,
    )
}

/// The reason for a label set in SQL but not declared.
pub open spec fn label_sql_only_text(k: Seq<char>, v: Seq<char>) -> Seq<char> {
    "Label '"@ + k + "' is set to '"@ + v
        + "' in SQL config but not declared in YAML labels.\n\n  SQL:  {{ config(labels={'"@ + k
        + "': '"@ + v + "'}) }}\n  YAML: (label '"@ + k
        + "' not declared)\n\nAdd to your YAML:\n  options:\n    labels:\n      "@ + k + ": "@ + v
}

/// The reason for a label whose SQL and declared values differ.
pub open spec fn label_conflict_text(k: Seq<char>, v: Seq<char>, y: Seq<char>) -> Seq<char> {
    "Label '"@ + k + "' has conflicting values:\n  SQL config:  '"@ + v + "'\n  YAML options: '"@ + y
        + "'\n\nResource-level YAML options override SQL config settings."@
}

/// The failure of one SQL label against the declared labels.
pub open spec fn label_diff(k: Seq<char>, v: Seq<char>, yaml: Seq<(Seq<char>, String)>) -> Seq<
    (Seq<char>, Seq<char>),
> {
    match lookup(yaml, k) {
        None => seq![("options"@, label_sql_only_text(k, v))],
        Some(y) => when(y@ != v, "options"@, label_conflict_text(k, v, y@)),
    }
}

/// The failures of the SQL labels, taken in key order (a label given twice
/// in SQL keeps its last value), against the declared labels.
pub open spec fn label_diffs<'a>(m: Seq<(Seq<char>, &'a str)>, yaml: Seq<(Seq<char>, String)>) -> Seq<
    (Seq<char>, Seq<char>),
> {
    concat_upto(m.len() as int, |i: int| label_diff(m[i].0, m[i].1@, yaml))
}

/// `m` is the SQL labels as a map: keys ascending, each with its last value.
pub open spec fn is_label_map<'a>(m: Seq<(Seq<char>, &'a str)>, labels: Seq<(String, String)>) -> bool {
    &&& sorted_keys(m)
    &&& forall|q: Seq<char>| #[trigger] found_text(lookup(m, q)) == last_value(labels, q)
}

fn push_field_diff<T>(
    out: &mut Vec<CheckFailure>,
    sql_key: &str,
    yaml_key: &str,
    sql: Option<String>,
    yaml: Option<String>,
    differ: bool,
    Ghost(sv): Ghost<Option<T>>,
    Ghost(yv): Ghost<Option<T>>,
    Ghost(show): Ghost<spec_fn(T) -> Seq<char>>,
)
    requires
        sql is Some <==> sv is Some,
        yaml is Some <==> yv is Some,
        sql matches Some(s) ==> s@ == show(sv.unwrap()),
        yaml matches Some(y) ==> y@ == show(yv.unwrap()),
        (sv is Some && yv is Some) ==> differ == (sv.unwrap() != yv.unwrap()),
    ensures
        failures_text(final(out)@) == failures_text(old(out)@) + field_diff(sv, yv, show, sql_key@, yaml_key@),
{
    let ghost before = failures_text(out@);
    match sql {
        Some(s) => match yaml {
            None => {
                let mut r = text3("SQL config option '", sql_key, "' is set to '");
                r.append(s.as_str());
                r.append("' but not declared in resource-level YAML options.\n\n  SQL:  {{ config(");
                r.append(sql_key);
                r.append("=");
                r.append(s.as_str());
                r.append(") }}\n  YAML: (not declared)\n\nWhen resource-level YAML options are provided, all SQL config options must also be declared in YAML to prevent silent configuration conflicts.\n\nAdd to your YAML:\n  options:\n    ");
                r.append(yaml_key);
                r.append(": ");
                r.append(s.as_str());
                r.append("\n\nOr remove '");
                r.append(sql_key);
                r.append("' from your SQL config block.");
                fail(out, "options", r);
            },
            Some(y) => {
                let mut r = text3("Option '", sql_key, "' has conflicting values in SQL config and resource-level YAML options.\n\n  SQL config:  '");
                r.append(s.as_str());
                r.append("'\n  YAML options: '");
                r.append(y.as_str());
                r.append("'\n\nResource-level YAML options override SQL config settings.\n\nTo resolve, either:\n  1. Remove '");
                r.append(sql_key);
                r.append("' from your SQL config block (YAML value '");
                r.append(y.as_str());
                r.append("' will be used)\n  2. Update the SQL config to match: {{ config(");
                r.append(sql_key);
                r.append("='");
                r.append(y.as_str());
                r.append("') }}");
                push_when(out, differ, "options", r);
            },
        },
        None => {
            assert(failures_text(out@) =~= before + Seq::<(Seq<char>, Seq<char>)>::empty());
        },
    }
}

fn bool_opt_text(o: Option<bool>) -> (r: Option<String>)
    ensures
        r is Some <==> o is Some,
        r matches Some(s) ==> s@ == bool_text(o.unwrap()),
{
    match o {
        Some(b) => {
            let mut s = String::new();
            push_bool(&mut s, b);
            Some(s)
        },
        None => None,
    }
}

fn u32_opt_text(o: Option<u32>) -> (r: Option<String>)
    ensures
        r is Some <==> o is Some,
        r matches Some(s) ==> s@ == decimal(o.unwrap() as nat),
{
    match o {
        Some(n) => Some(u64_to_text(n as u64)),
        None => None,
    }
}

fn str_opt_text(o: &Option<String>) -> (r: Option<String>)
    ensures
        texts_of(r) == texts_of(*o),
{
    match o {
        Some(s) => Some(owned(s.as_str())),
        None => None,
    }
}

fn str_differ(a: &Option<String>, b: &Option<String>) -> (r: bool)
    ensures
        (a is Some && b is Some) ==> r == (a.unwrap()@ != b.unwrap()@),
{
    match (a, b) {
        (Some(x), Some(y)) => !str_eq(x.as_str(), y.as_str()),
        _ => false,
    }
}

fn diff_string_field(out: &mut Vec<CheckFailure>, sql_key: &str, yaml_key: &str, sql: &Option<String>, yaml: &Option<String>)
    ensures
        failures_text(final(out)@) == failures_text(old(out)@) + field_diff(
            texts_of(*sql),
            texts_of(*yaml),
            |t: Seq<char>| t,
            sql_key@,
            yaml_key@,
        ),
{
    let differ = str_differ(sql, yaml);
    push_field_diff::<Seq<char>>(
        out,
        sql_key,
        yaml_key,
        str_opt_text(sql),
        str_opt_text(yaml),
        differ,
        Ghost(texts_of(*sql)),
        Ghost(texts_of(*yaml)),
        Ghost(|t: Seq<char>| t),
    );
}

fn diff_bool_field(out: &mut Vec<CheckFailure>, sql_key: &str, yaml_key: &str, sql: Option<bool>, yaml: Option<bool>)
    ensures
        failures_text(final(out)@) == failures_text(old(out)@) + field_diff(
            sql,
            yaml,
            |b: bool| bool_text(b),
            sql_key@,
            yaml_key@,
        ),
{
    let differ = match (sql, yaml) {
        (Some(a), Some(b)) => a != b,
        _ => false,
    };
    push_field_diff::<bool>(
        out,
        sql_key,
        yaml_key,
        bool_opt_text(sql),
        bool_opt_text(yaml),
        differ,
        Ghost(sql),
        Ghost(yaml),
        Ghost(|b: bool| bool_text(b)),
    );
}

fn diff_u32_field(out: &mut Vec<CheckFailure>, sql_key: &str, yaml_key: &str, sql: Option<u32>, yaml: Option<u32>)
    ensures
        failures_text(final(out)@) == failures_text(old(out)@) + field_diff(
            sql,
            yaml,
            |n: u32| decimal(n as nat),
            sql_key@,
            yaml_key@,
        ),
{
    let differ = match (sql, yaml) {
        (Some(a), Some(b)) => a != b,
        _ => false,
    };
    push_field_diff::<u32>(
        out,
        sql_key,
        yaml_key,
        u32_opt_text(sql),
        u32_opt_text(yaml),
        differ,
        Ghost(sql),
        Ghost(yaml),
        Ghost(|n: u32| decimal(n as nat)),
    );
}

fn diff_labels<'a>(out: &mut Vec<CheckFailure>, labels: &StrMap<&'a str>, yaml: &StrMap<String>)
    ensures
        failures_text(final(out)@) == failures_text(old(out)@) + label_diffs(labels@, yaml@),
{
    let ghost before = failures_text(out@);
    let ghost f = |i: int| label_diff(labels@[i].0, labels@[i].1@, yaml@);
    let mut i: usize = 0;
    while i < labels.len()
        invariant
            i <= labels@.len(),
            f == (|i: int| label_diff(labels@[i].0, labels@[i].1@, yaml@)),
            failures_text(out@) == before + concat_upto(i as int, f),
        decreases labels@.len() - i,
    {
        let k = labels.key_at(i);
        let v: &str = *labels.value_at(i);
        let ghost b = failures_text(out@);
        match yaml.get(k) {
            None => {
                let mut r = text3("Label '", k, "' is set to '");
                r.append(v);
                r.append("' in SQL config but not declared in YAML labels.\n\n  SQL:  {{ config(labels={'");
                r.append(k);
                r.append("': '");
                r.append(v);
                r.append("'}) }}\n  YAML: (label '");
                r.append(k);
                r.append("' not declared)\n\nAdd to your YAML:\n  options:\n    labels:\n      ");
                r.append(k);
                r.append(": ");
                r.append(v);
                fail(out, "options", r);
            },
            Some(y) => {
                let mut r = text3("Label '", k, "' has conflicting values:\n  SQL config:  '");
                r.append(v);
                r.append("'\n  YAML options: '");
                r.append(y.as_str());
                r.append("'\n\nResource-level YAML options override SQL config settings.");
                push_when(out, !str_eq(y.as_str(), v), "options", r);
            },
        }
        assert(failures_text(out@) =~= b + f(i as int));
        i += 1;
    }
}

/// Compares the options a model's SQL sets with those its resource declares,
/// which are authoritative: an option set only in SQL, or set to another
/// value, is a failure; options only declared are fine. The SQL labels are
/// taken as a map (keys ascending, last value wins).
pub fn diff_options(sql_config: &ModelConfig, yaml_options: &OwnedTableOptions) -> (r: Vec<CheckFailure>)
    ensures
        exists|m: Seq<(Seq<char>, &str)>|
            is_label_map(m, sql_config.labels@) && failures_text(r@) == option_diffs(
                *sql_config,
                *yaml_options,
            ) + label_diffs(m, yaml_options.labels@),
{
    let c = sql_config;
    let y = yaml_options;
    let mut out: Vec<CheckFailure> = Vec::new();
    assert(failures_text(out@) =~= Seq::<(Seq<char>, Seq<char>)>::empty());
    diff_bool_field(&mut out, "require_partition_filter", "requirePartitionFilter", c.require_partition_filter, y.require_partition_filter);
    diff_u32_field(&mut out, "partition_expiration_days", "partitionExpirationDays", c.partition_expiration_days, y.partition_expiration_days);
    diff_string_field(&mut out, "friendly_name", "friendlyName", &c.friendly_name, &y.friendly_name);
    diff_string_field(&mut out, "description", "description", &c.description, &y.description);
    diff_string_field(&mut out, "kms_key_name", "kmsKeyName", &c.kms_key_name, &y.kms_key_name);
    diff_string_field(&mut out, "default_collation_name", "defaultCollationName", &c.default_collation_name, &y.default_collation_name);
    diff_bool_field(&mut out, "enable_refresh", "enableRefresh", c.enable_refresh, y.enable_refresh);
    diff_u32_field(&mut out, "refresh_interval_minutes", "refreshIntervalMinutes", c.refresh_interval_minutes, y.refresh_interval_minutes);
    diff_string_field(&mut out, "max_staleness", "maxStaleness", &c.max_staleness, &y.max_staleness);
    assert(failures_text(out@) =~= option_diffs(*c, *y));
    let opts = c.to_table_options();
    let n = opts.labels.len();
    diff_labels(&mut out, &opts.labels, &y.labels);
    assert(is_label_map(opts.labels@, c.labels@));
    out
}

} // verus!
