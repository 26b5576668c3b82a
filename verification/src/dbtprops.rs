//! Reading the dbt resources' inputs from their properties, and writing
//! their outputs: projects and their context, macros, models and the models
//! and macros a model refers to.
use vstd::prelude::*;

use crate::config::strings_view;
use crate::macros::MacroDef;
use crate::model::{MacroInputs, MacroOutput, ModelOutput, ModelRefData, ProjectContext, ProjectInputs, SourceDef, SourceInputs};
use crate::options::OwnedTableOptions;
use crate::props::{
    bool_at, entries_at, fields_at, is_source_output, last_in, last_source, lemma_flat_output,
    lemma_last_in_append, lemma_last_in_one, lemma_read_text, lemma_read_text_list, texts_in,
    flat_value_matches,
    lemma_maps_done, lemma_maps_empty, lemma_maps_step, maps_upto, maps_values, number_at,
    opt_number_entry, opt_text_entry, output_matches, flat_output_matches, sources_match,
    str_views, text_at, text_list_at, texts_of, OutputBuilder, PropValue, PropView, Props,
};
use crate::strmap::lookup;
use crate::strmap::{sorted_keys, StrMap};

verus! {

fn owned(s: &str) -> (r: String)
    ensures
        r@ == s@,
{
    let mut r = String::new();
    r.append(s);
    r
}

/// The text under `k`, or empty.
pub open spec fn text_or_empty(p: Props, k: Seq<char>) -> Seq<char> {
    match text_at(p, k) {
        Some(t) => t,
        None => Seq::empty(),
    }
}

fn text_or_empty_of(p: &Props, k: &str) -> (r: String)
    ensures
        r@ == text_or_empty(*p, k@),
{
    match p.get_str(k) {
        Some(s) => owned(s),
        None => String::new(),
    }
}

fn owned_texts(p: &Props, k: &str) -> (r: Vec<String>)
    ensures
        strings_view(r@) == text_list_at(*p, k@),
{
    let v = p.get_string_list(k);
    let mut r: Vec<String> = Vec::new();
    let mut i: usize = 0;
    while i < v.len()
        invariant
            i <= v@.len(),
            r@.len() == i,
            forall|j: int| 0 <= j < i ==> #[trigger] r@[j]@ == v@[j]@,
        decreases v.len() - i,
    {
        r.push(owned(v[i]));
        i += 1;
    }
    assert(strings_view(r@) =~= str_views(v@));
    r
}

/// Selects nested sets of properties.
pub open spec fn fields_sel() -> spec_fn(PropValue) -> bool {
    |v: PropValue| v is Fields
}

/// Selects texts.
pub open spec fn text_sel() -> spec_fn(PropValue) -> bool {
    |v: PropValue| v is Text
}

/// A text value and the string it holds.
pub open spec fn text_rel() -> spec_fn(String, PropValue) -> bool {
    |d: String, v: PropValue| v == PropValue::Text(d)
}

/// The texts stored under the keys of `p`, by key; other values are left out.
pub fn text_map(p: &Props) -> (r: StrMap<String>)
    ensures
        maps_values(r@, p.fields@, text_sel(), text_rel()),
{
    let mut r: StrMap<String> = StrMap::new();
    let n = p.fields.len();
    let mut i: usize = 0;
    proof {
        lemma_maps_empty(r@, p.fields@, text_sel(), text_rel());
    }
    while i < n
        invariant
            n == p.fields@.len(),
            sorted_keys(p.fields@),
            i <= n,
            maps_upto(r@, p.fields@, text_sel(), text_rel(), i as int),
        decreases n - i,
    {
        let k = p.fields.key_at(i);
        let v = p.fields.value_at(i);
        let ghost r0 = r@;
        match v {
            PropValue::Text(s) => {
                r.insert(k, s.clone());
            },
            _ => {},
        }
        proof {
            lemma_maps_step(r0, r@, p.fields@, text_sel(), text_rel(), i as int);
        }
        i += 1;
    }
    proof {
        lemma_maps_done(r@, p.fields@, text_sel(), text_rel());
    }
    r
}

// ───────────────────────── model references and macros ─────────────────────────

/// `d` is what the properties `f` of a referenced model give, each missing
/// text empty.
pub open spec fn is_model_ref(d: ModelRefData, f: Props) -> bool {
    &&& d.materialization@ == text_or_empty(f, "materialization"@)
    &&& d.resolved_ctes_json@ == text_or_empty(f, "resolvedCtesJson"@)
    &&& d.resolved_body@ == text_or_empty(f, "resolvedBody"@)
    &&& d.table_ref@ == text_or_empty(f, "tableRef"@)
    &&& d.resolved_ddl@ == text_or_empty(f, "resolvedDdl"@)
    &&& d.resolved_sql@ == text_or_empty(f, "resolvedSql"@)
    &&& d.workflow_yaml@ == text_or_empty(f, "workflowYaml"@)
}

pub open spec fn model_ref_rel() -> spec_fn(ModelRefData, PropValue) -> bool {
    |d: ModelRefData, v: PropValue| v matches PropValue::Fields(f) && is_model_ref(d, f)
}

fn model_ref_of(f: &Props) -> (d: ModelRefData)
    ensures
        is_model_ref(d, *f),
{
    ModelRefData {
        materialization: text_or_empty_of(f, "materialization"),
        resolved_ctes_json: text_or_empty_of(f, "resolvedCtesJson"),
        resolved_body: text_or_empty_of(f, "resolvedBody"),
        table_ref: text_or_empty_of(f, "tableRef"),
        resolved_ddl: text_or_empty_of(f, "resolvedDdl"),
        resolved_sql: text_or_empty_of(f, "resolvedSql"),
        workflow_yaml: text_or_empty_of(f, "workflowYaml"),
    }
}

/// The models a model refers to, by name, from its `modelRefs` property;
/// entries that are not sets of properties are left out.
pub fn parse_model_refs(p: &Props) -> (r: StrMap<ModelRefData>)
    ensures
        maps_values(r@, entries_at(*p, "modelRefs"@), fields_sel(), model_ref_rel()),
{
    let mut r: StrMap<ModelRefData> = StrMap::new();
    match p.get_fields("modelRefs") {
        None => {
            proof {
                lemma_maps_empty(r@, entries_at(*p, "modelRefs"@), fields_sel(), model_ref_rel());
                lemma_maps_done(r@, entries_at(*p, "modelRefs"@), fields_sel(), model_ref_rel());
            }
            r
        },
        Some(src) => {
            let n = src.fields.len();
            let mut i: usize = 0;
            proof {
                lemma_maps_empty(r@, src.fields@, fields_sel(), model_ref_rel());
            }
            while i < n
                invariant
                    n == src.fields@.len(),
                    sorted_keys(src.fields@),
                    i <= n,
                    maps_upto(r@, src.fields@, fields_sel(), model_ref_rel(), i as int),
                decreases n - i,
            {
                let k = src.fields.key_at(i);
                let v = src.fields.value_at(i);
                let ghost r0 = r@;
                match v {
                    PropValue::Fields(f) => {
                        r.insert(k, model_ref_of(f));
                    },
                    _ => {},
                }
                proof {
                    lemma_maps_step(r0, r@, src.fields@, fields_sel(), model_ref_rel(), i as int);
                }
                i += 1;
            }
            proof {
                lemma_maps_done(r@, src.fields@, fields_sel(), model_ref_rel());
            }
            r
        },
    }
}

/// `d` is the macro the properties `f` give: its argument names (texts of
/// `args`) and its SQL (empty when missing).
pub open spec fn is_macro_def(d: MacroDef, f: Props) -> bool {
    &&& strings_view(d.args@) == text_list_at(f, "args"@)
    &&& d.sql@ == text_or_empty(f, "sql"@)
}

pub open spec fn macro_def_rel() -> spec_fn(MacroDef, PropValue) -> bool {
    |d: MacroDef, v: PropValue| v matches PropValue::Fields(f) && is_macro_def(d, f)
}

/// The macros a model may call, by name, from its `macros` property;
/// entries that are not sets of properties are left out.
pub fn parse_macro_defs(p: &Props) -> (r: StrMap<MacroDef>)
    ensures
        maps_values(r@, entries_at(*p, "macros"@), fields_sel(), macro_def_rel()),
{
    let mut r: StrMap<MacroDef> = StrMap::new();
    match p.get_fields("macros") {
        None => {
            proof {
                lemma_maps_empty(r@, entries_at(*p, "macros"@), fields_sel(), macro_def_rel());
                lemma_maps_done(r@, entries_at(*p, "macros"@), fields_sel(), macro_def_rel());
            }
            r
        },
        Some(src) => {
            let n = src.fields.len();
            let mut i: usize = 0;
            proof {
                lemma_maps_empty(r@, src.fields@, fields_sel(), macro_def_rel());
            }
            while i < n
                invariant
                    n == src.fields@.len(),
                    sorted_keys(src.fields@),
                    i <= n,
                    maps_upto(r@, src.fields@, fields_sel(), macro_def_rel(), i as int),
                decreases n - i,
            {
                let k = src.fields.key_at(i);
                let v = src.fields.value_at(i);
                let ghost r0 = r@;
                match v {
                    PropValue::Fields(f) => {
                        let d = MacroDef { args: owned_texts(f, "args"), sql: text_or_empty_of(f, "sql") };
                        r.insert(k, d);
                    },
                    _ => {},
                }
                proof {
                    lemma_maps_step(r0, r@, src.fields@, fields_sel(), macro_def_rel(), i as int);
                }
                i += 1;
            }
            proof {
                lemma_maps_done(r@, src.fields@, fields_sel(), macro_def_rel());
            }
            r
        },
    }
}

// ───────────────────────── project context ─────────────────────────

/// `d` is the source the properties `f` give: its dataset (empty when
/// missing) and the texts of its `tables`.
pub open spec fn is_source_def(d: SourceDef, f: Props) -> bool {
    &&& d.dataset@ == text_or_empty(f, "dataset"@)
    &&& strings_view(d.tables@) == text_list_at(f, "tables"@)
}

pub open spec fn source_def_rel() -> spec_fn(SourceDef, PropValue) -> bool {
    |d: SourceDef, v: PropValue| v matches PropValue::Fields(f) && is_source_def(d, f)
}

/// The sources of a project context, by name.
pub fn parse_sources(p: &Props) -> (r: StrMap<SourceDef>)
    ensures
        maps_values(r@, entries_at(*p, "sources"@), fields_sel(), source_def_rel()),
{
    let mut r: StrMap<SourceDef> = StrMap::new();
    match p.get_fields("sources") {
        None => {
            proof {
                lemma_maps_empty(r@, entries_at(*p, "sources"@), fields_sel(), source_def_rel());
                lemma_maps_done(r@, entries_at(*p, "sources"@), fields_sel(), source_def_rel());
            }
            r
        },
        Some(src) => {
            let n = src.fields.len();
            let mut i: usize = 0;
            proof {
                lemma_maps_empty(r@, src.fields@, fields_sel(), source_def_rel());
            }
            while i < n
                invariant
                    n == src.fields@.len(),
                    sorted_keys(src.fields@),
                    i <= n,
                    maps_upto(r@, src.fields@, fields_sel(), source_def_rel(), i as int),
                decreases n - i,
            {
                let k = src.fields.key_at(i);
                let v = src.fields.value_at(i);
                let ghost r0 = r@;
                match v {
                    PropValue::Fields(f) => {
                        let d = SourceDef { dataset: text_or_empty_of(f, "dataset"), tables: owned_texts(f, "tables") };
                        r.insert(k, d);
                    },
                    _ => {},
                }
                proof {
                    lemma_maps_step(r0, r@, src.fields@, fields_sel(), source_def_rel(), i as int);
                }
                i += 1;
            }
            proof {
                lemma_maps_done(r@, src.fields@, fields_sel(), source_def_rel());
            }
            r
        },
    }
}

/// The text vars of a project, by name, from its `vars` property.
pub fn parse_vars(p: &Props) -> (r: StrMap<String>)
    ensures
        maps_values(r@, entries_at(*p, "vars"@), text_sel(), text_rel()),
{
    match p.get_fields("vars") {
        Some(f) => text_map(f),
        None => {
            let r: StrMap<String> = StrMap::new();
            proof {
                lemma_maps_empty(r@, entries_at(*p, "vars"@), text_sel(), text_rel());
                lemma_maps_done(r@, entries_at(*p, "vars"@), text_sel(), text_rel());
            }
            r
        },
    }
}

/// Reads a project context, which a model carries: every part is optional
/// (a missing project or dataset is empty).
pub fn parse_project_context(p: &Props) -> (r: ProjectContext<'_>)
    ensures
        r.gcp_project@ == text_or_empty(*p, "gcpProject"@),
        r.dataset@ == text_or_empty(*p, "dataset"@),
        maps_values(r.sources@, entries_at(*p, "sources"@), fields_sel(), source_def_rel()),
        strings_view(r.declared_models@) == text_list_at(*p, "declaredModels"@),
        strings_view(r.declared_macros@) == text_list_at(*p, "declaredMacros"@),
        maps_values(r.vars@, entries_at(*p, "vars"@), text_sel(), text_rel()),
{
    proof {
        reveal_strlit("");
        assert(""@ =~= Seq::<char>::empty());
    }
    let gcp_project = match p.get_str("gcpProject") {
        Some(s) => s,
        None => "",
    };
    let dataset = match p.get_str("dataset") {
        Some(s) => s,
        None => "",
    };
    ProjectContext {
        gcp_project,
        dataset,
        sources: parse_sources(p),
        declared_models: owned_texts(p, "declaredModels"),
        declared_macros: owned_texts(p, "declaredMacros"),
        vars: parse_vars(p),
    }
}

// ───────────────────────── project inputs ─────────────────────────

/// The sources among `e`, in key order: name, dataset (empty when missing)
/// and tables.
pub open spec fn source_entries(e: Seq<(Seq<char>, PropValue)>) -> Seq<(Seq<char>, Seq<char>, Seq<Seq<char>>)>
    decreases e.len(),
{
    if e.len() == 0 {
        Seq::empty()
    } else {
        source_entries(e.drop_last()) + match e.last().1 {
            PropValue::Fields(f) => seq![(e.last().0, text_or_empty(f, "dataset"@), text_list_at(f, "tables"@))],
            _ => Seq::empty(),
        }
    }
}

/// The texts among `e`, in key order, with their keys.
pub open spec fn text_entries(e: Seq<(Seq<char>, PropValue)>) -> Seq<(Seq<char>, Seq<char>)>
    decreases e.len(),
{
    if e.len() == 0 {
        Seq::empty()
    } else {
        text_entries(e.drop_last()) + match e.last().1 {
            PropValue::Text(t) => seq![(e.last().0, t@)],
            _ => Seq::empty(),
        }
    }
}

pub open spec fn sources_view<'a>(v: Seq<(&'a str, SourceInputs<'a>)>) -> Seq<(Seq<char>, Seq<char>, Seq<Seq<char>>)> {
    v.map_values(|x: (&'a str, SourceInputs<'a>)| (x.0@, x.1.dataset@, str_views(x.1.tables@)))
}

pub open spec fn pairs_view<'a>(v: Seq<(&'a str, &'a str)>) -> Seq<(Seq<char>, Seq<char>)> {
    v.map_values(|x: (&'a str, &'a str)| (x.0@, x.1@))
}

fn source_inputs(p: &Props) -> (r: Vec<(&str, SourceInputs<'_>)>)
    ensures
        sources_view(r@) == source_entries(entries_at(*p, "sources"@)),
{
    let mut r: Vec<(&str, SourceInputs<'_>)> = Vec::new();
    match p.get_fields("sources") {
        None => {
            assert(sources_view(r@) =~= source_entries(entries_at(*p, "sources"@)));
            r
        },
        Some(src) => {
            let ghost e = src.fields@;
            let n = src.fields.len();
            let mut i: usize = 0;
            assert(e.take(0) =~= Seq::<(Seq<char>, PropValue)>::empty());
            while i < n
                invariant
                    e == src.fields@,
                    n == e.len(),
                    i <= n,
                    sources_view(r@) == source_entries(e.take(i as int)),
                decreases n - i,
            {
                let k = src.fields.key_at(i);
                let v = src.fields.value_at(i);
                assert(e.take(i + 1).drop_last() =~= e.take(i as int));
                let ghost before = r@;
                match v {
                    PropValue::Fields(f) => {
                        let dataset = match f.get_str("dataset") {
                            Some(d) => d,
                            None => "",
                        };
                        proof {
                            reveal_strlit("");
                            assert(""@ =~= Seq::<char>::empty());
                        }
                        let tables = f.get_string_list("tables");
                        r.push((k, SourceInputs { dataset, tables }));
                        assert(sources_view(r@) =~= sources_view(before) + seq![(k@, dataset@, str_views(tables@))]);
                    },
                    _ => {
                        assert(sources_view(r@) =~= sources_view(before) + Seq::<(Seq<char>, Seq<char>, Seq<Seq<char>>)>::empty());
                    },
                }
                i += 1;
            }
            assert(e.take(n as int) =~= e);
            r
        },
    }
}

fn text_pairs<'a>(p: &'a Props, k: &str) -> (r: Vec<(&'a str, &'a str)>)
    ensures
        pairs_view(r@) == text_entries(entries_at(*p, k@)),
{
    let mut r: Vec<(&str, &str)> = Vec::new();
    match p.get_fields(k) {
        None => {
            assert(pairs_view(r@) =~= text_entries(entries_at(*p, k@)));
            r
        },
        Some(src) => {
            let ghost e = src.fields@;
            let n = src.fields.len();
            let mut i: usize = 0;
            assert(e.take(0) =~= Seq::<(Seq<char>, PropValue)>::empty());
            while i < n
                invariant
                    e == src.fields@,
                    n == e.len(),
                    i <= n,
                    pairs_view(r@) == text_entries(e.take(i as int)),
                decreases n - i,
            {
                let key = src.fields.key_at(i);
                let v = src.fields.value_at(i);
                assert(e.take(i + 1).drop_last() =~= e.take(i as int));
                let ghost before = r@;
                match v {
                    PropValue::Text(t) => {
                        r.push((key, t.as_str()));
                        assert(pairs_view(r@) =~= pairs_view(before) + seq![(key@, t@)]);
                    },
                    _ => {
                        assert(pairs_view(r@) =~= pairs_view(before) + Seq::<(Seq<char>, Seq<char>)>::empty());
                    },
                }
                i += 1;
            }
            assert(e.take(n as int) =~= e);
            r
        },
    }
}

/// The first required property of a project that is missing.
pub open spec fn project_inputs_error(p: Props) -> Option<Seq<char>> {
    if text_at(p, "gcpProject"@) is None {
        Some("missing required field 'gcpProject': provide a GCP project ID"@)
    } else if text_at(p, "dataset"@) is None {
        Some("missing required field 'dataset': provide a BigQuery dataset ID"@)
    } else {
        None
    }
}

/// `i` holds what the properties `p` of a project give; sources and vars
/// come in key order.
pub open spec fn is_project_inputs(i: ProjectInputs, p: Props) -> bool {
    &&& text_at(p, "gcpProject"@) == Some(i.gcp_project@)
    &&& text_at(p, "dataset"@) == Some(i.dataset@)
    &&& sources_view(i.sources@) == source_entries(entries_at(p, "sources"@))
    &&& str_views(i.declared_models@) == text_list_at(p, "declaredModels"@)
    &&& str_views(i.declared_macros@) == text_list_at(p, "declaredMacros"@)
    &&& pairs_view(i.vars@) == text_entries(entries_at(p, "vars"@))
}

/// Reads a project's inputs: its project and dataset are required.
pub fn parse_project_inputs(p: &Props) -> (r: Result<ProjectInputs<'_>, &'static str>)
    ensures
        project_inputs_error(*p) matches Some(m) ==> (r matches Err(e) && e@ == m),
        project_inputs_error(*p) is None ==> (r matches Ok(i) && is_project_inputs(i, *p)),
{
    let gcp_project = match p.get_str("gcpProject") {
        Some(s) => s,
        None => {
            return Err("missing required field 'gcpProject': provide a GCP project ID");
        },
    };
    let dataset = match p.get_str("dataset") {
        Some(s) => s,
        None => {
            return Err("missing required field 'dataset': provide a BigQuery dataset ID");
        },
    };
    Ok(
        ProjectInputs {
            gcp_project,
            dataset,
            sources: source_inputs(p),
            declared_models: p.get_string_list("declaredModels"),
            declared_macros: p.get_string_list("declaredMacros"),
            vars: text_pairs(p, "vars"),
        },
    )
}

/// The first required property of a macro that is missing.
pub open spec fn macro_inputs_error(p: Props) -> Option<Seq<char>> {
    if text_at(p, "name"@) is None {
        Some("missing required field 'name': provide a unique macro identifier"@)
    } else if text_at(p, "sql"@) is None {
        Some("missing required field 'sql': provide the macro SQL body"@)
    } else {
        None
    }
}

/// Reads a macro's inputs: its name and SQL are required, its argument
/// names are the texts of `args`.
pub fn parse_macro_inputs(p: &Props) -> (r: Result<MacroInputs<'_>, &'static str>)
    ensures
        macro_inputs_error(*p) matches Some(m) ==> (r matches Err(e) && e@ == m),
        macro_inputs_error(*p) is None ==> (r matches Ok(i) && text_at(*p, "name"@) == Some(i.name@)
            && text_at(*p, "sql"@) == Some(i.sql@) && str_views(i.args@) == text_list_at(*p, "args"@)),
{
    let name = match p.get_str("name") {
        Some(s) => s,
        None => {
            return Err("missing required field 'name': provide a unique macro identifier");
        },
    };
    let sql = match p.get_str("sql") {
        Some(s) => s,
        None => {
            return Err("missing required field 'sql': provide the macro SQL body");
        },
    };
    Ok(MacroInputs { name, args: p.get_string_list("args"), sql })
}

// ───────────────────────── declared table options ─────────────────────────

/// A number as a `u32`, saturating at its bounds.
pub open spec fn clamp_u32_spec(n: i64) -> u32 {
    if n < 0 {
        0
    } else if n > u32::MAX as i64 {
        u32::MAX
    } else {
        n as u32
    }
}

pub open spec fn clamp_u32_opt(o: Option<i64>) -> Option<u32> {
    match o {
        Some(n) => Some(clamp_u32_spec(n)),
        None => None,
    }
}

fn clamp_u32(o: Option<i64>) -> (r: Option<u32>)
    ensures
        r == clamp_u32_opt(o),
{
    match o {
        Some(n) => Some(
            if n < 0 {
                0
            } else if n > u32::MAX as i64 {
                u32::MAX
            } else {
                n as u32
            },
        ),
        None => None,
    }
}

pub open spec fn opt_string_view(o: Option<String>) -> Option<Seq<char>> {
    match o {
        Some(s) => Some(s@),
        None => None,
    }
}

fn owned_opt(o: Option<&str>) -> (r: Option<String>)
    ensures
        opt_string_view(r) == match o {
            Some(s) => Some(s@),
            None => None,
        },
{
    match o {
        Some(s) => Some(owned(s)),
        None => None,
    }
}

/// `o` holds the options the properties `f` declare; labels are the texts
/// of `labels`.
pub open spec fn is_declared_options(o: OwnedTableOptions, f: Props) -> bool {
    &&& o.require_partition_filter == bool_at(f, "requirePartitionFilter"@)
    &&& o.partition_expiration_days == clamp_u32_opt(number_at(f, "partitionExpirationDays"@))
    &&& opt_string_view(o.friendly_name) == text_at(f, "friendlyName"@)
    &&& opt_string_view(o.description) == text_at(f, "description"@)
    &&& maps_values(o.labels@, entries_at(f, "labels"@), text_sel(), text_rel())
    &&& opt_string_view(o.kms_key_name) == text_at(f, "kmsKeyName"@)
    &&& opt_string_view(o.default_collation_name) == text_at(f, "defaultCollationName"@)
    &&& o.enable_refresh == bool_at(f, "enableRefresh"@)
    &&& o.refresh_interval_minutes == clamp_u32_opt(number_at(f, "refreshIntervalMinutes"@))
    &&& opt_string_view(o.max_staleness) == text_at(f, "maxStaleness"@)
}

/// The table options a model's resource declares in its `options`
/// property, or none when it declares no such property.
pub fn parse_resource_options(p: &Props) -> (r: Option<OwnedTableOptions>)
    ensures
        r is Some <==> fields_at(*p, "options"@) is Some,
        r matches Some(o) ==> is_declared_options(o, fields_at(*p, "options"@)->Some_0),
{
    let opts = match p.get_fields("options") {
        Some(f) => f,
        None => {
            return None;
        },
    };
    let labels = match opts.get_fields("labels") {
        Some(l) => text_map(l),
        None => {
            let r: StrMap<String> = StrMap::new();
            proof {
                lemma_maps_empty(r@, entries_at(*opts, "labels"@), text_sel(), text_rel());
                lemma_maps_done(r@, entries_at(*opts, "labels"@), text_sel(), text_rel());
            }
            r
        },
    };
    Some(
        OwnedTableOptions {
            require_partition_filter: opts.get_bool("requirePartitionFilter"),
            partition_expiration_days: clamp_u32(opts.get_number("partitionExpirationDays")),
            friendly_name: owned_opt(opts.get_str("friendlyName")),
            description: owned_opt(opts.get_str("description")),
            labels,
            kms_key_name: owned_opt(opts.get_str("kmsKeyName")),
            default_collation_name: owned_opt(opts.get_str("defaultCollationName")),
            enable_refresh: opts.get_bool("enableRefresh"),
            refresh_interval_minutes: clamp_u32(opts.get_number("refreshIntervalMinutes")),
            max_staleness: owned_opt(opts.get_str("maxStaleness")),
        },
    )
}

// ───────────────────────── outputs ─────────────────────────

fn borrow_strings(v: &Vec<String>) -> (r: Vec<&str>)
    ensures
        str_views(r@) == strings_view(v@),
{
    let mut r: Vec<&str> = Vec::new();
    let mut i: usize = 0;
    while i < v.len()
        invariant
            i <= v@.len(),
            r@.len() == i,
            forall|j: int| 0 <= j < i ==> #[trigger] r@[j]@ == v@[j]@,
        decreases v.len() - i,
    {
        r.push(v[i].as_str());
        i += 1;
    }
    assert(str_views(r@) =~= strings_view(v@));
    r
}

/// The entries of a macro's output.
pub open spec fn macro_output_entries(o: MacroOutput) -> Seq<(Seq<char>, PropView)> {
    seq![
        ("name"@, PropView::Text(o.name@)),
        ("sql"@, PropView::Text(o.sql@)),
        ("args"@, PropView::TextList(strings_view(o.args@))),
    ]
}

/// The output of a macro: its name, SQL and argument names.
pub fn build_macro_output(output: &MacroOutput) -> (r: Props)
    ensures
        output_matches(r, macro_output_entries(*output)),
{
    let mut b = OutputBuilder::new();
    b.str("name", output.name.as_str());
    b.str("sql", output.sql.as_str());
    let args = borrow_strings(&output.args);
    b.str_list("args", args.as_slice());
    assert(b.entries@ =~= macro_output_entries(*output));
    b.build()
}

pub open spec fn opt_text_view(o: Option<String>) -> Option<Seq<char>> {
    match o {
        Some(s) => Some(s@),
        None => None,
    }
}

/// The entries of a model's output; the estimate, its cost and the byte
/// limit only when there are any.
pub open spec fn model_output_entries(o: ModelOutput) -> Seq<(Seq<char>, PropView)> {
    seq![
        ("materialization"@, PropView::Text(o.materialization@)),
        ("resolvedCtesJson"@, PropView::Text(o.resolved_ctes_json@)),
        ("resolvedBody"@, PropView::Text(o.resolved_body@)),
        ("tableRef"@, PropView::Text(o.table_ref@)),
        ("resolvedDdl"@, PropView::Text(o.resolved_ddl@)),
        ("resolvedSql"@, PropView::Text(o.resolved_sql@)),
        ("workflowYaml"@, PropView::Text(o.workflow_yaml@)),
        ("tableId"@, PropView::Text(o.table_id@)),
        ("schedulerSql"@, PropView::Text(o.scheduler_sql@)),
    ] + opt_number_entry("estimatedBytesProcessed"@, o.estimated_bytes_processed) + opt_text_entry(
        "estimatedCost"@,
        opt_text_view(o.estimated_cost),
    ) + opt_number_entry("maxBytesBilled"@, o.max_bytes_billed)
}

/// The output of a model.
pub fn build_model_output_struct(output: &ModelOutput) -> (r: Props)
    ensures
        output_matches(r, model_output_entries(*output)),
{
    let mut b = OutputBuilder::new();
    b.str("materialization", output.materialization.as_str());
    b.str("resolvedCtesJson", output.resolved_ctes_json.as_str());
    b.str("resolvedBody", output.resolved_body.as_str());
    b.str("tableRef", output.table_ref.as_str());
    b.str("resolvedDdl", output.resolved_ddl.as_str());
    b.str("resolvedSql", output.resolved_sql.as_str());
    b.str("workflowYaml", output.workflow_yaml.as_str());
    b.str("tableId", output.table_id.as_str());
    b.str("schedulerSql", output.scheduler_sql.as_str());
    let ghost head = b.entries@;
    b.num_opt("estimatedBytesProcessed", output.estimated_bytes_processed);
    let cost: Option<&str> = match &output.estimated_cost {
        Some(c) => Some(c.as_str()),
        None => None,
    };
    b.str_opt("estimatedCost", cost);
    b.num_opt("maxBytesBilled", output.max_bytes_billed);
    assert(head =~= seq![
        ("materialization"@, PropView::Text(output.materialization@)),
        ("resolvedCtesJson"@, PropView::Text(output.resolved_ctes_json@)),
        ("resolvedBody"@, PropView::Text(output.resolved_body@)),
        ("tableRef"@, PropView::Text(output.table_ref@)),
        ("resolvedDdl"@, PropView::Text(output.resolved_ddl@)),
        ("resolvedSql"@, PropView::Text(output.resolved_sql@)),
        ("workflowYaml"@, PropView::Text(output.workflow_yaml@)),
        ("tableId"@, PropView::Text(output.table_id@)),
        ("schedulerSql"@, PropView::Text(output.scheduler_sql@)),
    ]);
    assert(b.entries@ =~= model_output_entries(*output));
    b.build()
}

/// The vars as text entries, in order.
pub open spec fn var_entries<'a>(vars: Seq<(&'a str, &'a str)>) -> Seq<(Seq<char>, PropView)> {
    vars.map_values(|x: (&'a str, &'a str)| (x.0@, PropView::Text(x.1@)))
}

fn sources_output(sources: &Vec<(&str, SourceInputs<'_>)>) -> (r: Props)
    ensures
        sources_match(r, sources_view(sources@)),
{
    let ghost es = sources_view(sources@);
    let mut g = Props::new();
    let mut i: usize = 0;
    while i < sources.len()
        invariant
            i <= sources@.len(),
            es == sources_view(sources@),
            sources_match(g, es.take(i as int)),
        decreases sources.len() - i,
    {
        let name = sources[i].0;
        let src = &sources[i].1;
        let mut b = OutputBuilder::new();
        b.str("dataset", src.dataset);
        b.str_list("tables", src.tables.as_slice());
        let ghost entries = b.entries@;
        let sg = b.build();
        proof {
            assert(entries =~= seq![("dataset"@, PropView::Text(src.dataset@)), ("tables"@, PropView::TextList(str_views(src.tables@)))]);
            lemma_flat_output(sg, entries);
        }
        let ghost g0 = g;
        g.fields.insert(name, PropValue::Fields(sg));
        proof {
            let t1 = es.take(i + 1);
            assert(t1.drop_last() =~= es.take(i as int));
            assert(t1.last() == (name@, src.dataset@, str_views(src.tables@)));
            assert forall|q: Seq<char>|
                match #[trigger] last_source(t1, q) {
                    Some((ds, ts)) => lookup(g.fields@, q) matches Some(PropValue::Fields(sg2)) && is_source_output(sg2, ds, ts),
                    None => lookup(g.fields@, q) is None,
                } by {
                if q != name@ {
                    assert(last_source(t1, q) == last_source(es.take(i as int), q));
                }
            }
        }
        i += 1;
    }
    assert(es.take(sources@.len() as int) =~= es);
    g
}

fn vars_output(vars: &Vec<(&str, &str)>) -> (r: Props)
    ensures
        flat_output_matches(r, var_entries(vars@)),
{
    let mut b = OutputBuilder::new();
    let mut i: usize = 0;
    assert(var_entries(vars@.take(0)) =~= Seq::<(Seq<char>, PropView)>::empty());
    while i < vars.len()
        invariant
            i <= vars@.len(),
            b.wf(),
            b.entries@ == var_entries(vars@.take(i as int)),
        decreases vars.len() - i,
    {
        b.str(vars[i].0, vars[i].1);
        assert(var_entries(vars@.take(i + 1)) =~= var_entries(vars@.take(i as int)).push((vars@[i as int].0@, PropView::Text(vars@[i as int].1@))));
        i += 1;
    }
    assert(vars@.take(vars@.len() as int) =~= vars@);
    let ghost entries = b.entries@;
    let r = b.build();
    proof {
        lemma_flat_output(r, entries);
    }
    r
}

/// The entries of a project's context output; vars only when there are
/// any.
pub open spec fn context_output_entries(i: ProjectInputs) -> Seq<(Seq<char>, PropView)> {
    seq![
        ("gcpProject"@, PropView::Text(i.gcp_project@)),
        ("dataset"@, PropView::Text(i.dataset@)),
        ("sources"@, PropView::SourceMap(sources_view(i.sources@))),
        ("declaredModels"@, PropView::TextList(str_views(i.declared_models@))),
        ("declaredMacros"@, PropView::TextList(str_views(i.declared_macros@))),
    ] + if i.vars@.len() > 0 {
        seq![("vars"@, PropView::TextMap(var_entries(i.vars@)))]
    } else {
        Seq::empty()
    }
}

/// The context a project hands its models: project, dataset, sources,
/// declared models and macros, and vars when there are any.
pub fn build_project_context_output(inputs: &ProjectInputs<'_>) -> (r: Props)
    ensures
        output_matches(r, context_output_entries(*inputs)),
{
    let mut b = OutputBuilder::new();
    b.str("gcpProject", inputs.gcp_project);
    b.str("dataset", inputs.dataset);
    let sources = sources_output(&inputs.sources);
    b.value("sources", PropValue::Fields(sources), Ghost(PropView::SourceMap(sources_view(inputs.sources@))));
    b.str_list("declaredModels", inputs.declared_models.as_slice());
    b.str_list("declaredMacros", inputs.declared_macros.as_slice());
    let ghost head = b.entries@;
    if inputs.vars.len() > 0 {
        let vars = vars_output(&inputs.vars);
        b.value("vars", PropValue::Fields(vars), Ghost(PropView::TextMap(var_entries(inputs.vars@))));
    }
    assert(b.entries@ =~= context_output_entries(*inputs));
    b.build()
}

// ───────────────────────── laws ─────────────────────────

/// The context's keys, as far as it takes to tell them apart.
proof fn lemma_context_keys()
    ensures
        "gcpProject"@.len() == 10 && "dataset"@.len() == 7 && "sources"@.len() == 7
            && "declaredModels"@.len() == 14 && "declaredMacros"@.len() == 14 && "vars"@.len() == 4
            && "tables"@.len() == 6,
        "dataset"@[0] == 'd' && "sources"@[0] == 's',
        "declaredModels"@[10] == 'd' && "declaredMacros"@[10] == 'c',
{
    reveal_strlit("gcpProject");
    reveal_strlit("dataset");
    reveal_strlit("sources");
    reveal_strlit("declaredModels");
    reveal_strlit("declaredMacros");
    reveal_strlit("vars");
    reveal_strlit("tables");
}

/// A source written as a dataset and tables reads back as them.
proof fn lemma_source_reads_back(sg: Props, ds: Seq<char>, ts: Seq<Seq<char>>, d: SourceDef)
    requires
        is_source_output(sg, ds, ts),
        is_source_def(d, sg),
    ensures
        d.dataset@ == ds,
        strings_view(d.tables@) == ts,
{
    lemma_context_keys();
    let e = seq![("dataset"@, PropView::Text(ds)), ("tables"@, PropView::TextList(ts))];
    let a = seq![("dataset"@, PropView::Text(ds))];
    let b = seq![("tables"@, PropView::TextList(ts))];
    assert(e =~= a + b);
    lemma_last_in_append(a, b);
    lemma_last_in_one("dataset"@, PropView::Text(ds));
    lemma_last_in_one("tables"@, PropView::TextList(ts));
    assert(last_in(e, "dataset"@) == Some(PropView::Text(ds)));
    assert(last_in(e, "tables"@) == Some(PropView::TextList(ts)));
    let l = lookup(sg.fields@, "tables"@)->Some_0->List_0;
    assert(flat_value_matches(lookup(sg.fields@, "tables"@)->Some_0, PropView::TextList(ts)));
    lemma_texts_of_list(l@, ts);
}

proof fn lemma_texts_of_list(l: Seq<PropValue>, ts: Seq<Seq<char>>)
    requires
        l.len() == ts.len(),
        forall|i: int| 0 <= i < ts.len() ==> (#[trigger] l[i] matches PropValue::Text(s) && s@ == ts[i]),
    ensures
        texts_in(l) == ts,
    decreases l.len(),
{
    if l.len() > 0 {
        lemma_texts_of_list(l.drop_last(), ts.drop_last());
        assert(ts =~= ts.drop_last() + seq![ts.last()]);
    } else {
        assert(ts =~= Seq::<Seq<char>>::empty());
    }
}

proof fn lemma_var_entries_are_texts<'a>(vars: Seq<(&'a str, &'a str)>, q: Seq<char>)
    ensures
        last_in(var_entries(vars), q) is None || last_in(var_entries(vars), q) is Some && last_in(var_entries(vars), q)->Some_0 is Text,
    decreases vars.len(),
{
    if vars.len() > 0 {
        assert(var_entries(vars).drop_last() =~= var_entries(vars.drop_last()));
        lemma_var_entries_are_texts(vars.drop_last(), q);
    }
}

/// The context a model reads from the output of its project is the
/// project's: the same project, dataset, declared models and macros; under
/// each source name the dataset and tables written last under it; under
/// each var name the value written last under it; and nothing else.
pub proof fn law_context_reads_back(inputs: ProjectInputs, out: Props, ctx: ProjectContext)
    requires
        output_matches(out, context_output_entries(inputs)),
        ctx.gcp_project@ == text_or_empty(out, "gcpProject"@),
        ctx.dataset@ == text_or_empty(out, "dataset"@),
        maps_values(ctx.sources@, entries_at(out, "sources"@), fields_sel(), source_def_rel()),
        strings_view(ctx.declared_models@) == text_list_at(out, "declaredModels"@),
        strings_view(ctx.declared_macros@) == text_list_at(out, "declaredMacros"@),
        maps_values(ctx.vars@, entries_at(out, "vars"@), text_sel(), text_rel()),
    ensures
        ctx.gcp_project@ == inputs.gcp_project@,
        ctx.dataset@ == inputs.dataset@,
        strings_view(ctx.declared_models@) == str_views(inputs.declared_models@),
        strings_view(ctx.declared_macros@) == str_views(inputs.declared_macros@),
        forall|q: Seq<char>|
            match #[trigger] last_source(sources_view(inputs.sources@), q) {
                Some((ds, ts)) => lookup(ctx.sources@, q) matches Some(d) && d.dataset@ == ds
                    && strings_view(d.tables@) == ts,
                None => lookup(ctx.sources@, q) is None,
            },
        forall|q: Seq<char>|
            match #[trigger] last_in(var_entries(inputs.vars@), q) {
                Some(PropView::Text(t)) => lookup(ctx.vars@, q) matches Some(v) && v@ == t,
                _ => lookup(ctx.vars@, q) is None,
            },
{
    lemma_context_keys();
    reveal_strlit("vars");
    let es = sources_view(inputs.sources@);
    let ve = var_entries(inputs.vars@);
    let p1 = seq![("gcpProject"@, PropView::Text(inputs.gcp_project@))];
    let p2 = seq![("dataset"@, PropView::Text(inputs.dataset@))];
    let p3 = seq![("sources"@, PropView::SourceMap(es))];
    let p4 = seq![("declaredModels"@, PropView::TextList(str_views(inputs.declared_models@)))];
    let p5 = seq![("declaredMacros"@, PropView::TextList(str_views(inputs.declared_macros@)))];
    let p6 = if inputs.vars@.len() > 0 {
        seq![("vars"@, PropView::TextMap(ve))]
    } else {
        Seq::empty()
    };
    let e1 = Seq::<(Seq<char>, PropView)>::empty() + p1;
    let e2 = e1 + p2;
    let e3 = e2 + p3;
    let e4 = e3 + p4;
    let e5 = e4 + p5;
    let e6 = e5 + p6;
    assert(e5 =~= seq![
        ("gcpProject"@, PropView::Text(inputs.gcp_project@)),
        ("dataset"@, PropView::Text(inputs.dataset@)),
        ("sources"@, PropView::SourceMap(es)),
        ("declaredModels"@, PropView::TextList(str_views(inputs.declared_models@))),
        ("declaredMacros"@, PropView::TextList(str_views(inputs.declared_macros@))),
    ]);
    assert(e6 == context_output_entries(inputs));
    lemma_last_in_append(Seq::<(Seq<char>, PropView)>::empty(), p1);
    lemma_last_in_append(e1, p2);
    lemma_last_in_append(e2, p3);
    lemma_last_in_append(e3, p4);
    lemma_last_in_append(e4, p5);
    lemma_last_in_append(e5, p6);
    lemma_last_in_one("gcpProject"@, PropView::Text(inputs.gcp_project@));
    lemma_last_in_one("dataset"@, PropView::Text(inputs.dataset@));
    lemma_last_in_one("sources"@, PropView::SourceMap(es));
    lemma_last_in_one("declaredModels"@, PropView::TextList(str_views(inputs.declared_models@)));
    lemma_last_in_one("declaredMacros"@, PropView::TextList(str_views(inputs.declared_macros@)));
    lemma_last_in_one("vars"@, PropView::TextMap(ve));
    lemma_read_text(out, e6, "gcpProject"@, inputs.gcp_project@);
    lemma_read_text(out, e6, "dataset"@, inputs.dataset@);
    lemma_read_text_list(out, e6, "declaredModels"@, str_views(inputs.declared_models@));
    lemma_read_text_list(out, e6, "declaredMacros"@, str_views(inputs.declared_macros@));
    // sources
    assert(last_in(e6, "sources"@) == Some(PropView::SourceMap(es)));
    let g = lookup(out.fields@, "sources"@)->Some_0->Fields_0;
    assert(sources_match(g, es));
    assert(entries_at(out, "sources"@) == g.fields@);
    assert forall|q: Seq<char>|
        match #[trigger] last_source(es, q) {
            Some((ds, ts)) => lookup(ctx.sources@, q) matches Some(d) && d.dataset@ == ds
                && strings_view(d.tables@) == ts,
            None => lookup(ctx.sources@, q) is None,
        } by {
        assert(match lookup(g.fields@, q) {
            Some(v) => if fields_sel()(v) {
                lookup(ctx.sources@, q) matches Some(d) && source_def_rel()(d, v)
            } else {
                lookup(ctx.sources@, q) is None
            },
            None => lookup(ctx.sources@, q) is None,
        });
        match last_source(es, q) {
            Some((ds, ts)) => {
                let sg = lookup(g.fields@, q)->Some_0->Fields_0;
                let d = lookup(ctx.sources@, q)->Some_0;
                lemma_source_reads_back(sg, ds, ts, d);
            },
            None => {},
        }
    }
    // vars
    if inputs.vars@.len() > 0 {
        assert(last_in(e6, "vars"@) == Some(PropView::TextMap(ve)));
        let vg = lookup(out.fields@, "vars"@)->Some_0->Fields_0;
        assert(entries_at(out, "vars"@) == vg.fields@);
        assert forall|q: Seq<char>|
            match #[trigger] last_in(ve, q) {
                Some(PropView::Text(t)) => lookup(ctx.vars@, q) matches Some(v) && v@ == t,
                _ => lookup(ctx.vars@, q) is None,
            } by {
            lemma_var_entries_are_texts(inputs.vars@, q);
            assert(match lookup(vg.fields@, q) {
                Some(v) => if text_sel()(v) {
                    lookup(ctx.vars@, q) matches Some(d) && text_rel()(d, v)
                } else {
                    lookup(ctx.vars@, q) is None
                },
                None => lookup(ctx.vars@, q) is None,
            });
        }
    } else {
        assert(ve =~= Seq::<(Seq<char>, PropView)>::empty());
        assert(last_in(e6, "vars"@) is None);
        assert forall|q: Seq<char>|
            match #[trigger] last_in(ve, q) {
                Some(PropView::Text(t)) => lookup(ctx.vars@, q) matches Some(v) && v@ == t,
                _ => lookup(ctx.vars@, q) is None,
            } by {
            assert(match lookup(Seq::<(Seq<char>, PropValue)>::empty(), q) {
                Some(v) => if text_sel()(v) {
                    lookup(ctx.vars@, q) matches Some(d) && text_rel()(d, v)
                } else {
                    lookup(ctx.vars@, q) is None
                },
                None => lookup(ctx.vars@, q) is None,
            });
        }
    }
}

} // verus!
