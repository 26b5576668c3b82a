//! The data of dbt projects, macros and models, and the small renderings that
//! belong to it: a resolved query with its CTEs, a partition clause, and a
//! model's table options.
use vstd::prelude::*;

use crate::macros::MacroDef;
use crate::options::{opt_str, opt_text, OwnedTableOptions, TableOptions};
use crate::preprocess::join;
use crate::strmap::{lookup, sorted_keys, StrMap};
use crate::text::{str_to_lowercase, str_to_uppercase, unicode_lower, unicode_upper};

verus! {

/// The inputs of a project resource, as read from its properties.
pub struct ProjectInputs<'a> {
    pub gcp_project: &'a str,
    pub dataset: &'a str,
    pub sources: Vec<(&'a str, SourceInputs<'a>)>,
    pub declared_models: Vec<&'a str>,
    pub declared_macros: Vec<&'a str>,
    pub vars: Vec<(&'a str, &'a str)>,
}

/// One declared source: a dataset and its tables.
pub struct SourceInputs<'a> {
    pub dataset: &'a str,
    pub tables: Vec<&'a str>,
}

/// A project as models see it.
pub struct ProjectContext<'a> {
    pub gcp_project: &'a str,
    pub dataset: &'a str,
    pub sources: StrMap<SourceDef>,
    pub declared_models: Vec<String>,
    pub declared_macros: Vec<String>,
    pub vars: StrMap<String>,
}

/// An owned source definition.
pub struct SourceDef {
    pub dataset: String,
    pub tables: Vec<String>,
}

/// The inputs of a macro resource.
pub struct MacroInputs<'a> {
    pub name: &'a str,
    pub args: Vec<&'a str>,
    pub sql: &'a str,
}

/// The inputs of a model resource.
pub struct ModelInputs<'a> {
    pub context: ProjectContext<'a>,
    pub name: &'a str,
    pub sql: &'a str,
    pub model_refs: StrMap<ModelRefData>,
    pub macros: StrMap<MacroDef>,
    pub max_bytes_billed: Option<i64>,
}

/// What a model passes on to the models that reference it.
pub struct ModelRefData {
    pub materialization: String,
    pub resolved_ctes_json: String,
    pub resolved_body: String,
    pub table_ref: String,
    pub resolved_ddl: String,
    pub resolved_sql: String,
    pub workflow_yaml: String,
}

/// A query after template expansion: named CTEs and a body.
#[derive(Debug)]
pub struct ResolvedSql {
    pub ctes: Vec<(String, String)>,
    pub body: String,
}

/// The CTEs as text pairs.
pub open spec fn ctes_view(ctes: Seq<(String, String)>) -> Seq<(Seq<char>, Seq<char>)> {
    ctes.map_values(|p: (String, String)| (p.0@, p.1@))
}

/// `name AS (sql)`.
pub open spec fn cte_text(c: (Seq<char>, Seq<char>)) -> Seq<char> {
    c.0 + " AS ("@ + c.1 + ")"@
}

/// The full query: the body alone when there is no CTE, else
/// `WITH a AS (..), b AS (..) body`.
pub open spec fn query_text(ctes: Seq<(Seq<char>, Seq<char>)>, body: Seq<char>) -> Seq<char> {
    if ctes.len() == 0 {
        body
    } else {
        "WITH "@ + join(ctes.map_values(|c: (Seq<char>, Seq<char>)| cte_text(c)), ", "@) + " "@
            + body
    }
}

impl ResolvedSql {
    /// The query as one SQL text.
    pub fn to_sql(&self) -> (r: String)
        ensures
            r@ == query_text(ctes_view(self.ctes@), self.body@),
    {
        if self.ctes.len() == 0 {
            return self.body.clone();
        }
        let ghost v = ctes_view(self.ctes@).map_values(|c: (Seq<char>, Seq<char>)| cte_text(c));
        let mut list = String::new();
        let mut i: usize = 0;
        while i < self.ctes.len()
            invariant
                i <= self.ctes@.len(),
                v == ctes_view(self.ctes@).map_values(|c: (Seq<char>, Seq<char>)| cte_text(c)),
                v.len() == self.ctes@.len(),
                list@ == join(v.take(i as int), ", "@),
            decreases self.ctes.len() - i,
        {
            if i > 0 {
                list.append(", ");
            }
            list.append(self.ctes[i].0.as_str());
            list.append(" AS (");
            list.append(self.ctes[i].1.as_str());
            list.append(")");
            proof {
                assert(v[i as int] == cte_text((self.ctes@[i as int].0@, self.ctes@[i as int].1@)));
                assert(v.take(i + 1).drop_last() =~= v.take(i as int));
                if i == 0 {
                    assert(v.take(0) =~= Seq::<Seq<char>>::empty());
                }
            }
            i += 1;
        }
        assert(v.take(self.ctes@.len() as int) =~= v);
        let mut sql = String::new();
        sql.append("WITH ");
        sql.append(list.as_str());
        sql.append(" ");
        sql.append(self.body.as_str());
        sql
    }
}

/// How a table is partitioned.
pub struct PartitionConfig {
    pub field: String,
    pub data_type: String,
    pub granularity: Option<String>,
}

/// The partition expression for a column of the given (lower-case) type:
/// `TIMESTAMP_TRUNC(field, GRAN)` for timestamps, `DATETIME_TRUNC(field, GRAN)`
/// for datetimes, and the bare column for anything else.
pub open spec fn partition_expr(field: Seq<char>, lower_type: Seq<char>, upper_gran: Seq<char>) -> Seq<
    char,
> {
    if lower_type == "timestamp"@ {
        "TIMESTAMP_TRUNC("@ + field + ", "@ + upper_gran + ")"@
    } else if lower_type == "datetime"@ {
        "DATETIME_TRUNC("@ + field + ", "@ + upper_gran + ")"@
    } else {
        field
    }
}

/// The granularity, `DAY` when none is given.
pub open spec fn granularity_or_day(g: Option<String>) -> Seq<char> {
    match g {
        Some(s) => s@,
        None => "DAY"@,
    }
}

/// Builds the partition expression from an already lower-cased type and an
/// already upper-cased granularity.
pub fn partition_clause(field: &str, lower_type: &str, upper_gran: &str) -> (r: String)
    ensures
        r@ == partition_expr(field@, lower_type@, upper_gran@),
{
    let is_ts = crate::text::str_eq(lower_type, "timestamp");
    let is_dt = crate::text::str_eq(lower_type, "datetime");
    if is_ts || is_dt {
        let mut r = String::new();
        if is_ts {
            r.append("TIMESTAMP_TRUNC(");
        } else {
            r.append("DATETIME_TRUNC(");
        }
        r.append(field);
        r.append(", ");
        r.append(upper_gran);
        r.append(")");
        proof {
            reveal_strlit("timestamp");
            reveal_strlit("datetime");
            if !is_ts {
                assert(lower_type@ != "timestamp"@);
            }
        }
        r
    } else {
        let mut r = String::new();
        r.append(field);
        proof {
            reveal_strlit("timestamp");
            reveal_strlit("datetime");
        }
        r
    }
}

impl PartitionConfig {
    /// The `PARTITION BY` expression for this column.
    pub fn to_ddl(&self) -> (r: String)
        ensures
            r@ == partition_expr(
                self.field@,
                unicode_lower(self.data_type@),
                unicode_upper(granularity_or_day(self.granularity)),
            ),
    {
        let lower = str_to_lowercase(self.data_type.as_str());
        let gran: &str = match &self.granularity {
            Some(g) => g.as_str(),
            None => "DAY",
        };
        let upper = str_to_uppercase(gran);
        partition_clause(self.field.as_str(), lower.as_str(), upper.as_str())
    }
}

/// A model's configuration, read from its `config(...)` block.
pub struct ModelConfig {
    pub materialization: String,
    pub unique_key: Option<String>,
    pub unique_key_list: Option<Vec<String>>,
    pub incremental_strategy: Option<String>,
    pub partition_by: Option<PartitionConfig>,
    pub cluster_by: Option<Vec<String>>,
    pub require_partition_filter: Option<bool>,
    pub partition_expiration_days: Option<u32>,
    pub friendly_name: Option<String>,
    pub description: Option<String>,
    pub labels: Vec<(String, String)>,
    pub kms_key_name: Option<String>,
    pub default_collation_name: Option<String>,
    pub enable_refresh: Option<bool>,
    pub refresh_interval_minutes: Option<u32>,
    pub max_staleness: Option<String>,
}

/// The value of the last pair whose key is `q`: later pairs win.
pub open spec fn last_value(pairs: Seq<(String, String)>, q: Seq<char>) -> Option<Seq<char>>
    decreases pairs.len(),
{
    if pairs.len() == 0 {
        None
    } else if pairs.last().0@ == q {
        Some(pairs.last().1@)
    } else {
        last_value(pairs.drop_last(), q)
    }
}

/// The text of a borrowed value found in a map.
pub open spec fn found_text<'a>(o: Option<&'a str>) -> Option<Seq<char>> {
    opt_str(o)
}

fn clone_opt(o: &Option<String>) -> (r: Option<String>)
    ensures
        opt_text(r) == opt_text(*o),
{
    match o {
        Some(s) => Some(s.clone()),
        None => None,
    }
}

fn borrow_opt<'b>(o: &'b Option<String>) -> (r: Option<&'b str>)
    ensures
        opt_str(r) == opt_text(*o),
{
    match o {
        Some(s) => Some(s.as_str()),
        None => None,
    }
}

/// `o` holds the table options of `c`: each option as `c` sets it, and each
/// label with the last value `c` gives it, the labels in ascending key
/// order, each key once.
pub open spec fn options_of<'a>(o: TableOptions<'a>, c: ModelConfig) -> bool {
    &&& o.require_partition_filter == c.require_partition_filter
    &&& o.partition_expiration_days == c.partition_expiration_days
    &&& opt_str(o.friendly_name) == opt_text(c.friendly_name)
    &&& opt_str(o.description) == opt_text(c.description)
    &&& sorted_keys(o.labels@)
    &&& forall|q: Seq<char>| #[trigger] found_text(lookup(o.labels@, q)) == last_value(c.labels@, q)
    &&& opt_str(o.kms_key_name) == opt_text(c.kms_key_name)
    &&& opt_str(o.default_collation_name) == opt_text(c.default_collation_name)
    &&& o.enable_refresh == c.enable_refresh
    &&& o.refresh_interval_minutes == c.refresh_interval_minutes
    &&& opt_str(o.max_staleness) == opt_text(c.max_staleness)
}

/// `n` is `o` with every table option, labels included, taken from `y`.
pub open spec fn is_overridden(n: ModelConfig, o: ModelConfig, y: OwnedTableOptions) -> bool {
    &&& n.materialization == o.materialization
    &&& n.unique_key == o.unique_key
    &&& n.unique_key_list == o.unique_key_list
    &&& n.incremental_strategy == o.incremental_strategy
    &&& n.partition_by == o.partition_by
    &&& n.cluster_by == o.cluster_by
    &&& n.require_partition_filter == y.require_partition_filter
    &&& n.partition_expiration_days == y.partition_expiration_days
    &&& opt_text(n.friendly_name) == opt_text(y.friendly_name)
    &&& opt_text(n.description) == opt_text(y.description)
    &&& n.labels@.len() == y.labels@.len()
    &&& forall|i: int|
        0 <= i < y.labels@.len() ==> (#[trigger] n.labels@[i]).0@ == y.labels@[i].0 && n.labels@[i].1@
            == y.labels@[i].1@
    &&& opt_text(n.kms_key_name) == opt_text(y.kms_key_name)
    &&& opt_text(n.default_collation_name) == opt_text(y.default_collation_name)
    &&& n.enable_refresh == y.enable_refresh
    &&& n.refresh_interval_minutes == y.refresh_interval_minutes
    &&& opt_text(n.max_staleness) == opt_text(y.max_staleness)
}

impl ModelConfig {
    /// The table options this configuration sets, borrowing its strings. A
    /// label given twice keeps its last value.
    pub fn to_table_options(&self) -> (r: TableOptions<'_>)
        ensures
            options_of(r, *self),
    {
        let mut labels: StrMap<&str> = StrMap::new();
        let mut i: usize = 0;
        while i < self.labels.len()
            invariant
                i <= self.labels@.len(),
                sorted_keys(labels@),
                forall|q: Seq<char>| #[trigger]
                    found_text(lookup(labels@, q)) == last_value(self.labels@.take(i as int), q),
            decreases self.labels.len() - i,
        {
            let k = self.labels[i].0.as_str();
            let v = self.labels[i].1.as_str();
            labels.insert(k, v);
            proof {
                let t = self.labels@.take(i + 1);
                assert(t.drop_last() =~= self.labels@.take(i as int));
                assert(t.last() == self.labels@[i as int]);
                assert forall|q: Seq<char>| #[trigger]
                    found_text(lookup(labels@, q)) == last_value(t, q) by {}
            }
            i += 1;
        }
        assert(self.labels@.take(self.labels@.len() as int) =~= self.labels@);
        TableOptions {
            require_partition_filter: self.require_partition_filter,
            partition_expiration_days: self.partition_expiration_days,
            friendly_name: borrow_opt(&self.friendly_name),
            description: borrow_opt(&self.description),
            labels,
            kms_key_name: borrow_opt(&self.kms_key_name),
            default_collation_name: borrow_opt(&self.default_collation_name),
            enable_refresh: self.enable_refresh,
            refresh_interval_minutes: self.refresh_interval_minutes,
            max_staleness: borrow_opt(&self.max_staleness),
        }
    }

    /// Replaces every option with the one declared in `yaml`, which is
    /// authoritative; the labels become its labels in key order.
    pub fn override_options(&mut self, yaml: &OwnedTableOptions)
        ensures
            is_overridden(*final(self), *old(self), *yaml),
    {
        self.require_partition_filter = yaml.require_partition_filter;
        self.partition_expiration_days = yaml.partition_expiration_days;
        self.friendly_name = clone_opt(&yaml.friendly_name);
        self.description = clone_opt(&yaml.description);
        self.labels = yaml.labels.to_pairs();
        self.kms_key_name = clone_opt(&yaml.kms_key_name);
        self.default_collation_name = clone_opt(&yaml.default_collation_name);
        self.enable_refresh = yaml.enable_refresh;
        self.refresh_interval_minutes = yaml.refresh_interval_minutes;
        self.max_staleness = clone_opt(&yaml.max_staleness);
    }
}

/// The outputs of a model resource.
pub struct ModelOutput {
    pub materialization: String,
    pub resolved_ctes_json: String,
    pub resolved_body: String,
    pub table_ref: String,
    pub resolved_ddl: String,
    pub resolved_sql: String,
    pub workflow_yaml: String,
    pub table_id: String,
    pub scheduler_sql: String,
    pub estimated_bytes_processed: Option<i64>,
    pub estimated_cost: Option<String>,
    pub max_bytes_billed: Option<i64>,
}

/// The outputs of a macro resource.
pub struct MacroOutput {
    pub name: String,
    pub args: Vec<String>,
    pub sql: String,
}

impl MacroOutput {
    /// What a macro resource reports: its name, arguments and SQL as given.
    pub fn from_inputs(inputs: &MacroInputs<'_>) -> (r: MacroOutput)
        ensures
            r.name@ == inputs.name@,
            r.args@.map_values(|a: String| a@) == inputs.args@.map_values(|a: &str| a@),
            r.sql@ == inputs.sql@,
    {
        let mut args: Vec<String> = Vec::new();
        let mut i: usize = 0;
        while i < inputs.args.len()
            invariant
                i <= inputs.args@.len(),
                args@.len() == i,
                forall|j: int| 0 <= j < i ==> #[trigger] args@[j]@ == inputs.args@[j]@,
            decreases inputs.args.len() - i,
        {
            let mut a = String::new();
            a.append(inputs.args[i]);
            args.push(a);
            i += 1;
        }
        assert(args@.map_values(|a: String| a@) =~= inputs.args@.map_values(|a: &str| a@));
        let mut name = String::new();
        name.append(inputs.name);
        let mut sql = String::new();
        sql.append(inputs.sql);
        MacroOutput { name, args, sql }
    }
}

} // verus!
