use gcpx::config::extract_model_config;
use gcpx::model::{ModelConfig, ModelRefData, ProjectContext, ResolvedSql};
use gcpx::modelflow::{
    begin_model, check_model, context_fields_equal, delete_drops_table, dry_run_failure, macro_id,
    model_changes, model_ddl, model_id, model_refs_equal, model_stable_inputs, model_step,
    new_or_changed, plan_model, project_id, read_checks_table, same_texts, unique_keys_of, DdlMode,
    ModelCall, ModelError, ModelPlan, ModelReply, ModelResult, ModelStage, ModelStep, SchedulerSql,
};
use gcpx::modelflow::ddl_mode;
use gcpx::options::OwnedTableOptions;
use gcpx::resolver::QuotedName;
use gcpx::strmap::StrMap;
use gcpx::validate::BqField;
use gcpx::workflow::generate_workflow_yaml;

fn cfg(sql: &str) -> ModelConfig {
    extract_model_config(sql, &StrMap::new())
}

fn query(body: &str) -> ResolvedSql {
    ResolvedSql { ctes: vec![], body: body.to_owned() }
}

fn quoted(name: &str) -> QuotedName {
    QuotedName { name: name.to_owned(), quoted: format!("`{}`", name) }
}

fn field(name: &str, ty: &str) -> BqField {
    BqField {
        name: name.to_owned(),
        field_type: ty.to_owned(),
        mode: "NULLABLE".to_owned(),
        description: String::new(),
        normalized_type: ty.to_owned(),
    }
}

fn ctx() -> ProjectContext<'static> {
    ProjectContext {
        gcp_project: "p",
        dataset: "d",
        sources: StrMap::new(),
        declared_models: vec!["m".to_owned()],
        declared_macros: vec![],
        vars: StrMap::new(),
    }
}

fn call_of(step: &ModelStep) -> &ModelCall {
    match step {
        ModelStep::Call(c) => c,
        _ => panic!("expected a call"),
    }
}

fn finish_of(step: ModelStep) -> ModelResult {
    match step {
        ModelStep::Finish(r) => r,
        _ => panic!("expected a finish"),
    }
}

fn error_of(step: ModelStep) -> ModelError {
    match step {
        ModelStep::Fail(e) => e,
        _ => panic!("expected a failure"),
    }
}

fn dry_run(valid: bool, total_bytes: i64, schema: Vec<BqField>) -> ModelReply {
    ModelReply::DryRun { valid, error_message: None, total_bytes, schema }
}

#[test]
fn unique_keys_prefer_the_list() {
    assert_eq!(unique_keys_of(&cfg("{{ config(materialized='incremental', unique_key=['a', 'b']) }} SELECT 1")), vec!["a", "b"]);
    assert_eq!(unique_keys_of(&cfg("{{ config(materialized='incremental', unique_key='id') }} SELECT 1")), vec!["id"]);
    assert!(unique_keys_of(&cfg("{{ config(materialized='incremental') }} SELECT 1")).is_empty());
}

#[test]
fn ddl_mode_follows_the_table_id() {
    assert!(ddl_mode(true, "table") == DdlMode::MergeReplace);
    assert!(ddl_mode(true, "incremental") == DdlMode::Skip);
    assert!(ddl_mode(true, "view") == DdlMode::Create);
    assert!(ddl_mode(false, "table") == DdlMode::Create);
}

#[test]
fn model_ddl_by_mode() {
    let c = cfg("{{ config(materialized='table') }} SELECT 1 AS id");
    assert_eq!(
        model_ddl("`p.d.m`", true, &c, &query("SELECT 1 AS id")),
        "MERGE `p.d.m` T USING (SELECT 1 AS id) S ON FALSE WHEN NOT MATCHED BY TARGET THEN INSERT ROW WHEN NOT MATCHED BY SOURCE THEN DELETE"
    );
    assert_eq!(model_ddl("`p.d.m`", false, &c, &query("SELECT 1 AS id")), "CREATE OR REPLACE TABLE `p.d.m` AS SELECT 1 AS id");
    let inc = cfg("{{ config(materialized='incremental', unique_key='id') }} SELECT 1");
    assert_eq!(model_ddl("`p.d.m`", true, &inc, &query("SELECT 1")), "");
    let opts = cfg("{{ config(materialized='view', description='V') }} SELECT 1");
    assert_eq!(
        model_ddl("`p.d.v`", false, &opts, &query("SELECT 1")),
        "CREATE OR REPLACE VIEW `p.d.v`\nOPTIONS(description = \"V\") AS SELECT 1"
    );
}

fn incremental_plan(preview: bool, strategy: &str) -> (ModelConfig, ModelPlan) {
    let sql = format!(
        "{{{{ config(materialized='incremental', unique_key='id'{}) }}}} SELECT id, name FROM t",
        strategy
    );
    let c = cfg(&sql);
    let p = plan_model(
        preview,
        true,
        false,
        "p",
        "`p.d.m`",
        &c,
        &query("SELECT id, name FROM t"),
        Some(query("SELECT id, name FROM t WHERE ts > 0")),
        vec![quoted("id")],
    );
    (c, p)
}

#[test]
fn preview_of_incremental_model_uses_the_insert_only_merge() {
    let (c, p) = incremental_plan(true, "");
    match &p.scheduler {
        SchedulerSql::Ready(s) => assert_eq!(
            s,
            "MERGE `p.d.m` T USING (SELECT id, name FROM t WHERE ts > 0) S ON T.`id` = S.`id` WHEN NOT MATCHED THEN INSERT ROW"
        ),
        _ => panic!("a preview knows its statement"),
    }
    let (stage, step) = begin_model(&p);
    match call_of(&step) {
        ModelCall::DryRun(s) => assert_eq!(s, "SELECT id, name FROM t"),
        _ => panic!("a preview only estimates"),
    }
    let (_, step) = model_step(&p, &c, stage, dry_run(true, 2048, vec![]));
    let r = finish_of(step);
    assert_eq!(r.estimated_bytes, Some(2048));
    assert!(r.scheduler_sql.contains("ON T.`id` = S.`id`"));
    assert_eq!(r.workflow_yaml, generate_workflow_yaml("p", &r.scheduler_sql));
}

#[test]
fn other_strategies_are_known_up_front() {
    let (_, p) = incremental_plan(false, ", incremental_strategy='append'");
    match &p.scheduler {
        SchedulerSql::Ready(s) => assert_eq!(s, "INSERT INTO `p.d.m` SELECT id, name FROM t WHERE ts > 0"),
        _ => panic!("append needs no columns"),
    }
    let (_, p) = incremental_plan(false, ", incremental_strategy='delete+insert'");
    match &p.scheduler {
        SchedulerSql::Ready(s) => assert!(s.starts_with("BEGIN\n  CREATE TEMP TABLE __src AS (")),
        _ => panic!("delete+insert needs no columns"),
    }
}

#[test]
fn real_deploy_of_incremental_model_runs_every_step() {
    let (c, p) = incremental_plan(false, "");
    assert!(matches!(p.scheduler, SchedulerSql::NeedsColumns { .. }));
    let (stage, step) = begin_model(&p);
    assert!(matches!(call_of(&step), ModelCall::FetchColumns));
    let (stage, step) = model_step(&p, &c, stage, ModelReply::Columns(vec![quoted("id"), quoted("name")]));
    assert!(matches!(call_of(&step), ModelCall::ExecuteDdl));
    let (stage, step) = model_step(&p, &c, stage, ModelReply::Done);
    match call_of(&step) {
        ModelCall::DryRun(s) => assert_eq!(
            s,
            "MERGE `p.d.m` T USING (SELECT id, name FROM t WHERE ts > 0) S ON T.`id` = S.`id` WHEN MATCHED THEN UPDATE SET T.`name` = S.`name` WHEN NOT MATCHED THEN INSERT ROW"
        ),
        _ => panic!("the MERGE is checked"),
    }
    let (stage, step) = model_step(&p, &c, stage, dry_run(true, 0, vec![]));
    assert!(matches!(call_of(&step), ModelCall::DryRun(_)));
    let (stage, step) = model_step(&p, &c, stage, dry_run(true, 0, vec![field("id", "INT64"), field("name", "STRING")]));
    assert!(matches!(call_of(&step), ModelCall::DryRun(_)));
    let (_, step) = model_step(&p, &c, stage, dry_run(true, 0, vec![]));
    let r = finish_of(step);
    assert_eq!(r.estimated_bytes, None);
    assert!(r.scheduler_sql.contains("UPDATE SET T.`name` = S.`name`"));
}

#[test]
fn missing_table_gives_the_insert_only_merge() {
    let (c, p) = incremental_plan(false, "");
    let (stage, _) = begin_model(&p);
    let (_, step) = model_step(&p, &c, stage, ModelReply::Failed("not found".to_owned()));
    assert!(matches!(call_of(&step), ModelCall::ExecuteDdl));
}

#[test]
fn invalid_merge_fails_the_create() {
    let (c, p) = incremental_plan(false, ", incremental_strategy='append'");
    let (stage, step) = begin_model(&p);
    assert!(matches!(call_of(&step), ModelCall::ExecuteDdl));
    let (stage, _) = model_step(&p, &c, stage, ModelReply::Done);
    let (_, step) = model_step(
        &p,
        &c,
        stage,
        ModelReply::DryRun { valid: false, error_message: Some("bad".to_owned()), total_bytes: 0, schema: vec![] },
    );
    let e = error_of(step);
    assert!(e.is_invalid_argument());
    assert_eq!(e.message(), "Generated MERGE SQL is invalid \u{2014} scheduler job would fail at runtime: bad");
}

#[test]
fn failed_ddl_is_reported_as_is() {
    let c = cfg("{{ config(materialized='table') }} SELECT 1");
    let p = plan_model(false, true, false, "p", "`p.d.m`", &c, &query("SELECT 1"), None, vec![]);
    let (stage, step) = begin_model(&p);
    assert!(matches!(call_of(&step), ModelCall::ExecuteDdl));
    let (_, step) = model_step(&p, &c, stage, ModelReply::Failed("denied".to_owned()));
    let e = error_of(step);
    assert!(!e.is_invalid_argument());
    assert_eq!(e.message(), "denied");
}

#[test]
fn schema_contract_failure_lists_each_error() {
    let c = cfg("{{ config(materialized='table') }} SELECT 1 AS id, 2 AS extra");
    let p = plan_model(false, true, true, "p", "`p.d.m`", &c, &query("SELECT 1 AS id, 2 AS extra"), None, vec![]);
    let (stage, _) = begin_model(&p);
    let (stage, step) = model_step(&p, &c, stage, ModelReply::Done);
    assert!(matches!(call_of(&step), ModelCall::DryRun(_)));
    let (stage, step) = model_step(&p, &c, stage, dry_run(true, 10, vec![field("id", "INT64"), field("extra", "INT64")]));
    assert!(matches!(call_of(&step), ModelCall::FetchDeclaredSchema));
    let (_, step) = model_step(&p, &c, stage, ModelReply::Schema(vec![field("id", "INT64")]));
    let e = error_of(step);
    assert!(e.is_invalid_argument());
    let m = e.message();
    assert!(m.starts_with("Schema contract validation failed:\n  - "));
    assert!(m.contains("extra"));
}

#[test]
fn update_skips_the_checks() {
    let c = cfg("{{ config(materialized='table') }} SELECT 1");
    let p = plan_model(false, false, false, "p", "`p.d.m`", &c, &query("SELECT 1"), None, vec![]);
    let (stage, _) = begin_model(&p);
    let (stage, step) = model_step(&p, &c, stage, ModelReply::Done);
    match call_of(&step) {
        ModelCall::DryRun(s) => assert_eq!(s, "SELECT 1"),
        _ => panic!("the estimate comes next"),
    }
    let (_, step) = model_step(&p, &c, stage, ModelReply::Failed("no".to_owned()));
    let r = finish_of(step);
    assert_eq!(r.estimated_bytes, None);
    assert_eq!(r.scheduler_sql, "CREATE OR REPLACE TABLE `p.d.m` AS SELECT 1");
}

#[test]
fn ephemeral_model_finishes_at_once() {
    let c = cfg("{{ config(materialized='ephemeral') }} SELECT 1");
    let p = plan_model(false, true, false, "p", "`p.d.m`", &c, &query("SELECT 1"), None, vec![]);
    assert_eq!(p.ddl, "");
    let (stage, step) = begin_model(&p);
    assert!(matches!(stage, ModelStage::Over));
    let r = finish_of(step);
    assert_eq!(r.scheduler_sql, "");
    assert_eq!(r.workflow_yaml, "");
}

#[test]
fn ids() {
    assert_eq!(model_id("p", "d", "m"), "dbt-model/p/d/m");
    assert_eq!(project_id("p", "d"), "dbt-project/p/d");
    assert_eq!(macro_id("x"), "dbt-macro/x");
}

#[test]
fn reads_and_deletes() {
    assert!(read_checks_table(None, "m", Some(("p", "d"))));
    assert!(!read_checks_table(Some("ephemeral"), "m", Some(("p", "d"))));
    assert!(!read_checks_table(Some("table"), "", Some(("p", "d"))));
    assert!(!read_checks_table(Some("table"), "m", Some(("", "d"))));
    assert!(!read_checks_table(Some("table"), "m", None));
    assert!(delete_drops_table(Some("table"), false, Some(("p", "d")), "m"));
    assert!(!delete_drops_table(Some("table"), true, Some(("p", "d")), "m"));
    assert!(!delete_drops_table(Some("ephemeral"), false, Some(("p", "d")), "m"));
    assert!(!delete_drops_table(None, false, Some(("p", "d")), ""));
}

#[test]
fn diffs() {
    assert!(context_fields_equal(Some((Some("p"), Some("d"))), Some((Some("p"), Some("d")))));
    assert!(!context_fields_equal(Some((Some("p"), Some("d"))), Some((Some("p"), Some("e")))));
    assert!(!context_fields_equal(Some((Some("p"), Some("d"))), None));
    assert!(context_fields_equal(None, None));
    let a = vec!["`p.d.a`".to_owned(), "`p.d.b`".to_owned()];
    let b = vec!["`p.d.b`".to_owned(), "`p.d.a`".to_owned()];
    let c = vec!["`p.d.b`".to_owned(), "`p.d.b`".to_owned()];
    assert!(same_texts(&a, &b));
    assert!(!same_texts(&a, &c));
    assert!(!same_texts(&a, &vec!["`p.d.a`".to_owned()]));
    assert!(model_refs_equal(Some(&a), Some(&b)));
    assert!(!model_refs_equal(Some(&a), None));
    assert!(model_refs_equal(None, None));
    assert_eq!(model_changes(vec!["sql"], true, true, false, true), vec!["sql", "tableId", "context"]);
    assert_eq!(model_changes(vec![], false, true, true, false), vec!["modelRefs"]);
    assert_eq!(model_stable_inputs(), vec!["name", "sql", "macros", "schema", "options", "maxBytesBilled"]);
}

#[test]
fn check_reports_conflicting_options_alone() {
    let mut c = cfg("{{ config(materialized='table', description='SQL desc') }} SELECT 1");
    let yaml = OwnedTableOptions { description: Some("YAML desc".to_owned()), ..OwnedTableOptions::default() };
    let refs: StrMap<ModelRefData> = StrMap::new();
    let r = check_model("m", "{{ config(materialized='table', description='SQL desc') }} SELECT 1", &mut c, Some(&yaml), &ctx(), &refs, &StrMap::new(), None, false, true);
    assert!(!r.failures.is_empty());
    assert!(r.failures.iter().any(|f| f.reason.contains("conflicting values")));
    assert!(!r.dry_run);
    assert_eq!(c.description.as_deref(), Some("SQL desc"));
}

#[test]
fn check_with_table_id_refuses_options() {
    let sql = "{{ config(materialized='table') }} SELECT 1";
    let mut c = cfg(sql);
    let yaml = OwnedTableOptions { friendly_name: Some("My Table".to_owned()), ..OwnedTableOptions::default() };
    let refs: StrMap<ModelRefData> = StrMap::new();
    let r = check_model("m", sql, &mut c, Some(&yaml), &ctx(), &refs, &StrMap::new(), None, true, true);
    assert!(r.failures.iter().any(|f| f.reason.contains("ignored when 'tableId' is set")));
    assert!(!r.dry_run);
    assert_eq!(c.friendly_name.as_deref(), Some("My Table"));
}

#[test]
fn clean_check_asks_for_a_dry_run_when_new_or_changed() {
    let sql = "{{ config(materialized='table', description='SQL desc') }} SELECT 1";
    let mut c = cfg(sql);
    let refs: StrMap<ModelRefData> = StrMap::new();
    let r = check_model("m", sql, &mut c, None, &ctx(), &refs, &StrMap::new(), None, false, true);
    assert!(r.failures.is_empty());
    assert!(r.dry_run);
    let r = check_model("m", sql, &mut c, None, &ctx(), &refs, &StrMap::new(), None, false, false);
    assert!(!r.dry_run);
    let r = check_model("m", sql, &mut c, None, &ctx(), &refs, &StrMap::new(), Some(0), false, true);
    assert_eq!(r.failures.len(), 1);
    assert_eq!(r.failures[0].property, "maxBytesBilled");
    assert!(!r.dry_run);
}

#[test]
fn new_or_changed_sql() {
    assert!(new_or_changed(false, None, "SELECT 1"));
    assert!(new_or_changed(true, None, "SELECT 1"));
    assert!(new_or_changed(true, Some("SELECT 2"), "SELECT 1"));
    assert!(!new_or_changed(true, Some("SELECT 1"), "SELECT 1"));
}

#[test]
fn dry_run_failures_skip_missing_objects() {
    assert!(dry_run_failure(true, None).is_none());
    assert!(dry_run_failure(false, Some("Not found: Table p:d.t was not found in location US")).is_none());
    let f = dry_run_failure(false, Some("Syntax error: Unexpected keyword")).unwrap();
    assert_eq!(f.property, "sql");
    assert_eq!(f.reason, "SQL dry-run validation failed: Syntax error: Unexpected keyword");
}

#[test]
fn macro_output_repeats_its_inputs() {
    let inputs = gcpx::model::MacroInputs { name: "sk", args: vec!["a", "b"], sql: "MD5({{ a }})" };
    let o = gcpx::model::MacroOutput::from_inputs(&inputs);
    assert_eq!(o.name, "sk");
    assert_eq!(o.args, vec!["a", "b"]);
    assert_eq!(o.sql, "MD5({{ a }})");
}

#[test]
fn model_output_writes_the_ctes_as_json() {
    let c = cfg("{{ config(materialized='table') }} SELECT 1");
    let resolved = ResolvedSql { ctes: vec![("__dbt__cte__e".to_owned(), "SELECT \"x\"".to_owned())], body: "SELECT * FROM __dbt__cte__e".to_owned() };
    let p = plan_model(true, true, false, "p", "`p.d.m`", &c, &resolved, None, vec![]);
    let result = ModelResult { scheduler_sql: p.ddl.clone(), workflow_yaml: String::new(), estimated_bytes: Some(10) };
    let o = gcpx::modelflow::model_output("m", "table", &p, &resolved, result, Some("$0.00".to_owned()), None);
    assert_eq!(o.resolved_ctes_json, "[[\"__dbt__cte__e\",\"SELECT \\\"x\\\"\"]]");
    assert_eq!(o.resolved_sql, "WITH __dbt__cte__e AS (SELECT \"x\") SELECT * FROM __dbt__cte__e");
    assert_eq!(o.table_ref, "`p.d.m`");
    assert_eq!(o.table_id, "m");
    assert_eq!(o.estimated_bytes_processed, Some(10));
}

fn source_ctx() -> ProjectContext<'static> {
    let mut sources = StrMap::new();
    sources.insert("raw", gcpx::model::SourceDef { dataset: "raw_data".to_owned(), tables: vec!["events".to_owned()] });
    let mut vars = StrMap::new();
    vars.insert("since", "'2026-01-01'".to_owned());
    ProjectContext {
        gcp_project: "p",
        dataset: "d",
        sources,
        declared_models: vec!["m".to_owned()],
        declared_macros: vec![],
        vars,
    }
}

#[test]
fn prepared_incremental_model_has_both_passes() {
    let sql = "{{ config(materialized='incremental', unique_key='id') }} SELECT id FROM {{ source('raw', 'events') }} \
               {% if is_incremental() %}WHERE ts > (SELECT MAX(ts) FROM {{ this }}){% endif %}";
    let refs: StrMap<ModelRefData> = StrMap::new();
    let prepared = gcpx::modelflow::prepare_model(sql, &source_ctx(), &refs, &StrMap::new(), None, "`p.d.m`").ok().unwrap();
    assert_eq!(prepared.config.materialization, "incremental");
    assert_eq!(prepared.unique_keys, vec!["id"]);
    let lookups = gcpx::resolver::source_lookups(&prepared.deploy);
    assert_eq!(lookups, vec![("raw_data".to_owned(), "events".to_owned())]);
    let quoted = vec!["`p.raw_data.events`".to_owned()];
    let deploy = gcpx::resolver::assemble(&prepared.deploy, &quoted);
    assert_eq!(deploy.to_sql(), "SELECT id FROM `p.raw_data.events`");
    let inc = gcpx::resolver::assemble(prepared.incremental.as_ref().unwrap(), &quoted);
    assert_eq!(inc.to_sql(), "SELECT id FROM `p.raw_data.events` WHERE ts > (SELECT MAX(ts) FROM `p.d.m`)");
}

#[test]
fn prepared_table_model_has_no_incremental_pass_and_takes_declared_options() {
    let sql = "{{ config(materialized='table', description='sql') }} SELECT var('since') AS d";
    let refs: StrMap<ModelRefData> = StrMap::new();
    let yaml = OwnedTableOptions { description: Some("yaml".to_owned()), ..OwnedTableOptions::default() };
    let prepared = gcpx::modelflow::prepare_model(sql, &source_ctx(), &refs, &StrMap::new(), Some(&yaml), "`p.d.m`").ok().unwrap();
    assert!(prepared.incremental.is_none());
    assert_eq!(prepared.config.description.as_deref(), Some("yaml"));
    let deploy = gcpx::resolver::assemble(&prepared.deploy, &[]);
    assert_eq!(deploy.to_sql(), "SELECT '2026-01-01' AS d");
}

#[test]
fn preparing_reports_an_unknown_var_or_ref() {
    let refs: StrMap<ModelRefData> = StrMap::new();
    let e = gcpx::modelflow::prepare_model("SELECT var('nope')", &source_ctx(), &refs, &StrMap::new(), None, "`t`").err().unwrap();
    assert!(matches!(e, gcpx::modelflow::ModelInputError::Preprocess(_)));
    assert!(e.to_string().contains("nope"));
    let e = gcpx::modelflow::prepare_model("SELECT * FROM {{ ref('x') }}", &source_ctx(), &refs, &StrMap::new(), None, "`t`").err().unwrap();
    assert!(matches!(e, gcpx::modelflow::ModelInputError::Resolve(_)));
}
