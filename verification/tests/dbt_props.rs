use gcpx::dbtprops::{
    build_macro_output, build_model_output_struct, build_project_context_output,
    parse_macro_defs, parse_macro_inputs, parse_model_refs, parse_project_context,
    parse_project_inputs, parse_resource_options,
};
use gcpx::model::{MacroOutput, ModelOutput, ProjectInputs, SourceInputs};
use gcpx::props::{PropValue, Props};

fn text(s: &str) -> PropValue {
    PropValue::Text(s.to_owned())
}

fn list(items: &[&str]) -> PropValue {
    PropValue::List(items.iter().map(|s| text(s)).collect())
}

fn props(fields: Vec<(&str, PropValue)>) -> Props {
    let mut p = Props::new();
    for (k, v) in fields {
        p.fields.insert(k, v);
    }
    p
}

fn nested(fields: Vec<(&str, PropValue)>) -> PropValue {
    PropValue::Fields(props(fields))
}

fn make_source_struct(dataset: &str, tables: Vec<&str>) -> PropValue {
    nested(vec![("dataset", text(dataset)), ("tables", list(&tables))])
}

#[test]
fn parse_project_inputs_valid() {
    let s = props(vec![
        ("gcpProject", text("my-proj")),
        ("dataset", text("analytics")),
        ("sources", nested(vec![("raw", make_source_struct("raw_data", vec!["customers"]))])),
        ("declaredModels", list(&["stg"])),
        ("declaredMacros", list(&["sk"])),
    ]);
    let inputs = parse_project_inputs(&s).unwrap();
    assert_eq!(inputs.gcp_project, "my-proj");
    assert_eq!(inputs.dataset, "analytics");
    assert_eq!(inputs.sources.len(), 1);
    assert_eq!(inputs.sources[0].0, "raw");
    assert_eq!(inputs.sources[0].1.dataset, "raw_data");
    assert_eq!(inputs.sources[0].1.tables, vec!["customers"]);
    assert_eq!(inputs.declared_models, vec!["stg"]);
    assert_eq!(inputs.declared_macros, vec!["sk"]);
}

#[test]
fn parse_project_inputs_missing_gcp_project() {
    let s = props(vec![("dataset", text("ds"))]);
    let err = parse_project_inputs(&s).err().unwrap();
    assert!(err.contains("missing required field 'gcpProject'"));
}

#[test]
fn parse_project_inputs_missing_dataset() {
    let s = props(vec![("gcpProject", text("proj"))]);
    let err = parse_project_inputs(&s).err().unwrap();
    assert!(err.contains("missing required field 'dataset'"));
}

#[test]
fn parse_project_inputs_with_sources() {
    let s = props(vec![
        ("gcpProject", text("proj")),
        ("dataset", text("ds")),
        (
            "sources",
            nested(vec![
                ("staging", make_source_struct("stg_data", vec!["orders", "users"])),
                ("prod", make_source_struct("prod_data", vec!["items"])),
            ]),
        ),
    ]);
    let inputs = parse_project_inputs(&s).unwrap();
    assert_eq!(inputs.sources.len(), 2);
    assert_eq!(inputs.sources[0].0, "prod");
    assert_eq!(inputs.sources[1].0, "staging");
}

#[test]
fn parse_project_inputs_empty_sources() {
    let s = props(vec![("gcpProject", text("proj")), ("dataset", text("ds"))]);
    let inputs = parse_project_inputs(&s).unwrap();
    assert!(inputs.sources.is_empty());
    assert!(inputs.declared_models.is_empty());
    assert!(inputs.declared_macros.is_empty());
}

#[test]
fn build_project_context_roundtrip() {
    let inputs = ProjectInputs {
        gcp_project: "proj",
        dataset: "ds",
        sources: vec![("raw", SourceInputs { dataset: "raw_data", tables: vec!["customers", "orders"] })],
        declared_models: vec!["stg", "mart"],
        declared_macros: vec!["sk"],
        vars: vec![("days", "90")],
    };
    let output = build_project_context_output(&inputs);
    let ctx = parse_project_context(&output);
    assert_eq!(ctx.gcp_project, "proj");
    assert_eq!(ctx.dataset, "ds");
    assert_eq!(ctx.sources.len(), 1);
    let raw = ctx.sources.get("raw").unwrap();
    assert_eq!(raw.dataset, "raw_data");
    assert_eq!(raw.tables, vec!["customers", "orders"]);
    assert_eq!(ctx.declared_models, vec!["stg", "mart"]);
    assert_eq!(ctx.declared_macros, vec!["sk"]);
    assert_eq!(ctx.vars.get("days").map(|s| s.as_str()), Some("90"));
}

#[test]
fn context_output_leaves_out_empty_vars() {
    let inputs = ProjectInputs {
        gcp_project: "proj",
        dataset: "ds",
        sources: vec![],
        declared_models: vec![],
        declared_macros: vec![],
        vars: vec![],
    };
    let output = build_project_context_output(&inputs);
    assert!(output.get_fields("vars").is_none());
    assert!(output.get_fields("sources").is_some());
}

#[test]
fn parse_macro_inputs_valid() {
    let s = props(vec![("name", text("my_macro")), ("sql", text("SELECT {{ x }}")), ("args", list(&["x"]))]);
    let inputs = parse_macro_inputs(&s).unwrap();
    assert_eq!(inputs.name, "my_macro");
    assert_eq!(inputs.sql, "SELECT {{ x }}");
    assert_eq!(inputs.args, vec!["x"]);
}

#[test]
fn parse_macro_inputs_missing_name() {
    let s = props(vec![("sql", text("SELECT 1"))]);
    let err = parse_macro_inputs(&s).err().unwrap();
    assert!(err.contains("missing required field 'name'"));
}

#[test]
fn parse_macro_inputs_missing_sql() {
    let s = props(vec![("name", text("m"))]);
    let err = parse_macro_inputs(&s).err().unwrap();
    assert!(err.contains("missing required field 'sql'"));
}

#[test]
fn parse_macro_inputs_no_args() {
    let s = props(vec![("name", text("now")), ("sql", text("CURRENT_TIMESTAMP()"))]);
    let inputs = parse_macro_inputs(&s).unwrap();
    assert!(inputs.args.is_empty());
}

#[test]
fn build_macro_output_roundtrip() {
    let output = MacroOutput { name: "sk".to_owned(), args: vec!["cols".to_owned()], sql: "MD5({{ cols }})".to_owned() };
    let s = build_macro_output(&output);
    assert_eq!(s.get_str("name"), Some("sk"));
    assert_eq!(s.get_str("sql"), Some("MD5({{ cols }})"));
    let args = s.get_list("args").unwrap();
    assert_eq!(args.len(), 1);
    assert_eq!(args[0].as_str(), Some("cols"));
}

#[test]
fn build_model_output_struct_all_fields() {
    let output = ModelOutput {
        materialization: "table".to_owned(),
        resolved_ctes_json: "[]".to_owned(),
        resolved_body: "SELECT 1".to_owned(),
        table_ref: "`p.d.t`".to_owned(),
        resolved_ddl: "CREATE TABLE".to_owned(),
        resolved_sql: "SELECT 1".to_owned(),
        workflow_yaml: "- runQuery:".to_owned(),
        table_id: "t".to_owned(),
        scheduler_sql: "MERGE ...".to_owned(),
        estimated_bytes_processed: None,
        estimated_cost: None,
        max_bytes_billed: None,
    };
    let s = build_model_output_struct(&output);
    assert_eq!(s.fields.len(), 9);
    assert_eq!(s.get_str("materialization"), Some("table"));
    assert_eq!(s.get_str("resolvedCtesJson"), Some("[]"));
    assert_eq!(s.get_str("resolvedBody"), Some("SELECT 1"));
    assert_eq!(s.get_str("tableRef"), Some("`p.d.t`"));
    assert_eq!(s.get_str("resolvedDdl"), Some("CREATE TABLE"));
    assert_eq!(s.get_str("resolvedSql"), Some("SELECT 1"));
    assert_eq!(s.get_str("workflowYaml"), Some("- runQuery:"));
    assert_eq!(s.get_str("tableId"), Some("t"));
    assert_eq!(s.get_str("schedulerSql"), Some("MERGE ..."));
}

#[test]
fn model_output_carries_the_estimate_when_there_is_one() {
    let output = ModelOutput {
        materialization: "table".to_owned(),
        resolved_ctes_json: "[]".to_owned(),
        resolved_body: String::new(),
        table_ref: String::new(),
        resolved_ddl: String::new(),
        resolved_sql: String::new(),
        workflow_yaml: String::new(),
        table_id: String::new(),
        scheduler_sql: String::new(),
        estimated_bytes_processed: Some(1024),
        estimated_cost: Some("$0.01".to_owned()),
        max_bytes_billed: Some(5000),
    };
    let s = build_model_output_struct(&output);
    assert_eq!(s.fields.len(), 12);
    assert_eq!(s.get_number("estimatedBytesProcessed"), Some(1024));
    assert_eq!(s.get_str("estimatedCost"), Some("$0.01"));
    assert_eq!(s.get_number("maxBytesBilled"), Some(5000));
}

#[test]
fn parse_model_refs_valid() {
    let stg = nested(vec![
        ("materialization", text("view")),
        ("resolvedCtesJson", text("[]")),
        ("resolvedBody", text("SELECT *")),
        ("tableRef", text("`p.d.stg`")),
        ("resolvedDdl", text("CREATE VIEW")),
        ("resolvedSql", text("SELECT *")),
        ("workflowYaml", text("yaml")),
    ]);
    let fields = props(vec![("modelRefs", nested(vec![("stg", stg)]))]);
    let refs = parse_model_refs(&fields);
    assert_eq!(refs.len(), 1);
    let stg = refs.get("stg").unwrap();
    assert_eq!(stg.materialization, "view");
    assert_eq!(stg.table_ref, "`p.d.stg`");
    assert_eq!(stg.resolved_body, "SELECT *");
    assert_eq!(stg.resolved_ddl, "CREATE VIEW");
    assert_eq!(stg.resolved_sql, "SELECT *");
    assert_eq!(stg.workflow_yaml, "yaml");
}

#[test]
fn parse_model_refs_empty() {
    let fields = Props::new();
    let refs = parse_model_refs(&fields);
    assert!(refs.is_empty());
}

#[test]
fn parse_macro_defs_valid() {
    let lower = nested(vec![("args", list(&["x"])), ("sql", text("LOWER({{ x }})"))]);
    let fields = props(vec![("macros", nested(vec![("lower_col", lower)]))]);
    let defs = parse_macro_defs(&fields);
    assert_eq!(defs.len(), 1);
    let lower = defs.get("lower_col").unwrap();
    assert_eq!(lower.args, vec!["x"]);
    assert_eq!(lower.sql, "LOWER({{ x }})");
}

#[test]
fn parse_macro_defs_empty() {
    let fields = Props::new();
    let defs = parse_macro_defs(&fields);
    assert!(defs.is_empty());
}

#[test]
fn parse_resource_options_missing_returns_none() {
    let fields = Props::new();
    assert!(parse_resource_options(&fields).is_none());
}

#[test]
fn parse_resource_options_empty_struct() {
    let fields = props(vec![("options", nested(vec![]))]);
    let opts = parse_resource_options(&fields).unwrap();
    assert!(opts.require_partition_filter.is_none());
    assert!(opts.labels.is_empty());
}

#[test]
fn parse_resource_options_full() {
    let labels = nested(vec![("env", text("prod")), ("team", text("analytics"))]);
    let options = nested(vec![
        ("requirePartitionFilter", PropValue::Bool(true)),
        ("partitionExpirationDays", PropValue::Number(90)),
        ("friendlyName", text("My Table")),
        ("description", text("A test table")),
        ("labels", labels),
        ("kmsKeyName", text("projects/p/key")),
        ("defaultCollationName", text("und:ci")),
        ("enableRefresh", PropValue::Bool(true)),
        ("refreshIntervalMinutes", PropValue::Number(30)),
        ("maxStaleness", text("0-0 0 4:0:0")),
    ]);
    let fields = props(vec![("options", options)]);
    let opts = parse_resource_options(&fields).unwrap();
    assert_eq!(opts.require_partition_filter, Some(true));
    assert_eq!(opts.partition_expiration_days, Some(90));
    assert_eq!(opts.friendly_name.as_deref(), Some("My Table"));
    assert_eq!(opts.description.as_deref(), Some("A test table"));
    assert_eq!(opts.labels.len(), 2);
    assert_eq!(opts.labels.get("env").map(|s| s.as_str()), Some("prod"));
    assert_eq!(opts.kms_key_name.as_deref(), Some("projects/p/key"));
    assert_eq!(opts.default_collation_name.as_deref(), Some("und:ci"));
    assert_eq!(opts.enable_refresh, Some(true));
    assert_eq!(opts.refresh_interval_minutes, Some(30));
    assert_eq!(opts.max_staleness.as_deref(), Some("0-0 0 4:0:0"));
}

#[test]
fn negative_days_saturate_at_zero() {
    let options = nested(vec![("partitionExpirationDays", PropValue::Number(-3))]);
    let fields = props(vec![("options", options)]);
    assert_eq!(parse_resource_options(&fields).unwrap().partition_expiration_days, Some(0));
}

#[test]
fn context_reads_back_with_the_last_source_of_a_name() {
    let inputs = ProjectInputs {
        gcp_project: "proj",
        dataset: "ds",
        sources: vec![
            ("raw", SourceInputs { dataset: "first", tables: vec!["a"] }),
            ("raw", SourceInputs { dataset: "second", tables: vec!["b", "c"] }),
        ],
        declared_models: vec![],
        declared_macros: vec![],
        vars: vec![("k", "1"), ("k", "2")],
    };
    let out = build_project_context_output(&inputs);
    let ctx = parse_project_context(&out);
    assert_eq!(ctx.sources.len(), 1);
    let raw = ctx.sources.get("raw").unwrap();
    assert_eq!(raw.dataset, "second");
    assert_eq!(raw.tables, vec!["b", "c"]);
    assert_eq!(ctx.vars.get("k").map(|s| s.as_str()), Some("2"));
}
