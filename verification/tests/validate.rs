use gcpx::config::extract_model_config;
use gcpx::macros::MacroDef;
use gcpx::model::{MacroInputs, ModelConfig, ModelRefData, PartitionConfig, ProjectContext, ProjectInputs, SourceDef, SourceInputs};
use gcpx::options::OwnedTableOptions;
use gcpx::preprocess::is_entirely_raw;
use gcpx::strmap::StrMap;
use gcpx::validate::{diff_options, validate_macro, validate_model, validate_model_schema, validate_project, BqField};


/// The one raw shape that can only be a mistake: someone learned the inline
/// idiom and then moved the SQL into a file, where the wrapper is no longer
/// needed and now suppresses the templating they wanted.
#[test]
fn a_wholly_raw_model_is_detected() {
    assert!(is_entirely_raw(
        "{% raw %}SELECT {{ ref('x') }}{% endraw %}"
    ));
    assert!(is_entirely_raw(
        "  {%- raw -%}SELECT 1{%- endraw -%}  "
    ));
}

#[test]
fn a_model_with_a_raw_region_inside_it_is_not_flagged() {
    // Partial raw is legitimate: it is how a model emits literal braces.
    for sql in [
        "SELECT {{ ref('x') }}, '{% raw %}{{ lit }}{% endraw %}' AS note",
        "{% raw %}{{ a }}{% endraw %} UNION ALL SELECT {{ ref('y') }}",
        "SELECT 1",
    ] {
        assert!(
            !is_entirely_raw(sql),
            "should not be flagged: {sql}"
        );
    }
}

/// The one raw shape that can only be a mistake, and the message that names
/// the actual cause rather than letting BigQuery reject unresolved text.
#[test]
fn a_wholly_raw_model_is_rejected_with_an_explanation() {
    assert!(is_entirely_raw(
        "{% raw %}SELECT {{ ref('x') }}{% endraw %}"
    ));
    assert!(is_entirely_raw(
        "  {%- raw -%}SELECT 1{%- endraw -%}  "
    ));
}

#[test]
fn a_model_with_a_raw_region_inside_it_is_fine() {
    // Partial raw is legitimate: it is how a model emits literal braces.
    for sql in [
        "SELECT {{ ref('x') }}, '{% raw %}{{ lit }}{% endraw %}' AS note",
        "{% raw %}{{ a }}{% endraw %} UNION ALL SELECT {{ ref('y') }}",
        "SELECT 1",
    ] {
        assert!(
            !is_entirely_raw(sql),
            "should not be flagged: {sql}"
        );
    }
}

#[test]
fn valid_project() {
    let inputs = ProjectInputs {
        gcp_project: "proj",
        dataset: "ds",
        sources: vec![(
            "raw",
            SourceInputs {
                dataset: "raw_data",
                tables: vec!["customers"],
            },
        )],
        declared_models: vec!["stg"],
        declared_macros: vec![],
        vars: vec![],
    };
    let failures = validate_project(&inputs);
    assert!(failures.is_empty());
}

#[test]
fn empty_gcp_project() {
    let inputs = ProjectInputs {
        gcp_project: "",
        dataset: "ds",
        sources: vec![],
        declared_models: vec![],
        declared_macros: vec![],
        vars: vec![],
    };
    let failures = validate_project(&inputs);
    assert!(failures.iter().any(|f| f.reason.contains("gcpProject")));
}

#[test]
fn reserved_macro_name() {
    let inputs = MacroInputs {
        name: "ref",
        args: vec![],
        sql: "SELECT 1",
    };
    let failures = validate_macro(&inputs);
    assert!(failures.iter().any(|f| f.reason.contains("reserved")));
}

#[test]
fn model_no_config_defaults_to_table() {
    let ctx = ProjectContext {
        gcp_project: "p",
        dataset: "d",
        sources: StrMap::new(),
        declared_models: vec!["m".to_owned()],
        declared_macros: vec![],
        vars: StrMap::new(),
    };
    let sql = "SELECT 1";
    let config = cfg(sql);
    let failures = validate_model("m", sql, &config, &ctx, &StrMap::new(), &StrMap::new());
    // No config block is allowed — defaults to table materialization.
    assert!(
        failures.is_empty(),
        "expected no failures: {:?}",
        failures.iter().map(|f| &f.reason).collect::<Vec<_>>()
    );
}

#[test]
fn model_valid() {
    let ctx = ProjectContext {
        gcp_project: "p",
        dataset: "d",
        sources: StrMap::new(),
        declared_models: vec!["m".to_owned()],
        declared_macros: vec![],
        vars: StrMap::new(),
    };
    let sql = "{{ config(materialized='table') }} SELECT 1";
    let config = cfg(sql);
    let failures = validate_model("m", sql, &config, &ctx, &StrMap::new(), &StrMap::new());
    assert!(
        failures.is_empty(),
        "expected no failures: {:?}",
        failures.iter().map(|f| &f.reason).collect::<Vec<_>>()
    );
}

#[test]
fn model_unknown_ref() {
    let ctx = ProjectContext {
        gcp_project: "p",
        dataset: "d",
        sources: StrMap::new(),
        declared_models: vec!["m".to_owned()],
        declared_macros: vec![],
        vars: StrMap::new(),
    };
    let sql = "{{ config(materialized='table') }} SELECT * FROM {{ ref('missing') }}";
    let config = cfg(sql);
    let failures = validate_model("m", sql, &config, &ctx, &StrMap::new(), &StrMap::new());
    assert!(failures
        .iter()
        .any(|f| f.reason.contains("references unknown model")));
}

#[test]
fn model_dbt_cte_prefix_rejected() {
    let ctx = ProjectContext {
        gcp_project: "p",
        dataset: "d",
        sources: StrMap::new(),
        declared_models: vec!["m".to_owned()],
        declared_macros: vec![],
        vars: StrMap::new(),
    };
    let sql = "{{ config(materialized='table') }} WITH __dbt__cte__x AS (SELECT 1) SELECT * FROM __dbt__cte__x";
    let config = cfg(sql);
    let failures = validate_model("m", sql, &config, &ctx, &StrMap::new(), &StrMap::new());
    assert!(failures.iter().any(|f| f.reason.contains("__dbt__cte__")));
}

// --- Additional edge cases ---

fn make_ctx(models: &[&str], macros: &[&str]) -> ProjectContext<'static> {
    ProjectContext {
        gcp_project: "p",
        dataset: "d",
        sources: StrMap::new(),
        declared_models: models.iter().map(|s| s.to_string()).collect(),
        declared_macros: macros.iter().map(|s| s.to_string()).collect(),
        vars: StrMap::new(),
    }
}

fn make_ctx_with_sources(
    models: &[&str],
    sources: StrMap<SourceDef>,
) -> ProjectContext<'static> {
    ProjectContext {
        gcp_project: "p",
        dataset: "d",
        sources,
        declared_models: models.iter().map(|s| s.to_string()).collect(),
        declared_macros: vec![],
        vars: StrMap::new(),
    }
}

#[test]
fn empty_dataset_rejected() {
    let inputs = ProjectInputs {
        gcp_project: "proj",
        dataset: "",
        sources: vec![],
        declared_models: vec![],
        declared_macros: vec![],
        vars: vec![],
    };
    let failures = validate_project(&inputs);
    assert!(failures.iter().any(|f| f.property == "dataset"));
}

#[test]
fn source_empty_dataset_rejected() {
    let inputs = ProjectInputs {
        gcp_project: "proj",
        dataset: "ds",
        sources: vec![(
            "raw",
            SourceInputs {
                dataset: "",
                tables: vec!["t"],
            },
        )],
        declared_models: vec![],
        declared_macros: vec![],
        vars: vec![],
    };
    let failures = validate_project(&inputs);
    assert!(failures
        .iter()
        .any(|f| f.property.contains("sources.raw.dataset")));
}

#[test]
fn source_empty_tables_rejected() {
    let inputs = ProjectInputs {
        gcp_project: "proj",
        dataset: "ds",
        sources: vec![(
            "raw",
            SourceInputs {
                dataset: "raw_data",
                tables: vec![],
            },
        )],
        declared_models: vec![],
        declared_macros: vec![],
        vars: vec![],
    };
    let failures = validate_project(&inputs);
    assert!(failures
        .iter()
        .any(|f| f.property.contains("sources.raw.tables")));
}

#[test]
fn duplicate_model_case_insensitive() {
    let inputs = ProjectInputs {
        gcp_project: "proj",
        dataset: "ds",
        sources: vec![],
        declared_models: vec!["Stg", "stg"],
        declared_macros: vec![],
        vars: vec![],
    };
    let failures = validate_project(&inputs);
    assert!(failures
        .iter()
        .any(|f| f.reason.contains("duplicate model name")));
}

#[test]
fn duplicate_macro_name() {
    let inputs = ProjectInputs {
        gcp_project: "proj",
        dataset: "ds",
        sources: vec![],
        declared_models: vec![],
        declared_macros: vec!["sk", "sk"],
        vars: vec![],
    };
    let failures = validate_project(&inputs);
    assert!(failures
        .iter()
        .any(|f| f.reason.contains("duplicate macro name")));
}

#[test]
fn model_macro_name_collision() {
    let inputs = ProjectInputs {
        gcp_project: "proj",
        dataset: "ds",
        sources: vec![],
        declared_models: vec!["sk"],
        declared_macros: vec!["sk"],
        vars: vec![],
    };
    let failures = validate_project(&inputs);
    assert!(failures.iter().any(|f| f.reason.contains("collides")));
}

#[test]
fn macro_empty_name_rejected() {
    let inputs = MacroInputs {
        name: "",
        args: vec![],
        sql: "SELECT 1",
    };
    let failures = validate_macro(&inputs);
    assert!(failures
        .iter()
        .any(|f| f.reason.contains("must not be empty")));
}

#[test]
fn macro_empty_sql_rejected() {
    let inputs = MacroInputs {
        name: "m",
        args: vec![],
        sql: "",
    };
    let failures = validate_macro(&inputs);
    assert!(failures
        .iter()
        .any(|f| f.reason.contains("sql must not be empty")));
}

#[test]
fn macro_duplicate_args() {
    let inputs = MacroInputs {
        name: "m",
        args: vec!["x", "x"],
        sql: "SELECT 1",
    };
    let failures = validate_macro(&inputs);
    assert!(failures
        .iter()
        .any(|f| f.reason.contains("duplicate argument name")));
}

#[test]
fn macro_reserved_arg_source() {
    let inputs = MacroInputs {
        name: "m",
        args: vec!["source"],
        sql: "SELECT 1",
    };
    let failures = validate_macro(&inputs);
    assert!(failures.iter().any(|f| f.reason.contains("reserved")));
}

#[test]
fn model_not_in_declared_models() {
    let ctx = make_ctx(&["other"], &[]);
    let sql = "{{ config(materialized='table') }} SELECT 1";
    let config = cfg(sql);
    let failures = validate_model(
        "missing_model",
        sql,
        &config,
        &ctx,
        &StrMap::new(),
        &StrMap::new(),
    );
    assert!(failures
        .iter()
        .any(|f| f.reason.contains("not in project's declaredModels")));
}

#[test]
fn model_ref_declared_but_not_wired() {
    let ctx = make_ctx(&["m", "stg"], &[]);
    let sql = "{{ config(materialized='table') }} SELECT * FROM {{ ref('stg') }}";
    let config = cfg(sql);
    let failures = validate_model(
        "m",
        sql,
        &config,
        &ctx,
        &StrMap::new(), // no modelRefs wired
        &StrMap::new(),
    );
    assert!(failures.iter().any(|f| f.reason.contains("not wired")));
}

#[test]
fn model_source_table_not_declared() {
    let mut sources = StrMap::new();
    sources.insert("raw",
        SourceDef {
            dataset: "raw_data".to_owned(),
            tables: vec!["customers".to_owned()],
        },
    );
    let ctx = make_ctx_with_sources(&["m"], sources);
    let sql = "{{ config(materialized='table') }} SELECT * FROM {{ source('raw', 'orders') }}";
    let config = cfg(sql);
    let failures = validate_model("m", sql, &config, &ctx, &StrMap::new(), &StrMap::new());
    assert!(failures
        .iter()
        .any(|f| f.reason.contains("does not declare table 'orders'")));
    assert!(failures
        .iter()
        .any(|f| f.reason.contains("available tables")));
}

#[test]
fn model_multiple_configs_rejected() {
    let ctx = make_ctx(&["m"], &[]);
    let sql = "{{ config(materialized='table') }} SELECT 1 {{ config(materialized='view') }}";
    let config = cfg(sql);
    let failures = validate_model("m", sql, &config, &ctx, &StrMap::new(), &StrMap::new());
    assert!(failures.iter().any(|f| f.reason.contains("at most one")));
}

#[test]
fn model_no_materialization_in_config() {
    let ctx = make_ctx(&["m"], &[]);
    let sql = "{{ config(schema='raw') }} SELECT 1";
    let config = cfg(sql);
    let failures = validate_model("m", sql, &config, &ctx, &StrMap::new(), &StrMap::new());
    assert!(failures
        .iter()
        .any(|f| f.reason.contains("missing materialized key")));
}

#[test]
fn model_invalid_materialization() {
    let ctx = make_ctx(&["m"], &[]);
    let sql = "{{ config(materialized='snapshot') }} SELECT 1";
    let config = cfg(sql);
    let failures = validate_model("m", sql, &config, &ctx, &StrMap::new(), &StrMap::new());
    assert!(failures
        .iter()
        .any(|f| f.reason.contains("invalid materialization 'snapshot'")));
    assert!(failures.iter().any(|f| f.reason.contains("valid options")));
}

#[test]
fn model_incremental_valid_with_unique_key() {
    let ctx = make_ctx(&["m"], &[]);
    let sql = "{{ config(materialized='incremental', unique_key='id') }} SELECT 1";
    let config = cfg(sql);
    let failures = validate_model("m", sql, &config, &ctx, &StrMap::new(), &StrMap::new());
    assert!(
        failures.is_empty(),
        "expected no failures: {:?}",
        failures.iter().map(|f| &f.reason).collect::<Vec<_>>()
    );
}

#[test]
fn model_incremental_missing_unique_key() {
    let ctx = make_ctx(&["m"], &[]);
    let sql = "{{ config(materialized='incremental') }} SELECT 1";
    let config = cfg(sql);
    let failures = validate_model("m", sql, &config, &ctx, &StrMap::new(), &StrMap::new());
    assert!(failures.iter().any(|f| f.reason.contains("unique_key")));
}

#[test]
fn model_unknown_macro_actionable_error() {
    let ctx = make_ctx(&["m"], &[]);
    let mut macros = StrMap::new();
    macros.insert("upper_col",
        MacroDef {
            args: vec!["x".to_owned()],
            sql: "UPPER({{ x }})".to_owned(),
        },
    );
    let sql = "{{ config(materialized='table') }} SELECT {{ unknown_macro('x') }}";
    let config = cfg_m(sql, &macros);
    let failures = validate_model("m", sql, &config, &ctx, &StrMap::new(), &macros);
    assert!(failures.iter().any(|f| {
        f.reason.contains("unknown macro 'unknown_macro'") && f.reason.contains("upper_col")
    }));
}

#[test]
fn model_unknown_source_actionable_error() {
    let mut sources = StrMap::new();
    sources.insert("staging",
        SourceDef {
            dataset: "stg".to_owned(),
            tables: vec!["orders".to_owned()],
        },
    );
    let ctx = make_ctx_with_sources(&["m"], sources);
    let sql =
        "{{ config(materialized='table') }} SELECT * FROM {{ source('missing', 'orders') }}";
    let config = cfg(sql);
    let failures = validate_model("m", sql, &config, &ctx, &StrMap::new(), &StrMap::new());
    assert!(failures.iter().any(|f| {
        f.reason.contains("unknown source 'missing'") && f.reason.contains("staging")
    }));
}

#[test]
fn model_unknown_ref_actionable_error() {
    let ctx = make_ctx(&["m", "stg", "mart"], &[]);
    let sql = "{{ config(materialized='table') }} SELECT * FROM {{ ref('foo') }}";
    let config = cfg(sql);
    let failures = validate_model("m", sql, &config, &ctx, &StrMap::new(), &StrMap::new());
    assert!(failures.iter().any(|f| {
        f.reason.contains("references unknown model")
            && f.reason.contains("stg")
            && f.reason.contains("mart")
    }));
}

#[test]
fn model_wired_ref_valid() {
    let ctx = make_ctx(&["m", "stg"], &[]);
    let mut refs = StrMap::new();
    refs.insert("stg",
        ModelRefData {
            materialization: "view".to_owned(),
            resolved_ctes_json: "[]".to_owned(),
            resolved_body: "SELECT 1".to_owned(),
            table_ref: "`p.d.stg`".to_owned(),
            resolved_ddl: String::new(),
            resolved_sql: String::new(),
            workflow_yaml: String::new(),
        },
    );
    let sql = "{{ config(materialized='table') }} SELECT * FROM {{ ref('stg') }}";
    let config = cfg(sql);
    let failures = validate_model("m", sql, &config, &ctx, &refs, &StrMap::new());
    assert!(
        failures.is_empty(),
        "expected no failures: {:?}",
        failures.iter().map(|f| &f.reason).collect::<Vec<_>>()
    );
}

#[test]
fn model_all_ref_types_combined() {
    let mut sources = StrMap::new();
    sources.insert("raw",
        SourceDef {
            dataset: "raw_data".to_owned(),
            tables: vec!["customers".to_owned()],
        },
    );
    let ctx = ProjectContext {
        gcp_project: "p",
        dataset: "d",
        sources,
        declared_models: vec!["m".to_owned(), "stg".to_owned()],
        declared_macros: vec![],
        vars: StrMap::new(),
    };
    let mut refs = StrMap::new();
    refs.insert("stg",
        ModelRefData {
            materialization: "view".to_owned(),
            resolved_ctes_json: "[]".to_owned(),
            resolved_body: "SELECT 1".to_owned(),
            table_ref: "`p.d.stg`".to_owned(),
            resolved_ddl: String::new(),
            resolved_sql: String::new(),
            workflow_yaml: String::new(),
        },
    );
    let mut macros = StrMap::new();
    macros.insert("sk",
        MacroDef {
            args: vec!["cols".to_owned()],
            sql: "MD5({{ cols }})".to_owned(),
        },
    );
    let sql = "{{ config(materialized='table') }} SELECT {{ sk('id') }} FROM {{ ref('stg') }} JOIN {{ source('raw', 'customers') }}";
    let config = cfg_m(sql, &macros);
    let failures = validate_model("m", sql, &config, &ctx, &refs, &macros);
    assert!(
        failures.is_empty(),
        "expected no failures: {:?}",
        failures.iter().map(|f| &f.reason).collect::<Vec<_>>()
    );
}

// ── validate_model_schema tests ────────────────────────────────

fn bqf(name: &str, ft: &str) -> BqField {
    BqField {
        name: name.to_owned(),
        field_type: ft.to_owned(),
        mode: "NULLABLE".to_owned(),
        description: String::new(),
        normalized_type: ft.to_owned(),
    }
}

fn empty_config() -> ModelConfig {
    ModelConfig {
        materialization: "table".to_owned(),
        unique_key: None,
        unique_key_list: None,
        incremental_strategy: None,
        partition_by: None,
        cluster_by: None,
        require_partition_filter: None,
        partition_expiration_days: None,
        friendly_name: None,
        description: None,
        labels: vec![],
        kms_key_name: None,
        default_collation_name: None,
        enable_refresh: None,
        refresh_interval_minutes: None,
        max_staleness: None,
    }
}

/// Extract config from SQL for test convenience.
fn cfg(sql: &str) -> ModelConfig {
    extract_model_config(sql, &StrMap::new())
}

fn cfg_m(sql: &str, macros: &StrMap<MacroDef>) -> ModelConfig {
    extract_model_config(sql, macros)
}

#[test]
fn schema_validate_missing_unique_key() {
    let cols = vec![bqf("id", "INT64"), bqf("name", "STRING")];
    let mut cfg = empty_config();
    cfg.unique_key = Some("event_id".to_owned());
    let errors = validate_model_schema(&cols, None, &cfg);
    assert_eq!(errors.len(), 1);
    assert!(errors[0].contains("unique_key 'event_id'"));
    assert!(errors[0].contains("id, name"));
}

#[test]
fn schema_validate_missing_partition_by() {
    let cols = vec![bqf("id", "INT64")];
    let mut cfg = empty_config();
    cfg.partition_by = Some(PartitionConfig {
        field: "created_at".to_owned(),
        data_type: "timestamp".to_owned(),
        granularity: None,
    });
    let errors = validate_model_schema(&cols, None, &cfg);
    assert!(errors
        .iter()
        .any(|e| e.contains("partition_by field 'created_at'")));
}

#[test]
fn schema_validate_missing_cluster_by() {
    let cols = vec![bqf("id", "INT64")];
    let mut cfg = empty_config();
    cfg.cluster_by = Some(vec!["region".to_owned()]);
    let errors = validate_model_schema(&cols, None, &cfg);
    assert!(errors
        .iter()
        .any(|e| e.contains("cluster_by column 'region'")));
}

#[test]
fn schema_validate_composite_unique_key() {
    let cols = vec![bqf("a", "INT64"), bqf("b", "STRING")];
    let mut cfg = empty_config();
    cfg.unique_key_list = Some(vec!["a".to_owned(), "c".to_owned()]);
    let errors = validate_model_schema(&cols, None, &cfg);
    assert_eq!(errors.len(), 1);
    assert!(errors[0].contains("composite unique_key column 'c'"));
}

#[test]
fn schema_validate_model_col_not_in_schema() {
    let cols = vec![bqf("id", "INT64"), bqf("extra", "STRING")];
    let schema = vec![bqf("id", "INT64")];
    let errors = validate_model_schema(&cols, Some(&schema), &empty_config());
    assert!(errors
        .iter()
        .any(|e| e.contains("Model produces column 'extra'")));
}

#[test]
fn schema_validate_schema_col_not_in_model() {
    let cols = vec![bqf("id", "INT64")];
    let schema = vec![bqf("id", "INT64"), bqf("full_name", "STRING")];
    let errors = validate_model_schema(&cols, Some(&schema), &empty_config());
    assert!(errors
        .iter()
        .any(|e| e.contains("Schema declares column 'full_name'")));
}

#[test]
fn schema_validate_type_mismatch() {
    let cols = vec![bqf("id", "STRING")];
    let schema = vec![bqf("id", "INT64")];
    let errors = validate_model_schema(&cols, Some(&schema), &empty_config());
    assert!(errors
        .iter()
        .any(|e| e.contains("type mismatch") && e.contains("STRING") && e.contains("INT64")));
}

#[test]
fn schema_validate_all_match() {
    let cols = vec![bqf("id", "INT64"), bqf("name", "STRING")];
    let schema = vec![bqf("id", "INT64"), bqf("name", "STRING")];
    let mut cfg = empty_config();
    cfg.unique_key = Some("id".to_owned());
    let errors = validate_model_schema(&cols, Some(&schema), &cfg);
    assert!(errors.is_empty(), "expected no errors: {:?}", errors);
}

#[test]
fn schema_validate_no_schema_config_only() {
    let cols = vec![bqf("id", "INT64"), bqf("name", "STRING")];
    let mut cfg = empty_config();
    cfg.unique_key = Some("id".to_owned());
    cfg.cluster_by = Some(vec!["id".to_owned()]);
    let errors = validate_model_schema(&cols, None, &cfg);
    assert!(errors.is_empty());
}

#[test]
fn schema_validate_multiple_errors() {
    let cols = vec![bqf("id", "STRING"), bqf("extra", "STRING")];
    let schema = vec![bqf("id", "INT64"), bqf("full_name", "STRING")];
    let mut cfg = empty_config();
    cfg.unique_key = Some("event_id".to_owned());
    let errors = validate_model_schema(&cols, Some(&schema), &cfg);
    // unique_key missing + model has extra + schema missing full_name + type mismatch on id
    assert!(errors.len() >= 3, "expected multiple errors: {:?}", errors);
}




// ── diff_options tests ───────────────────────────────────────


fn sql_config_with(sql: &str) -> ModelConfig {
    cfg(sql)
}

#[test]
fn diff_options_both_none_no_errors() {
    let config = empty_config();
    let yaml = OwnedTableOptions::default();
    let failures = diff_options(&config, &yaml);
    assert!(failures.is_empty());
}

#[test]
fn diff_options_sql_none_yaml_some_ok() {
    let config = empty_config();
    let yaml = OwnedTableOptions {
        require_partition_filter: Some(true),
        friendly_name: Some("My Table".to_owned()),
        ..Default::default()
    };
    let failures = diff_options(&config, &yaml);
    assert!(
        failures.is_empty(),
        "YAML-only options should be OK: {:?}",
        failures.iter().map(|f| &f.reason).collect::<Vec<_>>()
    );
}

#[test]
fn diff_options_both_identical_ok() {
    let config = sql_config_with(
        "{{ config(materialized='table', require_partition_filter=true, \
         partition_by={'field': 'ts', 'data_type': 'date'}, \
         description='Orders') }} SELECT 1",
    );
    let yaml = OwnedTableOptions {
        require_partition_filter: Some(true),
        description: Some("Orders".to_owned()),
        ..Default::default()
    };
    let failures = diff_options(&config, &yaml);
    assert!(
        failures.is_empty(),
        "identical options should be OK: {:?}",
        failures.iter().map(|f| &f.reason).collect::<Vec<_>>()
    );
}

#[test]
fn diff_options_sql_only_error() {
    let config = sql_config_with(
        "{{ config(materialized='table', require_partition_filter=true, \
         partition_by={'field': 'ts', 'data_type': 'date'}) }} SELECT 1",
    );
    let yaml = OwnedTableOptions::default();
    let failures = diff_options(&config, &yaml);
    assert_eq!(failures.len(), 1);
    assert!(failures[0].reason.contains("require_partition_filter"));
    assert!(failures[0].reason.contains("not declared"));
    assert!(failures[0].reason.contains("requirePartitionFilter"));
}

#[test]
fn diff_options_mismatch_error() {
    let config = sql_config_with(
        "{{ config(materialized='table', description='Orders fact table') }} SELECT 1",
    );
    let yaml = OwnedTableOptions {
        description: Some("Customer orders".to_owned()),
        ..Default::default()
    };
    let failures = diff_options(&config, &yaml);
    assert_eq!(failures.len(), 1);
    assert!(failures[0].reason.contains("conflicting values"));
    assert!(failures[0].reason.contains("Orders fact table"));
    assert!(failures[0].reason.contains("Customer orders"));
}

#[test]
fn diff_options_labels_sql_only_error() {
    let config =
        sql_config_with("{{ config(materialized='table', labels={'env': 'prod'}) }} SELECT 1");
    let yaml = OwnedTableOptions::default();
    let failures = diff_options(&config, &yaml);
    assert_eq!(failures.len(), 1);
    assert!(failures[0].reason.contains("Label 'env'"));
    assert!(failures[0].reason.contains("not declared"));
}

#[test]
fn diff_options_labels_mismatch_error() {
    let config = sql_config_with(
        "{{ config(materialized='table', labels={'env': 'staging'}) }} SELECT 1",
    );
    let mut labels = StrMap::new();
    labels.insert("env", "prod".to_owned());
    let yaml = OwnedTableOptions {
        labels,
        ..Default::default()
    };
    let failures = diff_options(&config, &yaml);
    assert_eq!(failures.len(), 1);
    assert!(failures[0].reason.contains("Label 'env'"));
    assert!(failures[0].reason.contains("staging"));
    assert!(failures[0].reason.contains("prod"));
}

#[test]
fn diff_options_labels_yaml_only_ok() {
    let config = empty_config();
    let mut labels = StrMap::new();
    labels.insert("team", "analytics".to_owned());
    let yaml = OwnedTableOptions {
        labels,
        ..Default::default()
    };
    let failures = diff_options(&config, &yaml);
    assert!(failures.is_empty());
}

#[test]
fn diff_options_multiple_errors() {
    let config = sql_config_with(
        "{{ config(materialized='table', require_partition_filter=true, \
         partition_by={'field': 'ts', 'data_type': 'date'}, \
         description='Old desc', labels={'env': 'prod'}) }} SELECT 1",
    );
    let yaml = OwnedTableOptions {
        description: Some("New desc".to_owned()),
        // Missing require_partition_filter and labels
        ..Default::default()
    };
    let failures = diff_options(&config, &yaml);
    // Should have errors for: require_partition_filter (sql-only), description (mismatch), label env (sql-only)
    assert!(
        failures.len() >= 3,
        "expected at least 3 failures, got {:?}",
        failures.iter().map(|f| &f.reason).collect::<Vec<_>>()
    );
}



