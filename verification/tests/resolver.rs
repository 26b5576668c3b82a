use gcpx::macros::MacroDef;
use gcpx::model::{ModelRefData, PartitionConfig, ResolvedSql, SourceDef};
use gcpx::options::TableOptions;
use gcpx::resolver::{assemble, resolve_segments, source_lookups, QuotedName, ResolveError};
use gcpx::strmap::StrMap;

/// The quoted reference of a plain table name, as the identifier quoting
/// writes it.
fn table_ref(project: &str, dataset: &str, name: &str) -> String {
    format!("`{}.{}.{}`", project, dataset, name)
}

fn quoted(names: &[String]) -> Vec<QuotedName> {
    names
        .iter()
        .map(|n| QuotedName { name: n.clone(), quoted: format!("`{}`", n) })
        .collect()
}

/// Resolves a model the way the provider does: resolution, then the quoted
/// reference of each source table, then assembly.
fn resolve(
    sql: &str,
    project: &str,
    _dataset: &str,
    sources: &StrMap<SourceDef>,
    model_refs: &StrMap<ModelRefData>,
    macros: &StrMap<MacroDef>,
) -> Result<ResolvedSql, ResolveError> {
    let res = resolve_segments(sql, sources, model_refs, macros)?;
    let refs: Vec<String> = source_lookups(&res)
        .iter()
        .map(|(d, t)| table_ref(project, d, t))
        .collect();
    Ok(assemble(&res, &refs))
}

#[allow(clippy::too_many_arguments)]
fn generate_ddl(
    project: &str,
    dataset: &str,
    name: &str,
    materialization: &str,
    resolved: &ResolvedSql,
    partition_by: Option<&PartitionConfig>,
    cluster_by: Option<&[String]>,
    options: Option<&TableOptions<'_>>,
) -> String {
    gcpx::resolver::generate_ddl(
        &table_ref(project, dataset, name),
        materialization,
        resolved,
        partition_by,
        cluster_by,
        options,
    )
}

fn generate_merge_ddl(
    project: &str,
    dataset: &str,
    name: &str,
    unique_keys: &[String],
    columns: &[String],
    resolved: &ResolvedSql,
) -> String {
    gcpx::resolver::generate_merge_ddl(
        &table_ref(project, dataset, name),
        &quoted(unique_keys),
        &quoted(columns),
        resolved,
    )
}

fn generate_delete_insert_ddl(
    project: &str,
    dataset: &str,
    name: &str,
    unique_keys: &[String],
    resolved: &ResolvedSql,
) -> String {
    gcpx::resolver::generate_delete_insert_ddl(&table_ref(project, dataset, name), &quoted(unique_keys), resolved)
}

fn generate_append_ddl(project: &str, dataset: &str, name: &str, resolved: &ResolvedSql) -> String {
    gcpx::resolver::generate_append_ddl(&table_ref(project, dataset, name), resolved)
}

fn generate_merge_replace_ddl(project: &str, dataset: &str, name: &str, resolved: &ResolvedSql) -> String {
    gcpx::resolver::generate_merge_replace_ddl(&table_ref(project, dataset, name), resolved)
}


fn make_sources() -> StrMap<SourceDef> {
    let mut sources = StrMap::new();
    sources.insert("raw",
        SourceDef {
            dataset: "raw_data".to_owned(),
            tables: vec!["customers".to_owned()],
        },
    );
    sources
}

#[test]
fn resolve_source() {
    let sql = "SELECT * FROM {{ source('raw', 'customers') }}";
    let sources = make_sources();
    let refs = StrMap::new();
    let macros = StrMap::new();
    let result = resolve(sql, "proj", "ds", &sources, &refs, &macros).unwrap();
    assert!(result.body.contains("`proj.raw_data.customers`"));
}

#[test]
fn resolve_non_ephemeral_ref() {
    let sql = "SELECT * FROM {{ ref('stg') }}";
    let sources = StrMap::new();
    let mut refs = StrMap::new();
    refs.insert("stg",
        ModelRefData {
            materialization: "view".to_owned(),
            resolved_ctes_json: String::new(),
            resolved_body: String::new(),
            table_ref: "`proj.ds.stg`".to_owned(),
            resolved_ddl: String::new(),
            resolved_sql: String::new(),
            workflow_yaml: String::new(),
        },
    );
    let macros = StrMap::new();
    let result = resolve(sql, "proj", "ds", &sources, &refs, &macros).unwrap();
    assert!(result.body.contains("`proj.ds.stg`"));
    assert!(result.ctes.is_empty());
}

#[test]
fn resolve_ephemeral_ref() {
    let sql = "SELECT * FROM {{ ref('eph') }}";
    let sources = StrMap::new();
    let mut refs = StrMap::new();
    refs.insert("eph",
        ModelRefData {
            materialization: "ephemeral".to_owned(),
            resolved_ctes_json: "[]".to_owned(),
            resolved_body: "SELECT 1".to_owned(),
            table_ref: String::new(),
            resolved_ddl: String::new(),
            resolved_sql: String::new(),
            workflow_yaml: String::new(),
        },
    );
    let macros = StrMap::new();
    let result = resolve(sql, "proj", "ds", &sources, &refs, &macros).unwrap();
    assert!(result.body.contains("__dbt__cte__eph"));
    assert_eq!(result.ctes.len(), 1);
    assert_eq!(result.ctes[0].0, "__dbt__cte__eph");
    assert_eq!(result.ctes[0].1, "SELECT 1");
}

#[test]
fn resolve_unknown_ref() {
    let sql = "SELECT * FROM {{ ref('missing') }}";
    let result = resolve(
        sql,
        "proj",
        "ds",
        &StrMap::new(),
        &StrMap::new(),
        &StrMap::new(),
    );
    assert!(result.is_err());
}

#[test]
fn resolve_with_macros() {
    let sql = "SELECT {{ sk('id') }} FROM {{ source('raw', 'customers') }}";
    let sources = make_sources();
    let refs = StrMap::new();
    let mut macros = StrMap::new();
    macros.insert("sk",
        MacroDef {
            args: vec!["cols".to_owned()],
            sql: "MD5({{ cols }})".to_owned(),
        },
    );
    let result = resolve(sql, "proj", "ds", &sources, &refs, &macros).unwrap();
    assert!(result.body.contains("MD5(id)"));
    assert!(result.body.contains("`proj.raw_data.customers`"));
}

// ── DDL generation ─────────────────────────────────────────────

#[test]
fn generate_ddl_table() {
    let resolved = ResolvedSql {
        ctes: vec![],
        body: "SELECT 1".to_owned(),
    };
    let ddl = generate_ddl("p", "d", "t", "table", &resolved, None, None, None);
    assert_eq!(ddl, "CREATE OR REPLACE TABLE `p.d.t` AS SELECT 1");
}

#[test]
fn generate_ddl_view() {
    let resolved = ResolvedSql {
        ctes: vec![],
        body: "SELECT 1".to_owned(),
    };
    let ddl = generate_ddl("p", "d", "v", "view", &resolved, None, None, None);
    assert_eq!(ddl, "CREATE OR REPLACE VIEW `p.d.v` AS SELECT 1");
}

#[test]
fn generate_ddl_ephemeral_empty() {
    let resolved = ResolvedSql {
        ctes: vec![],
        body: "SELECT 1".to_owned(),
    };
    let ddl = generate_ddl("p", "d", "e", "ephemeral", &resolved, None, None, None);
    assert!(ddl.is_empty());
}

#[test]
fn generate_ddl_with_partition_by() {
    let resolved = ResolvedSql {
        ctes: vec![],
        body: "SELECT 1".to_owned(),
    };
    let part = PartitionConfig {
        field: "order_date".to_owned(),
        data_type: "date".to_owned(),
        granularity: None,
    };
    let ddl = generate_ddl("p", "d", "t", "table", &resolved, Some(&part), None, None);
    assert!(ddl.contains("PARTITION BY order_date"));
}

#[test]
fn generate_ddl_with_cluster_by() {
    let resolved = ResolvedSql {
        ctes: vec![],
        body: "SELECT 1".to_owned(),
    };
    let cols = vec!["customer_id".to_owned(), "region".to_owned()];
    let ddl = generate_ddl("p", "d", "t", "table", &resolved, None, Some(&cols), None);
    assert!(ddl.contains("CLUSTER BY customer_id, region"));
}

#[test]
fn generate_ddl_partition_and_cluster() {
    let resolved = ResolvedSql {
        ctes: vec![],
        body: "SELECT 1".to_owned(),
    };
    let part = PartitionConfig {
        field: "ts".to_owned(),
        data_type: "timestamp".to_owned(),
        granularity: Some("day".to_owned()),
    };
    let cols = vec!["id".to_owned()];
    let ddl = generate_ddl(
        "p",
        "d",
        "t",
        "incremental",
        &resolved,
        Some(&part),
        Some(&cols),
        None,
    );
    assert!(ddl.contains("PARTITION BY TIMESTAMP_TRUNC(ts, DAY)"));
    assert!(ddl.contains("CLUSTER BY id"));
    assert!(ddl.contains("CREATE OR REPLACE TABLE"));
}

// ── MERGE DDL ──────────────────────────────────────────────────

#[test]
fn test_generate_merge_ddl_with_columns() {
    let resolved = ResolvedSql {
        ctes: vec![],
        body: "SELECT * FROM src".to_owned(),
    };
    let keys = vec!["id".to_owned()];
    let columns = vec!["id".to_owned(), "name".to_owned(), "email".to_owned()];
    let ddl = generate_merge_ddl("p", "d", "t", &keys, &columns, &resolved);
    assert!(ddl.contains("MERGE `p.d.t` T USING"));
    assert!(ddl.contains("ON T.`id` = S.`id`"));
    assert!(ddl.contains("WHEN MATCHED THEN UPDATE SET"));
    assert!(ddl.contains("T.`name` = S.`name`"));
    assert!(ddl.contains("T.`email` = S.`email`"));
    assert!(!ddl.contains("T.`id` = S.`id`,"));
    assert!(ddl.contains("WHEN NOT MATCHED THEN INSERT ROW"));
}

#[test]
fn test_generate_merge_ddl_excludes_key() {
    let resolved = ResolvedSql {
        ctes: vec![],
        body: "SELECT 1".to_owned(),
    };
    let keys = vec!["pk".to_owned()];
    let columns = vec!["pk".to_owned(), "val".to_owned()];
    let ddl = generate_merge_ddl("p", "d", "t", &keys, &columns, &resolved);
    let update_part = ddl.split("UPDATE SET ").nth(1).unwrap();
    assert!(!update_part.starts_with("T.`pk`"));
    assert!(update_part.contains("T.`val` = S.`val`"));
}

#[test]
fn test_composite_unique_key_merge() {
    let resolved = ResolvedSql {
        ctes: vec![],
        body: "SELECT 1".to_owned(),
    };
    let keys = vec!["order_id".to_owned(), "line_item_id".to_owned()];
    let columns = vec![
        "order_id".to_owned(),
        "line_item_id".to_owned(),
        "amount".to_owned(),
    ];
    let ddl = generate_merge_ddl("p", "d", "t", &keys, &columns, &resolved);
    assert!(ddl.contains("T.`order_id` = S.`order_id` AND T.`line_item_id` = S.`line_item_id`"));
    assert!(ddl.contains("T.`amount` = S.`amount`"));
}

// ── DELETE+INSERT DDL ──────────────────────────────────────────

#[test]
fn test_generate_delete_insert_ddl() {
    let resolved = ResolvedSql {
        ctes: vec![],
        body: "SELECT * FROM src".to_owned(),
    };
    let keys = vec!["id".to_owned()];
    let ddl = generate_delete_insert_ddl("p", "d", "t", &keys, &resolved);
    assert!(ddl.contains("BEGIN"));
    assert!(ddl.contains("CREATE TEMP TABLE __src"));
    assert!(ddl.contains("DELETE FROM `p.d.t`"));
    assert!(ddl.contains("INSERT INTO `p.d.t` SELECT * FROM __src"));
    assert!(ddl.contains("DROP TABLE __src"));
    assert!(ddl.contains("END;"));
}

#[test]
fn test_generate_delete_insert_composite_key() {
    let resolved = ResolvedSql {
        ctes: vec![],
        body: "SELECT 1".to_owned(),
    };
    let keys = vec!["a".to_owned(), "b".to_owned()];
    let ddl = generate_delete_insert_ddl("p", "d", "t", &keys, &resolved);
    assert!(ddl.contains("(`a`, `b`) IN (SELECT `a`, `b` FROM __src)"));
}

// ── APPEND DDL ─────────────────────────────────────────────────

#[test]
fn test_generate_append_ddl() {
    let resolved = ResolvedSql {
        ctes: vec![],
        body: "SELECT * FROM src".to_owned(),
    };
    let ddl = generate_append_ddl("p", "d", "t", &resolved);
    assert_eq!(ddl, "INSERT INTO `p.d.t` SELECT * FROM src");
}

// ── MERGE REPLACE DDL ──────────────────────────────────────────

#[test]
fn test_generate_merge_replace_ddl() {
    let resolved = ResolvedSql {
        ctes: vec![],
        body: "SELECT 1 AS id".to_owned(),
    };
    let ddl = generate_merge_replace_ddl("p", "d", "t", &resolved);
    assert!(ddl.contains("MERGE `p.d.t` T USING"));
    assert!(ddl.contains("ON FALSE"));
    assert!(ddl.contains("WHEN NOT MATCHED BY TARGET THEN INSERT ROW"));
    assert!(ddl.contains("WHEN NOT MATCHED BY SOURCE THEN DELETE"));
}

// ── Existing tests preserved ───────────────────────────────────

fn make_ephemeral_ref(_name: &str, body: &str, upstream_ctes: &str) -> ModelRefData {
    ModelRefData {
        materialization: "ephemeral".to_owned(),
        resolved_ctes_json: upstream_ctes.to_owned(),
        resolved_body: body.to_owned(),
        table_ref: String::new(),
        resolved_ddl: String::new(),
        resolved_sql: String::new(),
        workflow_yaml: String::new(),
    }
}

fn make_table_ref(_name: &str, table_ref: &str) -> ModelRefData {
    ModelRefData {
        materialization: "view".to_owned(),
        resolved_ctes_json: String::new(),
        resolved_body: String::new(),
        table_ref: table_ref.to_owned(),
        resolved_ddl: String::new(),
        resolved_sql: String::new(),
        workflow_yaml: String::new(),
    }
}

#[test]
fn resolve_transitive_ephemeral_chain() {
    let sql = "SELECT * FROM {{ ref('b') }}";
    let mut refs = StrMap::new();
    let upstream_ctes =
        serde_json::to_string(&vec![("__dbt__cte__a".to_owned(), "SELECT 1".to_owned())])
            .unwrap();
    refs.insert("b",
        make_ephemeral_ref("b", "SELECT * FROM __dbt__cte__a", &upstream_ctes),
    );
    let result = resolve(sql, "p", "d", &StrMap::new(), &refs, &StrMap::new()).unwrap();
    assert_eq!(result.ctes.len(), 2);
    assert_eq!(result.ctes[0].0, "__dbt__cte__a");
    assert_eq!(result.ctes[1].0, "__dbt__cte__b");
    assert!(result.body.contains("__dbt__cte__b"));
}

#[test]
fn resolve_multiple_refs_same_model() {
    let sql = "SELECT * FROM {{ ref('x') }} UNION ALL SELECT * FROM {{ ref('x') }}";
    let mut refs = StrMap::new();
    refs.insert("x", make_ephemeral_ref("x", "SELECT 1", "[]"));
    let result = resolve(sql, "p", "d", &StrMap::new(), &refs, &StrMap::new()).unwrap();
    assert_eq!(result.ctes.len(), 1);
    assert_eq!(result.ctes[0].0, "__dbt__cte__x");
    let count = result.body.matches("__dbt__cte__x").count();
    assert_eq!(count, 2);
}

#[test]
fn resolve_mixed_refs() {
    let sql = "SELECT * FROM {{ ref('eph') }} JOIN {{ ref('tbl') }}";
    let mut refs = StrMap::new();
    refs.insert("eph",
        make_ephemeral_ref("eph", "SELECT 1", "[]"),
    );
    refs.insert("tbl", make_table_ref("tbl", "`p.d.tbl`"));
    let result = resolve(sql, "p", "d", &StrMap::new(), &refs, &StrMap::new()).unwrap();
    assert_eq!(result.ctes.len(), 1);
    assert!(result.body.contains("__dbt__cte__eph"));
    assert!(result.body.contains("`p.d.tbl`"));
}

#[test]
fn resolve_source_and_ref_combined() {
    let sql = "SELECT * FROM {{ source('raw', 'customers') }} JOIN {{ ref('stg') }}";
    let sources = make_sources();
    let mut refs = StrMap::new();
    refs.insert("stg", make_table_ref("stg", "`p.d.stg`"));
    let result = resolve(sql, "p", "d", &sources, &refs, &StrMap::new()).unwrap();
    assert!(result.body.contains("`p.raw_data.customers`"));
    assert!(result.body.contains("`p.d.stg`"));
}

#[test]
fn resolve_multiple_sources() {
    let mut sources = StrMap::new();
    sources.insert("raw",
        SourceDef {
            dataset: "raw_data".to_owned(),
            tables: vec!["customers".to_owned(), "orders".to_owned()],
        },
    );
    sources.insert("staging",
        SourceDef {
            dataset: "stg_data".to_owned(),
            tables: vec!["products".to_owned()],
        },
    );
    let sql = "SELECT * FROM {{ source('raw', 'customers') }} JOIN {{ source('staging', 'products') }}";
    let result = resolve(sql, "p", "d", &sources, &StrMap::new(), &StrMap::new()).unwrap();
    assert!(result.body.contains("`p.raw_data.customers`"));
    assert!(result.body.contains("`p.stg_data.products`"));
}

#[test]
fn resolve_multiple_macros() {
    let mut macros = StrMap::new();
    macros.insert("upper",
        MacroDef {
            args: vec!["x".to_owned()],
            sql: "UPPER({{ x }})".to_owned(),
        },
    );
    macros.insert("lower",
        MacroDef {
            args: vec!["x".to_owned()],
            sql: "LOWER({{ x }})".to_owned(),
        },
    );
    let sql = "SELECT {{ upper('name') }}, {{ lower('email') }}";
    let result = resolve(sql, "p", "d", &StrMap::new(), &StrMap::new(), &macros).unwrap();
    assert!(result.body.contains("UPPER(name)"));
    assert!(result.body.contains("LOWER(email)"));
}

#[test]
fn resolve_empty_sql_after_config() {
    let sql = "{{ config(materialized='table') }}";
    let result = resolve(
        sql,
        "p",
        "d",
        &StrMap::new(),
        &StrMap::new(),
        &StrMap::new(),
    )
    .unwrap();
    assert!(result.body.is_empty() || result.body.trim().is_empty());
}

#[test]
fn generate_ddl_materialized_view() {
    let resolved = ResolvedSql {
        ctes: vec![],
        body: "SELECT 1".to_owned(),
    };
    let ddl = generate_ddl(
        "p",
        "d",
        "mv",
        "materialized_view",
        &resolved,
        None,
        None,
        None,
    );
    assert_eq!(ddl, "CREATE MATERIALIZED VIEW `p.d.mv` AS SELECT 1");
}

#[test]
fn generate_ddl_with_ctes() {
    let resolved = ResolvedSql {
        ctes: vec![("__dbt__cte__x".to_owned(), "SELECT 1".to_owned())],
        body: "SELECT * FROM __dbt__cte__x".to_owned(),
    };
    let ddl = generate_ddl("p", "d", "t", "table", &resolved, None, None, None);
    assert!(ddl.contains("WITH __dbt__cte__x AS (SELECT 1)"));
    assert!(ddl.contains("SELECT * FROM __dbt__cte__x"));
    assert!(ddl.starts_with("CREATE OR REPLACE TABLE"));
}

#[test]
fn resolve_deep_ephemeral_chain_5_levels() {
    let mut refs = StrMap::new();
    let ctes_abcd = serde_json::to_string(&vec![
        ("__dbt__cte__a".to_owned(), "SELECT 1".to_owned()),
        (
            "__dbt__cte__b".to_owned(),
            "SELECT * FROM __dbt__cte__a".to_owned(),
        ),
        (
            "__dbt__cte__c".to_owned(),
            "SELECT * FROM __dbt__cte__b".to_owned(),
        ),
        (
            "__dbt__cte__d".to_owned(),
            "SELECT * FROM __dbt__cte__c".to_owned(),
        ),
    ])
    .unwrap();
    refs.insert("e",
        make_ephemeral_ref("e", "SELECT * FROM __dbt__cte__d", &ctes_abcd),
    );
    let sql = "SELECT * FROM {{ ref('e') }}";
    let result = resolve(sql, "p", "d", &StrMap::new(), &refs, &StrMap::new()).unwrap();
    assert_eq!(result.ctes.len(), 5);
    assert_eq!(result.ctes[0].0, "__dbt__cte__a");
    assert_eq!(result.ctes[4].0, "__dbt__cte__e");
}

#[test]
fn resolve_diamond_dependency() {
    let mut refs = StrMap::new();
    let a_ctes =
        serde_json::to_string(&vec![("__dbt__cte__a".to_owned(), "SELECT 1".to_owned())])
            .unwrap();
    refs.insert("b",
        make_ephemeral_ref("b", "SELECT * FROM __dbt__cte__a WHERE x=1", &a_ctes),
    );
    refs.insert("c",
        make_ephemeral_ref("c", "SELECT * FROM __dbt__cte__a WHERE x=2", &a_ctes),
    );
    let sql = "SELECT * FROM {{ ref('b') }} UNION ALL SELECT * FROM {{ ref('c') }}";
    let result = resolve(sql, "p", "d", &StrMap::new(), &refs, &StrMap::new()).unwrap();
    let a_count = result
        .ctes
        .iter()
        .filter(|(n, _)| n == "__dbt__cte__a")
        .count();
    assert_eq!(a_count, 1);
    assert!(result.ctes.iter().any(|(n, _)| n == "__dbt__cte__b"));
    assert!(result.ctes.iter().any(|(n, _)| n == "__dbt__cte__c"));
}

#[test]
fn generate_ddl_incremental_creates_table() {
    let resolved = ResolvedSql {
        ctes: vec![],
        body: "SELECT * FROM source_table".to_owned(),
    };
    let ddl = generate_ddl("p", "d", "t", "incremental", &resolved, None, None, None);
    assert_eq!(
        ddl,
        "CREATE OR REPLACE TABLE `p.d.t` AS SELECT * FROM source_table"
    );
}

#[test]
fn generate_merge_ddl_with_ctes() {
    let resolved = ResolvedSql {
        ctes: vec![("__dbt__cte__x".to_owned(), "SELECT 1".to_owned())],
        body: "SELECT * FROM __dbt__cte__x".to_owned(),
    };
    let keys = vec!["order_id".to_owned()];
    let columns = vec!["order_id".to_owned(), "amount".to_owned()];
    let ddl = generate_merge_ddl("p", "d", "t", &keys, &columns, &resolved);
    assert!(ddl.contains("WITH __dbt__cte__x AS (SELECT 1)"));
    assert!(ddl.contains("ON T.`order_id` = S.`order_id`"));
}

// ── OPTIONS tests ───────────────────────────────────────────────

#[test]
fn generate_ddl_table_with_options() {
    let resolved = ResolvedSql {
        ctes: vec![],
        body: "SELECT 1".to_owned(),
    };
    let opts = TableOptions {
        require_partition_filter: Some(true),
        friendly_name: Some("My Table"),
        ..Default::default()
    };
    let part = PartitionConfig {
        field: "ts".to_owned(),
        data_type: "date".to_owned(),
        granularity: None,
    };
    let ddl = generate_ddl(
        "p",
        "d",
        "t",
        "table",
        &resolved,
        Some(&part),
        None,
        Some(&opts),
    );
    assert!(ddl.contains("PARTITION BY ts"));
    assert!(ddl.contains("OPTIONS("));
    assert!(ddl.contains("require_partition_filter = true"));
    assert!(ddl.contains("friendly_name = \"My Table\""));
    assert!(ddl.contains("AS SELECT 1"));
}

#[test]
fn generate_ddl_view_with_options() {
    let resolved = ResolvedSql {
        ctes: vec![],
        body: "SELECT 1".to_owned(),
    };
    let opts = TableOptions {
        description: Some("test view"),
        ..Default::default()
    };
    let ddl = generate_ddl("p", "d", "v", "view", &resolved, None, None, Some(&opts));
    assert!(ddl.contains("CREATE OR REPLACE VIEW"));
    assert!(ddl.contains("OPTIONS(description = \"test view\")"));
}

#[test]
fn generate_ddl_mv_with_options() {
    let resolved = ResolvedSql {
        ctes: vec![],
        body: "SELECT 1".to_owned(),
    };
    let opts = TableOptions {
        enable_refresh: Some(true),
        refresh_interval_minutes: Some(30),
        ..Default::default()
    };
    let ddl = generate_ddl(
        "p",
        "d",
        "mv",
        "materialized_view",
        &resolved,
        None,
        None,
        Some(&opts),
    );
    assert!(ddl.contains("CREATE MATERIALIZED VIEW"));
    assert!(ddl.contains("enable_refresh = true"));
    assert!(ddl.contains("refresh_interval_minutes = 30"));
}

#[test]
fn generate_ddl_empty_options_no_clause() {
    let resolved = ResolvedSql {
        ctes: vec![],
        body: "SELECT 1".to_owned(),
    };
    let opts = TableOptions::default();
    let ddl = generate_ddl("p", "d", "t", "table", &resolved, None, None, Some(&opts));
    assert!(!ddl.contains("OPTIONS"));
    assert_eq!(ddl, "CREATE OR REPLACE TABLE `p.d.t` AS SELECT 1");
}






