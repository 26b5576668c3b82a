use gcpx::snapshot::{
    generate_hard_delete_sql, generate_insert_sql, generate_invalidate_sql,
    generate_snapshot_create_ddl, generate_snapshot_workflow_yaml, SnapshotInputs, SnapshotRefs,
};

fn base_inputs<'a>() -> SnapshotInputs<'a> {
    SnapshotInputs {
        project: "proj",
        region: "us-central1",
        dataset: "snapshots",
        name: "snap_customers",
        source_sql: "SELECT * FROM `proj.analytics.dim_customers`",
        unique_key: "customer_id",
        strategy: "timestamp",
        updated_at: "updated_at",
        schedule: "0 2 * * *",
        time_zone: "UTC",
        service_account: "sa@iam",
        description: None,
        paused: None,
        invalidate_hard_deletes: None,
        auto_optimize: None,
        source_schema: None,
    }
}

/// The quoted names the identifier-quoting code makes for `base_inputs`.
fn refs() -> SnapshotRefs<'static> {
    SnapshotRefs {
        table_ref: "`proj.snapshots.snap_customers`",
        key: "customer_id",
        ts: "updated_at",
    }
}

#[test]
fn create_ddl_contains_scd_columns() {
    let inputs = base_inputs();
    let ddl = generate_snapshot_create_ddl(&inputs, &refs());
    assert!(ddl.contains("CREATE TABLE IF NOT EXISTS `proj.snapshots.snap_customers`"));
    assert!(ddl.contains("dbt_scd_id"));
    assert!(ddl.contains("dbt_updated_at"));
    assert!(ddl.contains("dbt_valid_from"));
    assert!(ddl.contains("dbt_valid_to"));
    assert!(ddl.contains("CAST(NULL AS TIMESTAMP)"));
}

#[test]
fn create_ddl_auto_optimize_default() {
    let inputs = base_inputs();
    let ddl = generate_snapshot_create_ddl(&inputs, &refs());
    assert!(ddl.contains("PARTITION BY DATE(dbt_valid_from)"));
    assert!(ddl.contains("CLUSTER BY `customer_id`"));
}

#[test]
fn create_ddl_auto_optimize_true() {
    let mut inputs = base_inputs();
    inputs.auto_optimize = Some(true);
    let ddl = generate_snapshot_create_ddl(&inputs, &refs());
    assert!(ddl.contains("PARTITION BY DATE(dbt_valid_from)"));
    assert!(ddl.contains("CLUSTER BY `customer_id`"));
}

#[test]
fn create_ddl_auto_optimize_false() {
    let mut inputs = base_inputs();
    inputs.auto_optimize = Some(false);
    let ddl = generate_snapshot_create_ddl(&inputs, &refs());
    assert!(!ddl.contains("PARTITION BY"));
    assert!(!ddl.contains("CLUSTER BY"));
}

#[test]
fn invalidate_sql_targets_changed_rows() {
    let inputs = base_inputs();
    let sql = generate_invalidate_sql(&inputs, &refs());
    assert!(sql.contains("UPDATE `proj.snapshots.snap_customers` snap"));
    assert!(sql.contains("SET snap.dbt_valid_to = CURRENT_TIMESTAMP()"));
    assert!(sql.contains("WHERE snap.dbt_valid_to IS NULL"));
    assert!(sql.contains("src.`updated_at` > snap.dbt_updated_at"));
}

#[test]
fn insert_sql_joins_on_key() {
    let inputs = base_inputs();
    let sql = generate_insert_sql(&inputs, &refs());
    assert!(sql.contains("INSERT INTO `proj.snapshots.snap_customers`"));
    assert!(sql.contains("ON src.`customer_id` = snap.`customer_id`"));
    assert!(sql.contains("snap.dbt_valid_to IS NULL"));
}

#[test]
fn hard_delete_sql_invalidates_missing() {
    let inputs = base_inputs();
    let sql = generate_hard_delete_sql(&inputs, &refs());
    assert!(sql.contains("NOT IN"));
    assert!(sql.contains("dbt_valid_to = CURRENT_TIMESTAMP()"));
}

#[test]
fn workflow_has_two_steps() {
    let inputs = base_inputs();
    let yaml = generate_snapshot_workflow_yaml(&inputs, &refs());
    assert!(yaml.contains("invalidateChanged:"));
    assert!(yaml.contains("insertNewVersions:"));
    assert!(!yaml.contains("invalidateHardDeletes:"));
}

#[test]
fn workflow_with_hard_deletes_has_three_steps() {
    let mut inputs = base_inputs();
    inputs.invalidate_hard_deletes = Some(true);
    let yaml = generate_snapshot_workflow_yaml(&inputs, &refs());
    assert!(yaml.contains("invalidateChanged:"));
    assert!(yaml.contains("insertNewVersions:"));
    assert!(yaml.contains("invalidateHardDeletes:"));
}

#[test]
fn workflow_steps_use_bigquery_connector() {
    let inputs = base_inputs();
    let yaml = generate_snapshot_workflow_yaml(&inputs, &refs());
    // Each step should use the BQ connector.
    let bq_calls = yaml.matches("googleapis.bigquery.v2.jobs.query").count();
    assert_eq!(bq_calls, 2);
}

#[test]
fn workflow_contains_project() {
    let inputs = base_inputs();
    let yaml = generate_snapshot_workflow_yaml(&inputs, &refs());
    assert!(yaml.contains("projectId: proj"));
}
