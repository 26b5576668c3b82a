use gcpx::checks::{validate_export, validate_ingest};
use gcpx::dataproc::{DatabaseType, DataprocJobState, DestinationType};
use gcpx::jobprops::{
    build_export_output, build_ingest_output, build_snapshot_output, build_sqljob_output,
    parse_export_inputs, parse_ingest_inputs, parse_snapshot_inputs, parse_sqljob_inputs,
};
use gcpx::props::{PropValue, Props};
use gcpx::scheduler::{SqlJobInputs, SqlJobState};
use gcpx::snapshot::{SnapshotInputs, SnapshotState};

fn text(s: &str) -> PropValue {
    PropValue::Text(s.to_owned())
}

fn props(fields: Vec<(&str, PropValue)>) -> Props {
    let mut p = Props::new();
    for (k, v) in fields {
        p.fields.insert(k, v);
    }
    p
}

fn without(fields: Vec<(&'static str, PropValue)>, key: &str) -> Props {
    props(fields.into_iter().filter(|(k, _)| *k != key).collect())
}

fn list(items: &[&str]) -> PropValue {
    PropValue::List(items.iter().map(|s| text(s)).collect())
}

// ---- SQL jobs ----

fn sqljob_fields(project: &str, region: &str, name: &str, sql: &str, schedule: &str, sa: &str) -> Vec<(&'static str, PropValue)> {
    vec![
        ("project", text(project)),
        ("region", text(region)),
        ("name", text(name)),
        ("sql", text(sql)),
        ("schedule", text(schedule)),
        ("timeZone", text("UTC")),
        ("serviceAccount", text(sa)),
    ]
}

#[test]
fn parse_sqljob_inputs_all_fields() {
    let mut fields = sqljob_fields("proj", "us-central1", "my-job", "SELECT 1", "0 * * * *", "sa@iam");
    fields.push(("description", text("test job")));
    fields.push(("paused", PropValue::Bool(true)));
    fields.push(("retryCount", PropValue::Number(3)));
    fields.push(("attemptDeadline", text("300s")));
    let s = props(fields);
    let inputs = parse_sqljob_inputs(&s).unwrap();
    assert_eq!(inputs.project, "proj");
    assert_eq!(inputs.region, "us-central1");
    assert_eq!(inputs.name, "my-job");
    assert_eq!(inputs.sql, "SELECT 1");
    assert_eq!(inputs.schedule, "0 * * * *");
    assert_eq!(inputs.time_zone, "UTC");
    assert_eq!(inputs.service_account, "sa@iam");
    assert_eq!(inputs.description, Some("test job"));
    assert_eq!(inputs.paused, Some(true));
    assert_eq!(inputs.retry_count, Some(3));
    assert_eq!(inputs.attempt_deadline, Some("300s"));
}

#[test]
fn parse_sqljob_inputs_defaults() {
    let s = props(sqljob_fields("proj", "us-central1", "j", "SELECT 1", "0 * * * *", "sa@iam"));
    let inputs = parse_sqljob_inputs(&s).unwrap();
    assert_eq!(inputs.time_zone, "UTC");
    assert!(inputs.description.is_none());
    assert!(inputs.paused.is_none());
    assert!(inputs.retry_count.is_none());
    assert!(inputs.attempt_deadline.is_none());
}

#[test]
fn parse_sqljob_inputs_missing_required() {
    let s = props(vec![
        ("region", text("us-central1")),
        ("name", text("j")),
        ("sql", text("SELECT 1")),
        ("schedule", text("0 * * * *")),
        ("serviceAccount", text("sa@iam")),
    ]);
    let err = parse_sqljob_inputs(&s).unwrap_err();
    assert!(err.contains("missing required field 'project'"));
    let s = props(vec![
        ("project", text("proj")),
        ("region", text("us-central1")),
        ("name", text("j")),
        ("schedule", text("0 * * * *")),
        ("serviceAccount", text("sa@iam")),
    ]);
    let err = parse_sqljob_inputs(&s).unwrap_err();
    assert!(err.contains("missing required field 'sql'"));
}

#[test]
fn build_sqljob_output_all_fields() {
    let inputs = SqlJobInputs {
        project: "proj",
        region: "us-central1",
        name: "my-job",
        sql: "SELECT 1",
        schedule: "0 * * * *",
        time_zone: "UTC",
        service_account: "sa@iam",
        description: Some("a job"),
        paused: Some(false),
        retry_count: Some(2),
        attempt_deadline: Some("600s"),
    };
    let state = SqlJobState {
        workflow_name: "wf-my-job".to_owned(),
        scheduler_job_name: "sched-my-job".to_owned(),
        state: "ENABLED".to_owned(),
        next_run_time: "2026-01-01T00:00:00Z".to_owned(),
    };
    let output = build_sqljob_output(&inputs, &state);
    assert_eq!(output.get_str("project"), Some("proj"));
    assert_eq!(output.get_str("region"), Some("us-central1"));
    assert_eq!(output.get_str("name"), Some("my-job"));
    assert_eq!(output.get_str("sql"), Some("SELECT 1"));
    assert_eq!(output.get_str("schedule"), Some("0 * * * *"));
    assert_eq!(output.get_str("workflowName"), Some("wf-my-job"));
    assert_eq!(output.get_str("schedulerJobName"), Some("sched-my-job"));
    assert_eq!(output.get_str("state"), Some("ENABLED"));
    assert_eq!(output.get_str("description"), Some("a job"));
    assert_eq!(output.get_bool("paused"), Some(false));
    assert_eq!(output.get_number("retryCount"), Some(2));
}

#[test]
fn retry_count_saturates_at_the_bounds_of_i32() {
    let mut fields = sqljob_fields("p", "r", "n", "SELECT 1", "* * * * *", "sa");
    fields.push(("retryCount", PropValue::Number(i64::MAX)));
    let s = props(fields);
    assert_eq!(parse_sqljob_inputs(&s).unwrap().retry_count, Some(i32::MAX));
    let mut fields = sqljob_fields("p", "r", "n", "SELECT 1", "* * * * *", "sa");
    fields.push(("retryCount", PropValue::Number(-5_000_000_000)));
    let s = props(fields);
    assert_eq!(parse_sqljob_inputs(&s).unwrap().retry_count, Some(i32::MIN));
    let mut fields = sqljob_fields("p", "r", "n", "SELECT 1", "* * * * *", "sa");
    fields.push(("retryCount", text("3")));
    let s = props(fields);
    assert_eq!(parse_sqljob_inputs(&s).unwrap().retry_count, None);
}

// ---- ingest and export jobs ----

fn ingest_fields() -> Vec<(&'static str, PropValue)> {
    vec![
        ("project", text("proj")),
        ("region", text("us-central1")),
        ("name", text("my-ingest")),
        ("databaseType", text("oracle")),
        ("connectionString", text("jdbc:oracle:thin:@host:1521:db")),
        ("secret", text("projects/proj/secrets/db-pw")),
        ("query", text("SELECT * FROM users")),
        ("destination", text("gcs")),
        ("landingBucket", text("my-landing")),
        ("imageUri", text("gcr.io/proj/spark:latest")),
        ("scriptUri", text("gs://bucket/main.py")),
        ("jarUris", list(&["gs://jars/ojdbc8.jar"])),
        ("serviceAccount", text("sa@proj.iam.gserviceaccount.com")),
        ("stagingBucket", text("my-staging")),
        ("processBucket", text("my-process")),
        ("subnetworkUri", text("projects/proj/regions/us-central1/subnetworks/default")),
        ("schedule", text("0 2 * * *")),
        ("timeZone", text("America/New_York")),
    ]
}

fn export_fields() -> Vec<(&'static str, PropValue)> {
    vec![
        ("project", text("proj")),
        ("region", text("us-central1")),
        ("name", text("my-export")),
        ("sourceDataset", text("analytics")),
        ("sourceTable", text("daily_report")),
        ("databaseType", text("mssql")),
        ("connectionString", text("jdbc:sqlserver://host:1433;databaseName=db")),
        ("secret", text("projects/proj/secrets/db-pw")),
        ("destTable", text("test.dbo.daily_report")),
        ("imageUri", text("gcr.io/proj/spark:latest")),
        ("scriptUri", text("gs://bucket/export.py")),
        ("serviceAccount", text("sa@proj.iam.gserviceaccount.com")),
        ("stagingBucket", text("my-staging")),
        ("processBucket", text("my-process")),
        ("subnetworkUri", text("projects/proj/regions/us-central1/subnetworks/default")),
        ("schedule", text("0 4 * * *")),
    ]
}

fn with(fields: Vec<(&'static str, PropValue)>, key: &'static str, value: PropValue) -> Props {
    let mut p = props(fields);
    p.fields.insert(key, value);
    p
}

#[test]
fn test_parse_ingest_all_fields() {
    let s = props(ingest_fields());
    let inputs = parse_ingest_inputs(&s).unwrap();
    assert_eq!(inputs.project, "proj");
    assert_eq!(inputs.region, "us-central1");
    assert_eq!(inputs.name, "my-ingest");
    assert_eq!(inputs.database_type, DatabaseType::Oracle);
    assert_eq!(inputs.connection_string, "jdbc:oracle:thin:@host:1521:db");
    assert_eq!(inputs.secret, "projects/proj/secrets/db-pw");
    assert_eq!(inputs.query, "SELECT * FROM users");
    assert_eq!(inputs.destination, DestinationType::Gcs);
    assert_eq!(inputs.landing_bucket, Some("my-landing"));
    assert_eq!(inputs.image_uri, "gcr.io/proj/spark:latest");
    assert_eq!(inputs.jar_uris, vec!["gs://jars/ojdbc8.jar"]);
    assert_eq!(inputs.time_zone, "America/New_York");
}

#[test]
fn test_parse_ingest_defaults() {
    let fields: Vec<(&'static str, PropValue)> = ingest_fields()
        .into_iter()
        .filter(|(k, _)| *k != "timeZone" && *k != "jarUris")
        .collect();
    let s = props(fields);
    let inputs = parse_ingest_inputs(&s).unwrap();
    assert_eq!(inputs.time_zone, "UTC");
    assert_eq!(inputs.runtime_version, "2.2");
    assert!(inputs.jar_uris.is_empty());
    assert_eq!(inputs.network_tags, vec!["spark"]);
}

#[test]
fn test_parse_ingest_missing_project() {
    let s = without(ingest_fields(), "project");
    let err = parse_ingest_inputs(&s).unwrap_err();
    assert!(err.contains("project"));
}

#[test]
fn test_parse_ingest_missing_query() {
    let s = without(ingest_fields(), "query");
    let err = parse_ingest_inputs(&s).unwrap_err();
    assert!(err.contains("query"));
}

#[test]
fn test_parse_ingest_invalid_database_type() {
    let s = with(ingest_fields(), "databaseType", text("sqlite"));
    let err = parse_ingest_inputs(&s).unwrap_err();
    assert!(err.contains("invalid databaseType"));
    assert_eq!(err, "invalid databaseType 'sqlite': must be one of oracle, mssql, mysql, postgres");
}

#[test]
fn test_parse_ingest_invalid_destination() {
    let s = with(ingest_fields(), "destination", text("s3"));
    let err = parse_ingest_inputs(&s).unwrap_err();
    assert!(err.contains("invalid destination"));
}

#[test]
fn test_parse_export_all_fields() {
    let s = props(export_fields());
    let inputs = parse_export_inputs(&s).unwrap();
    assert_eq!(inputs.project, "proj");
    assert_eq!(inputs.source_dataset, "analytics");
    assert_eq!(inputs.source_table, "daily_report");
    assert_eq!(inputs.database_type, DatabaseType::Mssql);
    assert_eq!(inputs.dest_table, "test.dbo.daily_report");
}

#[test]
fn test_parse_export_missing_source_dataset() {
    let s = without(export_fields(), "sourceDataset");
    let err = parse_export_inputs(&s).unwrap_err();
    assert!(err.contains("sourceDataset"));
}

#[test]
fn test_build_ingest_output_roundtrip() {
    let s = props(ingest_fields());
    let inputs = parse_ingest_inputs(&s).unwrap();
    let state = DataprocJobState {
        workflow_name: "wf".to_owned(),
        scheduler_job_name: "sched".to_owned(),
        state: "ENABLED".to_owned(),
        next_run_time: "2026-01-01T00:00:00Z".to_owned(),
        definition_fingerprint: "fp".to_owned(),
    };
    let output = build_ingest_output(&inputs, &state);
    assert_eq!(output.get_str("project"), Some("proj"));
    assert_eq!(output.get_str("databaseType"), Some("oracle"));
    assert_eq!(output.get_str("destination"), Some("gcs"));
    assert_eq!(output.get_str("workflowName"), Some("wf"));
    assert_eq!(output.get_str("definitionFingerprint"), Some("fp"));
}

#[test]
fn test_build_export_output_roundtrip() {
    let s = props(export_fields());
    let inputs = parse_export_inputs(&s).unwrap();
    let state = DataprocJobState {
        workflow_name: "wf".to_owned(),
        scheduler_job_name: "sched".to_owned(),
        state: "ENABLED".to_owned(),
        next_run_time: String::new(),
        definition_fingerprint: "fp".to_owned(),
    };
    let output = build_export_output(&inputs, &state);
    assert_eq!(output.get_str("sourceDataset"), Some("analytics"));
    assert_eq!(output.get_str("destTable"), Some("test.dbo.daily_report"));
    assert_eq!(output.get_string_list("networkTags"), vec!["spark"]);
}

#[test]
fn output_omits_an_empty_image() {
    let fields: Vec<(&'static str, PropValue)> = export_fields().into_iter().filter(|(k, _)| *k != "imageUri").collect();
    let s = props(fields);
    let inputs = parse_export_inputs(&s).unwrap();
    assert_eq!(inputs.image_uri, "");
    let state = DataprocJobState {
        workflow_name: String::new(),
        scheduler_job_name: String::new(),
        state: String::new(),
        next_run_time: String::new(),
        definition_fingerprint: String::new(),
    };
    let output = build_export_output(&inputs, &state);
    assert_eq!(output.get_str("imageUri"), None);
}

// ---- checks on parsed inputs ----

fn export_check_fields() -> Vec<(&'static str, PropValue)> {
    vec![
        ("project", text("proj")),
        ("region", text("us-central1")),
        ("name", text("my-export")),
        ("sourceDataset", text("analytics")),
        ("sourceTable", text("daily")),
        ("databaseType", text("mssql")),
        ("connectionString", text("jdbc:sqlserver://host:1433")),
        ("secret", text("projects/p/secrets/s")),
        ("destTable", text("test.dbo.daily")),
        ("imageUri", text("gcr.io/img")),
        ("scriptUri", text("gs://bucket/export.py")),
        ("serviceAccount", text("sa@iam")),
        ("stagingBucket", text("staging")),
        ("processBucket", text("process")),
        ("subnetworkUri", text("subnet")),
        ("schedule", text("0 4 * * *")),
        ("timeZone", text("UTC")),
    ]
}

#[test]
fn test_check_export_valid() {
    let s = props(export_check_fields());
    let inputs = parse_export_inputs(&s).unwrap();
    let failures = validate_export(&inputs);
    assert!(failures.is_empty());
}

#[test]
fn test_check_export_jdbc_prefix_mismatch() {
    let s = with(export_check_fields(), "connectionString", text("jdbc:oracle:thin:@host"));
    let inputs = parse_export_inputs(&s).unwrap();
    let failures = validate_export(&inputs);
    assert!(failures.iter().any(|f| f.property() == "connectionString"));
}

#[test]
fn test_check_export_missing_source_dataset() {
    let s = with(export_check_fields(), "sourceDataset", text(""));
    let inputs = parse_export_inputs(&s).unwrap();
    let failures = validate_export(&inputs);
    assert!(failures.iter().any(|f| f.property() == "sourceDataset"));
}

#[test]
fn test_check_export_missing_dest_table() {
    let s = with(export_check_fields(), "destTable", text(""));
    let inputs = parse_export_inputs(&s).unwrap();
    let failures = validate_export(&inputs);
    assert!(failures.iter().any(|f| f.property() == "destTable"));
}

fn ingest_check_fields(destination: &str, db_type: &str, jdbc: &str) -> Vec<(&'static str, PropValue)> {
    let mut fields = vec![
        ("project", text("proj")),
        ("region", text("us-central1")),
        ("name", text("my-ingest")),
        ("databaseType", text(db_type)),
        ("connectionString", text(jdbc)),
        ("secret", text("projects/p/secrets/s")),
        ("query", text("SELECT * FROM t")),
        ("destination", text(destination)),
        ("imageUri", text("gcr.io/img")),
        ("scriptUri", text("gs://bucket/main.py")),
        ("serviceAccount", text("sa@iam")),
        ("stagingBucket", text("staging")),
        ("processBucket", text("process")),
        ("subnetworkUri", text("subnet")),
        ("schedule", text("0 2 * * *")),
        ("timeZone", text("UTC")),
    ];
    if destination == "gcs" {
        fields.push(("landingBucket", text("landing")));
    } else {
        fields.push(("destProject", text("proj")));
        fields.push(("destDataset", text("ds")));
        fields.push(("destTable", text("tbl")));
    }
    fields
}

fn gcs_oracle_fields() -> Vec<(&'static str, PropValue)> {
    ingest_check_fields("gcs", "oracle", "jdbc:oracle:thin:@host:1521:db")
}

fn bq_oracle_fields() -> Vec<(&'static str, PropValue)> {
    ingest_check_fields("bigquery", "oracle", "jdbc:oracle:thin:@host:1521:db")
}

#[test]
fn test_check_ingest_valid() {
    let s = props(gcs_oracle_fields());
    let inputs = parse_ingest_inputs(&s).unwrap();
    let failures = validate_ingest(&inputs);
    assert!(failures.is_empty(), "unexpected failures: {:?}", failures.iter().map(|f| f.property()).collect::<Vec<_>>());
}

#[test]
fn test_check_ingest_empty_project() {
    let s = with(gcs_oracle_fields(), "project", text(""));
    let inputs = parse_ingest_inputs(&s).unwrap();
    let failures = validate_ingest(&inputs);
    assert!(failures.iter().any(|f| f.property() == "project"));
}

#[test]
fn test_check_ingest_jdbc_prefix_mismatch_oracle() {
    let s = props(ingest_check_fields("gcs", "oracle", "jdbc:sqlserver://host"));
    let inputs = parse_ingest_inputs(&s).unwrap();
    let failures = validate_ingest(&inputs);
    assert!(failures.iter().any(|f| f.property() == "connectionString"));
}

#[test]
fn test_check_ingest_jdbc_prefix_mismatch_mssql() {
    let s = props(ingest_check_fields("gcs", "mssql", "jdbc:oracle:thin:@host"));
    let inputs = parse_ingest_inputs(&s).unwrap();
    let failures = validate_ingest(&inputs);
    assert!(failures.iter().any(|f| f.property() == "connectionString"));
}

#[test]
fn test_check_ingest_gcs_missing_landing_bucket() {
    let s = without(gcs_oracle_fields(), "landingBucket");
    let inputs = parse_ingest_inputs(&s).unwrap();
    let failures = validate_ingest(&inputs);
    assert!(failures.iter().any(|f| f.property() == "landingBucket"));
}

#[test]
fn test_check_ingest_gcs_with_dest_dataset() {
    let s = with(gcs_oracle_fields(), "destDataset", text("ds"));
    let inputs = parse_ingest_inputs(&s).unwrap();
    let failures = validate_ingest(&inputs);
    assert!(failures.iter().any(|f| f.property() == "destination"));
}

#[test]
fn test_check_ingest_bq_missing_dest_dataset() {
    let s = without(bq_oracle_fields(), "destDataset");
    let inputs = parse_ingest_inputs(&s).unwrap();
    let failures = validate_ingest(&inputs);
    assert!(failures.iter().any(|f| f.property() == "destDataset"));
}

#[test]
fn test_check_ingest_bq_with_landing_bucket() {
    let s = with(bq_oracle_fields(), "landingBucket", text("bucket"));
    let inputs = parse_ingest_inputs(&s).unwrap();
    let failures = validate_ingest(&inputs);
    assert!(failures.iter().any(|f| f.property() == "destination"));
}

#[test]
fn test_check_ingest_retry_count_out_of_range() {
    let s = with(gcs_oracle_fields(), "retryCount", PropValue::Number(6));
    let inputs = parse_ingest_inputs(&s).unwrap();
    let failures = validate_ingest(&inputs);
    assert!(failures.iter().any(|f| f.property() == "retryCount"));
}

// ---- snapshots ----

fn snapshot_fields() -> Vec<(&'static str, PropValue)> {
    vec![
        ("project", text("proj")),
        ("region", text("us-central1")),
        ("dataset", text("snapshots")),
        ("name", text("snap_dim")),
        ("sourceSql", text("SELECT * FROM t")),
        ("uniqueKey", text("id")),
        ("strategy", text("timestamp")),
        ("updatedAt", text("updated_at")),
        ("schedule", text("0 2 * * *")),
        ("timeZone", text("UTC")),
        ("serviceAccount", text("sa@iam")),
    ]
}

#[test]
fn parse_all_required_fields() {
    let s = props(snapshot_fields());
    let inputs = parse_snapshot_inputs(&s).unwrap();
    assert_eq!(inputs.project, "proj");
    assert_eq!(inputs.region, "us-central1");
    assert_eq!(inputs.dataset, "snapshots");
    assert_eq!(inputs.name, "snap_dim");
    assert_eq!(inputs.source_sql, "SELECT * FROM t");
    assert_eq!(inputs.unique_key, "id");
    assert_eq!(inputs.updated_at, "updated_at");
    assert_eq!(inputs.schedule, "0 2 * * *");
    assert_eq!(inputs.service_account, "sa@iam");
}

#[test]
fn parse_missing_required() {
    let s = props(vec![("project", text("proj"))]);
    let err = parse_snapshot_inputs(&s).unwrap_err();
    assert!(err.contains("missing required field 'region'"));
}

#[test]
fn build_output_includes_state() {
    let inputs = SnapshotInputs {
        project: "proj",
        region: "us-central1",
        dataset: "snapshots",
        name: "snap_dim",
        source_sql: "SELECT 1",
        unique_key: "id",
        strategy: "timestamp",
        updated_at: "updated_at",
        schedule: "0 2 * * *",
        time_zone: "UTC",
        service_account: "sa@iam",
        description: Some("test snap"),
        paused: None,
        invalidate_hard_deletes: Some(true),
        auto_optimize: None,
        source_schema: None,
    };
    let state = SnapshotState {
        workflow_name: "wf-snap".to_owned(),
        scheduler_job_name: "sched-snap".to_owned(),
        snapshot_table: "proj.snapshots.snap_dim".to_owned(),
        state: "ENABLED".to_owned(),
        next_run_time: "2026-01-01T00:00:00Z".to_owned(),
    };
    let output = build_snapshot_output(&inputs, &state);
    assert_eq!(output.get_str("tableId"), Some("snap_dim"));
    assert_eq!(output.get_str("snapshotTable"), Some("proj.snapshots.snap_dim"));
    assert_eq!(output.get_str("workflowName"), Some("wf-snap"));
    assert_eq!(output.get_str("description"), Some("test snap"));
    assert_eq!(output.get_bool("invalidateHardDeletes"), Some(true));
}

#[test]
fn snapshot_strategy_defaults_to_timestamp() {
    let s = without(snapshot_fields(), "strategy");
    assert_eq!(parse_snapshot_inputs(&s).unwrap().strategy, "timestamp");
}

#[test]
fn sqljob_outputs_read_back_as_inputs() {
    let inputs = SqlJobInputs {
        project: "proj",
        region: "us-central1",
        name: "my-job",
        sql: "SELECT 1",
        schedule: "0 * * * *",
        time_zone: "Europe/Paris",
        service_account: "sa@iam",
        description: Some("a job"),
        paused: Some(true),
        retry_count: Some(4),
        attempt_deadline: None,
    };
    let state = SqlJobState {
        workflow_name: "wf".to_owned(),
        scheduler_job_name: "sched".to_owned(),
        state: "PAUSED".to_owned(),
        next_run_time: String::new(),
    };
    let out = build_sqljob_output(&inputs, &state);
    let back = parse_sqljob_inputs(&out).unwrap();
    assert_eq!(format!("{:?}", back), format!("{:?}", inputs));
}

#[test]
fn ingest_outputs_read_back_as_inputs() {
    let s = props(ingest_fields());
    let inputs = parse_ingest_inputs(&s).unwrap();
    let state = DataprocJobState {
        workflow_name: "wf".to_owned(),
        scheduler_job_name: "sched".to_owned(),
        state: "ENABLED".to_owned(),
        next_run_time: String::new(),
        definition_fingerprint: "fp".to_owned(),
    };
    let out = build_ingest_output(&inputs, &state);
    let back = parse_ingest_inputs(&out).unwrap();
    assert_eq!(format!("{:?}", back), format!("{:?}", inputs));
}

#[test]
fn export_outputs_read_back_as_inputs() {
    let s = props(export_fields());
    let inputs = parse_export_inputs(&s).unwrap();
    let state = DataprocJobState {
        workflow_name: "wf".to_owned(),
        scheduler_job_name: "sched".to_owned(),
        state: "ENABLED".to_owned(),
        next_run_time: String::new(),
        definition_fingerprint: "fp".to_owned(),
    };
    let out = build_export_output(&inputs, &state);
    let back = parse_export_inputs(&out).unwrap();
    assert_eq!(format!("{:?}", back), format!("{:?}", inputs));
}

#[test]
fn snapshot_outputs_read_back_as_inputs() {
    let s = props(snapshot_fields());
    let inputs = parse_snapshot_inputs(&s).unwrap();
    let state = SnapshotState {
        workflow_name: "wf".to_owned(),
        scheduler_job_name: "sched".to_owned(),
        snapshot_table: "t".to_owned(),
        state: "ENABLED".to_owned(),
        next_run_time: String::new(),
    };
    let out = build_snapshot_output(&inputs, &state);
    let back = parse_snapshot_inputs(&out).unwrap();
    assert_eq!(format!("{:?}", back), format!("{:?}", inputs));
}

#[test]
fn ingest_parsed_without_an_image_passes_its_check() {
    let fields: Vec<(&'static str, PropValue)> = gcs_oracle_fields().into_iter().filter(|(k, _)| *k != "imageUri").collect();
    let s = props(fields);
    let inputs = parse_ingest_inputs(&s).unwrap();
    assert_eq!(inputs.image_uri, "");
    assert!(validate_ingest(&inputs).is_empty());
}
