use gcpx::checks::{validate_export, validate_ingest, validate_sqljob, JobFailure};
use gcpx::dataproc::{DatabaseType, DestinationType, ExportJobInputs, IngestJobInputs};
use gcpx::scheduler::SqlJobInputs;

fn ingest<'a>() -> IngestJobInputs<'a> {
    IngestJobInputs {
        project: "proj",
        region: "us-central1",
        name: "ingest",
        database_type: DatabaseType::Oracle,
        connection_string: "jdbc:oracle:thin:@host:1521/db",
        secret: "projects/p/secrets/s",
        query: "SELECT 1 FROM dual",
        destination: DestinationType::Gcs,
        landing_bucket: Some("gs://landing"),
        dest_project: None,
        dest_dataset: None,
        dest_table: None,
        image_uri: "gcr.io/x/y:1",
        script_uri: "gs://b/ingest.py",
        jar_uris: vec!["gs://jars/ojdbc.jar"],
        runtime_version: "2.2",
        service_account: "sa@iam",
        staging_bucket: "gs://staging",
        process_bucket: "gs://process",
        subnetwork_uri: "sub",
        network_tags: vec![],
        schedule: "0 * * * *",
        time_zone: "UTC",
        paused: None,
        description: None,
        retry_count: None,
        attempt_deadline: None,
    }
}

fn export<'a>() -> ExportJobInputs<'a> {
    ExportJobInputs {
        project: "proj",
        region: "us-central1",
        name: "export",
        source_dataset: "ds",
        source_table: "t",
        database_type: DatabaseType::Mssql,
        connection_string: "jdbc:sqlserver://host;database=db",
        secret: "projects/p/secrets/s",
        dest_table: "dbo.t",
        image_uri: "",
        script_uri: "gs://b/export.py",
        jar_uris: vec![],
        runtime_version: "2.2",
        service_account: "sa@iam",
        staging_bucket: "staging",
        process_bucket: "gs://process",
        subnetwork_uri: "sub",
        network_tags: vec![],
        schedule: "0 2 * * *",
        time_zone: "UTC",
        paused: None,
        description: None,
        retry_count: None,
        attempt_deadline: None,
    }
}

fn invalid_properties(failures: &[JobFailure]) -> Vec<String> {
    failures
        .iter()
        .filter_map(|f| match f {
            JobFailure::Invalid(c) => Some(c.property.clone()),
            JobFailure::Missing(_) => None,
        })
        .collect()
}

fn missing_properties(failures: &[JobFailure]) -> Vec<String> {
    failures
        .iter()
        .filter_map(|f| match f {
            JobFailure::Missing(p) => Some(p.clone()),
            JobFailure::Invalid(_) => None,
        })
        .collect()
}

#[test]
fn valid_ingest_inputs_pass() {
    assert!(validate_ingest(&ingest()).is_empty());
}

#[test]
fn valid_export_inputs_pass() {
    assert!(validate_export(&export()).is_empty());
}

#[test]
fn empty_required_properties_are_reported_in_order() {
    let mut i = ingest();
    i.project = "";
    i.schedule = "";
    i.secret = "";
    let f = validate_ingest(&i);
    assert_eq!(missing_properties(&f), vec!["project", "secret", "schedule"]);
}

#[test]
fn connection_string_must_match_the_database_type() {
    let mut i = ingest();
    i.database_type = DatabaseType::Postgres;
    let f = validate_ingest(&i);
    match &f[0] {
        JobFailure::Invalid(c) => {
            assert_eq!(c.property, "connectionString");
            assert_eq!(
                c.reason,
                "connectionString must start with 'jdbc:postgresql:' for databaseType 'postgres'"
            );
        }
        JobFailure::Missing(_) => panic!("expected an invalid connection string"),
    }
}

#[test]
fn gcs_destination_needs_a_landing_bucket_and_no_tables() {
    let mut i = ingest();
    i.landing_bucket = None;
    i.dest_table = Some("t");
    assert_eq!(invalid_properties(&validate_ingest(&i)), vec!["landingBucket", "destination"]);
}

#[test]
fn bigquery_destination_needs_dataset_and_table() {
    let mut i = ingest();
    i.destination = DestinationType::BigQuery;
    assert_eq!(
        invalid_properties(&validate_ingest(&i)),
        vec!["destDataset", "destTable", "destination"]
    );
}

#[test]
fn retry_count_must_be_between_zero_and_five() {
    let mut e = export();
    e.retry_count = Some(6);
    assert_eq!(invalid_properties(&validate_export(&e)), vec!["retryCount"]);
    e.retry_count = Some(-1);
    assert_eq!(invalid_properties(&validate_export(&e)), vec!["retryCount"]);
    e.retry_count = Some(5);
    assert!(validate_export(&e).is_empty());
}

#[test]
fn sql_job_checks_required_fields_and_retries() {
    let inputs = SqlJobInputs {
        project: "p",
        region: "r",
        name: "",
        sql: "SELECT 1",
        schedule: "",
        time_zone: "UTC",
        service_account: "sa",
        description: None,
        paused: None,
        retry_count: Some(9),
        attempt_deadline: None,
    };
    let f = validate_sqljob(&inputs);
    assert_eq!(missing_properties(&f), vec!["name", "schedule"]);
    match f.last().unwrap() {
        JobFailure::Invalid(c) => assert_eq!(
            c.reason,
            "retryCount must be 0-5 (inclusive): use 0 for no retries, or 1-5 for automatic retry"
        ),
        JobFailure::Missing(_) => panic!("expected the retry failure last"),
    }
}

#[test]
fn ingest_without_an_image_passes() {
    let mut i = ingest();
    i.image_uri = "";
    assert!(validate_ingest(&i).is_empty());
}
