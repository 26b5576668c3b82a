use gcpx::dataproc::{definition_fingerprint, generate_export_workflow, DatabaseType, DestinationType, ExportJobInputs, IngestJobInputs};
use gcpx::diffs::{export_diff, ingest_diff, sql_job_diff};
use gcpx::scheduler::SqlJobInputs;

fn ingest<'a>() -> IngestJobInputs<'a> {
    IngestJobInputs {
        project: "proj",
        region: "us-central1",
        name: "ingest",
        database_type: DatabaseType::Oracle,
        connection_string: "jdbc:oracle:thin:@host:1521/db",
        secret: "s",
        query: "SELECT 1 FROM dual",
        destination: DestinationType::Gcs,
        landing_bucket: Some("gs://landing"),
        dest_project: None,
        dest_dataset: None,
        dest_table: None,
        image_uri: "",
        script_uri: "gs://b/ingest.py",
        jar_uris: vec!["gs://jars/ojdbc.jar"],
        runtime_version: "2.2",
        service_account: "sa@iam",
        staging_bucket: "gs://staging",
        process_bucket: "gs://process",
        subnetwork_uri: "sub",
        network_tags: vec![],
        schedule: "0 * * * *",
        time_zone: "UTC",
        paused: None,
        description: None,
        retry_count: None,
        attempt_deadline: None,
    }
}

fn export<'a>() -> ExportJobInputs<'a> {
    ExportJobInputs {
        project: "proj",
        region: "us-central1",
        name: "export",
        source_dataset: "ds",
        source_table: "t",
        database_type: DatabaseType::Mssql,
        connection_string: "jdbc:sqlserver://host",
        secret: "s",
        dest_table: "dbo.t",
        image_uri: "",
        script_uri: "gs://b/export.py",
        jar_uris: vec![],
        runtime_version: "2.2",
        service_account: "sa@iam",
        staging_bucket: "staging",
        process_bucket: "gs://process",
        subnetwork_uri: "sub",
        network_tags: vec![],
        schedule: "0 2 * * *",
        time_zone: "UTC",
        paused: None,
        description: None,
        retry_count: None,
        attempt_deadline: None,
    }
}

#[test]
fn identical_ingest_inputs_have_no_diff() {
    let d = ingest_diff(&ingest(), &ingest());
    assert!(d.replace_keys.is_empty());
    assert!(d.update_keys.is_empty());
}

#[test]
fn ingest_identity_changes_replace_and_settings_update() {
    let old = ingest();
    let mut new = ingest();
    new.region = "europe-west1";
    new.destination = DestinationType::BigQuery;
    new.query = "SELECT 2 FROM dual";
    new.network_tags = vec!["spark"];
    new.paused = Some(true);
    let d = ingest_diff(&old, &new);
    assert_eq!(d.replace_keys, vec!["region", "destination"]);
    assert_eq!(d.update_keys, vec!["query", "networkTags", "paused"]);
}

#[test]
fn export_without_a_recorded_fingerprint_rewrites_the_definition() {
    let d = export_diff(&export(), &export(), None);
    assert!(d.replace_keys.is_empty());
    assert_eq!(d.update_keys, vec!["definitionFingerprint"]);
}

#[test]
fn export_with_the_current_fingerprint_has_no_diff() {
    let current = definition_fingerprint(&generate_export_workflow(&export()));
    let d = export_diff(&export(), &export(), Some(&current));
    assert!(d.update_keys.is_empty());
    let mut new = export();
    new.source_dataset = "other";
    new.dest_table = "dbo.u";
    let current = definition_fingerprint(&generate_export_workflow(&new));
    let d = export_diff(&export(), &new, Some(&current));
    assert_eq!(d.replace_keys, vec!["sourceDataset"]);
    assert_eq!(d.update_keys, vec!["destTable"]);
}

#[test]
fn sql_job_diff_splits_replace_and_update() {
    let old = SqlJobInputs {
        project: "p",
        region: "r",
        name: "n",
        sql: "SELECT 1",
        schedule: "0 * * * *",
        time_zone: "UTC",
        service_account: "sa",
        description: None,
        paused: None,
        retry_count: None,
        attempt_deadline: None,
    };
    let new = SqlJobInputs {
        service_account: "sa2",
        sql: "SELECT 2",
        description: Some("d"),
        ..old
    };
    let d = sql_job_diff(&old, &new);
    assert_eq!(d.replace_keys, vec!["serviceAccount"]);
    assert_eq!(d.update_keys, vec!["sql", "description"]);
}
