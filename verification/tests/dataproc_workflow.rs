use gcpx::dataproc::{build_export_args, build_ingest_bq_args, build_ingest_gcs_args, generate_dataproc_workflow_yaml, sanitize_batch_id};


/// `batches.create` returns a long-running Operation, not a Batch. Reading
/// `body.uuid` fails with a KeyError after the batch has already been
/// submitted: the work runs, the execution reports failure, and the
/// scheduler retries it — submitting the same job again.
#[test]
fn the_batch_uuid_is_read_from_the_operation_metadata() {
    let yaml = generate_dataproc_workflow_yaml(
        "p",
        "r",
        "b",
        "",
        "gs://b/j.py",
        &[],
        &[],
        "2.2",
        "sa",
        "gs://s",
        "sub",
        &[],
        false,
    );
    assert!(
        yaml.contains("${batchResult.body.metadata.batchUuid}"),
        "the uuid is not read from the operation metadata:\n{yaml}"
    );
    assert!(!yaml.contains("${batchResult.body.uuid}"));
}

/// Cloud Workflows does not interpolate `${...}` inside a quoted string —
/// the expression has to be the whole value. Writing the batch id as
/// `"name-${short_uuid}"` sent the literal text to Dataproc, which rejected
/// every batch for an invalid id. No batch this provider submitted could
/// ever have started.
#[test]
fn the_batch_id_is_an_expression_not_a_quoted_string() {
    let yaml = generate_dataproc_workflow_yaml(
        "p",
        "r",
        "My Job",
        "",
        "gs://b/j.py",
        &[],
        &[],
        "2.2",
        "sa",
        "gs://s",
        "sub",
        &[],
        false,
    );
    assert!(
        yaml.contains(r#"batchId: ${"my-job-" + short_uuid}"#),
        "batch id is not an evaluated expression:\n{yaml}"
    );
    assert!(
        !yaml.contains(r#""my-job-${short_uuid}""#),
        "the literal-string form is still present"
    );
}

/// The batches API validates the staging bucket against a bare bucket-name
/// pattern and rejects a gs:// URI.
#[test]
fn the_staging_bucket_loses_its_scheme() {
    let yaml = generate_dataproc_workflow_yaml(
        "p",
        "r",
        "b",
        "",
        "gs://b/j.py",
        &[],
        &[],
        "2.2",
        "sa",
        "gs://my-bucket/",
        "sub",
        &[],
        false,
    );
    assert!(yaml.contains(r#"stagingBucket: "my-bucket""#), "{yaml}");
}

/// Dataproc Serverless runs the stock runtime when no custom image is
/// given, and `containerImage: ""` is not the same as omitting the field —
/// the API reads the empty string as an image reference and rejects the
/// batch. Requiring an image meant every job needed one built and pushed
/// first, for no reason.
#[test]
fn no_image_means_no_container_image_line() {
    let yaml = generate_dataproc_workflow_yaml(
        "p",
        "r",
        "b",
        "",
        "gs://b/j.py",
        &[],
        &["a"],
        "2.2",
        "sa",
        "gs://s",
        "sub",
        &[],
        false,
    );
    assert!(
        !yaml.contains("containerImage"),
        "an empty image must not emit the field at all:\n{yaml}"
    );
    assert!(yaml.contains("version: \"2.2\""));
}

#[test]
fn an_image_is_still_emitted_when_given() {
    let yaml = generate_dataproc_workflow_yaml(
        "p",
        "r",
        "b",
        "gcr.io/x/y:1",
        "gs://b/j.py",
        &[],
        &["a"],
        "2.2",
        "sa",
        "gs://s",
        "sub",
        &[],
        false,
    );
    assert!(yaml.contains("containerImage: \"gcr.io/x/y:1\""));
}


#[test]
fn test_sanitize_batch_id() {
    assert_eq!(sanitize_batch_id("my_job"), "my-job");
    assert_eq!(sanitize_batch_id("My-Job_123"), "my-job-123");
    assert_eq!(sanitize_batch_id("UPPER"), "upper");
}

#[test]
fn test_generate_yaml_contains_dataproc_api() {
    let yaml = generate_dataproc_workflow_yaml(
        "proj",
        "us-central1",
        "test-job",
        "gcr.io/img",
        "gs://script.py",
        &[],
        &["arg1"],
        "2.2",
        "sa@iam",
        "staging",
        "subnet",
        &["spark"],
        false,
    );
    assert!(yaml.contains("dataproc.googleapis.com"));
}

#[test]
fn test_generate_yaml_contains_batch_id() {
    let yaml = generate_dataproc_workflow_yaml(
        "proj",
        "us-central1",
        "my_test",
        "gcr.io/img",
        "gs://script.py",
        &[],
        &[],
        "2.2",
        "sa@iam",
        "staging",
        "subnet",
        &["spark"],
        false,
    );
    assert!(yaml.contains("my-test"));
}

#[test]
fn test_generate_yaml_single_jar() {
    let yaml = generate_dataproc_workflow_yaml(
        "proj",
        "us-central1",
        "job",
        "gcr.io/img",
        "gs://script.py",
        &["gs://jars/ojdbc.jar"],
        &[],
        "2.2",
        "sa@iam",
        "staging",
        "subnet",
        &[],
        false,
    );
    assert!(yaml.contains("gs://jars/ojdbc.jar"));
}

#[test]
fn test_generate_yaml_multiple_jars() {
    let yaml = generate_dataproc_workflow_yaml(
        "proj",
        "us-central1",
        "job",
        "gcr.io/img",
        "gs://script.py",
        &["gs://jars/a.jar", "gs://jars/b.jar"],
        &[],
        "2.2",
        "sa@iam",
        "staging",
        "subnet",
        &[],
        false,
    );
    assert!(yaml.contains("gs://jars/a.jar"));
    assert!(yaml.contains("gs://jars/b.jar"));
}

#[test]
fn test_generate_yaml_no_jars() {
    let yaml = generate_dataproc_workflow_yaml(
        "proj",
        "us-central1",
        "job",
        "gcr.io/img",
        "gs://script.py",
        &[],
        &[],
        "2.2",
        "sa@iam",
        "staging",
        "subnet",
        &[],
        false,
    );
    assert!(yaml.contains("jarFileUris: []"));
}

#[test]
fn test_generate_yaml_args_order() {
    let yaml = generate_dataproc_workflow_yaml(
        "proj",
        "us-central1",
        "job",
        "gcr.io/img",
        "gs://script.py",
        &[],
        &["first", "second", "third"],
        "2.2",
        "sa@iam",
        "staging",
        "subnet",
        &[],
        false,
    );
    assert!(yaml.contains(r#"args: ["first", "second", "third"]"#));
}

#[test]
fn test_generate_yaml_network_tags() {
    let yaml = generate_dataproc_workflow_yaml(
        "proj",
        "us-central1",
        "job",
        "gcr.io/img",
        "gs://script.py",
        &[],
        &[],
        "2.2",
        "sa@iam",
        "staging",
        "subnet",
        &["spark", "internal"],
        false,
    );
    assert!(yaml.contains(r#"networkTags: ["spark", "internal"]"#));
}

#[test]
fn test_generate_yaml_special_chars_in_query() {
    let yaml = generate_dataproc_workflow_yaml(
        "proj",
        "us-central1",
        "job",
        "gcr.io/img",
        "gs://script.py",
        &[],
        &["SELECT * FROM t WHERE name = 'O\\'Brien'"],
        "2.2",
        "sa@iam",
        "staging",
        "subnet",
        &[],
        false,
    );
    assert!(yaml.contains("O\\'Brien"));
}

#[test]
fn test_generate_yaml_auto_appends_bq_jar() {
    let yaml = generate_dataproc_workflow_yaml(
        "proj",
        "us-central1",
        "job",
        "gcr.io/img",
        "gs://script.py",
        &["gs://jars/ojdbc.jar"],
        &[],
        "2.2",
        "sa@iam",
        "staging",
        "subnet",
        &[],
        true,
    );
    assert!(yaml.contains("spark-bigquery"));
    assert!(yaml.contains("ojdbc.jar"));
}

#[test]
fn test_generate_yaml_no_duplicate_bq_jar() {
    let yaml = generate_dataproc_workflow_yaml(
        "proj",
        "us-central1",
        "job",
        "gcr.io/img",
        "gs://script.py",
        &["gs://jars/spark-bigquery-custom.jar"],
        &[],
        "2.2",
        "sa@iam",
        "staging",
        "subnet",
        &[],
        true,
    );
    // Should not add duplicate spark-bigquery jar
    let count = yaml.matches("spark-bigquery").count();
    assert_eq!(count, 1);
}

#[test]
fn test_build_ingest_gcs_args() {
    let args = build_ingest_gcs_args(
        "secret",
        "gs://bucket",
        "SELECT 1",
        "jdbc:oracle:",
        "process",
    );
    assert_eq!(
        args,
        vec![
            "secret",
            "gs://bucket",
            "SELECT 1",
            "jdbc:oracle:",
            "process"
        ]
    );
}

#[test]
fn test_build_ingest_bq_args() {
    let args = build_ingest_bq_args(
        "secret",
        "SELECT 1",
        "jdbc:oracle:",
        "process",
        "proj",
        "ds",
        "tbl",
    );
    assert_eq!(
        args,
        vec![
            "secret",
            "SELECT 1",
            "jdbc:oracle:",
            "process",
            "proj",
            "ds",
            "tbl"
        ]
    );
}

#[test]
fn test_build_export_args() {
    let args = build_export_args(
        "process",
        "ds",
        "tbl",
        "jdbc:sqlserver:",
        "secret",
        "dest.dbo.t",
    );
    assert_eq!(
        args,
        vec![
            "process",
            "ds",
            "tbl",
            "jdbc:sqlserver:",
            "secret",
            "dest.dbo.t"
        ]
    );
}

