use gcpx::scheduler::{build_scheduler_create_body, build_scheduler_patch_body, SchedulerBodyConfig};

fn test_cfg() -> SchedulerBodyConfig<'static> {
    SchedulerBodyConfig {
        project: "proj",
        region: "us-central1",
        sched_name: "gcpx-sched-test",
        wf_name: "gcpx-wf-test",
        schedule: "0 * * * *",
        time_zone: "UTC",
        service_account: "sa@proj.iam.gserviceaccount.com",
        description: None,
        paused: None,
        retry_count: None,
        attempt_deadline: None,
    }
}

#[test]
fn create_body_has_required_fields() {
    let body = build_scheduler_create_body(&test_cfg());
    assert!(body.name.as_deref().unwrap().contains("gcpx-sched-test"));
    assert_eq!(body.schedule, "0 * * * *");
    assert_eq!(body.time_zone, "UTC");
    assert_eq!(body.retry_count, Some(3));
    assert_eq!(body.attempt_deadline.as_deref(), Some("600s"));
    assert!(body.target_uri.contains("gcpx-wf-test"));
}

#[test]
fn create_body_with_paused_does_not_set_state() {
    let cfg = SchedulerBodyConfig {
        paused: Some(true),
        ..test_cfg()
    };
    // The body has no state field at all: pausing uses its own endpoint.
    let body = build_scheduler_create_body(&cfg);
    assert_eq!(body.schedule, "0 * * * *");
}

#[test]
fn create_body_with_description() {
    let cfg = SchedulerBodyConfig {
        description: Some("test desc"),
        ..test_cfg()
    };
    let body = build_scheduler_create_body(&cfg);
    assert_eq!(body.description.as_deref(), Some("test desc"));
}

#[test]
fn create_body_custom_retry() {
    let cfg = SchedulerBodyConfig {
        retry_count: Some(5),
        attempt_deadline: Some("300s"),
        ..test_cfg()
    };
    let body = build_scheduler_create_body(&cfg);
    assert_eq!(body.retry_count, Some(5));
    assert_eq!(body.attempt_deadline.as_deref(), Some("300s"));
}

#[test]
fn patch_body_never_includes_state() {
    let cfg = SchedulerBodyConfig {
        paused: Some(true),
        ..test_cfg()
    };
    let body = build_scheduler_patch_body(&cfg, true);
    assert_eq!(body.retry_count, Some(3));
}

#[test]
fn patch_body_without_retry() {
    let body = build_scheduler_patch_body(&test_cfg(), false);
    assert!(body.retry_count.is_none());
    assert!(body.attempt_deadline.is_none());
}

#[test]
fn the_target_body_is_an_empty_json_object_in_base64() {
    let body = build_scheduler_create_body(&test_cfg());
    assert_eq!(body.target_body, "e30=");
    assert_eq!(body.http_method, "POST");
    assert_eq!(
        body.target_uri,
        "https://workflowexecutions.googleapis.com/v1/projects/proj/locations/us-central1/workflows/gcpx-wf-test/executions"
    );
    assert_eq!(
        body.name.as_deref(),
        Some("projects/proj/locations/us-central1/jobs/gcpx-sched-test")
    );
}
