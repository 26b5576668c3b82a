use gcpx::dataproc::{generate_export_workflow, generate_ingest_workflow, DatabaseType, DestinationType, ExportJobInputs, IngestJobInputs};
use gcpx::jobflow::{
    begin_create, begin_update, create_step, delete_targets, export_job_plan, ingest_job_plan, job_id,
    job_names, poll_again, sql_job_plan, update_step, CreateStage, JobCall, JobError, JobKind, JobPlan,
    JobRecord, JobReply, JobStep, UpdateStage, DELETE_POLLS,
};
use gcpx::scheduler::{SchedulerJobMeta, SqlJobInputs, WorkflowMeta};
use gcpx::workflow::generate_workflow_yaml;

fn sql_inputs<'a>() -> SqlJobInputs<'a> {
    SqlJobInputs {
        project: "proj",
        region: "us-central1",
        name: "j",
        sql: "SELECT 1",
        schedule: "0 * * * *",
        time_zone: "UTC",
        service_account: "sa@iam",
        description: None,
        paused: None,
        retry_count: None,
        attempt_deadline: None,
    }
}

fn workflow_meta(name: &str) -> WorkflowMeta {
    WorkflowMeta {
        name: name.to_owned(),
        state: "ACTIVE".to_owned(),
        revision_id: "1".to_owned(),
        create_time: String::new(),
        update_time: String::new(),
        service_account: "sa@iam".to_owned(),
    }
}

fn job_meta(name: &str, state: &str) -> SchedulerJobMeta {
    SchedulerJobMeta {
        name: name.to_owned(),
        state: state.to_owned(),
        schedule: "0 * * * *".to_owned(),
        time_zone: "UTC".to_owned(),
        schedule_time: "2026-01-01T00:00:00Z".to_owned(),
        last_attempt_time: String::new(),
        user_update_time: String::new(),
    }
}

fn expect_call(step: &JobStep, call: JobCall) {
    match step {
        JobStep::Call(c) => assert!(*c == call),
        _ => panic!("expected a call"),
    }
}

fn expect_finish(step: JobStep) -> JobRecord {
    match step {
        JobStep::Finish(r) => r,
        _ => panic!("expected a finish"),
    }
}

fn expect_fail(step: JobStep) -> JobError {
    match step {
        JobStep::Fail(e) => e,
        _ => panic!("expected a failure"),
    }
}

#[test]
fn names_and_ids_follow_the_kind() {
    let n = job_names(JobKind::Sql, "j");
    assert_eq!(n.workflow, "gcpx-wf-j");
    assert_eq!(n.scheduler, "gcpx-sched-j");
    let n = job_names(JobKind::Export, "e");
    assert_eq!(n.workflow, "gcpx-wf-export-e");
    assert_eq!(n.scheduler, "gcpx-sched-export-e");
    let n = job_names(JobKind::Ingest, "i");
    assert_eq!(n.workflow, "gcpx-wf-ingest-i");
    assert_eq!(n.scheduler, "gcpx-sched-ingest-i");
    assert_eq!(job_id(JobKind::Sql, "p", "r", "n"), "sql-job/p/r/n");
    assert_eq!(job_id(JobKind::Export, "p", "r", "n"), "export-job/p/r/n");
    assert_eq!(job_id(JobKind::Ingest, "p", "r", "n"), "ingest-job/p/r/n");
}

#[test]
fn sql_plan_holds_the_workflow_and_bodies() {
    let inputs = sql_inputs();
    let p = sql_job_plan(&inputs, false, None);
    assert_eq!(p.id, "sql-job/proj/us-central1/j");
    assert_eq!(p.workflow_yaml, generate_workflow_yaml("proj", "SELECT 1"));
    assert_eq!(p.sql_check.as_deref(), Some("SELECT 1"));
    assert_eq!(p.create_body.name.as_deref(), Some("projects/proj/locations/us-central1/jobs/gcpx-sched-j"));
    assert!(p.patch_body.name.is_none());
    assert_eq!(
        p.create_body.target_uri,
        "https://workflowexecutions.googleapis.com/v1/projects/proj/locations/us-central1/workflows/gcpx-wf-j/executions"
    );
    assert_eq!(p.preview_record.workflow_name, "projects/proj/locations/us-central1/workflows/gcpx-wf-j");
    assert_eq!(p.preview_record.scheduler_job_name, "projects/proj/locations/us-central1/jobs/gcpx-sched-j");
    assert_eq!(p.preview_record.state, "PREVIEW");
    assert_eq!(p.updated_record.state, "ENABLED");
    assert!(p.rewrite_workflow);
    let same = sql_job_plan(&inputs, false, Some("SELECT 1"));
    assert!(!same.rewrite_workflow);
}

#[test]
fn preview_create_calls_nothing() {
    let inputs = sql_inputs();
    let p = sql_job_plan(&inputs, true, None);
    let (_, step) = begin_create(&p);
    let r = expect_finish(step);
    assert_eq!(r.state, "PREVIEW");
    assert_eq!(r.next_run_time, "");
}

fn run_create(p: &JobPlan, replies: Vec<JobReply>) -> (Vec<JobCall>, JobStep) {
    let (mut stage, mut step) = begin_create(p);
    let mut calls = Vec::new();
    for reply in replies {
        match step {
            JobStep::Call(c) => calls.push(c),
            _ => panic!("the run ended early"),
        }
        let (s, n) = create_step(p, stage, reply);
        stage = s;
        step = n;
    }
    (calls, step)
}

#[test]
fn create_runs_check_workflow_then_scheduler_job() {
    let inputs = sql_inputs();
    let p = sql_job_plan(&inputs, false, None);
    let (calls, last) = run_create(
        &p,
        vec![
            JobReply::SqlChecked { valid: true, error_message: None },
            JobReply::Workflow(workflow_meta("projects/proj/locations/us-central1/workflows/gcpx-wf-j")),
            JobReply::SchedulerJob(job_meta("projects/proj/locations/us-central1/jobs/gcpx-sched-j", "ENABLED")),
        ],
    );
    assert!(calls == vec![JobCall::CheckSql, JobCall::CreateWorkflow, JobCall::CreateSchedulerJob]);
    let r = expect_finish(last);
    assert_eq!(r.workflow_name, "projects/proj/locations/us-central1/workflows/gcpx-wf-j");
    assert_eq!(r.scheduler_job_name, "projects/proj/locations/us-central1/jobs/gcpx-sched-j");
    assert_eq!(r.state, "ENABLED");
    assert_eq!(r.next_run_time, "2026-01-01T00:00:00Z");
}

#[test]
fn invalid_sql_stops_the_create() {
    let inputs = SqlJobInputs { sql: "SELEC 1", ..sql_inputs() };
    let p = sql_job_plan(&inputs, false, None);
    let (calls, last) = run_create(
        &p,
        vec![JobReply::SqlChecked { valid: false, error_message: Some("Syntax error at position 7".to_owned()) }],
    );
    assert!(calls == vec![JobCall::CheckSql]);
    let e = expect_fail(last);
    assert!(e.is_invalid_argument());
    assert_eq!(
        e.message(),
        "SQL is invalid \u{2014} scheduler job would fail at runtime: Syntax error at position 7"
    );
    let (_, last) = run_create(&p, vec![JobReply::Failed("quota".to_owned())]);
    assert_eq!(expect_fail(last).message(), "SQL validation failed: quota");
}

#[test]
fn failed_scheduler_job_removes_the_workflow() {
    let inputs = sql_inputs();
    let p = sql_job_plan(&inputs, false, None);
    let (calls, last) = run_create(
        &p,
        vec![
            JobReply::SqlChecked { valid: true, error_message: None },
            JobReply::Workflow(workflow_meta("wf")),
            JobReply::Failed("permission denied".to_owned()),
            JobReply::Failed("also failed".to_owned()),
        ],
    );
    assert!(
        calls
            == vec![
                JobCall::CheckSql,
                JobCall::CreateWorkflow,
                JobCall::CreateSchedulerJob,
                JobCall::DeleteWorkflow
            ]
    );
    let e = expect_fail(last);
    assert!(!e.is_invalid_argument());
    assert_eq!(e.message(), "permission denied");
}

#[test]
fn paused_job_is_paused_after_creation() {
    let inputs = SqlJobInputs { paused: Some(true), ..sql_inputs() };
    let p = sql_job_plan(&inputs, false, None);
    let (calls, last) = run_create(
        &p,
        vec![
            JobReply::SqlChecked { valid: true, error_message: None },
            JobReply::Workflow(workflow_meta("wf")),
            JobReply::SchedulerJob(job_meta("job", "ENABLED")),
            JobReply::SchedulerJob(job_meta("job", "PAUSED")),
        ],
    );
    assert_eq!(calls.len(), 4);
    assert!(calls[3] == JobCall::PauseSchedulerJob);
    let r = expect_finish(last);
    assert_eq!(r.workflow_name, "wf");
    assert_eq!(r.state, "PAUSED");
}

#[test]
fn out_of_order_reply_fails() {
    let inputs = sql_inputs();
    let p = sql_job_plan(&inputs, false, None);
    let (_, last) = run_create(&p, vec![JobReply::Done]);
    assert!(matches!(expect_fail(last), JobError::OutOfOrder));
}

fn run_update(p: &JobPlan, replies: Vec<JobReply>) -> (Vec<JobCall>, JobStep) {
    let (mut stage, mut step): (UpdateStage, JobStep) = begin_update(p);
    let mut calls = Vec::new();
    for reply in replies {
        match step {
            JobStep::Call(c) => calls.push(c),
            _ => panic!("the run ended early"),
        }
        let (s, n) = update_step(p, stage, reply);
        stage = s;
        step = n;
    }
    (calls, step)
}

#[test]
fn update_with_same_sql_only_patches_and_resumes() {
    let inputs = SqlJobInputs { paused: Some(false), ..sql_inputs() };
    let p = sql_job_plan(&inputs, false, Some("SELECT 1"));
    let (calls, last) = run_update(
        &p,
        vec![JobReply::SchedulerJob(job_meta("job", "ENABLED")), JobReply::SchedulerJob(job_meta("job", "ENABLED"))],
    );
    assert!(calls == vec![JobCall::PatchSchedulerJob, JobCall::ResumeSchedulerJob]);
    let r = expect_finish(last);
    assert_eq!(r.state, "ENABLED");
    assert_eq!(r.workflow_name, "projects/proj/locations/us-central1/workflows/gcpx-wf-j");
}

#[test]
fn update_with_new_sql_checks_and_rewrites() {
    let inputs = SqlJobInputs { sql: "SELECT 2", paused: Some(true), ..sql_inputs() };
    let p = sql_job_plan(&inputs, false, Some("SELECT 1"));
    let (calls, last) = run_update(
        &p,
        vec![
            JobReply::SqlChecked { valid: true, error_message: None },
            JobReply::Workflow(workflow_meta("wf")),
            JobReply::SchedulerJob(job_meta("job", "ENABLED")),
            JobReply::SchedulerJob(job_meta("job", "PAUSED")),
        ],
    );
    assert!(
        calls
            == vec![
                JobCall::CheckSql,
                JobCall::UpdateWorkflow,
                JobCall::PatchSchedulerJob,
                JobCall::PauseSchedulerJob
            ]
    );
    assert_eq!(expect_finish(last).state, "PAUSED");
}

#[test]
fn failed_patch_names_what_failed() {
    let inputs = sql_inputs();
    let p = sql_job_plan(&inputs, false, Some("SELECT 1"));
    let (_, last) = run_update(&p, vec![JobReply::Failed("boom".to_owned())]);
    assert_eq!(expect_fail(last).message(), "failed to update scheduler job: boom");
}

#[test]
fn preview_update_records_the_configured_state() {
    let inputs = SqlJobInputs { paused: Some(true), ..sql_inputs() };
    let p = sql_job_plan(&inputs, true, None);
    let (_, step) = begin_update(&p);
    assert_eq!(expect_finish(step).state, "PAUSED");
}

fn export_inputs<'a>() -> ExportJobInputs<'a> {
    ExportJobInputs {
        project: "proj",
        region: "us-central1",
        name: "exp",
        source_dataset: "ds",
        source_table: "t",
        database_type: DatabaseType::Mssql,
        connection_string: "jdbc:sqlserver://host",
        secret: "s",
        dest_table: "dbo.t",
        image_uri: "",
        script_uri: "gs://b/export.py",
        jar_uris: vec![],
        runtime_version: "2.2",
        service_account: "sa@iam",
        staging_bucket: "staging",
        process_bucket: "gs://process",
        subnetwork_uri: "sub",
        network_tags: vec![],
        schedule: "0 2 * * *",
        time_zone: "UTC",
        paused: None,
        description: None,
        retry_count: None,
        attempt_deadline: None,
    }
}

#[test]
fn export_plan_skips_the_sql_check() {
    let inputs = export_inputs();
    let p = export_job_plan(&inputs, false);
    assert_eq!(p.id, "export-job/proj/us-central1/exp");
    assert_eq!(p.workflow_yaml, generate_export_workflow(&inputs));
    assert!(p.sql_check.is_none());
    let (stage, step) = begin_create(&p);
    assert!(matches!(stage, CreateStage::CreatingWorkflow));
    expect_call(&step, JobCall::CreateWorkflow);
    let (_, step) = begin_update(&p);
    expect_call(&step, JobCall::UpdateWorkflow);
}

#[test]
fn ingest_plan_uses_the_ingest_workflow() {
    let inputs = IngestJobInputs {
        project: "proj",
        region: "us-central1",
        name: "ing",
        database_type: DatabaseType::Oracle,
        connection_string: "jdbc:oracle:thin:@host:1521/db",
        secret: "s",
        query: "SELECT 1 FROM dual",
        destination: DestinationType::Gcs,
        landing_bucket: Some("gs://landing"),
        dest_project: None,
        dest_dataset: None,
        dest_table: None,
        image_uri: "",
        script_uri: "gs://b/ingest.py",
        jar_uris: vec![],
        runtime_version: "2.2",
        service_account: "sa@iam",
        staging_bucket: "gs://staging",
        process_bucket: "gs://process",
        subnetwork_uri: "sub",
        network_tags: vec![],
        schedule: "0 * * * *",
        time_zone: "UTC",
        paused: None,
        description: None,
        retry_count: None,
        attempt_deadline: None,
    };
    let p = ingest_job_plan(&inputs, false);
    assert_eq!(p.names.workflow, "gcpx-wf-ingest-ing");
    assert_eq!(p.workflow_yaml, generate_ingest_workflow(&inputs));
}

#[test]
fn delete_needs_every_name_and_polls_a_bounded_number_of_times() {
    assert!(delete_targets(JobKind::Sql, "", "r", "n").is_none());
    assert!(delete_targets(JobKind::Sql, "p", "", "n").is_none());
    assert!(delete_targets(JobKind::Sql, "p", "r", "").is_none());
    let n = delete_targets(JobKind::Export, "p", "r", "n").unwrap();
    assert_eq!(n.scheduler, "gcpx-sched-export-n");
    assert!(poll_again(0, false, true));
    assert!(!poll_again(0, true, true));
    assert!(!poll_again(DELETE_POLLS - 1, false, false));
    assert!(poll_again(DELETE_POLLS - 2, false, false));
}

#[test]
fn records_become_job_states() {
    let inputs = export_inputs();
    let p = export_job_plan(&inputs, true);
    let (_, step) = begin_create(&p);
    let record = expect_finish(step);
    let state = record.copy().into_dataproc_state(&p);
    assert_eq!(state.state, "PREVIEW");
    assert_eq!(state.definition_fingerprint, gcpx::dataproc::definition_fingerprint(&p.workflow_yaml));
    assert_eq!(state.definition_fingerprint.len(), 16);
    let sql = record.into_sql_state();
    assert_eq!(sql.workflow_name, "projects/proj/locations/us-central1/workflows/gcpx-wf-export-exp");
}

#[test]
fn only_an_active_workflow_is_ready() {
    assert!(gcpx::jobflow::workflow_ready("w", "ACTIVE").is_ok());
    assert_eq!(
        gcpx::jobflow::workflow_ready("w", "UNAVAILABLE").unwrap_err(),
        "workflow 'w' finished provisioning in state UNAVAILABLE rather than ACTIVE"
    );
}
