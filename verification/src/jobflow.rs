//! The lifecycle of a scheduled job: a workflow that does the work and a
//! Cloud Scheduler job that starts it, created, updated and deleted as a pair.
//!
//! The decisions are a state machine. A [`JobPlan`] fixes everything the
//! calls carry; [`begin_create`] / [`begin_update`] give the first step, and
//! [`create_step`] / [`update_step`] take the reply to the last call and give
//! the next one. The caller performs each [`JobCall`] with the plan's values
//! and hands back a [`JobReply`], until the step is a finish or a failure.
use vstd::prelude::*;

use crate::dataproc::{
    default_hash, definition_fingerprint, hex_digits, DataprocJobState, export_definition, generate_export_workflow, generate_ingest_workflow, ingest_definition,
    ExportJobInputs, IngestJobInputs,
};
use crate::scheduler::{
    build_scheduler_create_body, build_scheduler_patch_body, is_create_body, is_patch_body,
    job_name_text, opt_str, BodyFields, SchedulerBodyConfig, SchedulerJobBody, SchedulerJobMeta,
    SqlJobInputs, SqlJobState, WorkflowMeta,
};
use crate::text::str_eq;
use crate::workflow::{generate_workflow_yaml, step_yaml};

verus! {

// ───────────────────────── names ─────────────────────────

/// The three kinds of scheduled job.
#[derive(Clone, Copy, PartialEq, Eq)]
pub enum JobKind {
    Sql,
    Export,
    Ingest,
}

/// What sits between the fixed prefix and the job's name in the names of
/// its workflow and scheduler job.
pub open spec fn name_infix(kind: JobKind) -> Seq<char> {
    match kind {
        JobKind::Sql => Seq::empty(),
        JobKind::Export => "export-"@,
        JobKind::Ingest => "ingest-"@,
    }
}

/// The first segment of a job's resource id.
pub open spec fn id_root(kind: JobKind) -> Seq<char> {
    match kind {
        JobKind::Sql => "sql-job"@,
        JobKind::Export => "export-job"@,
        JobKind::Ingest => "ingest-job"@,
    }
}

/// The short names of a job's workflow and scheduler job.
pub struct JobNames {
    pub workflow: String,
    pub scheduler: String,
}

/// `gcpx-wf-` and `gcpx-sched-`, then the kind's infix, then the job's name.
pub fn job_names(kind: JobKind, name: &str) -> (r: JobNames)
    ensures
        r.workflow@ == "gcpx-wf-"@ + name_infix(kind) + name@,
        r.scheduler@ == "gcpx-sched-"@ + name_infix(kind) + name@,
{
    let infix = match kind {
        JobKind::Sql => "",
        JobKind::Export => "export-",
        JobKind::Ingest => "ingest-",
    };
    proof {
        reveal_strlit("");
        assert(""@ =~= Seq::<char>::empty());
    }
    let mut workflow = String::new();
    workflow.append("gcpx-wf-");
    workflow.append(infix);
    workflow.append(name);
    let mut scheduler = String::new();
    scheduler.append("gcpx-sched-");
    scheduler.append(infix);
    scheduler.append(name);
    JobNames { workflow, scheduler }
}

/// The resource id of a job: `<kind>-job/<project>/<region>/<name>`.
pub fn job_id(kind: JobKind, project: &str, region: &str, name: &str) -> (r: String)
    ensures
        r@ == id_root(kind) + "/"@ + project@ + "/"@ + region@ + "/"@ + name@,
{
    let mut r = String::new();
    r.append(
        match kind {
            JobKind::Sql => "sql-job",
            JobKind::Export => "export-job",
            JobKind::Ingest => "ingest-job",
        },
    );
    r.append("/");
    r.append(project);
    r.append("/");
    r.append(region);
    r.append("/");
    r.append(name);
    r
}

/// The full name of a workflow.
pub open spec fn workflow_name_text(project: Seq<char>, region: Seq<char>, wf: Seq<char>) -> Seq<
    char,
> {
    "projects/"@ + project + "/locations/"@ + region + "/workflows/"@ + wf
}

// ───────────────────────── records ─────────────────────────

/// What a scheduled job records of itself: the full names of its workflow
/// and scheduler job, the scheduler job's state and its next run.
pub struct JobRecord {
    pub workflow_name: String,
    pub scheduler_job_name: String,
    pub state: String,
    pub next_run_time: String,
}

impl JobRecord {
    /// A copy of this record.
    pub fn copy(&self) -> (r: JobRecord)
        ensures
            r == *self,
    {
        JobRecord {
            workflow_name: self.workflow_name.clone(),
            scheduler_job_name: self.scheduler_job_name.clone(),
            state: self.state.clone(),
            next_run_time: self.next_run_time.clone(),
        }
    }
}

impl JobRecord {
    /// The state a SQL job records.
    pub fn into_sql_state(self) -> (r: SqlJobState)
        ensures
            r.workflow_name == self.workflow_name,
            r.scheduler_job_name == self.scheduler_job_name,
            r.state == self.state,
            r.next_run_time == self.next_run_time,
    {
        SqlJobState {
            workflow_name: self.workflow_name,
            scheduler_job_name: self.scheduler_job_name,
            state: self.state,
            next_run_time: self.next_run_time,
        }
    }

    /// The state a Dataproc job records: this record, and the fingerprint of
    /// the workflow definition the plan deploys.
    pub fn into_dataproc_state(self, plan: &JobPlan) -> (r: DataprocJobState)
        ensures
            r.workflow_name == self.workflow_name,
            r.scheduler_job_name == self.scheduler_job_name,
            r.state == self.state,
            r.next_run_time == self.next_run_time,
            r.definition_fingerprint@ == hex_digits(default_hash(plan.workflow_yaml@) as nat, 16),
    {
        DataprocJobState {
            workflow_name: self.workflow_name,
            scheduler_job_name: self.scheduler_job_name,
            state: self.state,
            next_run_time: self.next_run_time,
            definition_fingerprint: definition_fingerprint(plan.workflow_yaml.as_str()),
        }
    }
}

/// The record of a job whose APIs were not asked: the names it has by
/// construction, the given state and no next run.
pub open spec fn is_named_record(
    r: JobRecord,
    project: Seq<char>,
    region: Seq<char>,
    names: JobNames,
    state: Seq<char>,
) -> bool {
    &&& r.workflow_name@ == workflow_name_text(project, region, names.workflow@)
    &&& r.scheduler_job_name@ == job_name_text(project, region, names.scheduler@)
    &&& r.state@ == state
    &&& r.next_run_time@ == Seq::<char>::empty()
}

/// The record of a job from its names, with the given state.
pub fn named_record(project: &str, region: &str, names: &JobNames, state: &str) -> (r: JobRecord)
    ensures
        is_named_record(r, project@, region@, *names, state@),
{
    let mut workflow_name = String::new();
    workflow_name.append("projects/");
    workflow_name.append(project);
    workflow_name.append("/locations/");
    workflow_name.append(region);
    workflow_name.append("/workflows/");
    workflow_name.append(names.workflow.as_str());
    let mut scheduler_job_name = String::new();
    scheduler_job_name.append("projects/");
    scheduler_job_name.append(project);
    scheduler_job_name.append("/locations/");
    scheduler_job_name.append(region);
    scheduler_job_name.append("/jobs/");
    scheduler_job_name.append(names.scheduler.as_str());
    let mut st = String::new();
    st.append(state);
    JobRecord { workflow_name, scheduler_job_name, state: st, next_run_time: String::new() }
}

/// The state a job is left in by an update: `PAUSED` when it is configured
/// paused, else `ENABLED`.
pub open spec fn configured_state(paused: Option<bool>) -> Seq<char> {
    if paused == Some(true) {
        "PAUSED"@
    } else {
        "ENABLED"@
    }
}

// ───────────────────────── plans ─────────────────────────

/// Everything the calls of one create or update carry.
pub struct JobPlan {
    pub id: String,
    pub project: String,
    pub region: String,
    pub names: JobNames,
    /// The service account the workflow runs as.
    pub service_account: String,
    pub workflow_yaml: String,
    /// SQL to dry-run before the workflow is written, where there is any.
    pub sql_check: Option<String>,
    pub create_body: SchedulerJobBody,
    pub patch_body: SchedulerJobBody,
    pub paused: Option<bool>,
    pub preview: bool,
    /// Whether an update writes the workflow again.
    pub rewrite_workflow: bool,
    /// What a preview of the create records.
    pub preview_record: JobRecord,
    /// What an update records.
    pub updated_record: JobRecord,
}

/// The scheduler settings of a job as text.
pub open spec fn body_fields(
    project: Seq<char>,
    region: Seq<char>,
    names: JobNames,
    schedule: Seq<char>,
    time_zone: Seq<char>,
    service_account: Seq<char>,
    description: Option<Seq<char>>,
    retry_count: Option<i32>,
    attempt_deadline: Option<Seq<char>>,
) -> BodyFields {
    BodyFields {
        project,
        region,
        sched_name: names.scheduler@,
        wf_name: names.workflow@,
        schedule,
        time_zone,
        service_account,
        description,
        retry_count,
        attempt_deadline,
    }
}

/// What every plan of a job of this kind, project, region and name holds,
/// whatever its workflow and bodies.
pub open spec fn plan_frame(
    p: JobPlan,
    kind: JobKind,
    project: Seq<char>,
    region: Seq<char>,
    name: Seq<char>,
    service_account: Seq<char>,
    paused: Option<bool>,
    preview: bool,
) -> bool {
    &&& p.id@ == id_root(kind) + "/"@ + project + "/"@ + region + "/"@ + name
    &&& p.project@ == project
    &&& p.region@ == region
    &&& p.names.workflow@ == "gcpx-wf-"@ + name_infix(kind) + name
    &&& p.names.scheduler@ == "gcpx-sched-"@ + name_infix(kind) + name
    &&& p.service_account@ == service_account
    &&& p.paused == paused
    &&& p.preview == preview
    &&& is_named_record(p.preview_record, project, region, p.names, "PREVIEW"@)
    &&& is_named_record(p.updated_record, project, region, p.names, configured_state(paused))
}

fn owned(s: &str) -> (r: String)
    ensures
        r@ == s@,
{
    let mut r = String::new();
    r.append(s);
    r
}

fn state_word(paused: Option<bool>) -> (r: &'static str)
    ensures
        r@ == configured_state(paused),
{
    match paused {
        Some(true) => "PAUSED",
        _ => "ENABLED",
    }
}

/// The plan of a scheduled SQL job. Its SQL is dry-run before the workflow
/// is written; an update writes the workflow again only when the SQL differs
/// from `old_sql` (a missing one counts as empty).
pub fn sql_job_plan(inputs: &SqlJobInputs<'_>, preview: bool, old_sql: Option<&str>) -> (p: JobPlan)
    ensures
        plan_frame(
            p,
            JobKind::Sql,
            inputs.project@,
            inputs.region@,
            inputs.name@,
            inputs.service_account@,
            inputs.paused,
            preview,
        ),
        p.workflow_yaml@ == step_yaml("runQuery"@, inputs.project@, inputs.sql@),
        p.sql_check matches Some(s) && s@ == inputs.sql@,
        p.rewrite_workflow == (match old_sql {
            Some(o) => o@,
            None => Seq::<char>::empty(),
        } != inputs.sql@),
        is_create_body(
            p.create_body,
            body_fields(
                inputs.project@,
                inputs.region@,
                p.names,
                inputs.schedule@,
                inputs.time_zone@,
                inputs.service_account@,
                opt_str(inputs.description),
                inputs.retry_count,
                opt_str(inputs.attempt_deadline),
            ),
        ),
        is_patch_body(
            p.patch_body,
            body_fields(
                inputs.project@,
                inputs.region@,
                p.names,
                inputs.schedule@,
                inputs.time_zone@,
                inputs.service_account@,
                opt_str(inputs.description),
                inputs.retry_count,
                opt_str(inputs.attempt_deadline),
            ),
            true,
        ),
{
    let names = job_names(JobKind::Sql, inputs.name);
    let cfg = SchedulerBodyConfig {
        project: inputs.project,
        region: inputs.region,
        sched_name: names.scheduler.as_str(),
        wf_name: names.workflow.as_str(),
        schedule: inputs.schedule,
        time_zone: inputs.time_zone,
        service_account: inputs.service_account,
        description: inputs.description,
        paused: inputs.paused,
        retry_count: inputs.retry_count,
        attempt_deadline: inputs.attempt_deadline,
    };
    let create_body = build_scheduler_create_body(&cfg);
    let patch_body = build_scheduler_patch_body(&cfg, true);
    let old = match old_sql {
        Some(o) => o,
        None => "",
    };
    proof {
        reveal_strlit("");
        assert(""@ =~= Seq::<char>::empty());
    }
    let rewrite_workflow = !str_eq(old, inputs.sql);
    let preview_record = named_record(inputs.project, inputs.region, &names, "PREVIEW");
    let updated_record = named_record(inputs.project, inputs.region, &names, state_word(inputs.paused));
    JobPlan {
        id: job_id(JobKind::Sql, inputs.project, inputs.region, inputs.name),
        project: owned(inputs.project),
        region: owned(inputs.region),
        names,
        service_account: owned(inputs.service_account),
        workflow_yaml: generate_workflow_yaml(inputs.project, inputs.sql),
        sql_check: Some(owned(inputs.sql)),
        create_body,
        patch_body,
        paused: inputs.paused,
        preview,
        rewrite_workflow,
        preview_record,
        updated_record,
    }
}

/// The plan of a scheduled export job. Nothing is dry-run, and an update
/// always writes the workflow again.
pub fn export_job_plan(inputs: &ExportJobInputs<'_>, preview: bool) -> (p: JobPlan)
    ensures
        plan_frame(
            p,
            JobKind::Export,
            inputs.project@,
            inputs.region@,
            inputs.name@,
            inputs.service_account@,
            inputs.paused,
            preview,
        ),
        p.workflow_yaml@ == export_definition(*inputs),
        p.sql_check is None,
        p.rewrite_workflow,
        is_create_body(
            p.create_body,
            body_fields(
                inputs.project@,
                inputs.region@,
                p.names,
                inputs.schedule@,
                inputs.time_zone@,
                inputs.service_account@,
                opt_str(inputs.description),
                inputs.retry_count,
                opt_str(inputs.attempt_deadline),
            ),
        ),
        is_patch_body(
            p.patch_body,
            body_fields(
                inputs.project@,
                inputs.region@,
                p.names,
                inputs.schedule@,
                inputs.time_zone@,
                inputs.service_account@,
                opt_str(inputs.description),
                inputs.retry_count,
                opt_str(inputs.attempt_deadline),
            ),
            true,
        ),
{
    let names = job_names(JobKind::Export, inputs.name);
    let cfg = inputs.sched_config(names.scheduler.as_str(), names.workflow.as_str());
    let create_body = build_scheduler_create_body(&cfg);
    let patch_body = build_scheduler_patch_body(&cfg, true);
    let preview_record = named_record(inputs.project, inputs.region, &names, "PREVIEW");
    let updated_record = named_record(inputs.project, inputs.region, &names, state_word(inputs.paused));
    JobPlan {
        id: job_id(JobKind::Export, inputs.project, inputs.region, inputs.name),
        project: owned(inputs.project),
        region: owned(inputs.region),
        names,
        service_account: owned(inputs.service_account),
        workflow_yaml: generate_export_workflow(inputs),
        sql_check: None,
        create_body,
        patch_body,
        paused: inputs.paused,
        preview,
        rewrite_workflow: true,
        preview_record,
        updated_record,
    }
}

/// The plan of a scheduled ingest job. Nothing is dry-run, and an update
/// always writes the workflow again.
pub fn ingest_job_plan(inputs: &IngestJobInputs<'_>, preview: bool) -> (p: JobPlan)
    ensures
        plan_frame(
            p,
            JobKind::Ingest,
            inputs.project@,
            inputs.region@,
            inputs.name@,
            inputs.service_account@,
            inputs.paused,
            preview,
        ),
        p.workflow_yaml@ == ingest_definition(*inputs),
        p.sql_check is None,
        p.rewrite_workflow,
        is_create_body(
            p.create_body,
            body_fields(
                inputs.project@,
                inputs.region@,
                p.names,
                inputs.schedule@,
                inputs.time_zone@,
                inputs.service_account@,
                opt_str(inputs.description),
                inputs.retry_count,
                opt_str(inputs.attempt_deadline),
            ),
        ),
        is_patch_body(
            p.patch_body,
            body_fields(
                inputs.project@,
                inputs.region@,
                p.names,
                inputs.schedule@,
                inputs.time_zone@,
                inputs.service_account@,
                opt_str(inputs.description),
                inputs.retry_count,
                opt_str(inputs.attempt_deadline),
            ),
            true,
        ),
{
    let names = job_names(JobKind::Ingest, inputs.name);
    let cfg = inputs.sched_config(names.scheduler.as_str(), names.workflow.as_str());
    let create_body = build_scheduler_create_body(&cfg);
    let patch_body = build_scheduler_patch_body(&cfg, true);
    let preview_record = named_record(inputs.project, inputs.region, &names, "PREVIEW");
    let updated_record = named_record(inputs.project, inputs.region, &names, state_word(inputs.paused));
    JobPlan {
        id: job_id(JobKind::Ingest, inputs.project, inputs.region, inputs.name),
        project: owned(inputs.project),
        region: owned(inputs.region),
        names,
        service_account: owned(inputs.service_account),
        workflow_yaml: generate_ingest_workflow(inputs),
        sql_check: None,
        create_body,
        patch_body,
        paused: inputs.paused,
        preview,
        rewrite_workflow: true,
        preview_record,
        updated_record,
    }
}

// ───────────────────────── the machine ─────────────────────────

/// A call the caller is to make next, with the plan's values: the dry run
/// of `sql_check`; the workflow `names.workflow` with `workflow_yaml` (and,
/// when created, `service_account`); the scheduler job `names.scheduler`
/// with `create_body` or `patch_body`. Creating a resource adopts one that
/// already exists.
#[derive(PartialEq, Eq)]
pub enum JobCall {
    CheckSql,
    CreateWorkflow,
    UpdateWorkflow,
    CreateSchedulerJob,
    PatchSchedulerJob,
    PauseSchedulerJob,
    ResumeSchedulerJob,
    DeleteWorkflow,
}

/// The answer to the last call.
pub enum JobReply {
    /// A call with nothing to report succeeded.
    Done,
    /// The dry run ran: whether the SQL is valid, and the error it found.
    SqlChecked { valid: bool, error_message: Option<String> },
    /// The workflow as the API reports it after the call.
    Workflow(WorkflowMeta),
    /// The scheduler job as the API reports it after the call.
    SchedulerJob(SchedulerJobMeta),
    /// The call failed, for this reason.
    Failed(String),
}

/// Which later call failed.
#[derive(PartialEq, Eq)]
pub enum FailedCall {
    UpdateWorkflow,
    UpdateSchedulerJob,
    PauseSchedulerJob,
    ResumeSchedulerJob,
}

/// Why a create or an update fails.
pub enum JobError {
    /// The dry run of the SQL could not be made.
    SqlCheckFailed(String),
    /// The dry run found the SQL invalid, with the error it reported.
    SqlInvalid(Option<String>),
    /// Creating the workflow or the scheduler job failed; the call's own error
    /// is the answer.
    CallFailed(String),
    /// A later call failed.
    Internal(FailedCall, String),
    /// A reply that does not answer the call that was asked for.
    OutOfOrder,
}

/// What happens next.
pub enum JobStep {
    Call(JobCall),
    Finish(JobRecord),
    Fail(JobError),
}

/// Where a create stands.
pub enum CreateStage {
    CheckingSql,
    CreatingWorkflow,
    /// The workflow exists under this full name.
    CreatingSchedulerJob { workflow_name: String },
    /// The scheduler job could not be created; the workflow is being removed.
    RollingBack { error: JobError },
    Pausing { workflow_name: String },
    Over,
}

/// Where an update stands.
pub enum UpdateStage {
    CheckingSql,
    RewritingWorkflow,
    Patching,
    Pausing,
    Resuming,
    Over,
}

/// The record of a created job: the workflow's name and what the scheduler
/// API last reported of the job.
pub open spec fn created_record(workflow_name: String, job: SchedulerJobMeta) -> JobRecord {
    JobRecord {
        workflow_name,
        scheduler_job_name: job.name,
        state: job.state,
        next_run_time: job.schedule_time,
    }
}

/// The first step of a create: a preview calls nothing and records the
/// names and `PREVIEW`; otherwise the SQL is checked first where there is
/// some, and the workflow is created.
pub open spec fn create_start(p: JobPlan) -> (CreateStage, JobStep) {
    if p.preview {
        (CreateStage::Over, JobStep::Finish(p.preview_record))
    } else if p.sql_check is Some {
        (CreateStage::CheckingSql, JobStep::Call(JobCall::CheckSql))
    } else {
        (CreateStage::CreatingWorkflow, JobStep::Call(JobCall::CreateWorkflow))
    }
}

/// A create's step on a reply. Valid SQL leads to the workflow, the workflow
/// to the scheduler job, and that to a pause when the job is configured
/// paused (the create body cannot carry a state). A failed scheduler job
/// creation removes the workflow, whatever that removal answers, and then
/// fails with the scheduler job's error.
pub open spec fn create_next(p: JobPlan, stage: CreateStage, reply: JobReply) -> (CreateStage, JobStep) {
    match stage {
        CreateStage::CheckingSql => match reply {
            JobReply::SqlChecked { valid, error_message } => if valid {
                (CreateStage::CreatingWorkflow, JobStep::Call(JobCall::CreateWorkflow))
            } else {
                (CreateStage::Over, JobStep::Fail(JobError::SqlInvalid(error_message)))
            },
            JobReply::Failed(e) => (CreateStage::Over, JobStep::Fail(JobError::SqlCheckFailed(e))),
            _ => (CreateStage::Over, JobStep::Fail(JobError::OutOfOrder)),
        },
        CreateStage::CreatingWorkflow => match reply {
            JobReply::Workflow(w) => (
                CreateStage::CreatingSchedulerJob { workflow_name: w.name },
                JobStep::Call(JobCall::CreateSchedulerJob),
            ),
            JobReply::Failed(e) => (CreateStage::Over, JobStep::Fail(JobError::CallFailed(e))),
            _ => (CreateStage::Over, JobStep::Fail(JobError::OutOfOrder)),
        },
        CreateStage::CreatingSchedulerJob { workflow_name } => match reply {
            JobReply::SchedulerJob(j) => if p.paused == Some(true) {
                (CreateStage::Pausing { workflow_name }, JobStep::Call(JobCall::PauseSchedulerJob))
            } else {
                (CreateStage::Over, JobStep::Finish(created_record(workflow_name, j)))
            },
            JobReply::Failed(e) => (
                CreateStage::RollingBack { error: JobError::CallFailed(e) },
                JobStep::Call(JobCall::DeleteWorkflow),
            ),
            _ => (CreateStage::Over, JobStep::Fail(JobError::OutOfOrder)),
        },
        CreateStage::RollingBack { error } => (CreateStage::Over, JobStep::Fail(error)),
        CreateStage::Pausing { workflow_name } => match reply {
            JobReply::SchedulerJob(j) => (
                CreateStage::Over,
                JobStep::Finish(created_record(workflow_name, j)),
            ),
            JobReply::Failed(e) => (
                CreateStage::Over,
                JobStep::Fail(JobError::Internal(FailedCall::PauseSchedulerJob, e)),
            ),
            _ => (CreateStage::Over, JobStep::Fail(JobError::OutOfOrder)),
        },
        CreateStage::Over => (CreateStage::Over, JobStep::Fail(JobError::OutOfOrder)),
    }
}

/// The first step of a create.
pub fn begin_create(p: &JobPlan) -> (r: (CreateStage, JobStep))
    ensures
        r == create_start(*p),
{
    if p.preview {
        (CreateStage::Over, JobStep::Finish(p.preview_record.copy()))
    } else if p.sql_check.is_some() {
        (CreateStage::CheckingSql, JobStep::Call(JobCall::CheckSql))
    } else {
        (CreateStage::CreatingWorkflow, JobStep::Call(JobCall::CreateWorkflow))
    }
}

/// The step of a create on the reply to its last call.
pub fn create_step(p: &JobPlan, stage: CreateStage, reply: JobReply) -> (r: (CreateStage, JobStep))
    ensures
        r == create_next(*p, stage, reply),
{
    match stage {
        CreateStage::CheckingSql => match reply {
            JobReply::SqlChecked { valid, error_message } => if valid {
                (CreateStage::CreatingWorkflow, JobStep::Call(JobCall::CreateWorkflow))
            } else {
                (CreateStage::Over, JobStep::Fail(JobError::SqlInvalid(error_message)))
            },
            JobReply::Failed(e) => (CreateStage::Over, JobStep::Fail(JobError::SqlCheckFailed(e))),
            _ => (CreateStage::Over, JobStep::Fail(JobError::OutOfOrder)),
        },
        CreateStage::CreatingWorkflow => match reply {
            JobReply::Workflow(w) => (
                CreateStage::CreatingSchedulerJob { workflow_name: w.name },
                JobStep::Call(JobCall::CreateSchedulerJob),
            ),
            JobReply::Failed(e) => (CreateStage::Over, JobStep::Fail(JobError::CallFailed(e))),
            _ => (CreateStage::Over, JobStep::Fail(JobError::OutOfOrder)),
        },
        CreateStage::CreatingSchedulerJob { workflow_name } => match reply {
            JobReply::SchedulerJob(j) => if p.paused == Some(true) {
                (CreateStage::Pausing { workflow_name }, JobStep::Call(JobCall::PauseSchedulerJob))
            } else {
                (
                    CreateStage::Over,
                    JobStep::Finish(
                        JobRecord {
                            workflow_name,
                            scheduler_job_name: j.name,
                            state: j.state,
                            next_run_time: j.schedule_time,
                        },
                    ),
                )
            },
            JobReply::Failed(e) => (
                CreateStage::RollingBack { error: JobError::CallFailed(e) },
                JobStep::Call(JobCall::DeleteWorkflow),
            ),
            _ => (CreateStage::Over, JobStep::Fail(JobError::OutOfOrder)),
        },
        CreateStage::RollingBack { error } => (CreateStage::Over, JobStep::Fail(error)),
        CreateStage::Pausing { workflow_name } => match reply {
            JobReply::SchedulerJob(j) => (
                CreateStage::Over,
                JobStep::Finish(
                    JobRecord {
                        workflow_name,
                        scheduler_job_name: j.name,
                        state: j.state,
                        next_run_time: j.schedule_time,
                    },
                ),
            ),
            JobReply::Failed(e) => (
                CreateStage::Over,
                JobStep::Fail(JobError::Internal(FailedCall::PauseSchedulerJob, e)),
            ),
            _ => (CreateStage::Over, JobStep::Fail(JobError::OutOfOrder)),
        },
        CreateStage::Over => (CreateStage::Over, JobStep::Fail(JobError::OutOfOrder)),
    }
}

/// What an update does once the scheduler job is patched: the state is set
/// through its own endpoint (a patch cannot carry it), pausing or resuming
/// as configured, and nothing when no state is configured.
pub open spec fn after_patch(p: JobPlan) -> (UpdateStage, JobStep) {
    match p.paused {
        Some(true) => (UpdateStage::Pausing, JobStep::Call(JobCall::PauseSchedulerJob)),
        Some(false) => (UpdateStage::Resuming, JobStep::Call(JobCall::ResumeSchedulerJob)),
        None => (UpdateStage::Over, JobStep::Finish(p.updated_record)),
    }
}

/// The first step of an update: a preview calls nothing; otherwise the
/// workflow is written again where the plan says so (its SQL checked first
/// where there is some), else the scheduler job is patched straight away.
pub open spec fn update_start(p: JobPlan) -> (UpdateStage, JobStep) {
    if p.preview {
        (UpdateStage::Over, JobStep::Finish(p.updated_record))
    } else if p.rewrite_workflow {
        if p.sql_check is Some {
            (UpdateStage::CheckingSql, JobStep::Call(JobCall::CheckSql))
        } else {
            (UpdateStage::RewritingWorkflow, JobStep::Call(JobCall::UpdateWorkflow))
        }
    } else {
        (UpdateStage::Patching, JobStep::Call(JobCall::PatchSchedulerJob))
    }
}

/// An update's step on a reply. Every update records the names and the
/// configured state, whatever the APIs answered.
pub open spec fn update_next(p: JobPlan, stage: UpdateStage, reply: JobReply) -> (UpdateStage, JobStep) {
    match stage {
        UpdateStage::CheckingSql => match reply {
            JobReply::SqlChecked { valid, error_message } => if valid {
                (UpdateStage::RewritingWorkflow, JobStep::Call(JobCall::UpdateWorkflow))
            } else {
                (UpdateStage::Over, JobStep::Fail(JobError::SqlInvalid(error_message)))
            },
            JobReply::Failed(e) => (UpdateStage::Over, JobStep::Fail(JobError::SqlCheckFailed(e))),
            _ => (UpdateStage::Over, JobStep::Fail(JobError::OutOfOrder)),
        },
        UpdateStage::RewritingWorkflow => match reply {
            JobReply::Workflow(_) => (UpdateStage::Patching, JobStep::Call(JobCall::PatchSchedulerJob)),
            JobReply::Failed(e) => (
                UpdateStage::Over,
                JobStep::Fail(JobError::Internal(FailedCall::UpdateWorkflow, e)),
            ),
            _ => (UpdateStage::Over, JobStep::Fail(JobError::OutOfOrder)),
        },
        UpdateStage::Patching => match reply {
            JobReply::SchedulerJob(_) => after_patch(p),
            JobReply::Failed(e) => (
                UpdateStage::Over,
                JobStep::Fail(JobError::Internal(FailedCall::UpdateSchedulerJob, e)),
            ),
            _ => (UpdateStage::Over, JobStep::Fail(JobError::OutOfOrder)),
        },
        UpdateStage::Pausing => match reply {
            JobReply::SchedulerJob(_) => (UpdateStage::Over, JobStep::Finish(p.updated_record)),
            JobReply::Failed(e) => (
                UpdateStage::Over,
                JobStep::Fail(JobError::Internal(FailedCall::PauseSchedulerJob, e)),
            ),
            _ => (UpdateStage::Over, JobStep::Fail(JobError::OutOfOrder)),
        },
        UpdateStage::Resuming => match reply {
            JobReply::SchedulerJob(_) => (UpdateStage::Over, JobStep::Finish(p.updated_record)),
            JobReply::Failed(e) => (
                UpdateStage::Over,
                JobStep::Fail(JobError::Internal(FailedCall::ResumeSchedulerJob, e)),
            ),
            _ => (UpdateStage::Over, JobStep::Fail(JobError::OutOfOrder)),
        },
        UpdateStage::Over => (UpdateStage::Over, JobStep::Fail(JobError::OutOfOrder)),
    }
}

fn patched(p: &JobPlan) -> (r: (UpdateStage, JobStep))
    ensures
        r == after_patch(*p),
{
    match p.paused {
        Some(true) => (UpdateStage::Pausing, JobStep::Call(JobCall::PauseSchedulerJob)),
        Some(false) => (UpdateStage::Resuming, JobStep::Call(JobCall::ResumeSchedulerJob)),
        None => (UpdateStage::Over, JobStep::Finish(p.updated_record.copy())),
    }
}

/// The first step of an update.
pub fn begin_update(p: &JobPlan) -> (r: (UpdateStage, JobStep))
    ensures
        r == update_start(*p),
{
    if p.preview {
        (UpdateStage::Over, JobStep::Finish(p.updated_record.copy()))
    } else if p.rewrite_workflow {
        if p.sql_check.is_some() {
            (UpdateStage::CheckingSql, JobStep::Call(JobCall::CheckSql))
        } else {
            (UpdateStage::RewritingWorkflow, JobStep::Call(JobCall::UpdateWorkflow))
        }
    } else {
        (UpdateStage::Patching, JobStep::Call(JobCall::PatchSchedulerJob))
    }
}

/// The step of an update on the reply to its last call.
pub fn update_step(p: &JobPlan, stage: UpdateStage, reply: JobReply) -> (r: (UpdateStage, JobStep))
    ensures
        r == update_next(*p, stage, reply),
{
    match stage {
        UpdateStage::CheckingSql => match reply {
            JobReply::SqlChecked { valid, error_message } => if valid {
                (UpdateStage::RewritingWorkflow, JobStep::Call(JobCall::UpdateWorkflow))
            } else {
                (UpdateStage::Over, JobStep::Fail(JobError::SqlInvalid(error_message)))
            },
            JobReply::Failed(e) => (UpdateStage::Over, JobStep::Fail(JobError::SqlCheckFailed(e))),
            _ => (UpdateStage::Over, JobStep::Fail(JobError::OutOfOrder)),
        },
        UpdateStage::RewritingWorkflow => match reply {
            JobReply::Workflow(_) => (UpdateStage::Patching, JobStep::Call(JobCall::PatchSchedulerJob)),
            JobReply::Failed(e) => (
                UpdateStage::Over,
                JobStep::Fail(JobError::Internal(FailedCall::UpdateWorkflow, e)),
            ),
            _ => (UpdateStage::Over, JobStep::Fail(JobError::OutOfOrder)),
        },
        UpdateStage::Patching => match reply {
            JobReply::SchedulerJob(_) => patched(p),
            JobReply::Failed(e) => (
                UpdateStage::Over,
                JobStep::Fail(JobError::Internal(FailedCall::UpdateSchedulerJob, e)),
            ),
            _ => (UpdateStage::Over, JobStep::Fail(JobError::OutOfOrder)),
        },
        UpdateStage::Pausing => match reply {
            JobReply::SchedulerJob(_) => (UpdateStage::Over, JobStep::Finish(p.updated_record.copy())),
            JobReply::Failed(e) => (
                UpdateStage::Over,
                JobStep::Fail(JobError::Internal(FailedCall::PauseSchedulerJob, e)),
            ),
            _ => (UpdateStage::Over, JobStep::Fail(JobError::OutOfOrder)),
        },
        UpdateStage::Resuming => match reply {
            JobReply::SchedulerJob(_) => (UpdateStage::Over, JobStep::Finish(p.updated_record.copy())),
            JobReply::Failed(e) => (
                UpdateStage::Over,
                JobStep::Fail(JobError::Internal(FailedCall::ResumeSchedulerJob, e)),
            ),
            _ => (UpdateStage::Over, JobStep::Fail(JobError::OutOfOrder)),
        },
        UpdateStage::Over => (UpdateStage::Over, JobStep::Fail(JobError::OutOfOrder)),
    }
}

// ───────────────────────── errors ─────────────────────────

/// What a failed call was doing, as its error message says it.
pub open spec fn failed_call_text(c: FailedCall) -> Seq<char> {
    match c {
        FailedCall::UpdateWorkflow => "failed to update workflow"@,
        FailedCall::UpdateSchedulerJob => "failed to update scheduler job"@,
        FailedCall::PauseSchedulerJob => "failed to pause scheduler job"@,
        FailedCall::ResumeSchedulerJob => "failed to resume scheduler job"@,
    }
}

/// The message of each error.
pub open spec fn job_error_text(e: JobError) -> Seq<char> {
    match e {
        JobError::SqlCheckFailed(m) => "SQL validation failed: "@ + m@,
        JobError::SqlInvalid(m) => "SQL is invalid \u{2014} scheduler job would fail at runtime: "@ + match m {
            Some(t) => t@,
            None => Seq::empty(),
        },
        JobError::CallFailed(m) => m@,
        JobError::Internal(c, m) => failed_call_text(c) + ": "@ + m@,
        JobError::OutOfOrder => "a reply did not answer the call that was made"@,
    }
}

impl JobError {
    /// Whether the error lies in the job's inputs (its SQL) rather than in
    /// the calls.
    pub fn is_invalid_argument(&self) -> (r: bool)
        ensures
            r == (self is SqlCheckFailed || self is SqlInvalid),
    {
        match self {
            JobError::SqlCheckFailed(_) => true,
            JobError::SqlInvalid(_) => true,
            _ => false,
        }
    }

    /// The error's message.
    pub fn message(&self) -> (r: String)
        ensures
            r@ == job_error_text(*self),
    {
        let mut r = String::new();
        match self {
            JobError::SqlCheckFailed(m) => {
                r.append("SQL validation failed: ");
                r.append(m.as_str());
            },
            JobError::SqlInvalid(m) => {
                r.append("SQL is invalid \u{2014} scheduler job would fail at runtime: ");
                match m {
                    Some(t) => r.append(t.as_str()),
                    None => {},
                }
            },
            JobError::CallFailed(m) => r.append(m.as_str()),
            JobError::Internal(c, m) => {
                r.append(
                    match c {
                        FailedCall::UpdateWorkflow => "failed to update workflow",
                        FailedCall::UpdateSchedulerJob => "failed to update scheduler job",
                        FailedCall::PauseSchedulerJob => "failed to pause scheduler job",
                        FailedCall::ResumeSchedulerJob => "failed to resume scheduler job",
                    },
                );
                r.append(": ");
                r.append(m.as_str());
            },
            JobError::OutOfOrder => r.append("a reply did not answer the call that was made"),
        }
        proof {
            reveal_strlit("");
        }
        r
    }
}

// ───────────────────────── workflow readiness ─────────────────────────

/// The state in which a workflow can be run.
pub const WORKFLOW_ACTIVE: &'static str = "ACTIVE";

/// Whether a workflow that finished provisioning can be used: only in state
/// `ACTIVE`; in any other state the error names the workflow and its state.
pub fn workflow_ready(name: &str, state: &str) -> (r: Result<(), String>)
    ensures
        r is Ok <==> state@ == WORKFLOW_ACTIVE@,
        r matches Err(e) ==> e@ == "workflow '"@ + name@ + "' finished provisioning in state "@ + state@
            + " rather than ACTIVE"@,
{
    if str_eq(state, WORKFLOW_ACTIVE) {
        Ok(())
    } else {
        let mut e = String::new();
        e.append("workflow '");
        e.append(name);
        e.append("' finished provisioning in state ");
        e.append(state);
        e.append(" rather than ACTIVE");
        Err(e)
    }
}

// ───────────────────────── deletion ─────────────────────────

/// How many times a delete looks whether both resources are gone.
pub const DELETE_POLLS: u32 = 10;

/// The names a delete removes: none unless the project, region and name are
/// all known.
pub fn delete_targets(kind: JobKind, project: &str, region: &str, name: &str) -> (r: Option<JobNames>)
    ensures
        r is Some <==> (project@.len() > 0 && region@.len() > 0 && name@.len() > 0),
        r matches Some(n) ==> n.workflow@ == "gcpx-wf-"@ + name_infix(kind) + name@
            && n.scheduler@ == "gcpx-sched-"@ + name_infix(kind) + name@,
{
    if project.unicode_len() > 0 && region.unicode_len() > 0 && name.unicode_len() > 0 {
        Some(job_names(kind, name))
    } else {
        None
    }
}

/// After the look numbered `round` (from 0): whether to wait and look
/// again. A delete stops once both are gone, or after [`DELETE_POLLS`]
/// looks.
pub fn poll_again(round: u32, scheduler_gone: bool, workflow_gone: bool) -> (r: bool)
    ensures
        r == (!(scheduler_gone && workflow_gone) && round + 1 < DELETE_POLLS),
{
    !(scheduler_gone && workflow_gone) && round < DELETE_POLLS - 1
}

// ───────────────────────── laws ─────────────────────────

/// A preview calls no API: both a create and an update finish at once, with
/// the record the plan computed from the names.
pub proof fn law_preview_calls_nothing(p: JobPlan)
    requires
        p.preview,
    ensures
        create_start(p).1 == JobStep::Finish(p.preview_record),
        update_start(p).1 == JobStep::Finish(p.updated_record),
{
}

/// SQL that the dry run finds invalid stops a create or an update before
/// anything is written, and the error carries what the dry run reported.
pub proof fn law_invalid_sql_writes_nothing(p: JobPlan, error_message: Option<String>)
    ensures
        create_next(
            p,
            CreateStage::CheckingSql,
            JobReply::SqlChecked { valid: false, error_message },
        ).1 == JobStep::Fail(JobError::SqlInvalid(error_message)),
        update_next(
            p,
            UpdateStage::CheckingSql,
            JobReply::SqlChecked { valid: false, error_message },
        ).1 == JobStep::Fail(JobError::SqlInvalid(error_message)),
{
}

/// When the scheduler job cannot be created, the workflow created for it is
/// deleted next, and the create then fails with the scheduler job's error,
/// whatever the deletion answers.
pub proof fn law_failed_scheduler_job_rolls_back(
    p: JobPlan,
    workflow_name: String,
    error: String,
    deletion: JobReply,
)
    ensures
        ({
            let (stage, step) = create_next(
                p,
                CreateStage::CreatingSchedulerJob { workflow_name },
                JobReply::Failed(error),
            );
            &&& step == JobStep::Call(JobCall::DeleteWorkflow)
            &&& create_next(p, stage, deletion).1 == JobStep::Fail(JobError::CallFailed(error))
        }),
{
}

/// A job configured paused is paused right after its creation, and what it
/// records is what the pause reported; one not configured paused records
/// what its creation reported.
pub proof fn law_created_job_paused_as_configured(
    p: JobPlan,
    workflow_name: String,
    created: SchedulerJobMeta,
    paused: SchedulerJobMeta,
)
    ensures
        ({
            let (stage, step) = create_next(
                p,
                CreateStage::CreatingSchedulerJob { workflow_name },
                JobReply::SchedulerJob(created),
            );
            &&& p.paused == Some(true) ==> step == JobStep::Call(JobCall::PauseSchedulerJob)
                && create_next(p, stage, JobReply::SchedulerJob(paused)).1 == JobStep::Finish(
                created_record(workflow_name, paused),
            )
            &&& p.paused != Some(true) ==> step == JobStep::Finish(
                created_record(workflow_name, created),
            )
        }),
{
}

/// Whatever the APIs answer, an update that finishes records the plan's
/// names and the configured state.
pub proof fn law_update_records_configured_state(p: JobPlan, stage: UpdateStage, reply: JobReply)
    ensures
        update_start(p).1 matches JobStep::Finish(r) ==> r == p.updated_record,
        update_next(p, stage, reply).1 matches JobStep::Finish(r) ==> r == p.updated_record,
{
}

} // verus!
