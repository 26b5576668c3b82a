//! Cloud Scheduler jobs that trigger a workflow: the job's configuration, the
//! body of its create and patch requests, and the records the APIs return.
use vstd::prelude::*;

use crate::codec::{b64_digit, b64_encode_padded, b64_padded};

verus! {

/// What a Cloud Scheduler job that triggers a workflow is made from.
pub struct SchedulerBodyConfig<'a> {
    pub project: &'a str,
    pub region: &'a str,
    pub sched_name: &'a str,
    pub wf_name: &'a str,
    pub schedule: &'a str,
    pub time_zone: &'a str,
    pub service_account: &'a str,
    pub description: Option<&'a str>,
    pub paused: Option<bool>,
    pub retry_count: Option<i32>,
    pub attempt_deadline: Option<&'a str>,
}

/// The executions endpoint of a workflow.
pub open spec fn workflow_uri_text(project: Seq<char>, region: Seq<char>, wf_name: Seq<char>) -> Seq<
    char,
> {
    "https://workflowexecutions.googleapis.com/v1/projects/"@ + project + "/locations/"@ + region
        + "/workflows/"@ + wf_name + "/executions"@
}

/// The URI a scheduler job posts to in order to start a workflow execution.
pub fn workflow_uri(project: &str, region: &str, wf_name: &str) -> (r: String)
    ensures
        r@ == workflow_uri_text(project@, region@, wf_name@),
{
    let mut r = String::new();
    r.append("https://workflowexecutions.googleapis.com/v1/projects/");
    r.append(project);
    r.append("/locations/");
    r.append(region);
    r.append("/workflows/");
    r.append(wf_name);
    r.append("/executions");
    r
}

/// The full name of a scheduler job.
pub open spec fn job_name_text(project: Seq<char>, region: Seq<char>, sched: Seq<char>) -> Seq<char> {
    "projects/"@ + project + "/locations/"@ + region + "/jobs/"@ + sched
}

/// The body of a scheduler job request, field by field; it is written out
/// as JSON at the edge.
pub struct SchedulerJobBody {
    /// The job's full name (create requests only).
    pub name: Option<String>,
    pub schedule: String,
    pub time_zone: String,
    /// The HTTP target: where, how, with what body and as whom.
    pub target_uri: String,
    pub http_method: String,
    pub target_body: String,
    pub service_account_email: String,
    pub oauth_scope: String,
    pub description: Option<String>,
    /// `retryConfig.retryCount`, when the request sets it.
    pub retry_count: Option<i32>,
    pub attempt_deadline: Option<String>,
}

pub open spec fn opt_text(o: Option<String>) -> Option<Seq<char>> {
    match o {
        Some(s) => Some(s@),
        None => None,
    }
}

pub open spec fn opt_str<'a>(o: Option<&'a str>) -> Option<Seq<char>> {
    match o {
        Some(s) => Some(s@),
        None => None,
    }
}

/// A body configuration as text: what the request bodies are made from
/// (the paused state is not among it: pausing has endpoints of its own).
pub struct BodyFields {
    pub project: Seq<char>,
    pub region: Seq<char>,
    pub sched_name: Seq<char>,
    pub wf_name: Seq<char>,
    pub schedule: Seq<char>,
    pub time_zone: Seq<char>,
    pub service_account: Seq<char>,
    pub description: Option<Seq<char>>,
    pub retry_count: Option<i32>,
    pub attempt_deadline: Option<Seq<char>>,
}

impl<'a> View for SchedulerBodyConfig<'a> {
    type V = BodyFields;

    open spec fn view(&self) -> BodyFields {
        BodyFields {
            project: self.project@,
            region: self.region@,
            sched_name: self.sched_name@,
            wf_name: self.wf_name@,
            schedule: self.schedule@,
            time_zone: self.time_zone@,
            service_account: self.service_account@,
            description: opt_str(self.description),
            retry_count: self.retry_count,
            attempt_deadline: opt_str(self.attempt_deadline),
        }
    }
}

/// The retry count a request sets: the configured one, else 3.
pub open spec fn retry_or_default(o: Option<i32>) -> i32 {
    match o {
        Some(n) => n,
        None => 3,
    }
}

/// The attempt deadline a request sets: the configured one, else `600s`.
pub open spec fn deadline_or_default(o: Option<Seq<char>>) -> Seq<char> {
    match o {
        Some(d) => d,
        None => "600s"@,
    }
}

/// The body fields every request shares: schedule, time zone and the HTTP
/// target that starts the workflow with an empty JSON object as argument.
pub open spec fn common_fields(b: SchedulerJobBody, cfg: BodyFields) -> bool {
    &&& b.schedule@ == cfg.schedule
    &&& b.time_zone@ == cfg.time_zone
    &&& b.target_uri@ == workflow_uri_text(cfg.project, cfg.region, cfg.wf_name)
    &&& b.http_method@ == "POST"@
    &&& b.target_body@ == "e30="@
    &&& b.service_account_email@ == cfg.service_account
    &&& b.oauth_scope@ == "https://www.googleapis.com/auth/cloud-platform"@
    &&& opt_text(b.description) == cfg.description
}

/// The body that creates a job of configuration `cfg`.
pub open spec fn is_create_body(b: SchedulerJobBody, cfg: BodyFields) -> bool {
    &&& common_fields(b, cfg)
    &&& opt_text(b.name) == Some(job_name_text(cfg.project, cfg.region, cfg.sched_name))
    &&& b.retry_count == Some(retry_or_default(cfg.retry_count))
    &&& opt_text(b.attempt_deadline) == Some(deadline_or_default(cfg.attempt_deadline))
}

/// The body that patches a job of configuration `cfg`, with or without its
/// retry settings.
pub open spec fn is_patch_body(b: SchedulerJobBody, cfg: BodyFields, include_retry: bool) -> bool {
    &&& common_fields(b, cfg)
    &&& b.name is None
    &&& include_retry ==> b.retry_count == Some(retry_or_default(cfg.retry_count))
    &&& include_retry ==> opt_text(b.attempt_deadline) == Some(deadline_or_default(cfg.attempt_deadline))
    &&& !include_retry ==> b.retry_count is None && b.attempt_deadline is None
}

fn owned(s: &str) -> (r: String)
    ensures
        r@ == s@,
{
    let mut r = String::new();
    r.append(s);
    r
}

fn owned_opt(o: Option<&str>) -> (r: Option<String>)
    ensures
        opt_text(r) == opt_str(o),
{
    match o {
        Some(s) => Some(owned(s)),
        None => None,
    }
}

fn base_body(cfg: &SchedulerBodyConfig<'_>) -> (b: SchedulerJobBody)
    ensures
        common_fields(b, cfg@),
        b.name is None,
        b.retry_count is None,
        b.attempt_deadline is None,
{
    let empty_object: [u8; 2] = [123u8, 125u8];
    let body = b64_encode_padded(&empty_object);
    proof {
        let b = seq![123u8, 125u8];
        assert(empty_object@ =~= b);
        assert(b.len() == 2 && b[0] == 123u8 && b[1] == 125u8);
        assert(b64_padded(b) =~= seq![b64_digit(30), b64_digit(55), b64_digit(52), '=']);
        reveal_strlit("e30=");
        assert(b64_padded(b) =~= "e30="@);
    }
    SchedulerJobBody {
        name: None,
        schedule: owned(cfg.schedule),
        time_zone: owned(cfg.time_zone),
        target_uri: workflow_uri(cfg.project, cfg.region, cfg.wf_name),
        http_method: owned("POST"),
        target_body: body,
        service_account_email: owned(cfg.service_account),
        oauth_scope: owned("https://www.googleapis.com/auth/cloud-platform"),
        description: owned_opt(cfg.description),
        retry_count: None,
        attempt_deadline: None,
    }
}

fn deadline_of(o: Option<&str>) -> (r: String)
    ensures
        r@ == deadline_or_default(opt_str(o)),
{
    match o {
        Some(d) => owned(d),
        None => owned("600s"),
    }
}

/// The body that creates the job: its full name, the shared fields, and a
/// retry count and attempt deadline (3 and `600s` unless configured). The
/// paused state is not part of it: pausing has endpoints of its own.
pub fn build_scheduler_create_body(cfg: &SchedulerBodyConfig<'_>) -> (b: SchedulerJobBody)
    ensures
        is_create_body(b, cfg@),
{
    let mut b = base_body(cfg);
    let mut name = String::new();
    name.append("projects/");
    name.append(cfg.project);
    name.append("/locations/");
    name.append(cfg.region);
    name.append("/jobs/");
    name.append(cfg.sched_name);
    b.name = Some(name);
    b.retry_count = Some(
        match cfg.retry_count {
            Some(n) => n,
            None => 3,
        },
    );
    b.attempt_deadline = Some(deadline_of(cfg.attempt_deadline));
    b
}

/// The body that updates the job: the shared fields, and the retry settings
/// only when `include_retry` (a snapshot's job does not patch them). No name
/// and no state.
pub fn build_scheduler_patch_body(cfg: &SchedulerBodyConfig<'_>, include_retry: bool) -> (b:
    SchedulerJobBody)
    ensures
        is_patch_body(b, cfg@, include_retry),
{
    let mut b = base_body(cfg);
    if include_retry {
        b.retry_count = Some(
            match cfg.retry_count {
                Some(n) => n,
                None => 3,
            },
        );
        b.attempt_deadline = Some(deadline_of(cfg.attempt_deadline));
    }
    b
}

/// A workflow as the Workflows API reports it.
pub struct WorkflowMeta {
    pub name: String,
    pub state: String,
    pub revision_id: String,
    pub create_time: String,
    pub update_time: String,
    pub service_account: String,
}

/// A scheduler job as the Cloud Scheduler API reports it.
pub struct SchedulerJobMeta {
    pub name: String,
    pub state: String,
    pub schedule: String,
    pub time_zone: String,
    pub schedule_time: String,
    pub last_attempt_time: String,
    pub user_update_time: String,
}

/// The inputs of a scheduled SQL job.
#[derive(Debug)]
pub struct SqlJobInputs<'a> {
    pub project: &'a str,
    pub region: &'a str,
    pub name: &'a str,
    pub sql: &'a str,
    pub schedule: &'a str,
    pub time_zone: &'a str,
    pub service_account: &'a str,
    pub description: Option<&'a str>,
    pub paused: Option<bool>,
    pub retry_count: Option<i32>,
    pub attempt_deadline: Option<&'a str>,
}

/// What a deployed SQL job records of itself.
pub struct SqlJobState {
    pub workflow_name: String,
    pub scheduler_job_name: String,
    pub state: String,
    pub next_run_time: String,
}

} // verus!
