//! Input checks of the Dataproc jobs: which properties are missing or
//! invalid, in the order they are reported.
use vstd::prelude::*;

use crate::dataproc::{DestinationType, ExportJobInputs, IngestJobInputs};
use crate::scheduler::SqlJobInputs;
use crate::text::{chars_of, starts_with};

verus! {

/// A rejected property and why.
pub struct CheckFailure {
    pub property: String,
    pub reason: String,
}

/// A check failure of a job: a required property left empty (worded at the
/// edge), or an invalid one with its reason.
pub enum JobFailure {
    Missing(String),
    Invalid(CheckFailure),
}

/// A job check failure, as text.
pub enum SpecFailure {
    Missing(Seq<char>),
    Invalid(Seq<char>, Seq<char>),
}

impl View for JobFailure {
    type V = SpecFailure;

    open spec fn view(&self) -> SpecFailure {
        match self {
            JobFailure::Missing(p) => SpecFailure::Missing(p@),
            JobFailure::Invalid(f) => SpecFailure::Invalid(f.property@, f.reason@),
        }
    }
}

impl JobFailure {
    /// The property the failure is about.
    pub fn property(&self) -> (r: &str)
        ensures
            r@ == match self@ {
                SpecFailure::Missing(p) => p,
                SpecFailure::Invalid(p, _) => p,
            },
    {
        match self {
            JobFailure::Missing(p) => p.as_str(),
            JobFailure::Invalid(f) => f.property.as_str(),
        }
    }
}

pub open spec fn failures_view(v: Seq<JobFailure>) -> Seq<SpecFailure> {
    v.map_values(|f: JobFailure| f@)
}

/// The `Missing` failures of the required properties that are empty, in order.
pub open spec fn missing(required: Seq<(Seq<char>, Seq<char>)>) -> Seq<SpecFailure>
    decreases required.len(),
{
    if required.len() == 0 {
        Seq::empty()
    } else {
        missing(required.drop_last()) + if required.last().1.len() == 0 {
            seq![SpecFailure::Missing(required.last().0)]
        } else {
            Seq::empty()
        }
    }
}

/// A failure when the connection string does not start with the prefix of
/// its database type.
pub open spec fn jdbc_check(conn: Seq<char>, prefix: Seq<char>, label: Seq<char>) -> Seq<SpecFailure> {
    if starts_with(conn, prefix) {
        Seq::empty()
    } else {
        seq![
            SpecFailure::Invalid(
                "connectionString"@,
                "connectionString must start with '"@ + prefix + "' for databaseType '"@ + label + "'"@,
            ),
        ]
    }
}

/// A failure when a retry count is given outside 0 to 5.
pub open spec fn retry_check(rc: Option<i32>) -> Seq<SpecFailure> {
    match rc {
        Some(n) => if 0 <= n <= 5 {
            Seq::empty()
        } else {
            seq![SpecFailure::Invalid("retryCount"@, "retryCount must be 0-5 (inclusive)"@)]
        },
        None => Seq::empty(),
    }
}

/// The failures of the destination settings of an ingest job.
pub open spec fn destination_check(inputs: IngestJobInputs) -> Seq<SpecFailure> {
    match inputs.destination {
        DestinationType::Gcs => (if inputs.landing_bucket is None {
            seq![
                SpecFailure::Invalid(
                    "landingBucket"@,
                    "landingBucket is required when destination is 'gcs'"@,
                ),
            ]
        } else {
            Seq::empty()
        }) + (if inputs.dest_dataset is Some || inputs.dest_table is Some {
            seq![
                SpecFailure::Invalid(
                    "destination"@,
                    "destDataset/destTable should not be set when destination is 'gcs' — use landingBucket instead"@,
                ),
            ]
        } else {
            Seq::empty()
        }),
        DestinationType::BigQuery => (if inputs.dest_dataset is None {
            seq![
                SpecFailure::Invalid(
                    "destDataset"@,
                    "destDataset is required when destination is 'bigquery'"@,
                ),
            ]
        } else {
            Seq::empty()
        }) + (if inputs.dest_table is None {
            seq![
                SpecFailure::Invalid("destTable"@, "destTable is required when destination is 'bigquery'"@),
            ]
        } else {
            Seq::empty()
        }) + (if inputs.landing_bucket is Some {
            seq![
                SpecFailure::Invalid(
                    "destination"@,
                    "landingBucket should not be set when destination is 'bigquery' — use destDataset/destTable instead"@,
                ),
            ]
        } else {
            Seq::empty()
        }),
    }
}

/// The properties an ingest job requires, with their values. The image is
/// optional: without one a batch runs on the stock runtime of its version.
pub open spec fn ingest_required(i: IngestJobInputs) -> Seq<(Seq<char>, Seq<char>)> {
    seq![
        ("project"@, i.project@),
        ("region"@, i.region@),
        ("name"@, i.name@),
        ("connectionString"@, i.connection_string@),
        ("secret"@, i.secret@),
        ("query"@, i.query@),
        ("scriptUri"@, i.script_uri@),
        ("serviceAccount"@, i.service_account@),
        ("stagingBucket"@, i.staging_bucket@),
        ("processBucket"@, i.process_bucket@),
        ("subnetworkUri"@, i.subnetwork_uri@),
        ("schedule"@, i.schedule@),
    ]
}

/// The properties an export job requires, with their values.
pub open spec fn export_required(i: ExportJobInputs) -> Seq<(Seq<char>, Seq<char>)> {
    seq![
        ("project"@, i.project@),
        ("region"@, i.region@),
        ("name"@, i.name@),
        ("sourceDataset"@, i.source_dataset@),
        ("sourceTable"@, i.source_table@),
        ("connectionString"@, i.connection_string@),
        ("secret"@, i.secret@),
        ("destTable"@, i.dest_table@),
        ("scriptUri"@, i.script_uri@),
        ("serviceAccount"@, i.service_account@),
        ("stagingBucket"@, i.staging_bucket@),
        ("processBucket"@, i.process_bucket@),
        ("subnetworkUri"@, i.subnetwork_uri@),
        ("schedule"@, i.schedule@),
    ]
}

/// Every failure of an ingest job's inputs, in report order.
pub open spec fn ingest_failures(i: IngestJobInputs) -> Seq<SpecFailure> {
    missing(ingest_required(i)) + jdbc_check(
        i.connection_string@,
        i.database_type.prefix_text(),
        i.database_type.label_text(),
    ) + destination_check(i) + retry_check(i.retry_count)
}

/// Every failure of an export job's inputs, in report order.
pub open spec fn export_failures(i: ExportJobInputs) -> Seq<SpecFailure> {
    missing(export_required(i)) + jdbc_check(
        i.connection_string@,
        i.database_type.prefix_text(),
        i.database_type.label_text(),
    ) + retry_check(i.retry_count)
}

fn owned(s: &str) -> (r: String)
    ensures
        r@ == s@,
{
    let mut r = String::new();
    r.append(s);
    r
}

fn push_failure(out: &mut Vec<JobFailure>, f: JobFailure)
    ensures
        failures_view(final(out)@) == failures_view(old(out)@).push(f@),
{
    out.push(f);
    assert(failures_view(final(out)@) =~= failures_view(old(out)@).push(f@));
}

fn invalid(out: &mut Vec<JobFailure>, property: &str, reason: &str)
    ensures
        failures_view(final(out)@) == failures_view(old(out)@).push(SpecFailure::Invalid(property@, reason@)),
{
    push_failure(out, JobFailure::Invalid(CheckFailure { property: owned(property), reason: owned(reason) }));
}

/// Adds a `Missing` failure for each empty required property.
fn require_all(out: &mut Vec<JobFailure>, required: &Vec<(&str, &str)>)
    ensures
        failures_view(final(out)@) == failures_view(old(out)@) + missing(
            required@.map_values(|p: (&str, &str)| (p.0@, p.1@)),
        ),
{
    let ghost all = required@.map_values(|p: (&str, &str)| (p.0@, p.1@));
    let ghost start = failures_view(out@);
    let mut i: usize = 0;
    while i < required.len()
        invariant
            i <= required@.len(),
            all == required@.map_values(|p: (&str, &str)| (p.0@, p.1@)),
            failures_view(out@) == start + missing(all.take(i as int)),
        decreases required.len() - i,
    {
        let (property, value) = required[i];
        proof {
            assert(all.take(i + 1).drop_last() =~= all.take(i as int));
            assert(all.take(i + 1).last() == (property@, value@));
        }
        if value.unicode_len() == 0 {
            push_failure(out, JobFailure::Missing(owned(property)));
            assert(failures_view(out@) =~= start + missing(all.take(i + 1)));
        } else {
            assert(missing(all.take(i + 1)) =~= missing(all.take(i as int)));
        }
        i += 1;
    }
    assert(all.take(required@.len() as int) =~= all);
}

fn check_jdbc(out: &mut Vec<JobFailure>, conn: &str, prefix: &str, label: &str)
    ensures
        failures_view(final(out)@) == failures_view(old(out)@) + jdbc_check(conn@, prefix@, label@),
{
    let c = chars_of(conn);
    let p = chars_of(prefix);
    let ok = p.len() <= c.len() && crate::text::range_eq(&c, 0, p.len(), &p);
    if ok {
        assert(failures_view(out@) =~= failures_view(out@) + jdbc_check(conn@, prefix@, label@));
    } else {
        let mut reason = String::new();
        reason.append("connectionString must start with '");
        reason.append(prefix);
        reason.append("' for databaseType '");
        reason.append(label);
        reason.append("'");
        let ghost before = failures_view(out@);
        push_failure(out, JobFailure::Invalid(CheckFailure { property: owned("connectionString"), reason }));
        assert(failures_view(out@) =~= before + jdbc_check(conn@, prefix@, label@));
    }
}

fn check_retry(out: &mut Vec<JobFailure>, rc: Option<i32>)
    ensures
        failures_view(final(out)@) == failures_view(old(out)@) + retry_check(rc),
{
    let ghost before = failures_view(out@);
    if let Some(n) = rc {
        if n < 0 || n > 5 {
            invalid(out, "retryCount", "retryCount must be 0-5 (inclusive)");
        }
    }
    assert(failures_view(out@) =~= before + retry_check(rc));
}

/// The failures of an export job's inputs: each empty required property,
/// a connection string that does not fit the database type, and a retry
/// count outside 0 to 5.
pub fn validate_export(inputs: &ExportJobInputs<'_>) -> (r: Vec<JobFailure>)
    ensures
        failures_view(r@) == export_failures(*inputs),
{
    let mut out: Vec<JobFailure> = Vec::new();
    let required = vec![
        ("project", inputs.project),
        ("region", inputs.region),
        ("name", inputs.name),
        ("sourceDataset", inputs.source_dataset),
        ("sourceTable", inputs.source_table),
        ("connectionString", inputs.connection_string),
        ("secret", inputs.secret),
        ("destTable", inputs.dest_table),
        ("scriptUri", inputs.script_uri),
        ("serviceAccount", inputs.service_account),
        ("stagingBucket", inputs.staging_bucket),
        ("processBucket", inputs.process_bucket),
        ("subnetworkUri", inputs.subnetwork_uri),
        ("schedule", inputs.schedule),
    ];
    assert(required@.map_values(|p: (&str, &str)| (p.0@, p.1@)) =~= export_required(*inputs));
    assert(failures_view(out@) =~= Seq::<SpecFailure>::empty());
    require_all(&mut out, &required);
    check_jdbc(&mut out, inputs.connection_string, inputs.database_type.jdbc_prefix(), inputs.database_type.label());
    check_retry(&mut out, inputs.retry_count);
    out
}

fn check_destination(out: &mut Vec<JobFailure>, inputs: &IngestJobInputs<'_>)
    ensures
        failures_view(final(out)@) == failures_view(old(out)@) + destination_check(*inputs),
{
    let ghost before = failures_view(out@);
    match inputs.destination {
        DestinationType::Gcs => {
            if inputs.landing_bucket.is_none() {
                invalid(out, "landingBucket", "landingBucket is required when destination is 'gcs'");
            }
            if inputs.dest_dataset.is_some() || inputs.dest_table.is_some() {
                invalid(
                    out,
                    "destination",
                    "destDataset/destTable should not be set when destination is 'gcs' — use landingBucket instead",
                );
            }
        },
        DestinationType::BigQuery => {
            if inputs.dest_dataset.is_none() {
                invalid(out, "destDataset", "destDataset is required when destination is 'bigquery'");
            }
            if inputs.dest_table.is_none() {
                invalid(out, "destTable", "destTable is required when destination is 'bigquery'");
            }
            if inputs.landing_bucket.is_some() {
                invalid(
                    out,
                    "destination",
                    "landingBucket should not be set when destination is 'bigquery' — use destDataset/destTable instead",
                );
            }
        },
    }
    assert(failures_view(out@) =~= before + destination_check(*inputs));
}

/// The failures of an ingest job's inputs: each empty required property,
/// a connection string that does not fit the database type, destination
/// settings that are missing or do not belong to the destination, and a
/// retry count outside 0 to 5.
pub fn validate_ingest(inputs: &IngestJobInputs<'_>) -> (r: Vec<JobFailure>)
    ensures
        failures_view(r@) == ingest_failures(*inputs),
{
    let mut out: Vec<JobFailure> = Vec::new();
    let required = vec![
        ("project", inputs.project),
        ("region", inputs.region),
        ("name", inputs.name),
        ("connectionString", inputs.connection_string),
        ("secret", inputs.secret),
        ("query", inputs.query),
        ("scriptUri", inputs.script_uri),
        ("serviceAccount", inputs.service_account),
        ("stagingBucket", inputs.staging_bucket),
        ("processBucket", inputs.process_bucket),
        ("subnetworkUri", inputs.subnetwork_uri),
        ("schedule", inputs.schedule),
    ];
    assert(required@.map_values(|p: (&str, &str)| (p.0@, p.1@)) =~= ingest_required(*inputs));
    assert(failures_view(out@) =~= Seq::<SpecFailure>::empty());
    require_all(&mut out, &required);
    check_jdbc(&mut out, inputs.connection_string, inputs.database_type.jdbc_prefix(), inputs.database_type.label());
    check_destination(&mut out, inputs);
    check_retry(&mut out, inputs.retry_count);
    out
}

/// The properties a scheduled SQL job requires, with their values.
pub open spec fn sql_job_required(i: SqlJobInputs) -> Seq<(Seq<char>, Seq<char>)> {
    seq![
        ("project"@, i.project@),
        ("region"@, i.region@),
        ("name"@, i.name@),
        ("sql"@, i.sql@),
        ("schedule"@, i.schedule@),
        ("serviceAccount"@, i.service_account@),
    ]
}

/// A failure when a scheduled SQL job's retry count is outside 0 to 5.
pub open spec fn sql_retry_check(rc: Option<i32>) -> Seq<SpecFailure> {
    match rc {
        Some(n) => if 0 <= n <= 5 {
            Seq::empty()
        } else {
            seq![
                SpecFailure::Invalid(
                    "retryCount"@,
                    "retryCount must be 0-5 (inclusive): use 0 for no retries, or 1-5 for automatic retry"@,
                ),
            ]
        },
        None => Seq::empty(),
    }
}

/// Every failure of a scheduled SQL job's inputs, in report order.
pub open spec fn sql_job_failures(i: SqlJobInputs) -> Seq<SpecFailure> {
    missing(sql_job_required(i)) + sql_retry_check(i.retry_count)
}

/// The failures of a scheduled SQL job's inputs: each empty required
/// property, and a retry count outside 0 to 5.
pub fn validate_sqljob(inputs: &SqlJobInputs<'_>) -> (r: Vec<JobFailure>)
    ensures
        failures_view(r@) == sql_job_failures(*inputs),
{
    let mut out: Vec<JobFailure> = Vec::new();
    let required = vec![
        ("project", inputs.project),
        ("region", inputs.region),
        ("name", inputs.name),
        ("sql", inputs.sql),
        ("schedule", inputs.schedule),
        ("serviceAccount", inputs.service_account),
    ];
    assert(required@.map_values(|p: (&str, &str)| (p.0@, p.1@)) =~= sql_job_required(*inputs));
    assert(failures_view(out@) =~= Seq::<SpecFailure>::empty());
    require_all(&mut out, &required);
    let ghost before = failures_view(out@);
    if let Some(n) = inputs.retry_count {
        if n < 0 || n > 5 {
            invalid(
                &mut out,
                "retryCount",
                "retryCount must be 0-5 (inclusive): use 0 for no retries, or 1-5 for automatic retry",
            );
        }
    }
    assert(failures_view(out@) =~= before + sql_retry_check(inputs.retry_count));
    out
}

} // verus!
