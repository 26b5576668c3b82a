//! Which changed inputs of a job force a replacement and which are updated
//! in place.
use vstd::prelude::*;

use crate::dataproc::{
    definition_fingerprint, default_hash, export_definition, generate_export_workflow, hex_digits, ExportJobInputs, IngestJobInputs,
};
use crate::scheduler::SqlJobInputs;
use crate::text::str_eq;

verus! {

/// The keys of a diff: those whose change replaces the resource, and those
/// updated in place, each in a fixed order.
pub struct DiffResult {
    pub replace_keys: Vec<&'static str>,
    pub update_keys: Vec<&'static str>,
}

pub open spec fn keys_text(v: Seq<&'static str>) -> Seq<Seq<char>> {
    v.map_values(|k: &'static str| k@)
}

/// `[key]` when `changed`, `[]` otherwise.
pub open spec fn key_if(changed: bool, key: Seq<char>) -> Seq<Seq<char>> {
    if changed {
        seq![key]
    } else {
        Seq::empty()
    }
}

pub open spec fn opt_str<'a>(o: Option<&'a str>) -> Option<Seq<char>> {
    match o {
        Some(s) => Some(s@),
        None => None,
    }
}

pub open spec fn strs<'a>(v: Seq<&'a str>) -> Seq<Seq<char>> {
    v.map_values(|s: &'a str| s@)
}

fn push_if(v: &mut Vec<&'static str>, changed: bool, key: &'static str)
    ensures
        keys_text(final(v)@) == keys_text(old(v)@) + key_if(changed, key@),
{
    let ghost before = keys_text(v@);
    if changed {
        v.push(key);
    }
    assert(keys_text(v@) =~= before + key_if(changed, key@));
}

fn differ(a: &str, b: &str) -> (r: bool)
    ensures
        r == (a@ != b@),
{
    !str_eq(a, b)
}

fn differ_opt(a: Option<&str>, b: Option<&str>) -> (r: bool)
    ensures
        r == (opt_str(a) != opt_str(b)),
{
    match (a, b) {
        (Some(x), Some(y)) => !str_eq(x, y),
        (None, None) => false,
        _ => true,
    }
}

fn differ_list(a: &Vec<&str>, b: &Vec<&str>) -> (r: bool)
    ensures
        r == (strs(a@) != strs(b@)),
{
    if a.len() != b.len() {
        assert(strs(a@).len() != strs(b@).len());
        return true;
    }
    let mut i: usize = 0;
    while i < a.len()
        invariant
            i <= a@.len(),
            a@.len() == b@.len(),
            forall|j: int| 0 <= j < i ==> strs(a@)[j] == strs(b@)[j],
        decreases a.len() - i,
    {
        if !str_eq(a[i], b[i]) {
            assert(strs(a@)[i as int] != strs(b@)[i as int]);
            return true;
        }
        i += 1;
    }
    assert(strs(a@) =~= strs(b@));
    false
}

/// The update keys every scheduled Dataproc job shares, after its own.
pub open spec fn schedule_update_keys<'a>(
    o_runtime: &'a str,
    n_runtime: &'a str,
    o_schedule: &'a str,
    n_schedule: &'a str,
    o_tz: &'a str,
    n_tz: &'a str,
    o_paused: Option<bool>,
    n_paused: Option<bool>,
    o_desc: Option<&'a str>,
    n_desc: Option<&'a str>,
    o_retry: Option<i32>,
    n_retry: Option<i32>,
    o_deadline: Option<&'a str>,
    n_deadline: Option<&'a str>,
) -> Seq<Seq<char>> {
    key_if(o_runtime@ != n_runtime@, "runtimeVersion"@) + key_if(o_schedule@ != n_schedule@, "schedule"@)
        + key_if(o_tz@ != n_tz@, "timeZone"@) + key_if(o_paused != n_paused, "paused"@) + key_if(
        opt_str(o_desc) != opt_str(n_desc),
        "description"@,
    ) + key_if(o_retry != n_retry, "retryCount"@) + key_if(
        opt_str(o_deadline) != opt_str(n_deadline),
        "attemptDeadline"@,
    )
}

/// The keys that replace an ingest job: where it runs, what it is called, the
/// account it runs as, its database and its destination kind.
pub open spec fn ingest_replace_keys(o: IngestJobInputs, n: IngestJobInputs) -> Seq<Seq<char>> {
    key_if(o.project@ != n.project@, "project"@) + key_if(o.region@ != n.region@, "region"@) + key_if(
        o.name@ != n.name@,
        "name"@,
    ) + key_if(o.service_account@ != n.service_account@, "serviceAccount"@) + key_if(
        o.database_type != n.database_type,
        "databaseType"@,
    ) + key_if(o.destination != n.destination, "destination"@)
}

/// The keys an ingest job updates in place.
pub open spec fn ingest_update_keys(o: IngestJobInputs, n: IngestJobInputs) -> Seq<Seq<char>> {
    key_if(o.query@ != n.query@, "query"@) + key_if(
        o.connection_string@ != n.connection_string@,
        "connectionString"@,
    ) + key_if(o.secret@ != n.secret@, "secret"@) + key_if(o.image_uri@ != n.image_uri@, "imageUri"@)
        + key_if(o.script_uri@ != n.script_uri@, "scriptUri"@) + key_if(
        strs(o.jar_uris@) != strs(n.jar_uris@),
        "jarUris"@,
    ) + key_if(opt_str(o.landing_bucket) != opt_str(n.landing_bucket), "landingBucket"@) + key_if(
        opt_str(o.dest_project) != opt_str(n.dest_project),
        "destProject"@,
    ) + key_if(opt_str(o.dest_dataset) != opt_str(n.dest_dataset), "destDataset"@) + key_if(
        opt_str(o.dest_table) != opt_str(n.dest_table),
        "destTable"@,
    ) + key_if(o.staging_bucket@ != n.staging_bucket@, "stagingBucket"@) + key_if(
        o.process_bucket@ != n.process_bucket@,
        "processBucket"@,
    ) + key_if(o.subnetwork_uri@ != n.subnetwork_uri@, "subnetworkUri"@) + key_if(
        strs(o.network_tags@) != strs(n.network_tags@),
        "networkTags"@,
    ) + schedule_update_keys(
        o.runtime_version,
        n.runtime_version,
        o.schedule,
        n.schedule,
        o.time_zone,
        n.time_zone,
        o.paused,
        n.paused,
        o.description,
        n.description,
        o.retry_count,
        n.retry_count,
        o.attempt_deadline,
        n.attempt_deadline,
    )
}

#[verifier::rlimit(40)]
fn push_schedule_keys(
    v: &mut Vec<&'static str>,
    o_runtime: &str,
    n_runtime: &str,
    o_schedule: &str,
    n_schedule: &str,
    o_tz: &str,
    n_tz: &str,
    o_paused: Option<bool>,
    n_paused: Option<bool>,
    o_desc: Option<&str>,
    n_desc: Option<&str>,
    o_retry: Option<i32>,
    n_retry: Option<i32>,
    o_deadline: Option<&str>,
    n_deadline: Option<&str>,
)
    ensures
        keys_text(final(v)@) == keys_text(old(v)@) + schedule_update_keys(
            o_runtime,
            n_runtime,
            o_schedule,
            n_schedule,
            o_tz,
            n_tz,
            o_paused,
            n_paused,
            o_desc,
            n_desc,
            o_retry,
            n_retry,
            o_deadline,
            n_deadline,
        ),
{
    let ghost before = keys_text(v@);
    push_if(v, differ(o_runtime, n_runtime), "runtimeVersion");
    push_if(v, differ(o_schedule, n_schedule), "schedule");
    push_if(v, differ(o_tz, n_tz), "timeZone");
    push_if(v, o_paused != n_paused, "paused");
    push_if(v, differ_opt(o_desc, n_desc), "description");
    push_if(v, o_retry != n_retry, "retryCount");
    push_if(v, differ_opt(o_deadline, n_deadline), "attemptDeadline");
    assert(keys_text(v@) =~= before + schedule_update_keys(
        o_runtime,
        n_runtime,
        o_schedule,
        n_schedule,
        o_tz,
        n_tz,
        o_paused,
        n_paused,
        o_desc,
        n_desc,
        o_retry,
        n_retry,
        o_deadline,
        n_deadline,
    ));
}

/// Compares the old and new inputs of an ingest job.
pub fn ingest_diff(o: &IngestJobInputs<'_>, n: &IngestJobInputs<'_>) -> (r: DiffResult)
    ensures
        keys_text(r.replace_keys@) == ingest_replace_keys(*o, *n),
        keys_text(r.update_keys@) == ingest_update_keys(*o, *n),
{
    let mut replace: Vec<&'static str> = Vec::new();
    assert(keys_text(replace@) =~= Seq::<Seq<char>>::empty());
    push_if(&mut replace, differ(o.project, n.project), "project");
    push_if(&mut replace, differ(o.region, n.region), "region");
    push_if(&mut replace, differ(o.name, n.name), "name");
    push_if(&mut replace, differ(o.service_account, n.service_account), "serviceAccount");
    push_if(&mut replace, o.database_type != n.database_type, "databaseType");
    push_if(&mut replace, o.destination != n.destination, "destination");
    assert(keys_text(replace@) =~= ingest_replace_keys(*o, *n));
    let mut update: Vec<&'static str> = Vec::new();
    assert(keys_text(update@) =~= Seq::<Seq<char>>::empty());
    push_if(&mut update, differ(o.query, n.query), "query");
    push_if(&mut update, differ(o.connection_string, n.connection_string), "connectionString");
    push_if(&mut update, differ(o.secret, n.secret), "secret");
    push_if(&mut update, differ(o.image_uri, n.image_uri), "imageUri");
    push_if(&mut update, differ(o.script_uri, n.script_uri), "scriptUri");
    push_if(&mut update, differ_list(&o.jar_uris, &n.jar_uris), "jarUris");
    push_if(&mut update, differ_opt(o.landing_bucket, n.landing_bucket), "landingBucket");
    push_if(&mut update, differ_opt(o.dest_project, n.dest_project), "destProject");
    push_if(&mut update, differ_opt(o.dest_dataset, n.dest_dataset), "destDataset");
    push_if(&mut update, differ_opt(o.dest_table, n.dest_table), "destTable");
    push_if(&mut update, differ(o.staging_bucket, n.staging_bucket), "stagingBucket");
    push_if(&mut update, differ(o.process_bucket, n.process_bucket), "processBucket");
    push_if(&mut update, differ(o.subnetwork_uri, n.subnetwork_uri), "subnetworkUri");
    push_if(&mut update, differ_list(&o.network_tags, &n.network_tags), "networkTags");
    let ghost mid = keys_text(update@);
    push_schedule_keys(
        &mut update,
        o.runtime_version,
        n.runtime_version,
        o.schedule,
        n.schedule,
        o.time_zone,
        n.time_zone,
        o.paused,
        n.paused,
        o.description,
        n.description,
        o.retry_count,
        n.retry_count,
        o.attempt_deadline,
        n.attempt_deadline,
    );
    assert(keys_text(update@) =~= ingest_update_keys(*o, *n));
    DiffResult { replace_keys: replace, update_keys: update }
}

/// The keys that replace an export job.
pub open spec fn export_replace_keys(o: ExportJobInputs, n: ExportJobInputs) -> Seq<Seq<char>> {
    key_if(o.project@ != n.project@, "project"@) + key_if(o.region@ != n.region@, "region"@) + key_if(
        o.name@ != n.name@,
        "name"@,
    ) + key_if(o.service_account@ != n.service_account@, "serviceAccount"@) + key_if(
        o.database_type != n.database_type,
        "databaseType"@,
    ) + key_if(o.source_dataset@ != n.source_dataset@, "sourceDataset"@)
}

/// The keys an export job updates in place, led by the workflow definition
/// when the fingerprint recorded at deploy time (absent in older state)
/// differs from that of the definition generated now.
pub open spec fn export_update_keys(
    o: ExportJobInputs,
    n: ExportJobInputs,
    stored: Option<Seq<char>>,
    current: Seq<char>,
) -> Seq<Seq<char>> {
    key_if(
        match stored {
            Some(s) => s,
            None => Seq::empty(),
        } != current,
        "definitionFingerprint"@,
    ) + key_if(o.source_table@ != n.source_table@, "sourceTable"@) + key_if(
        o.connection_string@ != n.connection_string@,
        "connectionString"@,
    ) + key_if(o.secret@ != n.secret@, "secret"@) + key_if(o.dest_table@ != n.dest_table@, "destTable"@)
        + key_if(o.image_uri@ != n.image_uri@, "imageUri"@) + key_if(
        o.script_uri@ != n.script_uri@,
        "scriptUri"@,
    ) + key_if(strs(o.jar_uris@) != strs(n.jar_uris@), "jarUris"@) + key_if(
        o.staging_bucket@ != n.staging_bucket@,
        "stagingBucket"@,
    ) + key_if(o.process_bucket@ != n.process_bucket@, "processBucket"@) + key_if(
        o.subnetwork_uri@ != n.subnetwork_uri@,
        "subnetworkUri"@,
    ) + key_if(strs(o.network_tags@) != strs(n.network_tags@), "networkTags"@) + schedule_update_keys(
        o.runtime_version,
        n.runtime_version,
        o.schedule,
        n.schedule,
        o.time_zone,
        n.time_zone,
        o.paused,
        n.paused,
        o.description,
        n.description,
        o.retry_count,
        n.retry_count,
        o.attempt_deadline,
        n.attempt_deadline,
    )
}

/// Compares the old and new inputs of an export job; `stored_fingerprint`
/// is the definition fingerprint recorded with the deployed job, and the
/// result is compared against the fingerprint of the workflow definition
/// generated from the new inputs.
pub fn export_diff(o: &ExportJobInputs<'_>, n: &ExportJobInputs<'_>, stored_fingerprint: Option<&str>) -> (r:
    DiffResult)
    ensures
        keys_text(r.replace_keys@) == export_replace_keys(*o, *n),
        keys_text(r.update_keys@) == export_update_keys(
            *o,
            *n,
            opt_str(stored_fingerprint),
            hex_digits(default_hash(export_definition(*n)) as nat, 16),
        ),
{
    let mut replace: Vec<&'static str> = Vec::new();
    assert(keys_text(replace@) =~= Seq::<Seq<char>>::empty());
    push_if(&mut replace, differ(o.project, n.project), "project");
    push_if(&mut replace, differ(o.region, n.region), "region");
    push_if(&mut replace, differ(o.name, n.name), "name");
    push_if(&mut replace, differ(o.service_account, n.service_account), "serviceAccount");
    push_if(&mut replace, o.database_type != n.database_type, "databaseType");
    push_if(&mut replace, differ(o.source_dataset, n.source_dataset), "sourceDataset");
    assert(keys_text(replace@) =~= export_replace_keys(*o, *n));
    let definition = generate_export_workflow(n);
    let current = definition_fingerprint(definition.as_str());
    let stored: &str = match stored_fingerprint {
        Some(s) => s,
        None => "",
    };
    proof {
        reveal_strlit("");
        assert(""@ =~= Seq::<char>::empty());
    }
    let mut update: Vec<&'static str> = Vec::new();
    assert(keys_text(update@) =~= Seq::<Seq<char>>::empty());
    push_if(&mut update, differ(stored, current.as_str()), "definitionFingerprint");
    push_if(&mut update, differ(o.source_table, n.source_table), "sourceTable");
    push_if(&mut update, differ(o.connection_string, n.connection_string), "connectionString");
    push_if(&mut update, differ(o.secret, n.secret), "secret");
    push_if(&mut update, differ(o.dest_table, n.dest_table), "destTable");
    push_if(&mut update, differ(o.image_uri, n.image_uri), "imageUri");
    push_if(&mut update, differ(o.script_uri, n.script_uri), "scriptUri");
    push_if(&mut update, differ_list(&o.jar_uris, &n.jar_uris), "jarUris");
    push_if(&mut update, differ(o.staging_bucket, n.staging_bucket), "stagingBucket");
    push_if(&mut update, differ(o.process_bucket, n.process_bucket), "processBucket");
    push_if(&mut update, differ(o.subnetwork_uri, n.subnetwork_uri), "subnetworkUri");
    push_if(&mut update, differ_list(&o.network_tags, &n.network_tags), "networkTags");
    push_schedule_keys(
        &mut update,
        o.runtime_version,
        n.runtime_version,
        o.schedule,
        n.schedule,
        o.time_zone,
        n.time_zone,
        o.paused,
        n.paused,
        o.description,
        n.description,
        o.retry_count,
        n.retry_count,
        o.attempt_deadline,
        n.attempt_deadline,
    );
    assert(keys_text(update@) =~= export_update_keys(*o, *n, opt_str(stored_fingerprint), current@));
    DiffResult { replace_keys: replace, update_keys: update }
}

/// The keys that replace a scheduled SQL job.
pub open spec fn sql_job_replace_keys(o: SqlJobInputs, n: SqlJobInputs) -> Seq<Seq<char>> {
    key_if(o.project@ != n.project@, "project"@) + key_if(o.region@ != n.region@, "region"@) + key_if(
        o.name@ != n.name@,
        "name"@,
    ) + key_if(o.service_account@ != n.service_account@, "serviceAccount"@)
}

/// The keys a scheduled SQL job updates in place.
pub open spec fn sql_job_update_keys(o: SqlJobInputs, n: SqlJobInputs) -> Seq<Seq<char>> {
    key_if(o.sql@ != n.sql@, "sql"@) + key_if(o.schedule@ != n.schedule@, "schedule"@) + key_if(
        o.time_zone@ != n.time_zone@,
        "timeZone"@,
    ) + key_if(o.paused != n.paused, "paused"@) + key_if(
        opt_str(o.description) != opt_str(n.description),
        "description"@,
    ) + key_if(o.retry_count != n.retry_count, "retryCount"@) + key_if(
        opt_str(o.attempt_deadline) != opt_str(n.attempt_deadline),
        "attemptDeadline"@,
    )
}

/// Compares the old and new inputs of a scheduled SQL job.
pub fn sql_job_diff(o: &SqlJobInputs<'_>, n: &SqlJobInputs<'_>) -> (r: DiffResult)
    ensures
        keys_text(r.replace_keys@) == sql_job_replace_keys(*o, *n),
        keys_text(r.update_keys@) == sql_job_update_keys(*o, *n),
{
    let mut replace: Vec<&'static str> = Vec::new();
    assert(keys_text(replace@) =~= Seq::<Seq<char>>::empty());
    push_if(&mut replace, differ(o.project, n.project), "project");
    push_if(&mut replace, differ(o.region, n.region), "region");
    push_if(&mut replace, differ(o.name, n.name), "name");
    push_if(&mut replace, differ(o.service_account, n.service_account), "serviceAccount");
    assert(keys_text(replace@) =~= sql_job_replace_keys(*o, *n));
    let mut update: Vec<&'static str> = Vec::new();
    assert(keys_text(update@) =~= Seq::<Seq<char>>::empty());
    push_if(&mut update, differ(o.sql, n.sql), "sql");
    push_if(&mut update, differ(o.schedule, n.schedule), "schedule");
    push_if(&mut update, differ(o.time_zone, n.time_zone), "timeZone");
    push_if(&mut update, o.paused != n.paused, "paused");
    push_if(&mut update, differ_opt(o.description, n.description), "description");
    push_if(&mut update, o.retry_count != n.retry_count, "retryCount");
    push_if(&mut update, differ_opt(o.attempt_deadline, n.attempt_deadline), "attemptDeadline");
    assert(keys_text(update@) =~= sql_job_update_keys(*o, *n));
    DiffResult { replace_keys: replace, update_keys: update }
}

/// Inputs that did not change give an empty diff.
pub proof fn law_unchanged_ingest_has_no_diff(o: IngestJobInputs)
    ensures
        ingest_replace_keys(o, o).len() == 0,
        ingest_update_keys(o, o).len() == 0,
{
}

/// Inputs that did not change, with the recorded fingerprint that of the
/// current definition, give an empty diff.
pub proof fn law_unchanged_export_has_no_diff(o: ExportJobInputs, current: Seq<char>)
    ensures
        export_replace_keys(o, o).len() == 0,
        export_update_keys(o, o, Some(current), current).len() == 0,
{
}

/// Inputs that did not change give an empty diff.
pub proof fn law_unchanged_sql_job_has_no_diff(o: SqlJobInputs)
    ensures
        sql_job_replace_keys(o, o).len() == 0,
        sql_job_update_keys(o, o).len() == 0,
{
}

/// Every change of a scheduled SQL job's identity (project, region, name,
/// service account) is reported as a key that replaces the job, and only a
/// change.
pub proof fn law_sql_job_replace_keys_report_each_change(o: SqlJobInputs, n: SqlJobInputs)
    ensures
        sql_job_replace_keys(o, n).contains("project"@) <==> o.project@ != n.project@,
        sql_job_replace_keys(o, n).contains("region"@) <==> o.region@ != n.region@,
        sql_job_replace_keys(o, n).contains("name"@) <==> o.name@ != n.name@,
        sql_job_replace_keys(o, n).contains("serviceAccount"@) <==> o.service_account@ != n.service_account@,
{
    reveal_strlit("project");
    assert("project"@.len() == 7 && "project"@[0] == 'p');
    reveal_strlit("region");
    assert("region"@.len() == 6 && "region"@[0] == 'r');
    reveal_strlit("name");
    assert("name"@.len() == 4 && "name"@[0] == 'n');
    reveal_strlit("serviceAccount");
    assert("serviceAccount"@.len() == 14 && "serviceAccount"@[0] == 's');
    let p0 = key_if(o.project@ != n.project@, "project"@);
    let p1 = key_if(o.region@ != n.region@, "region"@);
    let p2 = key_if(o.name@ != n.name@, "name"@);
    let p3 = key_if(o.service_account@ != n.service_account@, "serviceAccount"@);
    let a0 = p0;
    let a1 = a0 + p1;
    let a2 = a1 + p2;
    let a3 = a2 + p3;
    assert(a3 == sql_job_replace_keys(o, n));
    lemma_key_if_contains(p0, "project"@);
    lemma_key_if_contains(p1, "project"@);
    lemma_key_if_contains(p2, "project"@);
    lemma_key_if_contains(p3, "project"@);
    lemma_concat_contains(a0, p1, "project"@);
    lemma_concat_contains(a1, p2, "project"@);
    lemma_concat_contains(a2, p3, "project"@);
    lemma_key_if_contains(p0, "region"@);
    lemma_key_if_contains(p1, "region"@);
    lemma_key_if_contains(p2, "region"@);
    lemma_key_if_contains(p3, "region"@);
    lemma_concat_contains(a0, p1, "region"@);
    lemma_concat_contains(a1, p2, "region"@);
    lemma_concat_contains(a2, p3, "region"@);
    lemma_key_if_contains(p0, "name"@);
    lemma_key_if_contains(p1, "name"@);
    lemma_key_if_contains(p2, "name"@);
    lemma_key_if_contains(p3, "name"@);
    lemma_concat_contains(a0, p1, "name"@);
    lemma_concat_contains(a1, p2, "name"@);
    lemma_concat_contains(a2, p3, "name"@);
    lemma_key_if_contains(p0, "serviceAccount"@);
    lemma_key_if_contains(p1, "serviceAccount"@);
    lemma_key_if_contains(p2, "serviceAccount"@);
    lemma_key_if_contains(p3, "serviceAccount"@);
    lemma_concat_contains(a0, p1, "serviceAccount"@);
    lemma_concat_contains(a1, p2, "serviceAccount"@);
    lemma_concat_contains(a2, p3, "serviceAccount"@);
}

/// Every change of a scheduled SQL job's settings (SQL, schedule, time zone,
/// paused, description, retries, deadline) is reported as a key that
/// updates the job, and only a change.
pub proof fn law_sql_job_update_keys_report_each_change(o: SqlJobInputs, n: SqlJobInputs)
    ensures
        sql_job_update_keys(o, n).contains("sql"@) <==> o.sql@ != n.sql@,
        sql_job_update_keys(o, n).contains("schedule"@) <==> o.schedule@ != n.schedule@,
        sql_job_update_keys(o, n).contains("timeZone"@) <==> o.time_zone@ != n.time_zone@,
        sql_job_update_keys(o, n).contains("paused"@) <==> o.paused != n.paused,
        sql_job_update_keys(o, n).contains("description"@) <==> opt_str(o.description) != opt_str(n.description),
        sql_job_update_keys(o, n).contains("retryCount"@) <==> o.retry_count != n.retry_count,
        sql_job_update_keys(o, n).contains("attemptDeadline"@) <==> opt_str(o.attempt_deadline) != opt_str(n.attempt_deadline),
{
    reveal_strlit("sql");
    assert("sql"@.len() == 3 && "sql"@[0] == 's');
    reveal_strlit("schedule");
    assert("schedule"@.len() == 8 && "schedule"@[0] == 's');
    reveal_strlit("timeZone");
    assert("timeZone"@.len() == 8 && "timeZone"@[0] == 't');
    reveal_strlit("paused");
    assert("paused"@.len() == 6 && "paused"@[0] == 'p');
    reveal_strlit("description");
    assert("description"@.len() == 11 && "description"@[0] == 'd');
    reveal_strlit("retryCount");
    assert("retryCount"@.len() == 10 && "retryCount"@[0] == 'r');
    reveal_strlit("attemptDeadline");
    assert("attemptDeadline"@.len() == 15 && "attemptDeadline"@[0] == 'a');
    let p0 = key_if(o.sql@ != n.sql@, "sql"@);
    let p1 = key_if(o.schedule@ != n.schedule@, "schedule"@);
    let p2 = key_if(o.time_zone@ != n.time_zone@, "timeZone"@);
    let p3 = key_if(o.paused != n.paused, "paused"@);
    let p4 = key_if(opt_str(o.description) != opt_str(n.description), "description"@);
    let p5 = key_if(o.retry_count != n.retry_count, "retryCount"@);
    let p6 = key_if(opt_str(o.attempt_deadline) != opt_str(n.attempt_deadline), "attemptDeadline"@);
    let a0 = p0;
    let a1 = a0 + p1;
    let a2 = a1 + p2;
    let a3 = a2 + p3;
    let a4 = a3 + p4;
    let a5 = a4 + p5;
    let a6 = a5 + p6;
    assert(a6 == sql_job_update_keys(o, n));
    lemma_key_if_contains(p0, "sql"@);
    lemma_key_if_contains(p1, "sql"@);
    lemma_key_if_contains(p2, "sql"@);
    lemma_key_if_contains(p3, "sql"@);
    lemma_key_if_contains(p4, "sql"@);
    lemma_key_if_contains(p5, "sql"@);
    lemma_key_if_contains(p6, "sql"@);
    lemma_concat_contains(a0, p1, "sql"@);
    lemma_concat_contains(a1, p2, "sql"@);
    lemma_concat_contains(a2, p3, "sql"@);
    lemma_concat_contains(a3, p4, "sql"@);
    lemma_concat_contains(a4, p5, "sql"@);
    lemma_concat_contains(a5, p6, "sql"@);
    lemma_key_if_contains(p0, "schedule"@);
    lemma_key_if_contains(p1, "schedule"@);
    lemma_key_if_contains(p2, "schedule"@);
    lemma_key_if_contains(p3, "schedule"@);
    lemma_key_if_contains(p4, "schedule"@);
    lemma_key_if_contains(p5, "schedule"@);
    lemma_key_if_contains(p6, "schedule"@);
    lemma_concat_contains(a0, p1, "schedule"@);
    lemma_concat_contains(a1, p2, "schedule"@);
    lemma_concat_contains(a2, p3, "schedule"@);
    lemma_concat_contains(a3, p4, "schedule"@);
    lemma_concat_contains(a4, p5, "schedule"@);
    lemma_concat_contains(a5, p6, "schedule"@);
    lemma_key_if_contains(p0, "timeZone"@);
    lemma_key_if_contains(p1, "timeZone"@);
    lemma_key_if_contains(p2, "timeZone"@);
    lemma_key_if_contains(p3, "timeZone"@);
    lemma_key_if_contains(p4, "timeZone"@);
    lemma_key_if_contains(p5, "timeZone"@);
    lemma_key_if_contains(p6, "timeZone"@);
    lemma_concat_contains(a0, p1, "timeZone"@);
    lemma_concat_contains(a1, p2, "timeZone"@);
    lemma_concat_contains(a2, p3, "timeZone"@);
    lemma_concat_contains(a3, p4, "timeZone"@);
    lemma_concat_contains(a4, p5, "timeZone"@);
    lemma_concat_contains(a5, p6, "timeZone"@);
    lemma_key_if_contains(p0, "paused"@);
    lemma_key_if_contains(p1, "paused"@);
    lemma_key_if_contains(p2, "paused"@);
    lemma_key_if_contains(p3, "paused"@);
    lemma_key_if_contains(p4, "paused"@);
    lemma_key_if_contains(p5, "paused"@);
    lemma_key_if_contains(p6, "paused"@);
    lemma_concat_contains(a0, p1, "paused"@);
    lemma_concat_contains(a1, p2, "paused"@);
    lemma_concat_contains(a2, p3, "paused"@);
    lemma_concat_contains(a3, p4, "paused"@);
    lemma_concat_contains(a4, p5, "paused"@);
    lemma_concat_contains(a5, p6, "paused"@);
    lemma_key_if_contains(p0, "description"@);
    lemma_key_if_contains(p1, "description"@);
    lemma_key_if_contains(p2, "description"@);
    lemma_key_if_contains(p3, "description"@);
    lemma_key_if_contains(p4, "description"@);
    lemma_key_if_contains(p5, "description"@);
    lemma_key_if_contains(p6, "description"@);
    lemma_concat_contains(a0, p1, "description"@);
    lemma_concat_contains(a1, p2, "description"@);
    lemma_concat_contains(a2, p3, "description"@);
    lemma_concat_contains(a3, p4, "description"@);
    lemma_concat_contains(a4, p5, "description"@);
    lemma_concat_contains(a5, p6, "description"@);
    lemma_key_if_contains(p0, "retryCount"@);
    lemma_key_if_contains(p1, "retryCount"@);
    lemma_key_if_contains(p2, "retryCount"@);
    lemma_key_if_contains(p3, "retryCount"@);
    lemma_key_if_contains(p4, "retryCount"@);
    lemma_key_if_contains(p5, "retryCount"@);
    lemma_key_if_contains(p6, "retryCount"@);
    lemma_concat_contains(a0, p1, "retryCount"@);
    lemma_concat_contains(a1, p2, "retryCount"@);
    lemma_concat_contains(a2, p3, "retryCount"@);
    lemma_concat_contains(a3, p4, "retryCount"@);
    lemma_concat_contains(a4, p5, "retryCount"@);
    lemma_concat_contains(a5, p6, "retryCount"@);
    lemma_key_if_contains(p0, "attemptDeadline"@);
    lemma_key_if_contains(p1, "attemptDeadline"@);
    lemma_key_if_contains(p2, "attemptDeadline"@);
    lemma_key_if_contains(p3, "attemptDeadline"@);
    lemma_key_if_contains(p4, "attemptDeadline"@);
    lemma_key_if_contains(p5, "attemptDeadline"@);
    lemma_key_if_contains(p6, "attemptDeadline"@);
    lemma_concat_contains(a0, p1, "attemptDeadline"@);
    lemma_concat_contains(a1, p2, "attemptDeadline"@);
    lemma_concat_contains(a2, p3, "attemptDeadline"@);
    lemma_concat_contains(a3, p4, "attemptDeadline"@);
    lemma_concat_contains(a4, p5, "attemptDeadline"@);
    lemma_concat_contains(a5, p6, "attemptDeadline"@);
}

/// Every change of an ingest job's identity (project, region, name,
/// service account, database type, destination) is reported as a key that
/// replaces the job, and only a change.
pub proof fn law_ingest_replace_keys_report_each_change(o: IngestJobInputs, n: IngestJobInputs)
    ensures
        ingest_replace_keys(o, n).contains("project"@) <==> (o.project@ != n.project@),
        ingest_replace_keys(o, n).contains("region"@) <==> (o.region@ != n.region@),
        ingest_replace_keys(o, n).contains("name"@) <==> (o.name@ != n.name@),
        ingest_replace_keys(o, n).contains("serviceAccount"@) <==> (o.service_account@ != n.service_account@),
        ingest_replace_keys(o, n).contains("databaseType"@) <==> (o.database_type != n.database_type),
        ingest_replace_keys(o, n).contains("destination"@) <==> (o.destination != n.destination),
{
    reveal_strlit("databaseType");
    assert("databaseType"@.len() == 12 && "databaseType"@[0] == 'd' && "databaseType"@[1] == 'a' && "databaseType"@[2] == 't' && "databaseType"@[3] == 'a' && "databaseType"@[4] == 'b' && "databaseType"@[5] == 'a' && "databaseType"@[6] == 's' && "databaseType"@[7] == 'e' && "databaseType"@[8] == 'T' && "databaseType"@[9] == 'y' && "databaseType"@[10] == 'p' && "databaseType"@[11] == 'e');
    reveal_strlit("destination");
    assert("destination"@.len() == 11 && "destination"@[0] == 'd' && "destination"@[1] == 'e' && "destination"@[2] == 's' && "destination"@[3] == 't' && "destination"@[4] == 'i' && "destination"@[5] == 'n' && "destination"@[6] == 'a' && "destination"@[7] == 't' && "destination"@[8] == 'i' && "destination"@[9] == 'o' && "destination"@[10] == 'n');
    reveal_strlit("name");
    assert("name"@.len() == 4 && "name"@[0] == 'n' && "name"@[1] == 'a' && "name"@[2] == 'm' && "name"@[3] == 'e');
    reveal_strlit("project");
    assert("project"@.len() == 7 && "project"@[0] == 'p' && "project"@[1] == 'r' && "project"@[2] == 'o' && "project"@[3] == 'j' && "project"@[4] == 'e' && "project"@[5] == 'c' && "project"@[6] == 't');
    reveal_strlit("region");
    assert("region"@.len() == 6 && "region"@[0] == 'r' && "region"@[1] == 'e' && "region"@[2] == 'g' && "region"@[3] == 'i' && "region"@[4] == 'o' && "region"@[5] == 'n');
    reveal_strlit("serviceAccount");
    assert("serviceAccount"@.len() == 14 && "serviceAccount"@[0] == 's' && "serviceAccount"@[1] == 'e' && "serviceAccount"@[2] == 'r' && "serviceAccount"@[3] == 'v' && "serviceAccount"@[4] == 'i' && "serviceAccount"@[5] == 'c' && "serviceAccount"@[6] == 'e' && "serviceAccount"@[7] == 'A' && "serviceAccount"@[8] == 'c' && "serviceAccount"@[9] == 'c' && "serviceAccount"@[10] == 'o' && "serviceAccount"@[11] == 'u' && "serviceAccount"@[12] == 'n' && "serviceAccount"@[13] == 't');
    let p0 = key_if(o.project@ != n.project@, "project"@);
    let p1 = key_if(o.region@ != n.region@, "region"@);
    let p2 = key_if(o.name@ != n.name@, "name"@);
    let p3 = key_if(o.service_account@ != n.service_account@, "serviceAccount"@);
    let p4 = key_if(o.database_type != n.database_type, "databaseType"@);
    let p5 = key_if(o.destination != n.destination, "destination"@);
    let a0 = p0;
    let a1 = a0 + p1;
    let a2 = a1 + p2;
    let a3 = a2 + p3;
    let a4 = a3 + p4;
    let a5 = a4 + p5;
    assert(a5 == ingest_replace_keys(o, n));
    lemma_key_if_contains(p0, "project"@);
    lemma_key_if_contains(p1, "project"@);
    lemma_key_if_contains(p2, "project"@);
    lemma_key_if_contains(p3, "project"@);
    lemma_key_if_contains(p4, "project"@);
    lemma_key_if_contains(p5, "project"@);
    lemma_concat_contains(a0, p1, "project"@);
    lemma_concat_contains(a1, p2, "project"@);
    lemma_concat_contains(a2, p3, "project"@);
    lemma_concat_contains(a3, p4, "project"@);
    lemma_concat_contains(a4, p5, "project"@);
    lemma_key_if_contains(p0, "region"@);
    lemma_key_if_contains(p1, "region"@);
    lemma_key_if_contains(p2, "region"@);
    lemma_key_if_contains(p3, "region"@);
    lemma_key_if_contains(p4, "region"@);
    lemma_key_if_contains(p5, "region"@);
    lemma_concat_contains(a0, p1, "region"@);
    lemma_concat_contains(a1, p2, "region"@);
    lemma_concat_contains(a2, p3, "region"@);
    lemma_concat_contains(a3, p4, "region"@);
    lemma_concat_contains(a4, p5, "region"@);
    lemma_key_if_contains(p0, "name"@);
    lemma_key_if_contains(p1, "name"@);
    lemma_key_if_contains(p2, "name"@);
    lemma_key_if_contains(p3, "name"@);
    lemma_key_if_contains(p4, "name"@);
    lemma_key_if_contains(p5, "name"@);
    lemma_concat_contains(a0, p1, "name"@);
    lemma_concat_contains(a1, p2, "name"@);
    lemma_concat_contains(a2, p3, "name"@);
    lemma_concat_contains(a3, p4, "name"@);
    lemma_concat_contains(a4, p5, "name"@);
    lemma_key_if_contains(p0, "serviceAccount"@);
    lemma_key_if_contains(p1, "serviceAccount"@);
    lemma_key_if_contains(p2, "serviceAccount"@);
    lemma_key_if_contains(p3, "serviceAccount"@);
    lemma_key_if_contains(p4, "serviceAccount"@);
    lemma_key_if_contains(p5, "serviceAccount"@);
    lemma_concat_contains(a0, p1, "serviceAccount"@);
    lemma_concat_contains(a1, p2, "serviceAccount"@);
    lemma_concat_contains(a2, p3, "serviceAccount"@);
    lemma_concat_contains(a3, p4, "serviceAccount"@);
    lemma_concat_contains(a4, p5, "serviceAccount"@);
    lemma_key_if_contains(p0, "databaseType"@);
    lemma_key_if_contains(p1, "databaseType"@);
    lemma_key_if_contains(p2, "databaseType"@);
    lemma_key_if_contains(p3, "databaseType"@);
    lemma_key_if_contains(p4, "databaseType"@);
    lemma_key_if_contains(p5, "databaseType"@);
    lemma_concat_contains(a0, p1, "databaseType"@);
    lemma_concat_contains(a1, p2, "databaseType"@);
    lemma_concat_contains(a2, p3, "databaseType"@);
    lemma_concat_contains(a3, p4, "databaseType"@);
    lemma_concat_contains(a4, p5, "databaseType"@);
    lemma_key_if_contains(p0, "destination"@);
    lemma_key_if_contains(p1, "destination"@);
    lemma_key_if_contains(p2, "destination"@);
    lemma_key_if_contains(p3, "destination"@);
    lemma_key_if_contains(p4, "destination"@);
    lemma_key_if_contains(p5, "destination"@);
    lemma_concat_contains(a0, p1, "destination"@);
    lemma_concat_contains(a1, p2, "destination"@);
    lemma_concat_contains(a2, p3, "destination"@);
    lemma_concat_contains(a3, p4, "destination"@);
    lemma_concat_contains(a4, p5, "destination"@);
}

/// Every change of an export job's identity (project, region, name, service
/// account, database type, source dataset) is reported as a key that replaces
/// the job, and only a change.
pub proof fn law_export_replace_keys_report_each_change(o: ExportJobInputs, n: ExportJobInputs)
    ensures
        export_replace_keys(o, n).contains("project"@) <==> (o.project@ != n.project@),
        export_replace_keys(o, n).contains("region"@) <==> (o.region@ != n.region@),
        export_replace_keys(o, n).contains("name"@) <==> (o.name@ != n.name@),
        export_replace_keys(o, n).contains("serviceAccount"@) <==> (o.service_account@ != n.service_account@),
        export_replace_keys(o, n).contains("databaseType"@) <==> (o.database_type != n.database_type),
        export_replace_keys(o, n).contains("sourceDataset"@) <==> (o.source_dataset@ != n.source_dataset@),
{
    reveal_strlit("databaseType");
    assert("databaseType"@.len() == 12 && "databaseType"@[0] == 'd' && "databaseType"@[1] == 'a' && "databaseType"@[2] == 't' && "databaseType"@[3] == 'a' && "databaseType"@[4] == 'b' && "databaseType"@[5] == 'a' && "databaseType"@[6] == 's' && "databaseType"@[7] == 'e' && "databaseType"@[8] == 'T' && "databaseType"@[9] == 'y' && "databaseType"@[10] == 'p' && "databaseType"@[11] == 'e');
    reveal_strlit("name");
    assert("name"@.len() == 4 && "name"@[0] == 'n' && "name"@[1] == 'a' && "name"@[2] == 'm' && "name"@[3] == 'e');
    reveal_strlit("project");
    assert("project"@.len() == 7 && "project"@[0] == 'p' && "project"@[1] == 'r' && "project"@[2] == 'o' && "project"@[3] == 'j' && "project"@[4] == 'e' && "project"@[5] == 'c' && "project"@[6] == 't');
    reveal_strlit("region");
    assert("region"@.len() == 6 && "region"@[0] == 'r' && "region"@[1] == 'e' && "region"@[2] == 'g' && "region"@[3] == 'i' && "region"@[4] == 'o' && "region"@[5] == 'n');
    reveal_strlit("serviceAccount");
    assert("serviceAccount"@.len() == 14 && "serviceAccount"@[0] == 's' && "serviceAccount"@[1] == 'e' && "serviceAccount"@[2] == 'r' && "serviceAccount"@[3] == 'v' && "serviceAccount"@[4] == 'i' && "serviceAccount"@[5] == 'c' && "serviceAccount"@[6] == 'e' && "serviceAccount"@[7] == 'A' && "serviceAccount"@[8] == 'c' && "serviceAccount"@[9] == 'c' && "serviceAccount"@[10] == 'o' && "serviceAccount"@[11] == 'u' && "serviceAccount"@[12] == 'n' && "serviceAccount"@[13] == 't');
    reveal_strlit("sourceDataset");
    assert("sourceDataset"@.len() == 13 && "sourceDataset"@[0] == 's' && "sourceDataset"@[1] == 'o' && "sourceDataset"@[2] == 'u' && "sourceDataset"@[3] == 'r' && "sourceDataset"@[4] == 'c' && "sourceDataset"@[5] == 'e' && "sourceDataset"@[6] == 'D' && "sourceDataset"@[7] == 'a' && "sourceDataset"@[8] == 't' && "sourceDataset"@[9] == 'a' && "sourceDataset"@[10] == 's' && "sourceDataset"@[11] == 'e' && "sourceDataset"@[12] == 't');
    let p0 = key_if(o.project@ != n.project@, "project"@);
    let p1 = key_if(o.region@ != n.region@, "region"@);
    let p2 = key_if(o.name@ != n.name@, "name"@);
    let p3 = key_if(o.service_account@ != n.service_account@, "serviceAccount"@);
    let p4 = key_if(o.database_type != n.database_type, "databaseType"@);
    let p5 = key_if(o.source_dataset@ != n.source_dataset@, "sourceDataset"@);
    let a0 = p0;
    let a1 = a0 + p1;
    let a2 = a1 + p2;
    let a3 = a2 + p3;
    let a4 = a3 + p4;
    let a5 = a4 + p5;
    assert(a5 == export_replace_keys(o, n));
    lemma_key_if_contains(p0, "project"@);
    lemma_key_if_contains(p1, "project"@);
    lemma_key_if_contains(p2, "project"@);
    lemma_key_if_contains(p3, "project"@);
    lemma_key_if_contains(p4, "project"@);
    lemma_key_if_contains(p5, "project"@);
    lemma_concat_contains(a0, p1, "project"@);
    lemma_concat_contains(a1, p2, "project"@);
    lemma_concat_contains(a2, p3, "project"@);
    lemma_concat_contains(a3, p4, "project"@);
    lemma_concat_contains(a4, p5, "project"@);
    lemma_key_if_contains(p0, "region"@);
    lemma_key_if_contains(p1, "region"@);
    lemma_key_if_contains(p2, "region"@);
    lemma_key_if_contains(p3, "region"@);
    lemma_key_if_contains(p4, "region"@);
    lemma_key_if_contains(p5, "region"@);
    lemma_concat_contains(a0, p1, "region"@);
    lemma_concat_contains(a1, p2, "region"@);
    lemma_concat_contains(a2, p3, "region"@);
    lemma_concat_contains(a3, p4, "region"@);
    lemma_concat_contains(a4, p5, "region"@);
    lemma_key_if_contains(p0, "name"@);
    lemma_key_if_contains(p1, "name"@);
    lemma_key_if_contains(p2, "name"@);
    lemma_key_if_contains(p3, "name"@);
    lemma_key_if_contains(p4, "name"@);
    lemma_key_if_contains(p5, "name"@);
    lemma_concat_contains(a0, p1, "name"@);
    lemma_concat_contains(a1, p2, "name"@);
    lemma_concat_contains(a2, p3, "name"@);
    lemma_concat_contains(a3, p4, "name"@);
    lemma_concat_contains(a4, p5, "name"@);
    lemma_key_if_contains(p0, "serviceAccount"@);
    lemma_key_if_contains(p1, "serviceAccount"@);
    lemma_key_if_contains(p2, "serviceAccount"@);
    lemma_key_if_contains(p3, "serviceAccount"@);
    lemma_key_if_contains(p4, "serviceAccount"@);
    lemma_key_if_contains(p5, "serviceAccount"@);
    lemma_concat_contains(a0, p1, "serviceAccount"@);
    lemma_concat_contains(a1, p2, "serviceAccount"@);
    lemma_concat_contains(a2, p3, "serviceAccount"@);
    lemma_concat_contains(a3, p4, "serviceAccount"@);
    lemma_concat_contains(a4, p5, "serviceAccount"@);
    lemma_key_if_contains(p0, "databaseType"@);
    lemma_key_if_contains(p1, "databaseType"@);
    lemma_key_if_contains(p2, "databaseType"@);
    lemma_key_if_contains(p3, "databaseType"@);
    lemma_key_if_contains(p4, "databaseType"@);
    lemma_key_if_contains(p5, "databaseType"@);
    lemma_concat_contains(a0, p1, "databaseType"@);
    lemma_concat_contains(a1, p2, "databaseType"@);
    lemma_concat_contains(a2, p3, "databaseType"@);
    lemma_concat_contains(a3, p4, "databaseType"@);
    lemma_concat_contains(a4, p5, "databaseType"@);
    lemma_key_if_contains(p0, "sourceDataset"@);
    lemma_key_if_contains(p1, "sourceDataset"@);
    lemma_key_if_contains(p2, "sourceDataset"@);
    lemma_key_if_contains(p3, "sourceDataset"@);
    lemma_key_if_contains(p4, "sourceDataset"@);
    lemma_key_if_contains(p5, "sourceDataset"@);
    lemma_concat_contains(a0, p1, "sourceDataset"@);
    lemma_concat_contains(a1, p2, "sourceDataset"@);
    lemma_concat_contains(a2, p3, "sourceDataset"@);
    lemma_concat_contains(a3, p4, "sourceDataset"@);
    lemma_concat_contains(a4, p5, "sourceDataset"@);
}

/// Every change of a job's runtime version or schedule settings is reported
/// as a key that updates it, and only a change.
pub proof fn law_schedule_keys_report_each_change<'a>(o_runtime: &'a str, n_runtime: &'a str, o_schedule: &'a str, n_schedule: &'a str, o_tz: &'a str, n_tz: &'a str, o_paused: Option<bool>, n_paused: Option<bool>, o_desc: Option<&'a str>, n_desc: Option<&'a str>, o_retry: Option<i32>, n_retry: Option<i32>, o_deadline: Option<&'a str>, n_deadline: Option<&'a str>)
    ensures
        schedule_update_keys(o_runtime, n_runtime, o_schedule, n_schedule, o_tz, n_tz, o_paused, n_paused, o_desc, n_desc, o_retry, n_retry, o_deadline, n_deadline).contains("runtimeVersion"@) <==> (o_runtime@ != n_runtime@),
        schedule_update_keys(o_runtime, n_runtime, o_schedule, n_schedule, o_tz, n_tz, o_paused, n_paused, o_desc, n_desc, o_retry, n_retry, o_deadline, n_deadline).contains("schedule"@) <==> (o_schedule@ != n_schedule@),
        schedule_update_keys(o_runtime, n_runtime, o_schedule, n_schedule, o_tz, n_tz, o_paused, n_paused, o_desc, n_desc, o_retry, n_retry, o_deadline, n_deadline).contains("timeZone"@) <==> (o_tz@ != n_tz@),
        schedule_update_keys(o_runtime, n_runtime, o_schedule, n_schedule, o_tz, n_tz, o_paused, n_paused, o_desc, n_desc, o_retry, n_retry, o_deadline, n_deadline).contains("paused"@) <==> (o_paused != n_paused),
        schedule_update_keys(o_runtime, n_runtime, o_schedule, n_schedule, o_tz, n_tz, o_paused, n_paused, o_desc, n_desc, o_retry, n_retry, o_deadline, n_deadline).contains("description"@) <==> (opt_str(o_desc) != opt_str(n_desc)),
        schedule_update_keys(o_runtime, n_runtime, o_schedule, n_schedule, o_tz, n_tz, o_paused, n_paused, o_desc, n_desc, o_retry, n_retry, o_deadline, n_deadline).contains("retryCount"@) <==> (o_retry != n_retry),
        schedule_update_keys(o_runtime, n_runtime, o_schedule, n_schedule, o_tz, n_tz, o_paused, n_paused, o_desc, n_desc, o_retry, n_retry, o_deadline, n_deadline).contains("attemptDeadline"@) <==> (opt_str(o_deadline) != opt_str(n_deadline)),
{
    reveal_strlit("runtimeVersion");
    assert("runtimeVersion"@.len() == 14 && "runtimeVersion"@[0] == 'r');
    reveal_strlit("schedule");
    assert("schedule"@.len() == 8 && "schedule"@[0] == 's');
    reveal_strlit("timeZone");
    assert("timeZone"@.len() == 8 && "timeZone"@[0] == 't');
    reveal_strlit("paused");
    assert("paused"@.len() == 6 && "paused"@[0] == 'p');
    reveal_strlit("description");
    assert("description"@.len() == 11 && "description"@[0] == 'd');
    reveal_strlit("retryCount");
    assert("retryCount"@.len() == 10 && "retryCount"@[0] == 'r');
    reveal_strlit("attemptDeadline");
    assert("attemptDeadline"@.len() == 15 && "attemptDeadline"@[0] == 'a');
    let p0 = key_if(o_runtime@ != n_runtime@, "runtimeVersion"@);
    let p1 = key_if(o_schedule@ != n_schedule@, "schedule"@);
    let p2 = key_if(o_tz@ != n_tz@, "timeZone"@);
    let p3 = key_if(o_paused != n_paused, "paused"@);
    let p4 = key_if(opt_str(o_desc) != opt_str(n_desc), "description"@);
    let p5 = key_if(o_retry != n_retry, "retryCount"@);
    let p6 = key_if(opt_str(o_deadline) != opt_str(n_deadline), "attemptDeadline"@);
    let a0 = p0;
    let a1 = a0 + p1;
    let a2 = a1 + p2;
    let a3 = a2 + p3;
    let a4 = a3 + p4;
    let a5 = a4 + p5;
    let a6 = a5 + p6;
    assert(a6 == schedule_update_keys(o_runtime, n_runtime, o_schedule, n_schedule, o_tz, n_tz, o_paused, n_paused, o_desc, n_desc, o_retry, n_retry, o_deadline, n_deadline));
    lemma_key_if_contains(p0, "runtimeVersion"@);
    lemma_key_if_contains(p1, "runtimeVersion"@);
    lemma_key_if_contains(p2, "runtimeVersion"@);
    lemma_key_if_contains(p3, "runtimeVersion"@);
    lemma_key_if_contains(p4, "runtimeVersion"@);
    lemma_key_if_contains(p5, "runtimeVersion"@);
    lemma_key_if_contains(p6, "runtimeVersion"@);
    lemma_concat_contains(a0, p1, "runtimeVersion"@);
    lemma_concat_contains(a1, p2, "runtimeVersion"@);
    lemma_concat_contains(a2, p3, "runtimeVersion"@);
    lemma_concat_contains(a3, p4, "runtimeVersion"@);
    lemma_concat_contains(a4, p5, "runtimeVersion"@);
    lemma_concat_contains(a5, p6, "runtimeVersion"@);
    lemma_key_if_contains(p0, "schedule"@);
    lemma_key_if_contains(p1, "schedule"@);
    lemma_key_if_contains(p2, "schedule"@);
    lemma_key_if_contains(p3, "schedule"@);
    lemma_key_if_contains(p4, "schedule"@);
    lemma_key_if_contains(p5, "schedule"@);
    lemma_key_if_contains(p6, "schedule"@);
    lemma_concat_contains(a0, p1, "schedule"@);
    lemma_concat_contains(a1, p2, "schedule"@);
    lemma_concat_contains(a2, p3, "schedule"@);
    lemma_concat_contains(a3, p4, "schedule"@);
    lemma_concat_contains(a4, p5, "schedule"@);
    lemma_concat_contains(a5, p6, "schedule"@);
    lemma_key_if_contains(p0, "timeZone"@);
    lemma_key_if_contains(p1, "timeZone"@);
    lemma_key_if_contains(p2, "timeZone"@);
    lemma_key_if_contains(p3, "timeZone"@);
    lemma_key_if_contains(p4, "timeZone"@);
    lemma_key_if_contains(p5, "timeZone"@);
    lemma_key_if_contains(p6, "timeZone"@);
    lemma_concat_contains(a0, p1, "timeZone"@);
    lemma_concat_contains(a1, p2, "timeZone"@);
    lemma_concat_contains(a2, p3, "timeZone"@);
    lemma_concat_contains(a3, p4, "timeZone"@);
    lemma_concat_contains(a4, p5, "timeZone"@);
    lemma_concat_contains(a5, p6, "timeZone"@);
    lemma_key_if_contains(p0, "paused"@);
    lemma_key_if_contains(p1, "paused"@);
    lemma_key_if_contains(p2, "paused"@);
    lemma_key_if_contains(p3, "paused"@);
    lemma_key_if_contains(p4, "paused"@);
    lemma_key_if_contains(p5, "paused"@);
    lemma_key_if_contains(p6, "paused"@);
    lemma_concat_contains(a0, p1, "paused"@);
    lemma_concat_contains(a1, p2, "paused"@);
    lemma_concat_contains(a2, p3, "paused"@);
    lemma_concat_contains(a3, p4, "paused"@);
    lemma_concat_contains(a4, p5, "paused"@);
    lemma_concat_contains(a5, p6, "paused"@);
    lemma_key_if_contains(p0, "description"@);
    lemma_key_if_contains(p1, "description"@);
    lemma_key_if_contains(p2, "description"@);
    lemma_key_if_contains(p3, "description"@);
    lemma_key_if_contains(p4, "description"@);
    lemma_key_if_contains(p5, "description"@);
    lemma_key_if_contains(p6, "description"@);
    lemma_concat_contains(a0, p1, "description"@);
    lemma_concat_contains(a1, p2, "description"@);
    lemma_concat_contains(a2, p3, "description"@);
    lemma_concat_contains(a3, p4, "description"@);
    lemma_concat_contains(a4, p5, "description"@);
    lemma_concat_contains(a5, p6, "description"@);
    lemma_key_if_contains(p0, "retryCount"@);
    lemma_key_if_contains(p1, "retryCount"@);
    lemma_key_if_contains(p2, "retryCount"@);
    lemma_key_if_contains(p3, "retryCount"@);
    lemma_key_if_contains(p4, "retryCount"@);
    lemma_key_if_contains(p5, "retryCount"@);
    lemma_key_if_contains(p6, "retryCount"@);
    lemma_concat_contains(a0, p1, "retryCount"@);
    lemma_concat_contains(a1, p2, "retryCount"@);
    lemma_concat_contains(a2, p3, "retryCount"@);
    lemma_concat_contains(a3, p4, "retryCount"@);
    lemma_concat_contains(a4, p5, "retryCount"@);
    lemma_concat_contains(a5, p6, "retryCount"@);
    lemma_key_if_contains(p0, "attemptDeadline"@);
    lemma_key_if_contains(p1, "attemptDeadline"@);
    lemma_key_if_contains(p2, "attemptDeadline"@);
    lemma_key_if_contains(p3, "attemptDeadline"@);
    lemma_key_if_contains(p4, "attemptDeadline"@);
    lemma_key_if_contains(p5, "attemptDeadline"@);
    lemma_key_if_contains(p6, "attemptDeadline"@);
    lemma_concat_contains(a0, p1, "attemptDeadline"@);
    lemma_concat_contains(a1, p2, "attemptDeadline"@);
    lemma_concat_contains(a2, p3, "attemptDeadline"@);
    lemma_concat_contains(a3, p4, "attemptDeadline"@);
    lemma_concat_contains(a4, p5, "attemptDeadline"@);
    lemma_concat_contains(a5, p6, "attemptDeadline"@);
}

/// Every schedule-setting change of an ingest job is among the keys that update it.
pub proof fn law_ingest_schedule_changes_update(o: IngestJobInputs, n: IngestJobInputs)
    ensures
        (o.runtime_version@ != n.runtime_version@) ==> ingest_update_keys(o, n).contains("runtimeVersion"@),
        (o.schedule@ != n.schedule@) ==> ingest_update_keys(o, n).contains("schedule"@),
        (o.time_zone@ != n.time_zone@) ==> ingest_update_keys(o, n).contains("timeZone"@),
        (o.paused != n.paused) ==> ingest_update_keys(o, n).contains("paused"@),
        (opt_str(o.description) != opt_str(n.description)) ==> ingest_update_keys(o, n).contains("description"@),
        (o.retry_count != n.retry_count) ==> ingest_update_keys(o, n).contains("retryCount"@),
        (opt_str(o.attempt_deadline) != opt_str(n.attempt_deadline)) ==> ingest_update_keys(o, n).contains("attemptDeadline"@),
{
    let sk = schedule_update_keys(o.runtime_version, n.runtime_version, o.schedule, n.schedule, o.time_zone, n.time_zone, o.paused, n.paused, o.description, n.description, o.retry_count, n.retry_count, o.attempt_deadline, n.attempt_deadline);
    let whole = ingest_update_keys(o, n);
    let head = whole.subrange(0, whole.len() - sk.len());
    assert(whole =~= head + sk);
    law_schedule_keys_report_each_change(o.runtime_version, n.runtime_version, o.schedule, n.schedule, o.time_zone, n.time_zone, o.paused, n.paused, o.description, n.description, o.retry_count, n.retry_count, o.attempt_deadline, n.attempt_deadline);
    lemma_concat_contains(head, sk, "runtimeVersion"@);
    lemma_concat_contains(head, sk, "schedule"@);
    lemma_concat_contains(head, sk, "timeZone"@);
    lemma_concat_contains(head, sk, "paused"@);
    lemma_concat_contains(head, sk, "description"@);
    lemma_concat_contains(head, sk, "retryCount"@);
    lemma_concat_contains(head, sk, "attemptDeadline"@);
}

/// Every schedule-setting change of an export job is among the keys that update it.
pub proof fn law_export_schedule_changes_update(o: ExportJobInputs, n: ExportJobInputs, stored: Option<Seq<char>>, current: Seq<char>)
    ensures
        (o.runtime_version@ != n.runtime_version@) ==> export_update_keys(o, n, stored, current).contains("runtimeVersion"@),
        (o.schedule@ != n.schedule@) ==> export_update_keys(o, n, stored, current).contains("schedule"@),
        (o.time_zone@ != n.time_zone@) ==> export_update_keys(o, n, stored, current).contains("timeZone"@),
        (o.paused != n.paused) ==> export_update_keys(o, n, stored, current).contains("paused"@),
        (opt_str(o.description) != opt_str(n.description)) ==> export_update_keys(o, n, stored, current).contains("description"@),
        (o.retry_count != n.retry_count) ==> export_update_keys(o, n, stored, current).contains("retryCount"@),
        (opt_str(o.attempt_deadline) != opt_str(n.attempt_deadline)) ==> export_update_keys(o, n, stored, current).contains("attemptDeadline"@),
{
    let sk = schedule_update_keys(o.runtime_version, n.runtime_version, o.schedule, n.schedule, o.time_zone, n.time_zone, o.paused, n.paused, o.description, n.description, o.retry_count, n.retry_count, o.attempt_deadline, n.attempt_deadline);
    let whole = export_update_keys(o, n, stored, current);
    let head = whole.subrange(0, whole.len() - sk.len());
    assert(whole =~= head + sk);
    law_schedule_keys_report_each_change(o.runtime_version, n.runtime_version, o.schedule, n.schedule, o.time_zone, n.time_zone, o.paused, n.paused, o.description, n.description, o.retry_count, n.retry_count, o.attempt_deadline, n.attempt_deadline);
    lemma_concat_contains(head, sk, "runtimeVersion"@);
    lemma_concat_contains(head, sk, "schedule"@);
    lemma_concat_contains(head, sk, "timeZone"@);
    lemma_concat_contains(head, sk, "paused"@);
    lemma_concat_contains(head, sk, "description"@);
    lemma_concat_contains(head, sk, "retryCount"@);
    lemma_concat_contains(head, sk, "attemptDeadline"@);
}

/// A key is in two lists joined exactly when it is in one of them.
pub proof fn lemma_concat_contains(a: Seq<Seq<char>>, b: Seq<Seq<char>>, k: Seq<char>)
    ensures
        (a + b).contains(k) <==> a.contains(k) || b.contains(k),
{
    if (a + b).contains(k) {
        let i = choose|i: int| 0 <= i < (a + b).len() && (a + b)[i] == k;
        if i < a.len() {
            assert(a[i] == k);
        } else {
            assert(b[i - a.len()] == k);
        }
    }
    if a.contains(k) {
        let i = choose|i: int| 0 <= i < a.len() && a[i] == k;
        assert((a + b)[i] == k);
    }
    if b.contains(k) {
        let i = choose|i: int| 0 <= i < b.len() && b[i] == k;
        assert((a + b)[i + a.len()] == k);
    }
}

/// A one-or-no-key list holds `k` exactly when it is `[k]`.
pub proof fn lemma_key_if_contains(v: Seq<Seq<char>>, k: Seq<char>)
    requires
        v.len() <= 1,
    ensures
        v.contains(k) <==> v.len() == 1 && v[0] == k,
{
    if v.len() == 1 && v[0] == k {
        assert(v[0] == k);
    }
}

} // verus!

