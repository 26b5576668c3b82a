//! Reading a scheduled job's inputs from its resource properties, and
//! writing its outputs: SQL jobs, ingest and export jobs, and snapshots.
use vstd::prelude::*;

use crate::dataproc::{
    lemma_databasetype_label_read_back, lemma_destinationtype_label_read_back, database_named, destination_named, DatabaseType, DataprocJobState, DestinationType,
    ExportJobInputs, IngestJobInputs,
};
use crate::props::{
    bool_at, lemma_last_in_append, lemma_last_in_one, lemma_last_in_opt_bool,
    lemma_last_in_opt_number, lemma_last_in_opt_text, lemma_read_opt_bool, lemma_read_opt_number,
    lemma_read_opt_text, lemma_read_text, lemma_read_text_list, number_at, opt_bool_entry,
    opt_number_entry, opt_text_entry, output_matches, str_views, text_at, text_list_at,
    OutputBuilder, PropView, Props,
};
use crate::scheduler::{opt_str, SqlJobInputs, SqlJobState};
use crate::snapshot::{SnapshotInputs, SnapshotState};

verus! {

fn owned(s: &str) -> (r: String)
    ensures
        r@ == s@,
{
    let mut r = String::new();
    r.append(s);
    r
}

/// A number as an `i32`, saturating at its bounds.
pub open spec fn clamp_i32_spec(n: i64) -> i32 {
    if n < i32::MIN as i64 {
        i32::MIN
    } else if n > i32::MAX as i64 {
        i32::MAX
    } else {
        n as i32
    }
}

pub open spec fn clamp_i32_opt(o: Option<i64>) -> Option<i32> {
    match o {
        Some(n) => Some(clamp_i32_spec(n)),
        None => None,
    }
}

/// A number as an `i32`, saturating at its bounds.
pub fn clamp_i32(n: i64) -> (r: i32)
    ensures
        r == clamp_i32_spec(n),
{
    if n < i32::MIN as i64 {
        i32::MIN
    } else if n > i32::MAX as i64 {
        i32::MAX
    } else {
        n as i32
    }
}

/// The text, or `default` when there is none.
pub open spec fn text_or_default(o: Option<Seq<char>>, default: Seq<char>) -> Seq<char> {
    match o {
        Some(t) => t,
        None => default,
    }
}

pub open spec fn opt_i64(o: Option<i32>) -> Option<i64> {
    match o {
        Some(n) => Some(n as i64),
        None => None,
    }
}

pub open spec fn nonempty_text(s: Seq<char>) -> Option<Seq<char>> {
    if s.len() == 0 {
        None
    } else {
        Some(s)
    }
}

fn widen(o: Option<i32>) -> (r: Option<i64>)
    ensures
        r == opt_i64(o),
{
    match o {
        Some(n) => Some(n as i64),
        None => None,
    }
}

fn nonempty(s: &str) -> (r: Option<&str>)
    ensures
        opt_str(r) == nonempty_text(s@),
{
    if s.unicode_len() == 0 {
        None
    } else {
        Some(s)
    }
}

/// The first required property that is missing or invalid, as its
/// error message.
pub open spec fn sqljob_inputs_error(p: Props) -> Option<Seq<char>> {
    if text_at(p, "project"@) is None {
        Some("missing required field 'project': provide a GCP project ID"@)
    } else if text_at(p, "region"@) is None {
        Some("missing required field 'region': provide a GCP region (e.g., 'us-central1')"@)
    } else if text_at(p, "name"@) is None {
        Some("missing required field 'name': provide a unique job identifier"@)
    } else if text_at(p, "sql"@) is None {
        Some("missing required field 'sql': provide the BigQuery SQL to execute on schedule"@)
    } else if text_at(p, "schedule"@) is None {
        Some("missing required field 'schedule': provide a cron expression (e.g., '0 2 * * *' for daily at 2 AM)"@)
    } else if text_at(p, "serviceAccount"@) is None {
        Some("missing required field 'serviceAccount': provide a service account email (e.g., 'sa@project.iam.gserviceaccount.com')"@)
    } else {
        None
    }
}

/// `i` holds what the properties `p` give.
pub open spec fn is_sqljob_inputs(i: SqlJobInputs, p: Props) -> bool {
    &&& text_at(p, "project"@) == Some(i.project@)
    &&& text_at(p, "region"@) == Some(i.region@)
    &&& text_at(p, "name"@) == Some(i.name@)
    &&& text_at(p, "sql"@) == Some(i.sql@)
    &&& text_at(p, "schedule"@) == Some(i.schedule@)
    &&& i.time_zone@ == text_or_default(text_at(p, "timeZone"@), "UTC"@)
    &&& text_at(p, "serviceAccount"@) == Some(i.service_account@)
    &&& opt_str(i.description) == text_at(p, "description"@)
    &&& i.paused == bool_at(p, "paused"@)
    &&& i.retry_count == clamp_i32_opt(number_at(p, "retryCount"@))
    &&& opt_str(i.attempt_deadline) == text_at(p, "attemptDeadline"@)
}

/// Reads a SQL job's inputs; the time zone defaults to `UTC`.
pub fn parse_sqljob_inputs(p: &Props) -> (r: Result<SqlJobInputs<'_>, &'static str>)
    ensures
        sqljob_inputs_error(*p) matches Some(m) ==> (r matches Err(e) && e@ == m),
        sqljob_inputs_error(*p) is None ==> (r matches Ok(i) && is_sqljob_inputs(i, *p)),
{
    let project = match p.get_str("project") {
        Some(s) => s,
        None => {
            return Err("missing required field 'project': provide a GCP project ID");
        },
    };
    let region = match p.get_str("region") {
        Some(s) => s,
        None => {
            return Err("missing required field 'region': provide a GCP region (e.g., 'us-central1')");
        },
    };
    let name = match p.get_str("name") {
        Some(s) => s,
        None => {
            return Err("missing required field 'name': provide a unique job identifier");
        },
    };
    let sql = match p.get_str("sql") {
        Some(s) => s,
        None => {
            return Err("missing required field 'sql': provide the BigQuery SQL to execute on schedule");
        },
    };
    let schedule = match p.get_str("schedule") {
        Some(s) => s,
        None => {
            return Err("missing required field 'schedule': provide a cron expression (e.g., '0 2 * * *' for daily at 2 AM)");
        },
    };
    let time_zone = match p.get_str("timeZone") {
        Some(s) => s,
        None => "UTC",
    };
    let service_account = match p.get_str("serviceAccount") {
        Some(s) => s,
        None => {
            return Err("missing required field 'serviceAccount': provide a service account email (e.g., 'sa@project.iam.gserviceaccount.com')");
        },
    };
    let description = p.get_str("description");
    let paused = p.get_bool("paused");
    let retry_count = match p.get_number("retryCount") {
        Some(n) => Some(clamp_i32(n)),
        None => None,
    };
    let attempt_deadline = p.get_str("attemptDeadline");
    Ok(SqlJobInputs { project, region, name, sql, schedule, time_zone, service_account, description, paused, retry_count, attempt_deadline })
}

/// The first required property that is missing or invalid, as its
/// error message.
pub open spec fn ingest_inputs_error(p: Props) -> Option<Seq<char>> {
    if text_at(p, "project"@) is None {
        Some("missing required field 'project': provide a GCP project ID"@)
    } else if text_at(p, "region"@) is None {
        Some("missing required field 'region': provide a GCP region (e.g., 'us-central1')"@)
    } else if text_at(p, "name"@) is None {
        Some("missing required field 'name': provide a unique job identifier"@)
    } else if text_at(p, "databaseType"@) is None {
        Some("missing required field 'databaseType': provide one of oracle, mssql, mysql, postgres"@)
    } else if database_named(text_at(p, "databaseType"@)->Some_0) is None {
        Some("invalid databaseType '"@ + text_at(p, "databaseType"@)->Some_0 + "': must be one of oracle, mssql, mysql, postgres"@)
    } else if text_at(p, "connectionString"@) is None {
        Some("missing required field 'connectionString': provide a JDBC URI"@)
    } else if text_at(p, "secret"@) is None {
        Some("missing required field 'secret': provide a Secret Manager secret name"@)
    } else if text_at(p, "query"@) is None {
        Some("missing required field 'query': provide the SQL pushdown query"@)
    } else if text_at(p, "destination"@) is None {
        Some("missing required field 'destination': provide 'gcs' or 'bigquery'"@)
    } else if destination_named(text_at(p, "destination"@)->Some_0) is None {
        Some("invalid destination '"@ + text_at(p, "destination"@)->Some_0 + "': must be 'gcs' or 'bigquery'"@)
    } else if text_at(p, "scriptUri"@) is None {
        Some("missing required field 'scriptUri': provide the gs:// path to main.py"@)
    } else if text_at(p, "serviceAccount"@) is None {
        Some("missing required field 'serviceAccount': provide a service account email"@)
    } else if text_at(p, "stagingBucket"@) is None {
        Some("missing required field 'stagingBucket': provide a GCS bucket for staging"@)
    } else if text_at(p, "processBucket"@) is None {
        Some("missing required field 'processBucket': provide a GCS bucket for processing"@)
    } else if text_at(p, "subnetworkUri"@) is None {
        Some("missing required field 'subnetworkUri': provide the VPC subnetwork URI"@)
    } else if text_at(p, "schedule"@) is None {
        Some("missing required field 'schedule': provide a cron expression"@)
    } else {
        None
    }
}

/// `i` holds what the properties `p` give.
pub open spec fn is_ingest_inputs(i: IngestJobInputs, p: Props) -> bool {
    &&& text_at(p, "project"@) == Some(i.project@)
    &&& text_at(p, "region"@) == Some(i.region@)
    &&& text_at(p, "name"@) == Some(i.name@)
    &&& database_named(text_at(p, "databaseType"@)->Some_0) == Some(i.database_type)
    &&& text_at(p, "connectionString"@) == Some(i.connection_string@)
    &&& text_at(p, "secret"@) == Some(i.secret@)
    &&& text_at(p, "query"@) == Some(i.query@)
    &&& destination_named(text_at(p, "destination"@)->Some_0) == Some(i.destination)
    &&& opt_str(i.landing_bucket) == text_at(p, "landingBucket"@)
    &&& opt_str(i.dest_project) == text_at(p, "destProject"@)
    &&& opt_str(i.dest_dataset) == text_at(p, "destDataset"@)
    &&& opt_str(i.dest_table) == text_at(p, "destTable"@)
    &&& i.image_uri@ == text_or_default(text_at(p, "imageUri"@), ""@)
    &&& text_at(p, "scriptUri"@) == Some(i.script_uri@)
    &&& str_views(i.jar_uris@) == text_list_at(p, "jarUris"@)
    &&& i.runtime_version@ == text_or_default(text_at(p, "runtimeVersion"@), "2.2"@)
    &&& text_at(p, "serviceAccount"@) == Some(i.service_account@)
    &&& text_at(p, "stagingBucket"@) == Some(i.staging_bucket@)
    &&& text_at(p, "processBucket"@) == Some(i.process_bucket@)
    &&& text_at(p, "subnetworkUri"@) == Some(i.subnetwork_uri@)
    &&& str_views(i.network_tags@) == (if text_list_at(p, "networkTags"@).len() == 0 {
        seq!["spark"@]
    } else {
        text_list_at(p, "networkTags"@)
    })
    &&& text_at(p, "schedule"@) == Some(i.schedule@)
    &&& i.time_zone@ == text_or_default(text_at(p, "timeZone"@), "UTC"@)
    &&& i.paused == bool_at(p, "paused"@)
    &&& opt_str(i.description) == text_at(p, "description"@)
    &&& i.retry_count == clamp_i32_opt(number_at(p, "retryCount"@))
    &&& opt_str(i.attempt_deadline) == text_at(p, "attemptDeadline"@)
}

/// Reads an ingest job's inputs. Absent optional settings default: no
/// image, runtime `2.2`, network tag `spark`, time zone `UTC`.
pub fn parse_ingest_inputs(p: &Props) -> (r: Result<IngestJobInputs<'_>, String>)
    ensures
        ingest_inputs_error(*p) matches Some(m) ==> (r matches Err(e) && e@ == m),
        ingest_inputs_error(*p) is None ==> (r matches Ok(i) && is_ingest_inputs(i, *p)),
{
    let project = match p.get_str("project") {
        Some(s) => s,
        None => {
            return Err(owned("missing required field 'project': provide a GCP project ID"));
        },
    };
    let region = match p.get_str("region") {
        Some(s) => s,
        None => {
            return Err(owned("missing required field 'region': provide a GCP region (e.g., 'us-central1')"));
        },
    };
    let name = match p.get_str("name") {
        Some(s) => s,
        None => {
            return Err(owned("missing required field 'name': provide a unique job identifier"));
        },
    };
    let database_type_text = match p.get_str("databaseType") {
        Some(s) => s,
        None => {
            return Err(owned("missing required field 'databaseType': provide one of oracle, mssql, mysql, postgres"));
        },
    };
    let database_type = match DatabaseType::parse(database_type_text) {
        Some(d) => d,
        None => {
            let mut e = owned("invalid databaseType '");
            e.append(database_type_text);
            e.append("': must be one of oracle, mssql, mysql, postgres");
            return Err(e);
        },
    };
    let connection_string = match p.get_str("connectionString") {
        Some(s) => s,
        None => {
            return Err(owned("missing required field 'connectionString': provide a JDBC URI"));
        },
    };
    let secret = match p.get_str("secret") {
        Some(s) => s,
        None => {
            return Err(owned("missing required field 'secret': provide a Secret Manager secret name"));
        },
    };
    let query = match p.get_str("query") {
        Some(s) => s,
        None => {
            return Err(owned("missing required field 'query': provide the SQL pushdown query"));
        },
    };
    let destination_text = match p.get_str("destination") {
        Some(s) => s,
        None => {
            return Err(owned("missing required field 'destination': provide 'gcs' or 'bigquery'"));
        },
    };
    let destination = match DestinationType::parse(destination_text) {
        Some(d) => d,
        None => {
            let mut e = owned("invalid destination '");
            e.append(destination_text);
            e.append("': must be 'gcs' or 'bigquery'");
            return Err(e);
        },
    };
    let landing_bucket = p.get_str("landingBucket");
    let dest_project = p.get_str("destProject");
    let dest_dataset = p.get_str("destDataset");
    let dest_table = p.get_str("destTable");
    let image_uri = match p.get_str("imageUri") {
        Some(s) => s,
        None => "",
    };
    let script_uri = match p.get_str("scriptUri") {
        Some(s) => s,
        None => {
            return Err(owned("missing required field 'scriptUri': provide the gs:// path to main.py"));
        },
    };
    let jar_uris = p.get_string_list("jarUris");
    let runtime_version = match p.get_str("runtimeVersion") {
        Some(s) => s,
        None => "2.2",
    };
    let service_account = match p.get_str("serviceAccount") {
        Some(s) => s,
        None => {
            return Err(owned("missing required field 'serviceAccount': provide a service account email"));
        },
    };
    let staging_bucket = match p.get_str("stagingBucket") {
        Some(s) => s,
        None => {
            return Err(owned("missing required field 'stagingBucket': provide a GCS bucket for staging"));
        },
    };
    let process_bucket = match p.get_str("processBucket") {
        Some(s) => s,
        None => {
            return Err(owned("missing required field 'processBucket': provide a GCS bucket for processing"));
        },
    };
    let subnetwork_uri = match p.get_str("subnetworkUri") {
        Some(s) => s,
        None => {
            return Err(owned("missing required field 'subnetworkUri': provide the VPC subnetwork URI"));
        },
    };
    let listed_network_tags = p.get_string_list("networkTags");
    let network_tags = if listed_network_tags.len() == 0 {
        let d = vec!["spark"];
        assert(str_views(d@) =~= seq!["spark"@]);
        d
    } else {
        listed_network_tags
    };
    let schedule = match p.get_str("schedule") {
        Some(s) => s,
        None => {
            return Err(owned("missing required field 'schedule': provide a cron expression"));
        },
    };
    let time_zone = match p.get_str("timeZone") {
        Some(s) => s,
        None => "UTC",
    };
    let paused = p.get_bool("paused");
    let description = p.get_str("description");
    let retry_count = match p.get_number("retryCount") {
        Some(n) => Some(clamp_i32(n)),
        None => None,
    };
    let attempt_deadline = p.get_str("attemptDeadline");
    Ok(IngestJobInputs { project, region, name, database_type, connection_string, secret, query, destination, landing_bucket, dest_project, dest_dataset, dest_table, image_uri, script_uri, jar_uris, runtime_version, service_account, staging_bucket, process_bucket, subnetwork_uri, network_tags, schedule, time_zone, paused, description, retry_count, attempt_deadline })
}

/// The first required property that is missing or invalid, as its
/// error message.
pub open spec fn export_inputs_error(p: Props) -> Option<Seq<char>> {
    if text_at(p, "project"@) is None {
        Some("missing required field 'project': provide a GCP project ID"@)
    } else if text_at(p, "region"@) is None {
        Some("missing required field 'region': provide a GCP region"@)
    } else if text_at(p, "name"@) is None {
        Some("missing required field 'name': provide a unique job identifier"@)
    } else if text_at(p, "sourceDataset"@) is None {
        Some("missing required field 'sourceDataset': provide the BigQuery source dataset"@)
    } else if text_at(p, "sourceTable"@) is None {
        Some("missing required field 'sourceTable': provide the BigQuery source table"@)
    } else if text_at(p, "databaseType"@) is None {
        Some("missing required field 'databaseType': provide one of oracle, mssql, mysql, postgres"@)
    } else if database_named(text_at(p, "databaseType"@)->Some_0) is None {
        Some("invalid databaseType '"@ + text_at(p, "databaseType"@)->Some_0 + "': must be one of oracle, mssql, mysql, postgres"@)
    } else if text_at(p, "connectionString"@) is None {
        Some("missing required field 'connectionString': provide a JDBC URI"@)
    } else if text_at(p, "secret"@) is None {
        Some("missing required field 'secret': provide a Secret Manager secret name"@)
    } else if text_at(p, "destTable"@) is None {
        Some("missing required field 'destTable': provide the on-prem destination table"@)
    } else if text_at(p, "scriptUri"@) is None {
        Some("missing required field 'scriptUri': provide the gs:// path to main.py"@)
    } else if text_at(p, "serviceAccount"@) is None {
        Some("missing required field 'serviceAccount': provide a service account email"@)
    } else if text_at(p, "stagingBucket"@) is None {
        Some("missing required field 'stagingBucket': provide a GCS bucket for staging"@)
    } else if text_at(p, "processBucket"@) is None {
        Some("missing required field 'processBucket': provide a GCS bucket for processing"@)
    } else if text_at(p, "subnetworkUri"@) is None {
        Some("missing required field 'subnetworkUri': provide the VPC subnetwork URI"@)
    } else if text_at(p, "schedule"@) is None {
        Some("missing required field 'schedule': provide a cron expression"@)
    } else {
        None
    }
}

/// `i` holds what the properties `p` give.
pub open spec fn is_export_inputs(i: ExportJobInputs, p: Props) -> bool {
    &&& text_at(p, "project"@) == Some(i.project@)
    &&& text_at(p, "region"@) == Some(i.region@)
    &&& text_at(p, "name"@) == Some(i.name@)
    &&& text_at(p, "sourceDataset"@) == Some(i.source_dataset@)
    &&& text_at(p, "sourceTable"@) == Some(i.source_table@)
    &&& database_named(text_at(p, "databaseType"@)->Some_0) == Some(i.database_type)
    &&& text_at(p, "connectionString"@) == Some(i.connection_string@)
    &&& text_at(p, "secret"@) == Some(i.secret@)
    &&& text_at(p, "destTable"@) == Some(i.dest_table@)
    &&& i.image_uri@ == text_or_default(text_at(p, "imageUri"@), ""@)
    &&& text_at(p, "scriptUri"@) == Some(i.script_uri@)
    &&& str_views(i.jar_uris@) == text_list_at(p, "jarUris"@)
    &&& i.runtime_version@ == text_or_default(text_at(p, "runtimeVersion"@), "2.2"@)
    &&& text_at(p, "serviceAccount"@) == Some(i.service_account@)
    &&& text_at(p, "stagingBucket"@) == Some(i.staging_bucket@)
    &&& text_at(p, "processBucket"@) == Some(i.process_bucket@)
    &&& text_at(p, "subnetworkUri"@) == Some(i.subnetwork_uri@)
    &&& str_views(i.network_tags@) == (if text_list_at(p, "networkTags"@).len() == 0 {
        seq!["spark"@]
    } else {
        text_list_at(p, "networkTags"@)
    })
    &&& text_at(p, "schedule"@) == Some(i.schedule@)
    &&& i.time_zone@ == text_or_default(text_at(p, "timeZone"@), "UTC"@)
    &&& i.paused == bool_at(p, "paused"@)
    &&& opt_str(i.description) == text_at(p, "description"@)
    &&& i.retry_count == clamp_i32_opt(number_at(p, "retryCount"@))
    &&& opt_str(i.attempt_deadline) == text_at(p, "attemptDeadline"@)
}

/// Reads an export job's inputs, with the defaults of an ingest job.
pub fn parse_export_inputs(p: &Props) -> (r: Result<ExportJobInputs<'_>, String>)
    ensures
        export_inputs_error(*p) matches Some(m) ==> (r matches Err(e) && e@ == m),
        export_inputs_error(*p) is None ==> (r matches Ok(i) && is_export_inputs(i, *p)),
{
    let project = match p.get_str("project") {
        Some(s) => s,
        None => {
            return Err(owned("missing required field 'project': provide a GCP project ID"));
        },
    };
    let region = match p.get_str("region") {
        Some(s) => s,
        None => {
            return Err(owned("missing required field 'region': provide a GCP region"));
        },
    };
    let name = match p.get_str("name") {
        Some(s) => s,
        None => {
            return Err(owned("missing required field 'name': provide a unique job identifier"));
        },
    };
    let source_dataset = match p.get_str("sourceDataset") {
        Some(s) => s,
        None => {
            return Err(owned("missing required field 'sourceDataset': provide the BigQuery source dataset"));
        },
    };
    let source_table = match p.get_str("sourceTable") {
        Some(s) => s,
        None => {
            return Err(owned("missing required field 'sourceTable': provide the BigQuery source table"));
        },
    };
    let database_type_text = match p.get_str("databaseType") {
        Some(s) => s,
        None => {
            return Err(owned("missing required field 'databaseType': provide one of oracle, mssql, mysql, postgres"));
        },
    };
    let database_type = match DatabaseType::parse(database_type_text) {
        Some(d) => d,
        None => {
            let mut e = owned("invalid databaseType '");
            e.append(database_type_text);
            e.append("': must be one of oracle, mssql, mysql, postgres");
            return Err(e);
        },
    };
    let connection_string = match p.get_str("connectionString") {
        Some(s) => s,
        None => {
            return Err(owned("missing required field 'connectionString': provide a JDBC URI"));
        },
    };
    let secret = match p.get_str("secret") {
        Some(s) => s,
        None => {
            return Err(owned("missing required field 'secret': provide a Secret Manager secret name"));
        },
    };
    let dest_table = match p.get_str("destTable") {
        Some(s) => s,
        None => {
            return Err(owned("missing required field 'destTable': provide the on-prem destination table"));
        },
    };
    let image_uri = match p.get_str("imageUri") {
        Some(s) => s,
        None => "",
    };
    let script_uri = match p.get_str("scriptUri") {
        Some(s) => s,
        None => {
            return Err(owned("missing required field 'scriptUri': provide the gs:// path to main.py"));
        },
    };
    let jar_uris = p.get_string_list("jarUris");
    let runtime_version = match p.get_str("runtimeVersion") {
        Some(s) => s,
        None => "2.2",
    };
    let service_account = match p.get_str("serviceAccount") {
        Some(s) => s,
        None => {
            return Err(owned("missing required field 'serviceAccount': provide a service account email"));
        },
    };
    let staging_bucket = match p.get_str("stagingBucket") {
        Some(s) => s,
        None => {
            return Err(owned("missing required field 'stagingBucket': provide a GCS bucket for staging"));
        },
    };
    let process_bucket = match p.get_str("processBucket") {
        Some(s) => s,
        None => {
            return Err(owned("missing required field 'processBucket': provide a GCS bucket for processing"));
        },
    };
    let subnetwork_uri = match p.get_str("subnetworkUri") {
        Some(s) => s,
        None => {
            return Err(owned("missing required field 'subnetworkUri': provide the VPC subnetwork URI"));
        },
    };
    let listed_network_tags = p.get_string_list("networkTags");
    let network_tags = if listed_network_tags.len() == 0 {
        let d = vec!["spark"];
        assert(str_views(d@) =~= seq!["spark"@]);
        d
    } else {
        listed_network_tags
    };
    let schedule = match p.get_str("schedule") {
        Some(s) => s,
        None => {
            return Err(owned("missing required field 'schedule': provide a cron expression"));
        },
    };
    let time_zone = match p.get_str("timeZone") {
        Some(s) => s,
        None => "UTC",
    };
    let paused = p.get_bool("paused");
    let description = p.get_str("description");
    let retry_count = match p.get_number("retryCount") {
        Some(n) => Some(clamp_i32(n)),
        None => None,
    };
    let attempt_deadline = p.get_str("attemptDeadline");
    Ok(ExportJobInputs { project, region, name, source_dataset, source_table, database_type, connection_string, secret, dest_table, image_uri, script_uri, jar_uris, runtime_version, service_account, staging_bucket, process_bucket, subnetwork_uri, network_tags, schedule, time_zone, paused, description, retry_count, attempt_deadline })
}

/// The first required property that is missing or invalid, as its
/// error message.
pub open spec fn snapshot_inputs_error(p: Props) -> Option<Seq<char>> {
    if text_at(p, "project"@) is None {
        Some("missing required field 'project': GCP project for snapshot resources"@)
    } else if text_at(p, "region"@) is None {
        Some("missing required field 'region': GCP region for workflows and scheduler (e.g., 'us-central1')"@)
    } else if text_at(p, "dataset"@) is None {
        Some("missing required field 'dataset': BigQuery dataset for the snapshot table"@)
    } else if text_at(p, "name"@) is None {
        Some("missing required field 'name': snapshot table name"@)
    } else if text_at(p, "sourceSql"@) is None {
        Some("missing required field 'sourceSql': SELECT query that defines what data to snapshot"@)
    } else if text_at(p, "uniqueKey"@) is None {
        Some("missing required field 'uniqueKey': column that uniquely identifies rows (e.g., 'customer_id')"@)
    } else if text_at(p, "updatedAt"@) is None {
        Some("missing required field 'updatedAt': timestamp column for change detection (e.g., 'updated_at')"@)
    } else if text_at(p, "schedule"@) is None {
        Some("missing required field 'schedule': cron expression (e.g., '0 2 * * *' for daily at 2 AM)"@)
    } else if text_at(p, "serviceAccount"@) is None {
        Some("missing required field 'serviceAccount': service account email for job execution"@)
    } else {
        None
    }
}

/// `i` holds what the properties `p` give.
pub open spec fn is_snapshot_inputs(i: SnapshotInputs, p: Props) -> bool {
    &&& text_at(p, "project"@) == Some(i.project@)
    &&& text_at(p, "region"@) == Some(i.region@)
    &&& text_at(p, "dataset"@) == Some(i.dataset@)
    &&& text_at(p, "name"@) == Some(i.name@)
    &&& text_at(p, "sourceSql"@) == Some(i.source_sql@)
    &&& text_at(p, "uniqueKey"@) == Some(i.unique_key@)
    &&& i.strategy@ == text_or_default(text_at(p, "strategy"@), "timestamp"@)
    &&& text_at(p, "updatedAt"@) == Some(i.updated_at@)
    &&& text_at(p, "schedule"@) == Some(i.schedule@)
    &&& i.time_zone@ == text_or_default(text_at(p, "timeZone"@), "UTC"@)
    &&& text_at(p, "serviceAccount"@) == Some(i.service_account@)
    &&& opt_str(i.description) == text_at(p, "description"@)
    &&& i.paused == bool_at(p, "paused"@)
    &&& i.invalidate_hard_deletes == bool_at(p, "invalidateHardDeletes"@)
    &&& i.auto_optimize == bool_at(p, "autoOptimize"@)
    &&& opt_str(i.source_schema) == text_at(p, "sourceSchema"@)
}

/// Reads a snapshot's inputs; the strategy defaults to `timestamp`, the
/// time zone to `UTC`.
pub fn parse_snapshot_inputs(p: &Props) -> (r: Result<SnapshotInputs<'_>, &'static str>)
    ensures
        snapshot_inputs_error(*p) matches Some(m) ==> (r matches Err(e) && e@ == m),
        snapshot_inputs_error(*p) is None ==> (r matches Ok(i) && is_snapshot_inputs(i, *p)),
{
    let project = match p.get_str("project") {
        Some(s) => s,
        None => {
            return Err("missing required field 'project': GCP project for snapshot resources");
        },
    };
    let region = match p.get_str("region") {
        Some(s) => s,
        None => {
            return Err("missing required field 'region': GCP region for workflows and scheduler (e.g., 'us-central1')");
        },
    };
    let dataset = match p.get_str("dataset") {
        Some(s) => s,
        None => {
            return Err("missing required field 'dataset': BigQuery dataset for the snapshot table");
        },
    };
    let name = match p.get_str("name") {
        Some(s) => s,
        None => {
            return Err("missing required field 'name': snapshot table name");
        },
    };
    let source_sql = match p.get_str("sourceSql") {
        Some(s) => s,
        None => {
            return Err("missing required field 'sourceSql': SELECT query that defines what data to snapshot");
        },
    };
    let unique_key = match p.get_str("uniqueKey") {
        Some(s) => s,
        None => {
            return Err("missing required field 'uniqueKey': column that uniquely identifies rows (e.g., 'customer_id')");
        },
    };
    let strategy = match p.get_str("strategy") {
        Some(s) => s,
        None => "timestamp",
    };
    let updated_at = match p.get_str("updatedAt") {
        Some(s) => s,
        None => {
            return Err("missing required field 'updatedAt': timestamp column for change detection (e.g., 'updated_at')");
        },
    };
    let schedule = match p.get_str("schedule") {
        Some(s) => s,
        None => {
            return Err("missing required field 'schedule': cron expression (e.g., '0 2 * * *' for daily at 2 AM)");
        },
    };
    let time_zone = match p.get_str("timeZone") {
        Some(s) => s,
        None => "UTC",
    };
    let service_account = match p.get_str("serviceAccount") {
        Some(s) => s,
        None => {
            return Err("missing required field 'serviceAccount': service account email for job execution");
        },
    };
    let description = p.get_str("description");
    let paused = p.get_bool("paused");
    let invalidate_hard_deletes = p.get_bool("invalidateHardDeletes");
    let auto_optimize = p.get_bool("autoOptimize");
    let source_schema = p.get_str("sourceSchema");
    Ok(SnapshotInputs { project, region, dataset, name, source_sql, unique_key, strategy, updated_at, schedule, time_zone, service_account, description, paused, invalidate_hard_deletes, auto_optimize, source_schema })
}

/// The entries of the output, in the order they are written.
pub open spec fn sqljob_output(inputs: SqlJobInputs, state: SqlJobState) -> Seq<(Seq<char>, PropView)> {
    Seq::<(Seq<char>, PropView)>::empty()
        + seq![("project"@, PropView::Text(inputs.project@))]
        + seq![("region"@, PropView::Text(inputs.region@))]
        + seq![("name"@, PropView::Text(inputs.name@))]
        + seq![("sql"@, PropView::Text(inputs.sql@))]
        + seq![("schedule"@, PropView::Text(inputs.schedule@))]
        + seq![("timeZone"@, PropView::Text(inputs.time_zone@))]
        + seq![("serviceAccount"@, PropView::Text(inputs.service_account@))]
        + seq![("workflowName"@, PropView::Text(state.workflow_name@))]
        + seq![("schedulerJobName"@, PropView::Text(state.scheduler_job_name@))]
        + seq![("state"@, PropView::Text(state.state@))]
        + seq![("nextRunTime"@, PropView::Text(state.next_run_time@))]
        + opt_text_entry("description"@, opt_str(inputs.description))
        + opt_bool_entry("paused"@, inputs.paused)
        + opt_number_entry("retryCount"@, opt_i64(inputs.retry_count))
        + opt_text_entry("attemptDeadline"@, opt_str(inputs.attempt_deadline))
}

/// The outputs of a SQL job: its inputs and its state.
pub fn build_sqljob_output(inputs: &SqlJobInputs<'_>, state: &SqlJobState) -> (r: Props)
    ensures
        output_matches(r, sqljob_output(*inputs, *state)),
{
    let mut b = OutputBuilder::new();
    let ghost mut acc = Seq::<(Seq<char>, PropView)>::empty();
    b.str("project", inputs.project);
    proof {
        acc = acc + seq![("project"@, PropView::Text(inputs.project@))];
    }
    assert(b.entries@ =~= acc);
    b.str("region", inputs.region);
    proof {
        acc = acc + seq![("region"@, PropView::Text(inputs.region@))];
    }
    assert(b.entries@ =~= acc);
    b.str("name", inputs.name);
    proof {
        acc = acc + seq![("name"@, PropView::Text(inputs.name@))];
    }
    assert(b.entries@ =~= acc);
    b.str("sql", inputs.sql);
    proof {
        acc = acc + seq![("sql"@, PropView::Text(inputs.sql@))];
    }
    assert(b.entries@ =~= acc);
    b.str("schedule", inputs.schedule);
    proof {
        acc = acc + seq![("schedule"@, PropView::Text(inputs.schedule@))];
    }
    assert(b.entries@ =~= acc);
    b.str("timeZone", inputs.time_zone);
    proof {
        acc = acc + seq![("timeZone"@, PropView::Text(inputs.time_zone@))];
    }
    assert(b.entries@ =~= acc);
    b.str("serviceAccount", inputs.service_account);
    proof {
        acc = acc + seq![("serviceAccount"@, PropView::Text(inputs.service_account@))];
    }
    assert(b.entries@ =~= acc);
    b.str("workflowName", state.workflow_name.as_str());
    proof {
        acc = acc + seq![("workflowName"@, PropView::Text(state.workflow_name@))];
    }
    assert(b.entries@ =~= acc);
    b.str("schedulerJobName", state.scheduler_job_name.as_str());
    proof {
        acc = acc + seq![("schedulerJobName"@, PropView::Text(state.scheduler_job_name@))];
    }
    assert(b.entries@ =~= acc);
    b.str("state", state.state.as_str());
    proof {
        acc = acc + seq![("state"@, PropView::Text(state.state@))];
    }
    assert(b.entries@ =~= acc);
    b.str("nextRunTime", state.next_run_time.as_str());
    proof {
        acc = acc + seq![("nextRunTime"@, PropView::Text(state.next_run_time@))];
    }
    assert(b.entries@ =~= acc);
    b.str_opt("description", inputs.description);
    proof {
        acc = acc + opt_text_entry("description"@, opt_str(inputs.description));
    }
    assert(b.entries@ =~= acc);
    b.bool_opt("paused", inputs.paused);
    proof {
        acc = acc + opt_bool_entry("paused"@, inputs.paused);
    }
    assert(b.entries@ =~= acc);
    b.num_opt("retryCount", widen(inputs.retry_count));
    proof {
        acc = acc + opt_number_entry("retryCount"@, opt_i64(inputs.retry_count));
    }
    assert(b.entries@ =~= acc);
    b.str_opt("attemptDeadline", inputs.attempt_deadline);
    proof {
        acc = acc + opt_text_entry("attemptDeadline"@, opt_str(inputs.attempt_deadline));
    }
    assert(b.entries@ =~= acc);
    b.build()
}

/// The entries of the output, in the order they are written.
pub open spec fn ingest_output(inputs: IngestJobInputs, state: DataprocJobState) -> Seq<(Seq<char>, PropView)> {
    Seq::<(Seq<char>, PropView)>::empty()
        + seq![("project"@, PropView::Text(inputs.project@))]
        + seq![("region"@, PropView::Text(inputs.region@))]
        + seq![("name"@, PropView::Text(inputs.name@))]
        + seq![("databaseType"@, PropView::Text(inputs.database_type.label_text()))]
        + seq![("connectionString"@, PropView::Text(inputs.connection_string@))]
        + seq![("secret"@, PropView::Text(inputs.secret@))]
        + seq![("query"@, PropView::Text(inputs.query@))]
        + seq![("destination"@, PropView::Text(inputs.destination.label_text()))]
        + opt_text_entry("landingBucket"@, opt_str(inputs.landing_bucket))
        + opt_text_entry("destProject"@, opt_str(inputs.dest_project))
        + opt_text_entry("destDataset"@, opt_str(inputs.dest_dataset))
        + opt_text_entry("destTable"@, opt_str(inputs.dest_table))
        + opt_text_entry("imageUri"@, nonempty_text(inputs.image_uri@))
        + seq![("scriptUri"@, PropView::Text(inputs.script_uri@))]
        + seq![("jarUris"@, PropView::TextList(str_views(inputs.jar_uris@)))]
        + seq![("runtimeVersion"@, PropView::Text(inputs.runtime_version@))]
        + seq![("serviceAccount"@, PropView::Text(inputs.service_account@))]
        + seq![("stagingBucket"@, PropView::Text(inputs.staging_bucket@))]
        + seq![("processBucket"@, PropView::Text(inputs.process_bucket@))]
        + seq![("subnetworkUri"@, PropView::Text(inputs.subnetwork_uri@))]
        + seq![("networkTags"@, PropView::TextList(str_views(inputs.network_tags@)))]
        + seq![("schedule"@, PropView::Text(inputs.schedule@))]
        + seq![("timeZone"@, PropView::Text(inputs.time_zone@))]
        + opt_bool_entry("paused"@, inputs.paused)
        + opt_text_entry("description"@, opt_str(inputs.description))
        + opt_number_entry("retryCount"@, opt_i64(inputs.retry_count))
        + opt_text_entry("attemptDeadline"@, opt_str(inputs.attempt_deadline))
        + seq![("workflowName"@, PropView::Text(state.workflow_name@))]
        + seq![("schedulerJobName"@, PropView::Text(state.scheduler_job_name@))]
        + seq![("state"@, PropView::Text(state.state@))]
        + seq![("nextRunTime"@, PropView::Text(state.next_run_time@))]
        + seq![("definitionFingerprint"@, PropView::Text(state.definition_fingerprint@))]
}

/// The outputs of an ingest job: its inputs (no image when it has none)
/// and its state, with the fingerprint of its workflow definition.
pub fn build_ingest_output(inputs: &IngestJobInputs<'_>, state: &DataprocJobState) -> (r: Props)
    ensures
        output_matches(r, ingest_output(*inputs, *state)),
{
    let mut b = OutputBuilder::new();
    let ghost mut acc = Seq::<(Seq<char>, PropView)>::empty();
    b.str("project", inputs.project);
    proof {
        acc = acc + seq![("project"@, PropView::Text(inputs.project@))];
    }
    assert(b.entries@ =~= acc);
    b.str("region", inputs.region);
    proof {
        acc = acc + seq![("region"@, PropView::Text(inputs.region@))];
    }
    assert(b.entries@ =~= acc);
    b.str("name", inputs.name);
    proof {
        acc = acc + seq![("name"@, PropView::Text(inputs.name@))];
    }
    assert(b.entries@ =~= acc);
    b.str("databaseType", inputs.database_type.label());
    proof {
        acc = acc + seq![("databaseType"@, PropView::Text(inputs.database_type.label_text()))];
    }
    assert(b.entries@ =~= acc);
    b.str("connectionString", inputs.connection_string);
    proof {
        acc = acc + seq![("connectionString"@, PropView::Text(inputs.connection_string@))];
    }
    assert(b.entries@ =~= acc);
    b.str("secret", inputs.secret);
    proof {
        acc = acc + seq![("secret"@, PropView::Text(inputs.secret@))];
    }
    assert(b.entries@ =~= acc);
    b.str("query", inputs.query);
    proof {
        acc = acc + seq![("query"@, PropView::Text(inputs.query@))];
    }
    assert(b.entries@ =~= acc);
    b.str("destination", inputs.destination.label());
    proof {
        acc = acc + seq![("destination"@, PropView::Text(inputs.destination.label_text()))];
    }
    assert(b.entries@ =~= acc);
    b.str_opt("landingBucket", inputs.landing_bucket);
    proof {
        acc = acc + opt_text_entry("landingBucket"@, opt_str(inputs.landing_bucket));
    }
    assert(b.entries@ =~= acc);
    b.str_opt("destProject", inputs.dest_project);
    proof {
        acc = acc + opt_text_entry("destProject"@, opt_str(inputs.dest_project));
    }
    assert(b.entries@ =~= acc);
    b.str_opt("destDataset", inputs.dest_dataset);
    proof {
        acc = acc + opt_text_entry("destDataset"@, opt_str(inputs.dest_dataset));
    }
    assert(b.entries@ =~= acc);
    b.str_opt("destTable", inputs.dest_table);
    proof {
        acc = acc + opt_text_entry("destTable"@, opt_str(inputs.dest_table));
    }
    assert(b.entries@ =~= acc);
    b.str_opt("imageUri", nonempty(inputs.image_uri));
    proof {
        acc = acc + opt_text_entry("imageUri"@, nonempty_text(inputs.image_uri@));
    }
    assert(b.entries@ =~= acc);
    b.str("scriptUri", inputs.script_uri);
    proof {
        acc = acc + seq![("scriptUri"@, PropView::Text(inputs.script_uri@))];
    }
    assert(b.entries@ =~= acc);
    b.str_list("jarUris", inputs.jar_uris.as_slice());
    proof {
        acc = acc + seq![("jarUris"@, PropView::TextList(str_views(inputs.jar_uris@)))];
    }
    assert(b.entries@ =~= acc);
    b.str("runtimeVersion", inputs.runtime_version);
    proof {
        acc = acc + seq![("runtimeVersion"@, PropView::Text(inputs.runtime_version@))];
    }
    assert(b.entries@ =~= acc);
    b.str("serviceAccount", inputs.service_account);
    proof {
        acc = acc + seq![("serviceAccount"@, PropView::Text(inputs.service_account@))];
    }
    assert(b.entries@ =~= acc);
    b.str("stagingBucket", inputs.staging_bucket);
    proof {
        acc = acc + seq![("stagingBucket"@, PropView::Text(inputs.staging_bucket@))];
    }
    assert(b.entries@ =~= acc);
    b.str("processBucket", inputs.process_bucket);
    proof {
        acc = acc + seq![("processBucket"@, PropView::Text(inputs.process_bucket@))];
    }
    assert(b.entries@ =~= acc);
    b.str("subnetworkUri", inputs.subnetwork_uri);
    proof {
        acc = acc + seq![("subnetworkUri"@, PropView::Text(inputs.subnetwork_uri@))];
    }
    assert(b.entries@ =~= acc);
    b.str_list("networkTags", inputs.network_tags.as_slice());
    proof {
        acc = acc + seq![("networkTags"@, PropView::TextList(str_views(inputs.network_tags@)))];
    }
    assert(b.entries@ =~= acc);
    b.str("schedule", inputs.schedule);
    proof {
        acc = acc + seq![("schedule"@, PropView::Text(inputs.schedule@))];
    }
    assert(b.entries@ =~= acc);
    b.str("timeZone", inputs.time_zone);
    proof {
        acc = acc + seq![("timeZone"@, PropView::Text(inputs.time_zone@))];
    }
    assert(b.entries@ =~= acc);
    b.bool_opt("paused", inputs.paused);
    proof {
        acc = acc + opt_bool_entry("paused"@, inputs.paused);
    }
    assert(b.entries@ =~= acc);
    b.str_opt("description", inputs.description);
    proof {
        acc = acc + opt_text_entry("description"@, opt_str(inputs.description));
    }
    assert(b.entries@ =~= acc);
    b.num_opt("retryCount", widen(inputs.retry_count));
    proof {
        acc = acc + opt_number_entry("retryCount"@, opt_i64(inputs.retry_count));
    }
    assert(b.entries@ =~= acc);
    b.str_opt("attemptDeadline", inputs.attempt_deadline);
    proof {
        acc = acc + opt_text_entry("attemptDeadline"@, opt_str(inputs.attempt_deadline));
    }
    assert(b.entries@ =~= acc);
    b.str("workflowName", state.workflow_name.as_str());
    proof {
        acc = acc + seq![("workflowName"@, PropView::Text(state.workflow_name@))];
    }
    assert(b.entries@ =~= acc);
    b.str("schedulerJobName", state.scheduler_job_name.as_str());
    proof {
        acc = acc + seq![("schedulerJobName"@, PropView::Text(state.scheduler_job_name@))];
    }
    assert(b.entries@ =~= acc);
    b.str("state", state.state.as_str());
    proof {
        acc = acc + seq![("state"@, PropView::Text(state.state@))];
    }
    assert(b.entries@ =~= acc);
    b.str("nextRunTime", state.next_run_time.as_str());
    proof {
        acc = acc + seq![("nextRunTime"@, PropView::Text(state.next_run_time@))];
    }
    assert(b.entries@ =~= acc);
    b.str("definitionFingerprint", state.definition_fingerprint.as_str());
    proof {
        acc = acc + seq![("definitionFingerprint"@, PropView::Text(state.definition_fingerprint@))];
    }
    assert(b.entries@ =~= acc);
    b.build()
}

/// The entries of the output, in the order they are written.
pub open spec fn export_output(inputs: ExportJobInputs, state: DataprocJobState) -> Seq<(Seq<char>, PropView)> {
    Seq::<(Seq<char>, PropView)>::empty()
        + seq![("project"@, PropView::Text(inputs.project@))]
        + seq![("region"@, PropView::Text(inputs.region@))]
        + seq![("name"@, PropView::Text(inputs.name@))]
        + seq![("sourceDataset"@, PropView::Text(inputs.source_dataset@))]
        + seq![("sourceTable"@, PropView::Text(inputs.source_table@))]
        + seq![("databaseType"@, PropView::Text(inputs.database_type.label_text()))]
        + seq![("connectionString"@, PropView::Text(inputs.connection_string@))]
        + seq![("secret"@, PropView::Text(inputs.secret@))]
        + seq![("destTable"@, PropView::Text(inputs.dest_table@))]
        + opt_text_entry("imageUri"@, nonempty_text(inputs.image_uri@))
        + seq![("scriptUri"@, PropView::Text(inputs.script_uri@))]
        + seq![("jarUris"@, PropView::TextList(str_views(inputs.jar_uris@)))]
        + seq![("runtimeVersion"@, PropView::Text(inputs.runtime_version@))]
        + seq![("serviceAccount"@, PropView::Text(inputs.service_account@))]
        + seq![("stagingBucket"@, PropView::Text(inputs.staging_bucket@))]
        + seq![("processBucket"@, PropView::Text(inputs.process_bucket@))]
        + seq![("subnetworkUri"@, PropView::Text(inputs.subnetwork_uri@))]
        + seq![("networkTags"@, PropView::TextList(str_views(inputs.network_tags@)))]
        + seq![("schedule"@, PropView::Text(inputs.schedule@))]
        + seq![("timeZone"@, PropView::Text(inputs.time_zone@))]
        + opt_bool_entry("paused"@, inputs.paused)
        + opt_text_entry("description"@, opt_str(inputs.description))
        + opt_number_entry("retryCount"@, opt_i64(inputs.retry_count))
        + opt_text_entry("attemptDeadline"@, opt_str(inputs.attempt_deadline))
        + seq![("workflowName"@, PropView::Text(state.workflow_name@))]
        + seq![("schedulerJobName"@, PropView::Text(state.scheduler_job_name@))]
        + seq![("state"@, PropView::Text(state.state@))]
        + seq![("nextRunTime"@, PropView::Text(state.next_run_time@))]
        + seq![("definitionFingerprint"@, PropView::Text(state.definition_fingerprint@))]
}

/// The outputs of an export job: its inputs (no image when it has none)
/// and its state, with the fingerprint of its workflow definition.
pub fn build_export_output(inputs: &ExportJobInputs<'_>, state: &DataprocJobState) -> (r: Props)
    ensures
        output_matches(r, export_output(*inputs, *state)),
{
    let mut b = OutputBuilder::new();
    let ghost mut acc = Seq::<(Seq<char>, PropView)>::empty();
    b.str("project", inputs.project);
    proof {
        acc = acc + seq![("project"@, PropView::Text(inputs.project@))];
    }
    assert(b.entries@ =~= acc);
    b.str("region", inputs.region);
    proof {
        acc = acc + seq![("region"@, PropView::Text(inputs.region@))];
    }
    assert(b.entries@ =~= acc);
    b.str("name", inputs.name);
    proof {
        acc = acc + seq![("name"@, PropView::Text(inputs.name@))];
    }
    assert(b.entries@ =~= acc);
    b.str("sourceDataset", inputs.source_dataset);
    proof {
        acc = acc + seq![("sourceDataset"@, PropView::Text(inputs.source_dataset@))];
    }
    assert(b.entries@ =~= acc);
    b.str("sourceTable", inputs.source_table);
    proof {
        acc = acc + seq![("sourceTable"@, PropView::Text(inputs.source_table@))];
    }
    assert(b.entries@ =~= acc);
    b.str("databaseType", inputs.database_type.label());
    proof {
        acc = acc + seq![("databaseType"@, PropView::Text(inputs.database_type.label_text()))];
    }
    assert(b.entries@ =~= acc);
    b.str("connectionString", inputs.connection_string);
    proof {
        acc = acc + seq![("connectionString"@, PropView::Text(inputs.connection_string@))];
    }
    assert(b.entries@ =~= acc);
    b.str("secret", inputs.secret);
    proof {
        acc = acc + seq![("secret"@, PropView::Text(inputs.secret@))];
    }
    assert(b.entries@ =~= acc);
    b.str("destTable", inputs.dest_table);
    proof {
        acc = acc + seq![("destTable"@, PropView::Text(inputs.dest_table@))];
    }
    assert(b.entries@ =~= acc);
    b.str_opt("imageUri", nonempty(inputs.image_uri));
    proof {
        acc = acc + opt_text_entry("imageUri"@, nonempty_text(inputs.image_uri@));
    }
    assert(b.entries@ =~= acc);
    b.str("scriptUri", inputs.script_uri);
    proof {
        acc = acc + seq![("scriptUri"@, PropView::Text(inputs.script_uri@))];
    }
    assert(b.entries@ =~= acc);
    b.str_list("jarUris", inputs.jar_uris.as_slice());
    proof {
        acc = acc + seq![("jarUris"@, PropView::TextList(str_views(inputs.jar_uris@)))];
    }
    assert(b.entries@ =~= acc);
    b.str("runtimeVersion", inputs.runtime_version);
    proof {
        acc = acc + seq![("runtimeVersion"@, PropView::Text(inputs.runtime_version@))];
    }
    assert(b.entries@ =~= acc);
    b.str("serviceAccount", inputs.service_account);
    proof {
        acc = acc + seq![("serviceAccount"@, PropView::Text(inputs.service_account@))];
    }
    assert(b.entries@ =~= acc);
    b.str("stagingBucket", inputs.staging_bucket);
    proof {
        acc = acc + seq![("stagingBucket"@, PropView::Text(inputs.staging_bucket@))];
    }
    assert(b.entries@ =~= acc);
    b.str("processBucket", inputs.process_bucket);
    proof {
        acc = acc + seq![("processBucket"@, PropView::Text(inputs.process_bucket@))];
    }
    assert(b.entries@ =~= acc);
    b.str("subnetworkUri", inputs.subnetwork_uri);
    proof {
        acc = acc + seq![("subnetworkUri"@, PropView::Text(inputs.subnetwork_uri@))];
    }
    assert(b.entries@ =~= acc);
    b.str_list("networkTags", inputs.network_tags.as_slice());
    proof {
        acc = acc + seq![("networkTags"@, PropView::TextList(str_views(inputs.network_tags@)))];
    }
    assert(b.entries@ =~= acc);
    b.str("schedule", inputs.schedule);
    proof {
        acc = acc + seq![("schedule"@, PropView::Text(inputs.schedule@))];
    }
    assert(b.entries@ =~= acc);
    b.str("timeZone", inputs.time_zone);
    proof {
        acc = acc + seq![("timeZone"@, PropView::Text(inputs.time_zone@))];
    }
    assert(b.entries@ =~= acc);
    b.bool_opt("paused", inputs.paused);
    proof {
        acc = acc + opt_bool_entry("paused"@, inputs.paused);
    }
    assert(b.entries@ =~= acc);
    b.str_opt("description", inputs.description);
    proof {
        acc = acc + opt_text_entry("description"@, opt_str(inputs.description));
    }
    assert(b.entries@ =~= acc);
    b.num_opt("retryCount", widen(inputs.retry_count));
    proof {
        acc = acc + opt_number_entry("retryCount"@, opt_i64(inputs.retry_count));
    }
    assert(b.entries@ =~= acc);
    b.str_opt("attemptDeadline", inputs.attempt_deadline);
    proof {
        acc = acc + opt_text_entry("attemptDeadline"@, opt_str(inputs.attempt_deadline));
    }
    assert(b.entries@ =~= acc);
    b.str("workflowName", state.workflow_name.as_str());
    proof {
        acc = acc + seq![("workflowName"@, PropView::Text(state.workflow_name@))];
    }
    assert(b.entries@ =~= acc);
    b.str("schedulerJobName", state.scheduler_job_name.as_str());
    proof {
        acc = acc + seq![("schedulerJobName"@, PropView::Text(state.scheduler_job_name@))];
    }
    assert(b.entries@ =~= acc);
    b.str("state", state.state.as_str());
    proof {
        acc = acc + seq![("state"@, PropView::Text(state.state@))];
    }
    assert(b.entries@ =~= acc);
    b.str("nextRunTime", state.next_run_time.as_str());
    proof {
        acc = acc + seq![("nextRunTime"@, PropView::Text(state.next_run_time@))];
    }
    assert(b.entries@ =~= acc);
    b.str("definitionFingerprint", state.definition_fingerprint.as_str());
    proof {
        acc = acc + seq![("definitionFingerprint"@, PropView::Text(state.definition_fingerprint@))];
    }
    assert(b.entries@ =~= acc);
    b.build()
}

/// The entries of the output, in the order they are written.
pub open spec fn snapshot_output(inputs: SnapshotInputs, state: SnapshotState) -> Seq<(Seq<char>, PropView)> {
    Seq::<(Seq<char>, PropView)>::empty()
        + seq![("project"@, PropView::Text(inputs.project@))]
        + seq![("region"@, PropView::Text(inputs.region@))]
        + seq![("dataset"@, PropView::Text(inputs.dataset@))]
        + seq![("name"@, PropView::Text(inputs.name@))]
        + seq![("sourceSql"@, PropView::Text(inputs.source_sql@))]
        + seq![("uniqueKey"@, PropView::Text(inputs.unique_key@))]
        + seq![("strategy"@, PropView::Text(inputs.strategy@))]
        + seq![("updatedAt"@, PropView::Text(inputs.updated_at@))]
        + seq![("schedule"@, PropView::Text(inputs.schedule@))]
        + seq![("timeZone"@, PropView::Text(inputs.time_zone@))]
        + seq![("serviceAccount"@, PropView::Text(inputs.service_account@))]
        + seq![("tableId"@, PropView::Text(inputs.name@))]
        + seq![("snapshotTable"@, PropView::Text(state.snapshot_table@))]
        + seq![("workflowName"@, PropView::Text(state.workflow_name@))]
        + seq![("schedulerJobName"@, PropView::Text(state.scheduler_job_name@))]
        + seq![("state"@, PropView::Text(state.state@))]
        + seq![("nextRunTime"@, PropView::Text(state.next_run_time@))]
        + opt_text_entry("description"@, opt_str(inputs.description))
        + opt_bool_entry("paused"@, inputs.paused)
        + opt_bool_entry("invalidateHardDeletes"@, inputs.invalidate_hard_deletes)
        + opt_bool_entry("autoOptimize"@, inputs.auto_optimize)
        + opt_text_entry("sourceSchema"@, opt_str(inputs.source_schema))
}

/// The outputs of a snapshot: its inputs, its table id and its state.
pub fn build_snapshot_output(inputs: &SnapshotInputs<'_>, state: &SnapshotState) -> (r: Props)
    ensures
        output_matches(r, snapshot_output(*inputs, *state)),
{
    let mut b = OutputBuilder::new();
    let ghost mut acc = Seq::<(Seq<char>, PropView)>::empty();
    b.str("project", inputs.project);
    proof {
        acc = acc + seq![("project"@, PropView::Text(inputs.project@))];
    }
    assert(b.entries@ =~= acc);
    b.str("region", inputs.region);
    proof {
        acc = acc + seq![("region"@, PropView::Text(inputs.region@))];
    }
    assert(b.entries@ =~= acc);
    b.str("dataset", inputs.dataset);
    proof {
        acc = acc + seq![("dataset"@, PropView::Text(inputs.dataset@))];
    }
    assert(b.entries@ =~= acc);
    b.str("name", inputs.name);
    proof {
        acc = acc + seq![("name"@, PropView::Text(inputs.name@))];
    }
    assert(b.entries@ =~= acc);
    b.str("sourceSql", inputs.source_sql);
    proof {
        acc = acc + seq![("sourceSql"@, PropView::Text(inputs.source_sql@))];
    }
    assert(b.entries@ =~= acc);
    b.str("uniqueKey", inputs.unique_key);
    proof {
        acc = acc + seq![("uniqueKey"@, PropView::Text(inputs.unique_key@))];
    }
    assert(b.entries@ =~= acc);
    b.str("strategy", inputs.strategy);
    proof {
        acc = acc + seq![("strategy"@, PropView::Text(inputs.strategy@))];
    }
    assert(b.entries@ =~= acc);
    b.str("updatedAt", inputs.updated_at);
    proof {
        acc = acc + seq![("updatedAt"@, PropView::Text(inputs.updated_at@))];
    }
    assert(b.entries@ =~= acc);
    b.str("schedule", inputs.schedule);
    proof {
        acc = acc + seq![("schedule"@, PropView::Text(inputs.schedule@))];
    }
    assert(b.entries@ =~= acc);
    b.str("timeZone", inputs.time_zone);
    proof {
        acc = acc + seq![("timeZone"@, PropView::Text(inputs.time_zone@))];
    }
    assert(b.entries@ =~= acc);
    b.str("serviceAccount", inputs.service_account);
    proof {
        acc = acc + seq![("serviceAccount"@, PropView::Text(inputs.service_account@))];
    }
    assert(b.entries@ =~= acc);
    b.str("tableId", inputs.name);
    proof {
        acc = acc + seq![("tableId"@, PropView::Text(inputs.name@))];
    }
    assert(b.entries@ =~= acc);
    b.str("snapshotTable", state.snapshot_table.as_str());
    proof {
        acc = acc + seq![("snapshotTable"@, PropView::Text(state.snapshot_table@))];
    }
    assert(b.entries@ =~= acc);
    b.str("workflowName", state.workflow_name.as_str());
    proof {
        acc = acc + seq![("workflowName"@, PropView::Text(state.workflow_name@))];
    }
    assert(b.entries@ =~= acc);
    b.str("schedulerJobName", state.scheduler_job_name.as_str());
    proof {
        acc = acc + seq![("schedulerJobName"@, PropView::Text(state.scheduler_job_name@))];
    }
    assert(b.entries@ =~= acc);
    b.str("state", state.state.as_str());
    proof {
        acc = acc + seq![("state"@, PropView::Text(state.state@))];
    }
    assert(b.entries@ =~= acc);
    b.str("nextRunTime", state.next_run_time.as_str());
    proof {
        acc = acc + seq![("nextRunTime"@, PropView::Text(state.next_run_time@))];
    }
    assert(b.entries@ =~= acc);
    b.str_opt("description", inputs.description);
    proof {
        acc = acc + opt_text_entry("description"@, opt_str(inputs.description));
    }
    assert(b.entries@ =~= acc);
    b.bool_opt("paused", inputs.paused);
    proof {
        acc = acc + opt_bool_entry("paused"@, inputs.paused);
    }
    assert(b.entries@ =~= acc);
    b.bool_opt("invalidateHardDeletes", inputs.invalidate_hard_deletes);
    proof {
        acc = acc + opt_bool_entry("invalidateHardDeletes"@, inputs.invalidate_hard_deletes);
    }
    assert(b.entries@ =~= acc);
    b.bool_opt("autoOptimize", inputs.auto_optimize);
    proof {
        acc = acc + opt_bool_entry("autoOptimize"@, inputs.auto_optimize);
    }
    assert(b.entries@ =~= acc);
    b.str_opt("sourceSchema", inputs.source_schema);
    proof {
        acc = acc + opt_text_entry("sourceSchema"@, opt_str(inputs.source_schema));
    }
    assert(b.entries@ =~= acc);
    b.build()
}

/// Two sets of inputs that say the same.
pub open spec fn same_sqljob_inputs(a: SqlJobInputs, b: SqlJobInputs) -> bool {
    &&& a.project@ == b.project@
    &&& a.region@ == b.region@
    &&& a.name@ == b.name@
    &&& a.sql@ == b.sql@
    &&& a.schedule@ == b.schedule@
    &&& a.time_zone@ == b.time_zone@
    &&& a.service_account@ == b.service_account@
    &&& opt_str(a.description) == opt_str(b.description)
    &&& a.paused == b.paused
    &&& a.retry_count == b.retry_count
    &&& opt_str(a.attempt_deadline) == opt_str(b.attempt_deadline)
}

proof fn sqljob_output_reads_0(inputs: SqlJobInputs, state: SqlJobState, out: Props)
    requires
        output_matches(out, sqljob_output(inputs, state)),
    ensures
        text_at(out, "project"@) == Some(inputs.project@),
        text_at(out, "region"@) == Some(inputs.region@),
        text_at(out, "name"@) == Some(inputs.name@),
        text_at(out, "sql"@) == Some(inputs.sql@),
        text_at(out, "schedule"@) == Some(inputs.schedule@),
        text_at(out, "timeZone"@) == Some(inputs.time_zone@),
        text_at(out, "serviceAccount"@) == Some(inputs.service_account@),
{
    lemma_job_output_keys();
    let e0 = Seq::<(Seq<char>, PropView)>::empty();
    let e1 = e0 + seq![("project"@, PropView::Text(inputs.project@))];
    let e2 = e1 + seq![("region"@, PropView::Text(inputs.region@))];
    let e3 = e2 + seq![("name"@, PropView::Text(inputs.name@))];
    let e4 = e3 + seq![("sql"@, PropView::Text(inputs.sql@))];
    let e5 = e4 + seq![("schedule"@, PropView::Text(inputs.schedule@))];
    let e6 = e5 + seq![("timeZone"@, PropView::Text(inputs.time_zone@))];
    let e7 = e6 + seq![("serviceAccount"@, PropView::Text(inputs.service_account@))];
    let e8 = e7 + seq![("workflowName"@, PropView::Text(state.workflow_name@))];
    let e9 = e8 + seq![("schedulerJobName"@, PropView::Text(state.scheduler_job_name@))];
    let e10 = e9 + seq![("state"@, PropView::Text(state.state@))];
    let e11 = e10 + seq![("nextRunTime"@, PropView::Text(state.next_run_time@))];
    let e12 = e11 + opt_text_entry("description"@, opt_str(inputs.description));
    let e13 = e12 + opt_bool_entry("paused"@, inputs.paused);
    let e14 = e13 + opt_number_entry("retryCount"@, opt_i64(inputs.retry_count));
    let e15 = e14 + opt_text_entry("attemptDeadline"@, opt_str(inputs.attempt_deadline));
    assert(e15 == sqljob_output(inputs, state));
    lemma_last_in_one("project"@, PropView::Text(inputs.project@));
    lemma_last_in_append(e0, seq![("project"@, PropView::Text(inputs.project@))]);
    lemma_last_in_one("region"@, PropView::Text(inputs.region@));
    lemma_last_in_append(e1, seq![("region"@, PropView::Text(inputs.region@))]);
    lemma_last_in_one("name"@, PropView::Text(inputs.name@));
    lemma_last_in_append(e2, seq![("name"@, PropView::Text(inputs.name@))]);
    lemma_last_in_one("sql"@, PropView::Text(inputs.sql@));
    lemma_last_in_append(e3, seq![("sql"@, PropView::Text(inputs.sql@))]);
    lemma_last_in_one("schedule"@, PropView::Text(inputs.schedule@));
    lemma_last_in_append(e4, seq![("schedule"@, PropView::Text(inputs.schedule@))]);
    lemma_last_in_one("timeZone"@, PropView::Text(inputs.time_zone@));
    lemma_last_in_append(e5, seq![("timeZone"@, PropView::Text(inputs.time_zone@))]);
    lemma_last_in_one("serviceAccount"@, PropView::Text(inputs.service_account@));
    lemma_last_in_append(e6, seq![("serviceAccount"@, PropView::Text(inputs.service_account@))]);
    lemma_last_in_one("workflowName"@, PropView::Text(state.workflow_name@));
    lemma_last_in_append(e7, seq![("workflowName"@, PropView::Text(state.workflow_name@))]);
    lemma_last_in_one("schedulerJobName"@, PropView::Text(state.scheduler_job_name@));
    lemma_last_in_append(e8, seq![("schedulerJobName"@, PropView::Text(state.scheduler_job_name@))]);
    lemma_last_in_one("state"@, PropView::Text(state.state@));
    lemma_last_in_append(e9, seq![("state"@, PropView::Text(state.state@))]);
    lemma_last_in_one("nextRunTime"@, PropView::Text(state.next_run_time@));
    lemma_last_in_append(e10, seq![("nextRunTime"@, PropView::Text(state.next_run_time@))]);
    lemma_last_in_opt_text("description"@, opt_str(inputs.description));
    lemma_last_in_append(e11, opt_text_entry("description"@, opt_str(inputs.description)));
    lemma_last_in_opt_bool("paused"@, inputs.paused);
    lemma_last_in_append(e12, opt_bool_entry("paused"@, inputs.paused));
    lemma_last_in_opt_number("retryCount"@, opt_i64(inputs.retry_count));
    lemma_last_in_append(e13, opt_number_entry("retryCount"@, opt_i64(inputs.retry_count)));
    lemma_last_in_opt_text("attemptDeadline"@, opt_str(inputs.attempt_deadline));
    lemma_last_in_append(e14, opt_text_entry("attemptDeadline"@, opt_str(inputs.attempt_deadline)));
    lemma_read_text(out, e15, "project"@, inputs.project@);
    lemma_read_text(out, e15, "region"@, inputs.region@);
    lemma_read_text(out, e15, "name"@, inputs.name@);
    lemma_read_text(out, e15, "sql"@, inputs.sql@);
    lemma_read_text(out, e15, "schedule"@, inputs.schedule@);
    lemma_read_text(out, e15, "timeZone"@, inputs.time_zone@);
    lemma_read_text(out, e15, "serviceAccount"@, inputs.service_account@);
}

proof fn sqljob_output_reads_1(inputs: SqlJobInputs, state: SqlJobState, out: Props)
    requires
        output_matches(out, sqljob_output(inputs, state)),
    ensures
        text_at(out, "description"@) == opt_str(inputs.description),
        bool_at(out, "paused"@) == inputs.paused,
        number_at(out, "retryCount"@) == opt_i64(inputs.retry_count),
        text_at(out, "attemptDeadline"@) == opt_str(inputs.attempt_deadline),
{
    lemma_job_output_keys();
    let e0 = Seq::<(Seq<char>, PropView)>::empty();
    let e1 = e0 + seq![("project"@, PropView::Text(inputs.project@))];
    let e2 = e1 + seq![("region"@, PropView::Text(inputs.region@))];
    let e3 = e2 + seq![("name"@, PropView::Text(inputs.name@))];
    let e4 = e3 + seq![("sql"@, PropView::Text(inputs.sql@))];
    let e5 = e4 + seq![("schedule"@, PropView::Text(inputs.schedule@))];
    let e6 = e5 + seq![("timeZone"@, PropView::Text(inputs.time_zone@))];
    let e7 = e6 + seq![("serviceAccount"@, PropView::Text(inputs.service_account@))];
    let e8 = e7 + seq![("workflowName"@, PropView::Text(state.workflow_name@))];
    let e9 = e8 + seq![("schedulerJobName"@, PropView::Text(state.scheduler_job_name@))];
    let e10 = e9 + seq![("state"@, PropView::Text(state.state@))];
    let e11 = e10 + seq![("nextRunTime"@, PropView::Text(state.next_run_time@))];
    let e12 = e11 + opt_text_entry("description"@, opt_str(inputs.description));
    let e13 = e12 + opt_bool_entry("paused"@, inputs.paused);
    let e14 = e13 + opt_number_entry("retryCount"@, opt_i64(inputs.retry_count));
    let e15 = e14 + opt_text_entry("attemptDeadline"@, opt_str(inputs.attempt_deadline));
    assert(e15 == sqljob_output(inputs, state));
    lemma_last_in_one("project"@, PropView::Text(inputs.project@));
    lemma_last_in_append(e0, seq![("project"@, PropView::Text(inputs.project@))]);
    lemma_last_in_one("region"@, PropView::Text(inputs.region@));
    lemma_last_in_append(e1, seq![("region"@, PropView::Text(inputs.region@))]);
    lemma_last_in_one("name"@, PropView::Text(inputs.name@));
    lemma_last_in_append(e2, seq![("name"@, PropView::Text(inputs.name@))]);
    lemma_last_in_one("sql"@, PropView::Text(inputs.sql@));
    lemma_last_in_append(e3, seq![("sql"@, PropView::Text(inputs.sql@))]);
    lemma_last_in_one("schedule"@, PropView::Text(inputs.schedule@));
    lemma_last_in_append(e4, seq![("schedule"@, PropView::Text(inputs.schedule@))]);
    lemma_last_in_one("timeZone"@, PropView::Text(inputs.time_zone@));
    lemma_last_in_append(e5, seq![("timeZone"@, PropView::Text(inputs.time_zone@))]);
    lemma_last_in_one("serviceAccount"@, PropView::Text(inputs.service_account@));
    lemma_last_in_append(e6, seq![("serviceAccount"@, PropView::Text(inputs.service_account@))]);
    lemma_last_in_one("workflowName"@, PropView::Text(state.workflow_name@));
    lemma_last_in_append(e7, seq![("workflowName"@, PropView::Text(state.workflow_name@))]);
    lemma_last_in_one("schedulerJobName"@, PropView::Text(state.scheduler_job_name@));
    lemma_last_in_append(e8, seq![("schedulerJobName"@, PropView::Text(state.scheduler_job_name@))]);
    lemma_last_in_one("state"@, PropView::Text(state.state@));
    lemma_last_in_append(e9, seq![("state"@, PropView::Text(state.state@))]);
    lemma_last_in_one("nextRunTime"@, PropView::Text(state.next_run_time@));
    lemma_last_in_append(e10, seq![("nextRunTime"@, PropView::Text(state.next_run_time@))]);
    lemma_last_in_opt_text("description"@, opt_str(inputs.description));
    lemma_last_in_append(e11, opt_text_entry("description"@, opt_str(inputs.description)));
    lemma_last_in_opt_bool("paused"@, inputs.paused);
    lemma_last_in_append(e12, opt_bool_entry("paused"@, inputs.paused));
    lemma_last_in_opt_number("retryCount"@, opt_i64(inputs.retry_count));
    lemma_last_in_append(e13, opt_number_entry("retryCount"@, opt_i64(inputs.retry_count)));
    lemma_last_in_opt_text("attemptDeadline"@, opt_str(inputs.attempt_deadline));
    lemma_last_in_append(e14, opt_text_entry("attemptDeadline"@, opt_str(inputs.attempt_deadline)));
    lemma_read_opt_text(out, e15, "description"@, opt_str(inputs.description));
    lemma_read_opt_bool(out, e15, "paused"@, inputs.paused);
    lemma_read_opt_number(out, e15, "retryCount"@, opt_i64(inputs.retry_count));
    lemma_read_opt_text(out, e15, "attemptDeadline"@, opt_str(inputs.attempt_deadline));
}

/// The inputs read back from a SQL job's outputs are the inputs it was
/// deployed with.
pub proof fn law_sqljob_outputs_read_back(inputs: SqlJobInputs, state: SqlJobState, out: Props)
    requires
        output_matches(out, sqljob_output(inputs, state)),
    ensures
        sqljob_inputs_error(out) is None,
        forall|r: SqlJobInputs| is_sqljob_inputs(r, out) ==> same_sqljob_inputs(r, inputs),
{
    lemma_job_output_keys();
    sqljob_output_reads_0(inputs, state, out);
    sqljob_output_reads_1(inputs, state, out);
}

/// The output keys, letter by letter: what tells them apart.
proof fn lemma_job_output_keys()
    ensures
        ""@.len() == 0,
        "attemptDeadline"@.len() == 15 && "attemptDeadline"@[0] == 'a' && "attemptDeadline"@[1] == 't' && "attemptDeadline"@[2] == 't' && "attemptDeadline"@[3] == 'e' && "attemptDeadline"@[4] == 'm' && "attemptDeadline"@[5] == 'p' && "attemptDeadline"@[6] == 't' && "attemptDeadline"@[7] == 'D' && "attemptDeadline"@[8] == 'e' && "attemptDeadline"@[9] == 'a' && "attemptDeadline"@[10] == 'd' && "attemptDeadline"@[11] == 'l' && "attemptDeadline"@[12] == 'i' && "attemptDeadline"@[13] == 'n' && "attemptDeadline"@[14] == 'e',
        "autoOptimize"@.len() == 12 && "autoOptimize"@[0] == 'a' && "autoOptimize"@[1] == 'u' && "autoOptimize"@[2] == 't' && "autoOptimize"@[3] == 'o' && "autoOptimize"@[4] == 'O' && "autoOptimize"@[5] == 'p' && "autoOptimize"@[6] == 't' && "autoOptimize"@[7] == 'i' && "autoOptimize"@[8] == 'm' && "autoOptimize"@[9] == 'i' && "autoOptimize"@[10] == 'z' && "autoOptimize"@[11] == 'e',
        "connectionString"@.len() == 16 && "connectionString"@[0] == 'c' && "connectionString"@[1] == 'o' && "connectionString"@[2] == 'n' && "connectionString"@[3] == 'n' && "connectionString"@[4] == 'e' && "connectionString"@[5] == 'c' && "connectionString"@[6] == 't' && "connectionString"@[7] == 'i' && "connectionString"@[8] == 'o' && "connectionString"@[9] == 'n' && "connectionString"@[10] == 'S' && "connectionString"@[11] == 't' && "connectionString"@[12] == 'r' && "connectionString"@[13] == 'i' && "connectionString"@[14] == 'n' && "connectionString"@[15] == 'g',
        "databaseType"@.len() == 12 && "databaseType"@[0] == 'd' && "databaseType"@[1] == 'a' && "databaseType"@[2] == 't' && "databaseType"@[3] == 'a' && "databaseType"@[4] == 'b' && "databaseType"@[5] == 'a' && "databaseType"@[6] == 's' && "databaseType"@[7] == 'e' && "databaseType"@[8] == 'T' && "databaseType"@[9] == 'y' && "databaseType"@[10] == 'p' && "databaseType"@[11] == 'e',
        "dataset"@.len() == 7 && "dataset"@[0] == 'd' && "dataset"@[1] == 'a' && "dataset"@[2] == 't' && "dataset"@[3] == 'a' && "dataset"@[4] == 's' && "dataset"@[5] == 'e' && "dataset"@[6] == 't',
        "definitionFingerprint"@.len() == 21 && "definitionFingerprint"@[0] == 'd' && "definitionFingerprint"@[1] == 'e' && "definitionFingerprint"@[2] == 'f' && "definitionFingerprint"@[3] == 'i' && "definitionFingerprint"@[4] == 'n' && "definitionFingerprint"@[5] == 'i' && "definitionFingerprint"@[6] == 't' && "definitionFingerprint"@[7] == 'i' && "definitionFingerprint"@[8] == 'o' && "definitionFingerprint"@[9] == 'n' && "definitionFingerprint"@[10] == 'F' && "definitionFingerprint"@[11] == 'i' && "definitionFingerprint"@[12] == 'n' && "definitionFingerprint"@[13] == 'g' && "definitionFingerprint"@[14] == 'e' && "definitionFingerprint"@[15] == 'r' && "definitionFingerprint"@[16] == 'p' && "definitionFingerprint"@[17] == 'r' && "definitionFingerprint"@[18] == 'i' && "definitionFingerprint"@[19] == 'n' && "definitionFingerprint"@[20] == 't',
        "description"@.len() == 11 && "description"@[0] == 'd' && "description"@[1] == 'e' && "description"@[2] == 's' && "description"@[3] == 'c' && "description"@[4] == 'r' && "description"@[5] == 'i' && "description"@[6] == 'p' && "description"@[7] == 't' && "description"@[8] == 'i' && "description"@[9] == 'o' && "description"@[10] == 'n',
        "destDataset"@.len() == 11 && "destDataset"@[0] == 'd' && "destDataset"@[1] == 'e' && "destDataset"@[2] == 's' && "destDataset"@[3] == 't' && "destDataset"@[4] == 'D' && "destDataset"@[5] == 'a' && "destDataset"@[6] == 't' && "destDataset"@[7] == 'a' && "destDataset"@[8] == 's' && "destDataset"@[9] == 'e' && "destDataset"@[10] == 't',
        "destProject"@.len() == 11 && "destProject"@[0] == 'd' && "destProject"@[1] == 'e' && "destProject"@[2] == 's' && "destProject"@[3] == 't' && "destProject"@[4] == 'P' && "destProject"@[5] == 'r' && "destProject"@[6] == 'o' && "destProject"@[7] == 'j' && "destProject"@[8] == 'e' && "destProject"@[9] == 'c' && "destProject"@[10] == 't',
        "destTable"@.len() == 9 && "destTable"@[0] == 'd' && "destTable"@[1] == 'e' && "destTable"@[2] == 's' && "destTable"@[3] == 't' && "destTable"@[4] == 'T' && "destTable"@[5] == 'a' && "destTable"@[6] == 'b' && "destTable"@[7] == 'l' && "destTable"@[8] == 'e',
        "destination"@.len() == 11 && "destination"@[0] == 'd' && "destination"@[1] == 'e' && "destination"@[2] == 's' && "destination"@[3] == 't' && "destination"@[4] == 'i' && "destination"@[5] == 'n' && "destination"@[6] == 'a' && "destination"@[7] == 't' && "destination"@[8] == 'i' && "destination"@[9] == 'o' && "destination"@[10] == 'n',
        "imageUri"@.len() == 8 && "imageUri"@[0] == 'i' && "imageUri"@[1] == 'm' && "imageUri"@[2] == 'a' && "imageUri"@[3] == 'g' && "imageUri"@[4] == 'e' && "imageUri"@[5] == 'U' && "imageUri"@[6] == 'r' && "imageUri"@[7] == 'i',
        "invalidateHardDeletes"@.len() == 21 && "invalidateHardDeletes"@[0] == 'i' && "invalidateHardDeletes"@[1] == 'n' && "invalidateHardDeletes"@[2] == 'v' && "invalidateHardDeletes"@[3] == 'a' && "invalidateHardDeletes"@[4] == 'l' && "invalidateHardDeletes"@[5] == 'i' && "invalidateHardDeletes"@[6] == 'd' && "invalidateHardDeletes"@[7] == 'a' && "invalidateHardDeletes"@[8] == 't' && "invalidateHardDeletes"@[9] == 'e' && "invalidateHardDeletes"@[10] == 'H' && "invalidateHardDeletes"@[11] == 'a' && "invalidateHardDeletes"@[12] == 'r' && "invalidateHardDeletes"@[13] == 'd' && "invalidateHardDeletes"@[14] == 'D' && "invalidateHardDeletes"@[15] == 'e' && "invalidateHardDeletes"@[16] == 'l' && "invalidateHardDeletes"@[17] == 'e' && "invalidateHardDeletes"@[18] == 't' && "invalidateHardDeletes"@[19] == 'e' && "invalidateHardDeletes"@[20] == 's',
        "jarUris"@.len() == 7 && "jarUris"@[0] == 'j' && "jarUris"@[1] == 'a' && "jarUris"@[2] == 'r' && "jarUris"@[3] == 'U' && "jarUris"@[4] == 'r' && "jarUris"@[5] == 'i' && "jarUris"@[6] == 's',
        "landingBucket"@.len() == 13 && "landingBucket"@[0] == 'l' && "landingBucket"@[1] == 'a' && "landingBucket"@[2] == 'n' && "landingBucket"@[3] == 'd' && "landingBucket"@[4] == 'i' && "landingBucket"@[5] == 'n' && "landingBucket"@[6] == 'g' && "landingBucket"@[7] == 'B' && "landingBucket"@[8] == 'u' && "landingBucket"@[9] == 'c' && "landingBucket"@[10] == 'k' && "landingBucket"@[11] == 'e' && "landingBucket"@[12] == 't',
        "name"@.len() == 4 && "name"@[0] == 'n' && "name"@[1] == 'a' && "name"@[2] == 'm' && "name"@[3] == 'e',
        "networkTags"@.len() == 11 && "networkTags"@[0] == 'n' && "networkTags"@[1] == 'e' && "networkTags"@[2] == 't' && "networkTags"@[3] == 'w' && "networkTags"@[4] == 'o' && "networkTags"@[5] == 'r' && "networkTags"@[6] == 'k' && "networkTags"@[7] == 'T' && "networkTags"@[8] == 'a' && "networkTags"@[9] == 'g' && "networkTags"@[10] == 's',
        "nextRunTime"@.len() == 11 && "nextRunTime"@[0] == 'n' && "nextRunTime"@[1] == 'e' && "nextRunTime"@[2] == 'x' && "nextRunTime"@[3] == 't' && "nextRunTime"@[4] == 'R' && "nextRunTime"@[5] == 'u' && "nextRunTime"@[6] == 'n' && "nextRunTime"@[7] == 'T' && "nextRunTime"@[8] == 'i' && "nextRunTime"@[9] == 'm' && "nextRunTime"@[10] == 'e',
        "paused"@.len() == 6 && "paused"@[0] == 'p' && "paused"@[1] == 'a' && "paused"@[2] == 'u' && "paused"@[3] == 's' && "paused"@[4] == 'e' && "paused"@[5] == 'd',
        "processBucket"@.len() == 13 && "processBucket"@[0] == 'p' && "processBucket"@[1] == 'r' && "processBucket"@[2] == 'o' && "processBucket"@[3] == 'c' && "processBucket"@[4] == 'e' && "processBucket"@[5] == 's' && "processBucket"@[6] == 's' && "processBucket"@[7] == 'B' && "processBucket"@[8] == 'u' && "processBucket"@[9] == 'c' && "processBucket"@[10] == 'k' && "processBucket"@[11] == 'e' && "processBucket"@[12] == 't',
        "project"@.len() == 7 && "project"@[0] == 'p' && "project"@[1] == 'r' && "project"@[2] == 'o' && "project"@[3] == 'j' && "project"@[4] == 'e' && "project"@[5] == 'c' && "project"@[6] == 't',
        "query"@.len() == 5 && "query"@[0] == 'q' && "query"@[1] == 'u' && "query"@[2] == 'e' && "query"@[3] == 'r' && "query"@[4] == 'y',
        "region"@.len() == 6 && "region"@[0] == 'r' && "region"@[1] == 'e' && "region"@[2] == 'g' && "region"@[3] == 'i' && "region"@[4] == 'o' && "region"@[5] == 'n',
        "retryCount"@.len() == 10 && "retryCount"@[0] == 'r' && "retryCount"@[1] == 'e' && "retryCount"@[2] == 't' && "retryCount"@[3] == 'r' && "retryCount"@[4] == 'y' && "retryCount"@[5] == 'C' && "retryCount"@[6] == 'o' && "retryCount"@[7] == 'u' && "retryCount"@[8] == 'n' && "retryCount"@[9] == 't',
        "runtimeVersion"@.len() == 14 && "runtimeVersion"@[0] == 'r' && "runtimeVersion"@[1] == 'u' && "runtimeVersion"@[2] == 'n' && "runtimeVersion"@[3] == 't' && "runtimeVersion"@[4] == 'i' && "runtimeVersion"@[5] == 'm' && "runtimeVersion"@[6] == 'e' && "runtimeVersion"@[7] == 'V' && "runtimeVersion"@[8] == 'e' && "runtimeVersion"@[9] == 'r' && "runtimeVersion"@[10] == 's' && "runtimeVersion"@[11] == 'i' && "runtimeVersion"@[12] == 'o' && "runtimeVersion"@[13] == 'n',
        "schedule"@.len() == 8 && "schedule"@[0] == 's' && "schedule"@[1] == 'c' && "schedule"@[2] == 'h' && "schedule"@[3] == 'e' && "schedule"@[4] == 'd' && "schedule"@[5] == 'u' && "schedule"@[6] == 'l' && "schedule"@[7] == 'e',
        "schedulerJobName"@.len() == 16 && "schedulerJobName"@[0] == 's' && "schedulerJobName"@[1] == 'c' && "schedulerJobName"@[2] == 'h' && "schedulerJobName"@[3] == 'e' && "schedulerJobName"@[4] == 'd' && "schedulerJobName"@[5] == 'u' && "schedulerJobName"@[6] == 'l' && "schedulerJobName"@[7] == 'e' && "schedulerJobName"@[8] == 'r' && "schedulerJobName"@[9] == 'J' && "schedulerJobName"@[10] == 'o' && "schedulerJobName"@[11] == 'b' && "schedulerJobName"@[12] == 'N' && "schedulerJobName"@[13] == 'a' && "schedulerJobName"@[14] == 'm' && "schedulerJobName"@[15] == 'e',
        "scriptUri"@.len() == 9 && "scriptUri"@[0] == 's' && "scriptUri"@[1] == 'c' && "scriptUri"@[2] == 'r' && "scriptUri"@[3] == 'i' && "scriptUri"@[4] == 'p' && "scriptUri"@[5] == 't' && "scriptUri"@[6] == 'U' && "scriptUri"@[7] == 'r' && "scriptUri"@[8] == 'i',
        "secret"@.len() == 6 && "secret"@[0] == 's' && "secret"@[1] == 'e' && "secret"@[2] == 'c' && "secret"@[3] == 'r' && "secret"@[4] == 'e' && "secret"@[5] == 't',
        "serviceAccount"@.len() == 14 && "serviceAccount"@[0] == 's' && "serviceAccount"@[1] == 'e' && "serviceAccount"@[2] == 'r' && "serviceAccount"@[3] == 'v' && "serviceAccount"@[4] == 'i' && "serviceAccount"@[5] == 'c' && "serviceAccount"@[6] == 'e' && "serviceAccount"@[7] == 'A' && "serviceAccount"@[8] == 'c' && "serviceAccount"@[9] == 'c' && "serviceAccount"@[10] == 'o' && "serviceAccount"@[11] == 'u' && "serviceAccount"@[12] == 'n' && "serviceAccount"@[13] == 't',
        "snapshotTable"@.len() == 13 && "snapshotTable"@[0] == 's' && "snapshotTable"@[1] == 'n' && "snapshotTable"@[2] == 'a' && "snapshotTable"@[3] == 'p' && "snapshotTable"@[4] == 's' && "snapshotTable"@[5] == 'h' && "snapshotTable"@[6] == 'o' && "snapshotTable"@[7] == 't' && "snapshotTable"@[8] == 'T' && "snapshotTable"@[9] == 'a' && "snapshotTable"@[10] == 'b' && "snapshotTable"@[11] == 'l' && "snapshotTable"@[12] == 'e',
        "sourceDataset"@.len() == 13 && "sourceDataset"@[0] == 's' && "sourceDataset"@[1] == 'o' && "sourceDataset"@[2] == 'u' && "sourceDataset"@[3] == 'r' && "sourceDataset"@[4] == 'c' && "sourceDataset"@[5] == 'e' && "sourceDataset"@[6] == 'D' && "sourceDataset"@[7] == 'a' && "sourceDataset"@[8] == 't' && "sourceDataset"@[9] == 'a' && "sourceDataset"@[10] == 's' && "sourceDataset"@[11] == 'e' && "sourceDataset"@[12] == 't',
        "sourceSchema"@.len() == 12 && "sourceSchema"@[0] == 's' && "sourceSchema"@[1] == 'o' && "sourceSchema"@[2] == 'u' && "sourceSchema"@[3] == 'r' && "sourceSchema"@[4] == 'c' && "sourceSchema"@[5] == 'e' && "sourceSchema"@[6] == 'S' && "sourceSchema"@[7] == 'c' && "sourceSchema"@[8] == 'h' && "sourceSchema"@[9] == 'e' && "sourceSchema"@[10] == 'm' && "sourceSchema"@[11] == 'a',
        "sourceSql"@.len() == 9 && "sourceSql"@[0] == 's' && "sourceSql"@[1] == 'o' && "sourceSql"@[2] == 'u' && "sourceSql"@[3] == 'r' && "sourceSql"@[4] == 'c' && "sourceSql"@[5] == 'e' && "sourceSql"@[6] == 'S' && "sourceSql"@[7] == 'q' && "sourceSql"@[8] == 'l',
        "sourceTable"@.len() == 11 && "sourceTable"@[0] == 's' && "sourceTable"@[1] == 'o' && "sourceTable"@[2] == 'u' && "sourceTable"@[3] == 'r' && "sourceTable"@[4] == 'c' && "sourceTable"@[5] == 'e' && "sourceTable"@[6] == 'T' && "sourceTable"@[7] == 'a' && "sourceTable"@[8] == 'b' && "sourceTable"@[9] == 'l' && "sourceTable"@[10] == 'e',
        "sql"@.len() == 3 && "sql"@[0] == 's' && "sql"@[1] == 'q' && "sql"@[2] == 'l',
        "stagingBucket"@.len() == 13 && "stagingBucket"@[0] == 's' && "stagingBucket"@[1] == 't' && "stagingBucket"@[2] == 'a' && "stagingBucket"@[3] == 'g' && "stagingBucket"@[4] == 'i' && "stagingBucket"@[5] == 'n' && "stagingBucket"@[6] == 'g' && "stagingBucket"@[7] == 'B' && "stagingBucket"@[8] == 'u' && "stagingBucket"@[9] == 'c' && "stagingBucket"@[10] == 'k' && "stagingBucket"@[11] == 'e' && "stagingBucket"@[12] == 't',
        "state"@.len() == 5 && "state"@[0] == 's' && "state"@[1] == 't' && "state"@[2] == 'a' && "state"@[3] == 't' && "state"@[4] == 'e',
        "strategy"@.len() == 8 && "strategy"@[0] == 's' && "strategy"@[1] == 't' && "strategy"@[2] == 'r' && "strategy"@[3] == 'a' && "strategy"@[4] == 't' && "strategy"@[5] == 'e' && "strategy"@[6] == 'g' && "strategy"@[7] == 'y',
        "subnetworkUri"@.len() == 13 && "subnetworkUri"@[0] == 's' && "subnetworkUri"@[1] == 'u' && "subnetworkUri"@[2] == 'b' && "subnetworkUri"@[3] == 'n' && "subnetworkUri"@[4] == 'e' && "subnetworkUri"@[5] == 't' && "subnetworkUri"@[6] == 'w' && "subnetworkUri"@[7] == 'o' && "subnetworkUri"@[8] == 'r' && "subnetworkUri"@[9] == 'k' && "subnetworkUri"@[10] == 'U' && "subnetworkUri"@[11] == 'r' && "subnetworkUri"@[12] == 'i',
        "tableId"@.len() == 7 && "tableId"@[0] == 't' && "tableId"@[1] == 'a' && "tableId"@[2] == 'b' && "tableId"@[3] == 'l' && "tableId"@[4] == 'e' && "tableId"@[5] == 'I' && "tableId"@[6] == 'd',
        "timeZone"@.len() == 8 && "timeZone"@[0] == 't' && "timeZone"@[1] == 'i' && "timeZone"@[2] == 'm' && "timeZone"@[3] == 'e' && "timeZone"@[4] == 'Z' && "timeZone"@[5] == 'o' && "timeZone"@[6] == 'n' && "timeZone"@[7] == 'e',
        "uniqueKey"@.len() == 9 && "uniqueKey"@[0] == 'u' && "uniqueKey"@[1] == 'n' && "uniqueKey"@[2] == 'i' && "uniqueKey"@[3] == 'q' && "uniqueKey"@[4] == 'u' && "uniqueKey"@[5] == 'e' && "uniqueKey"@[6] == 'K' && "uniqueKey"@[7] == 'e' && "uniqueKey"@[8] == 'y',
        "updatedAt"@.len() == 9 && "updatedAt"@[0] == 'u' && "updatedAt"@[1] == 'p' && "updatedAt"@[2] == 'd' && "updatedAt"@[3] == 'a' && "updatedAt"@[4] == 't' && "updatedAt"@[5] == 'e' && "updatedAt"@[6] == 'd' && "updatedAt"@[7] == 'A' && "updatedAt"@[8] == 't',
        "workflowName"@.len() == 12 && "workflowName"@[0] == 'w' && "workflowName"@[1] == 'o' && "workflowName"@[2] == 'r' && "workflowName"@[3] == 'k' && "workflowName"@[4] == 'f' && "workflowName"@[5] == 'l' && "workflowName"@[6] == 'o' && "workflowName"@[7] == 'w' && "workflowName"@[8] == 'N' && "workflowName"@[9] == 'a' && "workflowName"@[10] == 'm' && "workflowName"@[11] == 'e',
{
    reveal_strlit("");
    reveal_strlit("attemptDeadline");
    reveal_strlit("autoOptimize");
    reveal_strlit("connectionString");
    reveal_strlit("databaseType");
    reveal_strlit("dataset");
    reveal_strlit("definitionFingerprint");
    reveal_strlit("description");
    reveal_strlit("destDataset");
    reveal_strlit("destProject");
    reveal_strlit("destTable");
    reveal_strlit("destination");
    reveal_strlit("imageUri");
    reveal_strlit("invalidateHardDeletes");
    reveal_strlit("jarUris");
    reveal_strlit("landingBucket");
    reveal_strlit("name");
    reveal_strlit("networkTags");
    reveal_strlit("nextRunTime");
    reveal_strlit("paused");
    reveal_strlit("processBucket");
    reveal_strlit("project");
    reveal_strlit("query");
    reveal_strlit("region");
    reveal_strlit("retryCount");
    reveal_strlit("runtimeVersion");
    reveal_strlit("schedule");
    reveal_strlit("schedulerJobName");
    reveal_strlit("scriptUri");
    reveal_strlit("secret");
    reveal_strlit("serviceAccount");
    reveal_strlit("snapshotTable");
    reveal_strlit("sourceDataset");
    reveal_strlit("sourceSchema");
    reveal_strlit("sourceSql");
    reveal_strlit("sourceTable");
    reveal_strlit("sql");
    reveal_strlit("stagingBucket");
    reveal_strlit("state");
    reveal_strlit("strategy");
    reveal_strlit("subnetworkUri");
    reveal_strlit("tableId");
    reveal_strlit("timeZone");
    reveal_strlit("uniqueKey");
    reveal_strlit("updatedAt");
    reveal_strlit("workflowName");
}

/// Two sets of inputs that say the same.
pub open spec fn same_ingest_inputs(a: IngestJobInputs, b: IngestJobInputs) -> bool {
    &&& a.project@ == b.project@
    &&& a.region@ == b.region@
    &&& a.name@ == b.name@
    &&& a.database_type == b.database_type
    &&& a.connection_string@ == b.connection_string@
    &&& a.secret@ == b.secret@
    &&& a.query@ == b.query@
    &&& a.destination == b.destination
    &&& opt_str(a.landing_bucket) == opt_str(b.landing_bucket)
    &&& opt_str(a.dest_project) == opt_str(b.dest_project)
    &&& opt_str(a.dest_dataset) == opt_str(b.dest_dataset)
    &&& opt_str(a.dest_table) == opt_str(b.dest_table)
    &&& a.image_uri@ == b.image_uri@
    &&& a.script_uri@ == b.script_uri@
    &&& str_views(a.jar_uris@) == str_views(b.jar_uris@)
    &&& a.runtime_version@ == b.runtime_version@
    &&& a.service_account@ == b.service_account@
    &&& a.staging_bucket@ == b.staging_bucket@
    &&& a.process_bucket@ == b.process_bucket@
    &&& a.subnetwork_uri@ == b.subnetwork_uri@
    &&& str_views(a.network_tags@) == str_views(b.network_tags@)
    &&& a.schedule@ == b.schedule@
    &&& a.time_zone@ == b.time_zone@
    &&& a.paused == b.paused
    &&& opt_str(a.description) == opt_str(b.description)
    &&& a.retry_count == b.retry_count
    &&& opt_str(a.attempt_deadline) == opt_str(b.attempt_deadline)
}

proof fn ingest_output_reads_0(inputs: IngestJobInputs, state: DataprocJobState, out: Props)
    requires
        output_matches(out, ingest_output(inputs, state)),
    ensures
        text_at(out, "project"@) == Some(inputs.project@),
        text_at(out, "region"@) == Some(inputs.region@),
        text_at(out, "name"@) == Some(inputs.name@),
        text_at(out, "databaseType"@) == Some(inputs.database_type.label_text()),
        text_at(out, "connectionString"@) == Some(inputs.connection_string@),
        text_at(out, "secret"@) == Some(inputs.secret@),
        text_at(out, "query"@) == Some(inputs.query@),
{
    lemma_job_output_keys();
    let e0 = Seq::<(Seq<char>, PropView)>::empty();
    let e1 = e0 + seq![("project"@, PropView::Text(inputs.project@))];
    let e2 = e1 + seq![("region"@, PropView::Text(inputs.region@))];
    let e3 = e2 + seq![("name"@, PropView::Text(inputs.name@))];
    let e4 = e3 + seq![("databaseType"@, PropView::Text(inputs.database_type.label_text()))];
    let e5 = e4 + seq![("connectionString"@, PropView::Text(inputs.connection_string@))];
    let e6 = e5 + seq![("secret"@, PropView::Text(inputs.secret@))];
    let e7 = e6 + seq![("query"@, PropView::Text(inputs.query@))];
    let e8 = e7 + seq![("destination"@, PropView::Text(inputs.destination.label_text()))];
    let e9 = e8 + opt_text_entry("landingBucket"@, opt_str(inputs.landing_bucket));
    let e10 = e9 + opt_text_entry("destProject"@, opt_str(inputs.dest_project));
    let e11 = e10 + opt_text_entry("destDataset"@, opt_str(inputs.dest_dataset));
    let e12 = e11 + opt_text_entry("destTable"@, opt_str(inputs.dest_table));
    let e13 = e12 + opt_text_entry("imageUri"@, nonempty_text(inputs.image_uri@));
    let e14 = e13 + seq![("scriptUri"@, PropView::Text(inputs.script_uri@))];
    let e15 = e14 + seq![("jarUris"@, PropView::TextList(str_views(inputs.jar_uris@)))];
    let e16 = e15 + seq![("runtimeVersion"@, PropView::Text(inputs.runtime_version@))];
    let e17 = e16 + seq![("serviceAccount"@, PropView::Text(inputs.service_account@))];
    let e18 = e17 + seq![("stagingBucket"@, PropView::Text(inputs.staging_bucket@))];
    let e19 = e18 + seq![("processBucket"@, PropView::Text(inputs.process_bucket@))];
    let e20 = e19 + seq![("subnetworkUri"@, PropView::Text(inputs.subnetwork_uri@))];
    let e21 = e20 + seq![("networkTags"@, PropView::TextList(str_views(inputs.network_tags@)))];
    let e22 = e21 + seq![("schedule"@, PropView::Text(inputs.schedule@))];
    let e23 = e22 + seq![("timeZone"@, PropView::Text(inputs.time_zone@))];
    let e24 = e23 + opt_bool_entry("paused"@, inputs.paused);
    let e25 = e24 + opt_text_entry("description"@, opt_str(inputs.description));
    let e26 = e25 + opt_number_entry("retryCount"@, opt_i64(inputs.retry_count));
    let e27 = e26 + opt_text_entry("attemptDeadline"@, opt_str(inputs.attempt_deadline));
    let e28 = e27 + seq![("workflowName"@, PropView::Text(state.workflow_name@))];
    let e29 = e28 + seq![("schedulerJobName"@, PropView::Text(state.scheduler_job_name@))];
    let e30 = e29 + seq![("state"@, PropView::Text(state.state@))];
    let e31 = e30 + seq![("nextRunTime"@, PropView::Text(state.next_run_time@))];
    let e32 = e31 + seq![("definitionFingerprint"@, PropView::Text(state.definition_fingerprint@))];
    assert(e32 == ingest_output(inputs, state));
    lemma_last_in_one("project"@, PropView::Text(inputs.project@));
    lemma_last_in_append(e0, seq![("project"@, PropView::Text(inputs.project@))]);
    lemma_last_in_one("region"@, PropView::Text(inputs.region@));
    lemma_last_in_append(e1, seq![("region"@, PropView::Text(inputs.region@))]);
    lemma_last_in_one("name"@, PropView::Text(inputs.name@));
    lemma_last_in_append(e2, seq![("name"@, PropView::Text(inputs.name@))]);
    lemma_last_in_one("databaseType"@, PropView::Text(inputs.database_type.label_text()));
    lemma_last_in_append(e3, seq![("databaseType"@, PropView::Text(inputs.database_type.label_text()))]);
    lemma_last_in_one("connectionString"@, PropView::Text(inputs.connection_string@));
    lemma_last_in_append(e4, seq![("connectionString"@, PropView::Text(inputs.connection_string@))]);
    lemma_last_in_one("secret"@, PropView::Text(inputs.secret@));
    lemma_last_in_append(e5, seq![("secret"@, PropView::Text(inputs.secret@))]);
    lemma_last_in_one("query"@, PropView::Text(inputs.query@));
    lemma_last_in_append(e6, seq![("query"@, PropView::Text(inputs.query@))]);
    lemma_last_in_one("destination"@, PropView::Text(inputs.destination.label_text()));
    lemma_last_in_append(e7, seq![("destination"@, PropView::Text(inputs.destination.label_text()))]);
    lemma_last_in_opt_text("landingBucket"@, opt_str(inputs.landing_bucket));
    lemma_last_in_append(e8, opt_text_entry("landingBucket"@, opt_str(inputs.landing_bucket)));
    lemma_last_in_opt_text("destProject"@, opt_str(inputs.dest_project));
    lemma_last_in_append(e9, opt_text_entry("destProject"@, opt_str(inputs.dest_project)));
    lemma_last_in_opt_text("destDataset"@, opt_str(inputs.dest_dataset));
    lemma_last_in_append(e10, opt_text_entry("destDataset"@, opt_str(inputs.dest_dataset)));
    lemma_last_in_opt_text("destTable"@, opt_str(inputs.dest_table));
    lemma_last_in_append(e11, opt_text_entry("destTable"@, opt_str(inputs.dest_table)));
    lemma_last_in_opt_text("imageUri"@, nonempty_text(inputs.image_uri@));
    lemma_last_in_append(e12, opt_text_entry("imageUri"@, nonempty_text(inputs.image_uri@)));
    lemma_last_in_one("scriptUri"@, PropView::Text(inputs.script_uri@));
    lemma_last_in_append(e13, seq![("scriptUri"@, PropView::Text(inputs.script_uri@))]);
    lemma_last_in_one("jarUris"@, PropView::TextList(str_views(inputs.jar_uris@)));
    lemma_last_in_append(e14, seq![("jarUris"@, PropView::TextList(str_views(inputs.jar_uris@)))]);
    lemma_last_in_one("runtimeVersion"@, PropView::Text(inputs.runtime_version@));
    lemma_last_in_append(e15, seq![("runtimeVersion"@, PropView::Text(inputs.runtime_version@))]);
    lemma_last_in_one("serviceAccount"@, PropView::Text(inputs.service_account@));
    lemma_last_in_append(e16, seq![("serviceAccount"@, PropView::Text(inputs.service_account@))]);
    lemma_last_in_one("stagingBucket"@, PropView::Text(inputs.staging_bucket@));
    lemma_last_in_append(e17, seq![("stagingBucket"@, PropView::Text(inputs.staging_bucket@))]);
    lemma_last_in_one("processBucket"@, PropView::Text(inputs.process_bucket@));
    lemma_last_in_append(e18, seq![("processBucket"@, PropView::Text(inputs.process_bucket@))]);
    lemma_last_in_one("subnetworkUri"@, PropView::Text(inputs.subnetwork_uri@));
    lemma_last_in_append(e19, seq![("subnetworkUri"@, PropView::Text(inputs.subnetwork_uri@))]);
    lemma_last_in_one("networkTags"@, PropView::TextList(str_views(inputs.network_tags@)));
    lemma_last_in_append(e20, seq![("networkTags"@, PropView::TextList(str_views(inputs.network_tags@)))]);
    lemma_last_in_one("schedule"@, PropView::Text(inputs.schedule@));
    lemma_last_in_append(e21, seq![("schedule"@, PropView::Text(inputs.schedule@))]);
    lemma_last_in_one("timeZone"@, PropView::Text(inputs.time_zone@));
    lemma_last_in_append(e22, seq![("timeZone"@, PropView::Text(inputs.time_zone@))]);
    lemma_last_in_opt_bool("paused"@, inputs.paused);
    lemma_last_in_append(e23, opt_bool_entry("paused"@, inputs.paused));
    lemma_last_in_opt_text("description"@, opt_str(inputs.description));
    lemma_last_in_append(e24, opt_text_entry("description"@, opt_str(inputs.description)));
    lemma_last_in_opt_number("retryCount"@, opt_i64(inputs.retry_count));
    lemma_last_in_append(e25, opt_number_entry("retryCount"@, opt_i64(inputs.retry_count)));
    lemma_last_in_opt_text("attemptDeadline"@, opt_str(inputs.attempt_deadline));
    lemma_last_in_append(e26, opt_text_entry("attemptDeadline"@, opt_str(inputs.attempt_deadline)));
    lemma_last_in_one("workflowName"@, PropView::Text(state.workflow_name@));
    lemma_last_in_append(e27, seq![("workflowName"@, PropView::Text(state.workflow_name@))]);
    lemma_last_in_one("schedulerJobName"@, PropView::Text(state.scheduler_job_name@));
    lemma_last_in_append(e28, seq![("schedulerJobName"@, PropView::Text(state.scheduler_job_name@))]);
    lemma_last_in_one("state"@, PropView::Text(state.state@));
    lemma_last_in_append(e29, seq![("state"@, PropView::Text(state.state@))]);
    lemma_last_in_one("nextRunTime"@, PropView::Text(state.next_run_time@));
    lemma_last_in_append(e30, seq![("nextRunTime"@, PropView::Text(state.next_run_time@))]);
    lemma_last_in_one("definitionFingerprint"@, PropView::Text(state.definition_fingerprint@));
    lemma_last_in_append(e31, seq![("definitionFingerprint"@, PropView::Text(state.definition_fingerprint@))]);
    lemma_read_text(out, e32, "project"@, inputs.project@);
    lemma_read_text(out, e32, "region"@, inputs.region@);
    lemma_read_text(out, e32, "name"@, inputs.name@);
    lemma_read_text(out, e32, "databaseType"@, inputs.database_type.label_text());
    lemma_read_text(out, e32, "connectionString"@, inputs.connection_string@);
    lemma_read_text(out, e32, "secret"@, inputs.secret@);
    lemma_read_text(out, e32, "query"@, inputs.query@);
}

proof fn ingest_output_reads_1(inputs: IngestJobInputs, state: DataprocJobState, out: Props)
    requires
        output_matches(out, ingest_output(inputs, state)),
    ensures
        text_at(out, "destination"@) == Some(inputs.destination.label_text()),
        text_at(out, "landingBucket"@) == opt_str(inputs.landing_bucket),
        text_at(out, "destProject"@) == opt_str(inputs.dest_project),
        text_at(out, "destDataset"@) == opt_str(inputs.dest_dataset),
        text_at(out, "destTable"@) == opt_str(inputs.dest_table),
        text_at(out, "imageUri"@) == nonempty_text(inputs.image_uri@),
        text_at(out, "scriptUri"@) == Some(inputs.script_uri@),
{
    lemma_job_output_keys();
    let e0 = Seq::<(Seq<char>, PropView)>::empty();
    let e1 = e0 + seq![("project"@, PropView::Text(inputs.project@))];
    let e2 = e1 + seq![("region"@, PropView::Text(inputs.region@))];
    let e3 = e2 + seq![("name"@, PropView::Text(inputs.name@))];
    let e4 = e3 + seq![("databaseType"@, PropView::Text(inputs.database_type.label_text()))];
    let e5 = e4 + seq![("connectionString"@, PropView::Text(inputs.connection_string@))];
    let e6 = e5 + seq![("secret"@, PropView::Text(inputs.secret@))];
    let e7 = e6 + seq![("query"@, PropView::Text(inputs.query@))];
    let e8 = e7 + seq![("destination"@, PropView::Text(inputs.destination.label_text()))];
    let e9 = e8 + opt_text_entry("landingBucket"@, opt_str(inputs.landing_bucket));
    let e10 = e9 + opt_text_entry("destProject"@, opt_str(inputs.dest_project));
    let e11 = e10 + opt_text_entry("destDataset"@, opt_str(inputs.dest_dataset));
    let e12 = e11 + opt_text_entry("destTable"@, opt_str(inputs.dest_table));
    let e13 = e12 + opt_text_entry("imageUri"@, nonempty_text(inputs.image_uri@));
    let e14 = e13 + seq![("scriptUri"@, PropView::Text(inputs.script_uri@))];
    let e15 = e14 + seq![("jarUris"@, PropView::TextList(str_views(inputs.jar_uris@)))];
    let e16 = e15 + seq![("runtimeVersion"@, PropView::Text(inputs.runtime_version@))];
    let e17 = e16 + seq![("serviceAccount"@, PropView::Text(inputs.service_account@))];
    let e18 = e17 + seq![("stagingBucket"@, PropView::Text(inputs.staging_bucket@))];
    let e19 = e18 + seq![("processBucket"@, PropView::Text(inputs.process_bucket@))];
    let e20 = e19 + seq![("subnetworkUri"@, PropView::Text(inputs.subnetwork_uri@))];
    let e21 = e20 + seq![("networkTags"@, PropView::TextList(str_views(inputs.network_tags@)))];
    let e22 = e21 + seq![("schedule"@, PropView::Text(inputs.schedule@))];
    let e23 = e22 + seq![("timeZone"@, PropView::Text(inputs.time_zone@))];
    let e24 = e23 + opt_bool_entry("paused"@, inputs.paused);
    let e25 = e24 + opt_text_entry("description"@, opt_str(inputs.description));
    let e26 = e25 + opt_number_entry("retryCount"@, opt_i64(inputs.retry_count));
    let e27 = e26 + opt_text_entry("attemptDeadline"@, opt_str(inputs.attempt_deadline));
    let e28 = e27 + seq![("workflowName"@, PropView::Text(state.workflow_name@))];
    let e29 = e28 + seq![("schedulerJobName"@, PropView::Text(state.scheduler_job_name@))];
    let e30 = e29 + seq![("state"@, PropView::Text(state.state@))];
    let e31 = e30 + seq![("nextRunTime"@, PropView::Text(state.next_run_time@))];
    let e32 = e31 + seq![("definitionFingerprint"@, PropView::Text(state.definition_fingerprint@))];
    assert(e32 == ingest_output(inputs, state));
    lemma_last_in_one("project"@, PropView::Text(inputs.project@));
    lemma_last_in_append(e0, seq![("project"@, PropView::Text(inputs.project@))]);
    lemma_last_in_one("region"@, PropView::Text(inputs.region@));
    lemma_last_in_append(e1, seq![("region"@, PropView::Text(inputs.region@))]);
    lemma_last_in_one("name"@, PropView::Text(inputs.name@));
    lemma_last_in_append(e2, seq![("name"@, PropView::Text(inputs.name@))]);
    lemma_last_in_one("databaseType"@, PropView::Text(inputs.database_type.label_text()));
    lemma_last_in_append(e3, seq![("databaseType"@, PropView::Text(inputs.database_type.label_text()))]);
    lemma_last_in_one("connectionString"@, PropView::Text(inputs.connection_string@));
    lemma_last_in_append(e4, seq![("connectionString"@, PropView::Text(inputs.connection_string@))]);
    lemma_last_in_one("secret"@, PropView::Text(inputs.secret@));
    lemma_last_in_append(e5, seq![("secret"@, PropView::Text(inputs.secret@))]);
    lemma_last_in_one("query"@, PropView::Text(inputs.query@));
    lemma_last_in_append(e6, seq![("query"@, PropView::Text(inputs.query@))]);
    lemma_last_in_one("destination"@, PropView::Text(inputs.destination.label_text()));
    lemma_last_in_append(e7, seq![("destination"@, PropView::Text(inputs.destination.label_text()))]);
    lemma_last_in_opt_text("landingBucket"@, opt_str(inputs.landing_bucket));
    lemma_last_in_append(e8, opt_text_entry("landingBucket"@, opt_str(inputs.landing_bucket)));
    lemma_last_in_opt_text("destProject"@, opt_str(inputs.dest_project));
    lemma_last_in_append(e9, opt_text_entry("destProject"@, opt_str(inputs.dest_project)));
    lemma_last_in_opt_text("destDataset"@, opt_str(inputs.dest_dataset));
    lemma_last_in_append(e10, opt_text_entry("destDataset"@, opt_str(inputs.dest_dataset)));
    lemma_last_in_opt_text("destTable"@, opt_str(inputs.dest_table));
    lemma_last_in_append(e11, opt_text_entry("destTable"@, opt_str(inputs.dest_table)));
    lemma_last_in_opt_text("imageUri"@, nonempty_text(inputs.image_uri@));
    lemma_last_in_append(e12, opt_text_entry("imageUri"@, nonempty_text(inputs.image_uri@)));
    lemma_last_in_one("scriptUri"@, PropView::Text(inputs.script_uri@));
    lemma_last_in_append(e13, seq![("scriptUri"@, PropView::Text(inputs.script_uri@))]);
    lemma_last_in_one("jarUris"@, PropView::TextList(str_views(inputs.jar_uris@)));
    lemma_last_in_append(e14, seq![("jarUris"@, PropView::TextList(str_views(inputs.jar_uris@)))]);
    lemma_last_in_one("runtimeVersion"@, PropView::Text(inputs.runtime_version@));
    lemma_last_in_append(e15, seq![("runtimeVersion"@, PropView::Text(inputs.runtime_version@))]);
    lemma_last_in_one("serviceAccount"@, PropView::Text(inputs.service_account@));
    lemma_last_in_append(e16, seq![("serviceAccount"@, PropView::Text(inputs.service_account@))]);
    lemma_last_in_one("stagingBucket"@, PropView::Text(inputs.staging_bucket@));
    lemma_last_in_append(e17, seq![("stagingBucket"@, PropView::Text(inputs.staging_bucket@))]);
    lemma_last_in_one("processBucket"@, PropView::Text(inputs.process_bucket@));
    lemma_last_in_append(e18, seq![("processBucket"@, PropView::Text(inputs.process_bucket@))]);
    lemma_last_in_one("subnetworkUri"@, PropView::Text(inputs.subnetwork_uri@));
    lemma_last_in_append(e19, seq![("subnetworkUri"@, PropView::Text(inputs.subnetwork_uri@))]);
    lemma_last_in_one("networkTags"@, PropView::TextList(str_views(inputs.network_tags@)));
    lemma_last_in_append(e20, seq![("networkTags"@, PropView::TextList(str_views(inputs.network_tags@)))]);
    lemma_last_in_one("schedule"@, PropView::Text(inputs.schedule@));
    lemma_last_in_append(e21, seq![("schedule"@, PropView::Text(inputs.schedule@))]);
    lemma_last_in_one("timeZone"@, PropView::Text(inputs.time_zone@));
    lemma_last_in_append(e22, seq![("timeZone"@, PropView::Text(inputs.time_zone@))]);
    lemma_last_in_opt_bool("paused"@, inputs.paused);
    lemma_last_in_append(e23, opt_bool_entry("paused"@, inputs.paused));
    lemma_last_in_opt_text("description"@, opt_str(inputs.description));
    lemma_last_in_append(e24, opt_text_entry("description"@, opt_str(inputs.description)));
    lemma_last_in_opt_number("retryCount"@, opt_i64(inputs.retry_count));
    lemma_last_in_append(e25, opt_number_entry("retryCount"@, opt_i64(inputs.retry_count)));
    lemma_last_in_opt_text("attemptDeadline"@, opt_str(inputs.attempt_deadline));
    lemma_last_in_append(e26, opt_text_entry("attemptDeadline"@, opt_str(inputs.attempt_deadline)));
    lemma_last_in_one("workflowName"@, PropView::Text(state.workflow_name@));
    lemma_last_in_append(e27, seq![("workflowName"@, PropView::Text(state.workflow_name@))]);
    lemma_last_in_one("schedulerJobName"@, PropView::Text(state.scheduler_job_name@));
    lemma_last_in_append(e28, seq![("schedulerJobName"@, PropView::Text(state.scheduler_job_name@))]);
    lemma_last_in_one("state"@, PropView::Text(state.state@));
    lemma_last_in_append(e29, seq![("state"@, PropView::Text(state.state@))]);
    lemma_last_in_one("nextRunTime"@, PropView::Text(state.next_run_time@));
    lemma_last_in_append(e30, seq![("nextRunTime"@, PropView::Text(state.next_run_time@))]);
    lemma_last_in_one("definitionFingerprint"@, PropView::Text(state.definition_fingerprint@));
    lemma_last_in_append(e31, seq![("definitionFingerprint"@, PropView::Text(state.definition_fingerprint@))]);
    lemma_read_text(out, e32, "destination"@, inputs.destination.label_text());
    lemma_read_opt_text(out, e32, "landingBucket"@, opt_str(inputs.landing_bucket));
    lemma_read_opt_text(out, e32, "destProject"@, opt_str(inputs.dest_project));
    lemma_read_opt_text(out, e32, "destDataset"@, opt_str(inputs.dest_dataset));
    lemma_read_opt_text(out, e32, "destTable"@, opt_str(inputs.dest_table));
    lemma_read_opt_text(out, e32, "imageUri"@, nonempty_text(inputs.image_uri@));
    lemma_read_text(out, e32, "scriptUri"@, inputs.script_uri@);
}

proof fn ingest_output_reads_2(inputs: IngestJobInputs, state: DataprocJobState, out: Props)
    requires
        output_matches(out, ingest_output(inputs, state)),
    ensures
        text_list_at(out, "jarUris"@) == str_views(inputs.jar_uris@),
        text_at(out, "runtimeVersion"@) == Some(inputs.runtime_version@),
        text_at(out, "serviceAccount"@) == Some(inputs.service_account@),
        text_at(out, "stagingBucket"@) == Some(inputs.staging_bucket@),
        text_at(out, "processBucket"@) == Some(inputs.process_bucket@),
        text_at(out, "subnetworkUri"@) == Some(inputs.subnetwork_uri@),
        text_list_at(out, "networkTags"@) == str_views(inputs.network_tags@),
{
    lemma_job_output_keys();
    let e0 = Seq::<(Seq<char>, PropView)>::empty();
    let e1 = e0 + seq![("project"@, PropView::Text(inputs.project@))];
    let e2 = e1 + seq![("region"@, PropView::Text(inputs.region@))];
    let e3 = e2 + seq![("name"@, PropView::Text(inputs.name@))];
    let e4 = e3 + seq![("databaseType"@, PropView::Text(inputs.database_type.label_text()))];
    let e5 = e4 + seq![("connectionString"@, PropView::Text(inputs.connection_string@))];
    let e6 = e5 + seq![("secret"@, PropView::Text(inputs.secret@))];
    let e7 = e6 + seq![("query"@, PropView::Text(inputs.query@))];
    let e8 = e7 + seq![("destination"@, PropView::Text(inputs.destination.label_text()))];
    let e9 = e8 + opt_text_entry("landingBucket"@, opt_str(inputs.landing_bucket));
    let e10 = e9 + opt_text_entry("destProject"@, opt_str(inputs.dest_project));
    let e11 = e10 + opt_text_entry("destDataset"@, opt_str(inputs.dest_dataset));
    let e12 = e11 + opt_text_entry("destTable"@, opt_str(inputs.dest_table));
    let e13 = e12 + opt_text_entry("imageUri"@, nonempty_text(inputs.image_uri@));
    let e14 = e13 + seq![("scriptUri"@, PropView::Text(inputs.script_uri@))];
    let e15 = e14 + seq![("jarUris"@, PropView::TextList(str_views(inputs.jar_uris@)))];
    let e16 = e15 + seq![("runtimeVersion"@, PropView::Text(inputs.runtime_version@))];
    let e17 = e16 + seq![("serviceAccount"@, PropView::Text(inputs.service_account@))];
    let e18 = e17 + seq![("stagingBucket"@, PropView::Text(inputs.staging_bucket@))];
    let e19 = e18 + seq![("processBucket"@, PropView::Text(inputs.process_bucket@))];
    let e20 = e19 + seq![("subnetworkUri"@, PropView::Text(inputs.subnetwork_uri@))];
    let e21 = e20 + seq![("networkTags"@, PropView::TextList(str_views(inputs.network_tags@)))];
    let e22 = e21 + seq![("schedule"@, PropView::Text(inputs.schedule@))];
    let e23 = e22 + seq![("timeZone"@, PropView::Text(inputs.time_zone@))];
    let e24 = e23 + opt_bool_entry("paused"@, inputs.paused);
    let e25 = e24 + opt_text_entry("description"@, opt_str(inputs.description));
    let e26 = e25 + opt_number_entry("retryCount"@, opt_i64(inputs.retry_count));
    let e27 = e26 + opt_text_entry("attemptDeadline"@, opt_str(inputs.attempt_deadline));
    let e28 = e27 + seq![("workflowName"@, PropView::Text(state.workflow_name@))];
    let e29 = e28 + seq![("schedulerJobName"@, PropView::Text(state.scheduler_job_name@))];
    let e30 = e29 + seq![("state"@, PropView::Text(state.state@))];
    let e31 = e30 + seq![("nextRunTime"@, PropView::Text(state.next_run_time@))];
    let e32 = e31 + seq![("definitionFingerprint"@, PropView::Text(state.definition_fingerprint@))];
    assert(e32 == ingest_output(inputs, state));
    lemma_last_in_one("project"@, PropView::Text(inputs.project@));
    lemma_last_in_append(e0, seq![("project"@, PropView::Text(inputs.project@))]);
    lemma_last_in_one("region"@, PropView::Text(inputs.region@));
    lemma_last_in_append(e1, seq![("region"@, PropView::Text(inputs.region@))]);
    lemma_last_in_one("name"@, PropView::Text(inputs.name@));
    lemma_last_in_append(e2, seq![("name"@, PropView::Text(inputs.name@))]);
    lemma_last_in_one("databaseType"@, PropView::Text(inputs.database_type.label_text()));
    lemma_last_in_append(e3, seq![("databaseType"@, PropView::Text(inputs.database_type.label_text()))]);
    lemma_last_in_one("connectionString"@, PropView::Text(inputs.connection_string@));
    lemma_last_in_append(e4, seq![("connectionString"@, PropView::Text(inputs.connection_string@))]);
    lemma_last_in_one("secret"@, PropView::Text(inputs.secret@));
    lemma_last_in_append(e5, seq![("secret"@, PropView::Text(inputs.secret@))]);
    lemma_last_in_one("query"@, PropView::Text(inputs.query@));
    lemma_last_in_append(e6, seq![("query"@, PropView::Text(inputs.query@))]);
    lemma_last_in_one("destination"@, PropView::Text(inputs.destination.label_text()));
    lemma_last_in_append(e7, seq![("destination"@, PropView::Text(inputs.destination.label_text()))]);
    lemma_last_in_opt_text("landingBucket"@, opt_str(inputs.landing_bucket));
    lemma_last_in_append(e8, opt_text_entry("landingBucket"@, opt_str(inputs.landing_bucket)));
    lemma_last_in_opt_text("destProject"@, opt_str(inputs.dest_project));
    lemma_last_in_append(e9, opt_text_entry("destProject"@, opt_str(inputs.dest_project)));
    lemma_last_in_opt_text("destDataset"@, opt_str(inputs.dest_dataset));
    lemma_last_in_append(e10, opt_text_entry("destDataset"@, opt_str(inputs.dest_dataset)));
    lemma_last_in_opt_text("destTable"@, opt_str(inputs.dest_table));
    lemma_last_in_append(e11, opt_text_entry("destTable"@, opt_str(inputs.dest_table)));
    lemma_last_in_opt_text("imageUri"@, nonempty_text(inputs.image_uri@));
    lemma_last_in_append(e12, opt_text_entry("imageUri"@, nonempty_text(inputs.image_uri@)));
    lemma_last_in_one("scriptUri"@, PropView::Text(inputs.script_uri@));
    lemma_last_in_append(e13, seq![("scriptUri"@, PropView::Text(inputs.script_uri@))]);
    lemma_last_in_one("jarUris"@, PropView::TextList(str_views(inputs.jar_uris@)));
    lemma_last_in_append(e14, seq![("jarUris"@, PropView::TextList(str_views(inputs.jar_uris@)))]);
    lemma_last_in_one("runtimeVersion"@, PropView::Text(inputs.runtime_version@));
    lemma_last_in_append(e15, seq![("runtimeVersion"@, PropView::Text(inputs.runtime_version@))]);
    lemma_last_in_one("serviceAccount"@, PropView::Text(inputs.service_account@));
    lemma_last_in_append(e16, seq![("serviceAccount"@, PropView::Text(inputs.service_account@))]);
    lemma_last_in_one("stagingBucket"@, PropView::Text(inputs.staging_bucket@));
    lemma_last_in_append(e17, seq![("stagingBucket"@, PropView::Text(inputs.staging_bucket@))]);
    lemma_last_in_one("processBucket"@, PropView::Text(inputs.process_bucket@));
    lemma_last_in_append(e18, seq![("processBucket"@, PropView::Text(inputs.process_bucket@))]);
    lemma_last_in_one("subnetworkUri"@, PropView::Text(inputs.subnetwork_uri@));
    lemma_last_in_append(e19, seq![("subnetworkUri"@, PropView::Text(inputs.subnetwork_uri@))]);
    lemma_last_in_one("networkTags"@, PropView::TextList(str_views(inputs.network_tags@)));
    lemma_last_in_append(e20, seq![("networkTags"@, PropView::TextList(str_views(inputs.network_tags@)))]);
    lemma_last_in_one("schedule"@, PropView::Text(inputs.schedule@));
    lemma_last_in_append(e21, seq![("schedule"@, PropView::Text(inputs.schedule@))]);
    lemma_last_in_one("timeZone"@, PropView::Text(inputs.time_zone@));
    lemma_last_in_append(e22, seq![("timeZone"@, PropView::Text(inputs.time_zone@))]);
    lemma_last_in_opt_bool("paused"@, inputs.paused);
    lemma_last_in_append(e23, opt_bool_entry("paused"@, inputs.paused));
    lemma_last_in_opt_text("description"@, opt_str(inputs.description));
    lemma_last_in_append(e24, opt_text_entry("description"@, opt_str(inputs.description)));
    lemma_last_in_opt_number("retryCount"@, opt_i64(inputs.retry_count));
    lemma_last_in_append(e25, opt_number_entry("retryCount"@, opt_i64(inputs.retry_count)));
    lemma_last_in_opt_text("attemptDeadline"@, opt_str(inputs.attempt_deadline));
    lemma_last_in_append(e26, opt_text_entry("attemptDeadline"@, opt_str(inputs.attempt_deadline)));
    lemma_last_in_one("workflowName"@, PropView::Text(state.workflow_name@));
    lemma_last_in_append(e27, seq![("workflowName"@, PropView::Text(state.workflow_name@))]);
    lemma_last_in_one("schedulerJobName"@, PropView::Text(state.scheduler_job_name@));
    lemma_last_in_append(e28, seq![("schedulerJobName"@, PropView::Text(state.scheduler_job_name@))]);
    lemma_last_in_one("state"@, PropView::Text(state.state@));
    lemma_last_in_append(e29, seq![("state"@, PropView::Text(state.state@))]);
    lemma_last_in_one("nextRunTime"@, PropView::Text(state.next_run_time@));
    lemma_last_in_append(e30, seq![("nextRunTime"@, PropView::Text(state.next_run_time@))]);
    lemma_last_in_one("definitionFingerprint"@, PropView::Text(state.definition_fingerprint@));
    lemma_last_in_append(e31, seq![("definitionFingerprint"@, PropView::Text(state.definition_fingerprint@))]);
    lemma_read_text_list(out, e32, "jarUris"@, str_views(inputs.jar_uris@));
    lemma_read_text(out, e32, "runtimeVersion"@, inputs.runtime_version@);
    lemma_read_text(out, e32, "serviceAccount"@, inputs.service_account@);
    lemma_read_text(out, e32, "stagingBucket"@, inputs.staging_bucket@);
    lemma_read_text(out, e32, "processBucket"@, inputs.process_bucket@);
    lemma_read_text(out, e32, "subnetworkUri"@, inputs.subnetwork_uri@);
    lemma_read_text_list(out, e32, "networkTags"@, str_views(inputs.network_tags@));
}

proof fn ingest_output_reads_3(inputs: IngestJobInputs, state: DataprocJobState, out: Props)
    requires
        output_matches(out, ingest_output(inputs, state)),
    ensures
        text_at(out, "schedule"@) == Some(inputs.schedule@),
        text_at(out, "timeZone"@) == Some(inputs.time_zone@),
        bool_at(out, "paused"@) == inputs.paused,
        text_at(out, "description"@) == opt_str(inputs.description),
        number_at(out, "retryCount"@) == opt_i64(inputs.retry_count),
        text_at(out, "attemptDeadline"@) == opt_str(inputs.attempt_deadline),
{
    lemma_job_output_keys();
    let e0 = Seq::<(Seq<char>, PropView)>::empty();
    let e1 = e0 + seq![("project"@, PropView::Text(inputs.project@))];
    let e2 = e1 + seq![("region"@, PropView::Text(inputs.region@))];
    let e3 = e2 + seq![("name"@, PropView::Text(inputs.name@))];
    let e4 = e3 + seq![("databaseType"@, PropView::Text(inputs.database_type.label_text()))];
    let e5 = e4 + seq![("connectionString"@, PropView::Text(inputs.connection_string@))];
    let e6 = e5 + seq![("secret"@, PropView::Text(inputs.secret@))];
    let e7 = e6 + seq![("query"@, PropView::Text(inputs.query@))];
    let e8 = e7 + seq![("destination"@, PropView::Text(inputs.destination.label_text()))];
    let e9 = e8 + opt_text_entry("landingBucket"@, opt_str(inputs.landing_bucket));
    let e10 = e9 + opt_text_entry("destProject"@, opt_str(inputs.dest_project));
    let e11 = e10 + opt_text_entry("destDataset"@, opt_str(inputs.dest_dataset));
    let e12 = e11 + opt_text_entry("destTable"@, opt_str(inputs.dest_table));
    let e13 = e12 + opt_text_entry("imageUri"@, nonempty_text(inputs.image_uri@));
    let e14 = e13 + seq![("scriptUri"@, PropView::Text(inputs.script_uri@))];
    let e15 = e14 + seq![("jarUris"@, PropView::TextList(str_views(inputs.jar_uris@)))];
    let e16 = e15 + seq![("runtimeVersion"@, PropView::Text(inputs.runtime_version@))];
    let e17 = e16 + seq![("serviceAccount"@, PropView::Text(inputs.service_account@))];
    let e18 = e17 + seq![("stagingBucket"@, PropView::Text(inputs.staging_bucket@))];
    let e19 = e18 + seq![("processBucket"@, PropView::Text(inputs.process_bucket@))];
    let e20 = e19 + seq![("subnetworkUri"@, PropView::Text(inputs.subnetwork_uri@))];
    let e21 = e20 + seq![("networkTags"@, PropView::TextList(str_views(inputs.network_tags@)))];
    let e22 = e21 + seq![("schedule"@, PropView::Text(inputs.schedule@))];
    let e23 = e22 + seq![("timeZone"@, PropView::Text(inputs.time_zone@))];
    let e24 = e23 + opt_bool_entry("paused"@, inputs.paused);
    let e25 = e24 + opt_text_entry("description"@, opt_str(inputs.description));
    let e26 = e25 + opt_number_entry("retryCount"@, opt_i64(inputs.retry_count));
    let e27 = e26 + opt_text_entry("attemptDeadline"@, opt_str(inputs.attempt_deadline));
    let e28 = e27 + seq![("workflowName"@, PropView::Text(state.workflow_name@))];
    let e29 = e28 + seq![("schedulerJobName"@, PropView::Text(state.scheduler_job_name@))];
    let e30 = e29 + seq![("state"@, PropView::Text(state.state@))];
    let e31 = e30 + seq![("nextRunTime"@, PropView::Text(state.next_run_time@))];
    let e32 = e31 + seq![("definitionFingerprint"@, PropView::Text(state.definition_fingerprint@))];
    assert(e32 == ingest_output(inputs, state));
    lemma_last_in_one("project"@, PropView::Text(inputs.project@));
    lemma_last_in_append(e0, seq![("project"@, PropView::Text(inputs.project@))]);
    lemma_last_in_one("region"@, PropView::Text(inputs.region@));
    lemma_last_in_append(e1, seq![("region"@, PropView::Text(inputs.region@))]);
    lemma_last_in_one("name"@, PropView::Text(inputs.name@));
    lemma_last_in_append(e2, seq![("name"@, PropView::Text(inputs.name@))]);
    lemma_last_in_one("databaseType"@, PropView::Text(inputs.database_type.label_text()));
    lemma_last_in_append(e3, seq![("databaseType"@, PropView::Text(inputs.database_type.label_text()))]);
    lemma_last_in_one("connectionString"@, PropView::Text(inputs.connection_string@));
    lemma_last_in_append(e4, seq![("connectionString"@, PropView::Text(inputs.connection_string@))]);
    lemma_last_in_one("secret"@, PropView::Text(inputs.secret@));
    lemma_last_in_append(e5, seq![("secret"@, PropView::Text(inputs.secret@))]);
    lemma_last_in_one("query"@, PropView::Text(inputs.query@));
    lemma_last_in_append(e6, seq![("query"@, PropView::Text(inputs.query@))]);
    lemma_last_in_one("destination"@, PropView::Text(inputs.destination.label_text()));
    lemma_last_in_append(e7, seq![("destination"@, PropView::Text(inputs.destination.label_text()))]);
    lemma_last_in_opt_text("landingBucket"@, opt_str(inputs.landing_bucket));
    lemma_last_in_append(e8, opt_text_entry("landingBucket"@, opt_str(inputs.landing_bucket)));
    lemma_last_in_opt_text("destProject"@, opt_str(inputs.dest_project));
    lemma_last_in_append(e9, opt_text_entry("destProject"@, opt_str(inputs.dest_project)));
    lemma_last_in_opt_text("destDataset"@, opt_str(inputs.dest_dataset));
    lemma_last_in_append(e10, opt_text_entry("destDataset"@, opt_str(inputs.dest_dataset)));
    lemma_last_in_opt_text("destTable"@, opt_str(inputs.dest_table));
    lemma_last_in_append(e11, opt_text_entry("destTable"@, opt_str(inputs.dest_table)));
    lemma_last_in_opt_text("imageUri"@, nonempty_text(inputs.image_uri@));
    lemma_last_in_append(e12, opt_text_entry("imageUri"@, nonempty_text(inputs.image_uri@)));
    lemma_last_in_one("scriptUri"@, PropView::Text(inputs.script_uri@));
    lemma_last_in_append(e13, seq![("scriptUri"@, PropView::Text(inputs.script_uri@))]);
    lemma_last_in_one("jarUris"@, PropView::TextList(str_views(inputs.jar_uris@)));
    lemma_last_in_append(e14, seq![("jarUris"@, PropView::TextList(str_views(inputs.jar_uris@)))]);
    lemma_last_in_one("runtimeVersion"@, PropView::Text(inputs.runtime_version@));
    lemma_last_in_append(e15, seq![("runtimeVersion"@, PropView::Text(inputs.runtime_version@))]);
    lemma_last_in_one("serviceAccount"@, PropView::Text(inputs.service_account@));
    lemma_last_in_append(e16, seq![("serviceAccount"@, PropView::Text(inputs.service_account@))]);
    lemma_last_in_one("stagingBucket"@, PropView::Text(inputs.staging_bucket@));
    lemma_last_in_append(e17, seq![("stagingBucket"@, PropView::Text(inputs.staging_bucket@))]);
    lemma_last_in_one("processBucket"@, PropView::Text(inputs.process_bucket@));
    lemma_last_in_append(e18, seq![("processBucket"@, PropView::Text(inputs.process_bucket@))]);
    lemma_last_in_one("subnetworkUri"@, PropView::Text(inputs.subnetwork_uri@));
    lemma_last_in_append(e19, seq![("subnetworkUri"@, PropView::Text(inputs.subnetwork_uri@))]);
    lemma_last_in_one("networkTags"@, PropView::TextList(str_views(inputs.network_tags@)));
    lemma_last_in_append(e20, seq![("networkTags"@, PropView::TextList(str_views(inputs.network_tags@)))]);
    lemma_last_in_one("schedule"@, PropView::Text(inputs.schedule@));
    lemma_last_in_append(e21, seq![("schedule"@, PropView::Text(inputs.schedule@))]);
    lemma_last_in_one("timeZone"@, PropView::Text(inputs.time_zone@));
    lemma_last_in_append(e22, seq![("timeZone"@, PropView::Text(inputs.time_zone@))]);
    lemma_last_in_opt_bool("paused"@, inputs.paused);
    lemma_last_in_append(e23, opt_bool_entry("paused"@, inputs.paused));
    lemma_last_in_opt_text("description"@, opt_str(inputs.description));
    lemma_last_in_append(e24, opt_text_entry("description"@, opt_str(inputs.description)));
    lemma_last_in_opt_number("retryCount"@, opt_i64(inputs.retry_count));
    lemma_last_in_append(e25, opt_number_entry("retryCount"@, opt_i64(inputs.retry_count)));
    lemma_last_in_opt_text("attemptDeadline"@, opt_str(inputs.attempt_deadline));
    lemma_last_in_append(e26, opt_text_entry("attemptDeadline"@, opt_str(inputs.attempt_deadline)));
    lemma_last_in_one("workflowName"@, PropView::Text(state.workflow_name@));
    lemma_last_in_append(e27, seq![("workflowName"@, PropView::Text(state.workflow_name@))]);
    lemma_last_in_one("schedulerJobName"@, PropView::Text(state.scheduler_job_name@));
    lemma_last_in_append(e28, seq![("schedulerJobName"@, PropView::Text(state.scheduler_job_name@))]);
    lemma_last_in_one("state"@, PropView::Text(state.state@));
    lemma_last_in_append(e29, seq![("state"@, PropView::Text(state.state@))]);
    lemma_last_in_one("nextRunTime"@, PropView::Text(state.next_run_time@));
    lemma_last_in_append(e30, seq![("nextRunTime"@, PropView::Text(state.next_run_time@))]);
    lemma_last_in_one("definitionFingerprint"@, PropView::Text(state.definition_fingerprint@));
    lemma_last_in_append(e31, seq![("definitionFingerprint"@, PropView::Text(state.definition_fingerprint@))]);
    lemma_read_text(out, e32, "schedule"@, inputs.schedule@);
    lemma_read_text(out, e32, "timeZone"@, inputs.time_zone@);
    lemma_read_opt_bool(out, e32, "paused"@, inputs.paused);
    lemma_read_opt_text(out, e32, "description"@, opt_str(inputs.description));
    lemma_read_opt_number(out, e32, "retryCount"@, opt_i64(inputs.retry_count));
    lemma_read_opt_text(out, e32, "attemptDeadline"@, opt_str(inputs.attempt_deadline));
}

/// The inputs read back from an ingest job's outputs are the inputs it was
/// deployed with, as long as it has network tags (none read back as the
/// default tag).
pub proof fn law_ingest_outputs_read_back(inputs: IngestJobInputs, state: DataprocJobState, out: Props)
    requires
        output_matches(out, ingest_output(inputs, state)),
        inputs.network_tags@.len() > 0,
    ensures
        ingest_inputs_error(out) is None,
        forall|r: IngestJobInputs| is_ingest_inputs(r, out) ==> same_ingest_inputs(r, inputs),
{
    lemma_job_output_keys();
    ingest_output_reads_0(inputs, state, out);
    ingest_output_reads_1(inputs, state, out);
    ingest_output_reads_2(inputs, state, out);
    ingest_output_reads_3(inputs, state, out);
    lemma_databasetype_label_read_back(inputs.database_type);
    lemma_destinationtype_label_read_back(inputs.destination);
    if nonempty_text(inputs.image_uri@) is None {
        assert(inputs.image_uri@ =~= ""@);
    }
    assert(str_views(inputs.network_tags@).len() > 0);
}

/// Two sets of inputs that say the same.
pub open spec fn same_export_inputs(a: ExportJobInputs, b: ExportJobInputs) -> bool {
    &&& a.project@ == b.project@
    &&& a.region@ == b.region@
    &&& a.name@ == b.name@
    &&& a.source_dataset@ == b.source_dataset@
    &&& a.source_table@ == b.source_table@
    &&& a.database_type == b.database_type
    &&& a.connection_string@ == b.connection_string@
    &&& a.secret@ == b.secret@
    &&& a.dest_table@ == b.dest_table@
    &&& a.image_uri@ == b.image_uri@
    &&& a.script_uri@ == b.script_uri@
    &&& str_views(a.jar_uris@) == str_views(b.jar_uris@)
    &&& a.runtime_version@ == b.runtime_version@
    &&& a.service_account@ == b.service_account@
    &&& a.staging_bucket@ == b.staging_bucket@
    &&& a.process_bucket@ == b.process_bucket@
    &&& a.subnetwork_uri@ == b.subnetwork_uri@
    &&& str_views(a.network_tags@) == str_views(b.network_tags@)
    &&& a.schedule@ == b.schedule@
    &&& a.time_zone@ == b.time_zone@
    &&& a.paused == b.paused
    &&& opt_str(a.description) == opt_str(b.description)
    &&& a.retry_count == b.retry_count
    &&& opt_str(a.attempt_deadline) == opt_str(b.attempt_deadline)
}

proof fn export_output_reads_0(inputs: ExportJobInputs, state: DataprocJobState, out: Props)
    requires
        output_matches(out, export_output(inputs, state)),
    ensures
        text_at(out, "project"@) == Some(inputs.project@),
        text_at(out, "region"@) == Some(inputs.region@),
        text_at(out, "name"@) == Some(inputs.name@),
        text_at(out, "sourceDataset"@) == Some(inputs.source_dataset@),
        text_at(out, "sourceTable"@) == Some(inputs.source_table@),
        text_at(out, "databaseType"@) == Some(inputs.database_type.label_text()),
        text_at(out, "connectionString"@) == Some(inputs.connection_string@),
{
    lemma_job_output_keys();
    let e0 = Seq::<(Seq<char>, PropView)>::empty();
    let e1 = e0 + seq![("project"@, PropView::Text(inputs.project@))];
    let e2 = e1 + seq![("region"@, PropView::Text(inputs.region@))];
    let e3 = e2 + seq![("name"@, PropView::Text(inputs.name@))];
    let e4 = e3 + seq![("sourceDataset"@, PropView::Text(inputs.source_dataset@))];
    let e5 = e4 + seq![("sourceTable"@, PropView::Text(inputs.source_table@))];
    let e6 = e5 + seq![("databaseType"@, PropView::Text(inputs.database_type.label_text()))];
    let e7 = e6 + seq![("connectionString"@, PropView::Text(inputs.connection_string@))];
    let e8 = e7 + seq![("secret"@, PropView::Text(inputs.secret@))];
    let e9 = e8 + seq![("destTable"@, PropView::Text(inputs.dest_table@))];
    let e10 = e9 + opt_text_entry("imageUri"@, nonempty_text(inputs.image_uri@));
    let e11 = e10 + seq![("scriptUri"@, PropView::Text(inputs.script_uri@))];
    let e12 = e11 + seq![("jarUris"@, PropView::TextList(str_views(inputs.jar_uris@)))];
    let e13 = e12 + seq![("runtimeVersion"@, PropView::Text(inputs.runtime_version@))];
    let e14 = e13 + seq![("serviceAccount"@, PropView::Text(inputs.service_account@))];
    let e15 = e14 + seq![("stagingBucket"@, PropView::Text(inputs.staging_bucket@))];
    let e16 = e15 + seq![("processBucket"@, PropView::Text(inputs.process_bucket@))];
    let e17 = e16 + seq![("subnetworkUri"@, PropView::Text(inputs.subnetwork_uri@))];
    let e18 = e17 + seq![("networkTags"@, PropView::TextList(str_views(inputs.network_tags@)))];
    let e19 = e18 + seq![("schedule"@, PropView::Text(inputs.schedule@))];
    let e20 = e19 + seq![("timeZone"@, PropView::Text(inputs.time_zone@))];
    let e21 = e20 + opt_bool_entry("paused"@, inputs.paused);
    let e22 = e21 + opt_text_entry("description"@, opt_str(inputs.description));
    let e23 = e22 + opt_number_entry("retryCount"@, opt_i64(inputs.retry_count));
    let e24 = e23 + opt_text_entry("attemptDeadline"@, opt_str(inputs.attempt_deadline));
    let e25 = e24 + seq![("workflowName"@, PropView::Text(state.workflow_name@))];
    let e26 = e25 + seq![("schedulerJobName"@, PropView::Text(state.scheduler_job_name@))];
    let e27 = e26 + seq![("state"@, PropView::Text(state.state@))];
    let e28 = e27 + seq![("nextRunTime"@, PropView::Text(state.next_run_time@))];
    let e29 = e28 + seq![("definitionFingerprint"@, PropView::Text(state.definition_fingerprint@))];
    assert(e29 == export_output(inputs, state));
    lemma_last_in_one("project"@, PropView::Text(inputs.project@));
    lemma_last_in_append(e0, seq![("project"@, PropView::Text(inputs.project@))]);
    lemma_last_in_one("region"@, PropView::Text(inputs.region@));
    lemma_last_in_append(e1, seq![("region"@, PropView::Text(inputs.region@))]);
    lemma_last_in_one("name"@, PropView::Text(inputs.name@));
    lemma_last_in_append(e2, seq![("name"@, PropView::Text(inputs.name@))]);
    lemma_last_in_one("sourceDataset"@, PropView::Text(inputs.source_dataset@));
    lemma_last_in_append(e3, seq![("sourceDataset"@, PropView::Text(inputs.source_dataset@))]);
    lemma_last_in_one("sourceTable"@, PropView::Text(inputs.source_table@));
    lemma_last_in_append(e4, seq![("sourceTable"@, PropView::Text(inputs.source_table@))]);
    lemma_last_in_one("databaseType"@, PropView::Text(inputs.database_type.label_text()));
    lemma_last_in_append(e5, seq![("databaseType"@, PropView::Text(inputs.database_type.label_text()))]);
    lemma_last_in_one("connectionString"@, PropView::Text(inputs.connection_string@));
    lemma_last_in_append(e6, seq![("connectionString"@, PropView::Text(inputs.connection_string@))]);
    lemma_last_in_one("secret"@, PropView::Text(inputs.secret@));
    lemma_last_in_append(e7, seq![("secret"@, PropView::Text(inputs.secret@))]);
    lemma_last_in_one("destTable"@, PropView::Text(inputs.dest_table@));
    lemma_last_in_append(e8, seq![("destTable"@, PropView::Text(inputs.dest_table@))]);
    lemma_last_in_opt_text("imageUri"@, nonempty_text(inputs.image_uri@));
    lemma_last_in_append(e9, opt_text_entry("imageUri"@, nonempty_text(inputs.image_uri@)));
    lemma_last_in_one("scriptUri"@, PropView::Text(inputs.script_uri@));
    lemma_last_in_append(e10, seq![("scriptUri"@, PropView::Text(inputs.script_uri@))]);
    lemma_last_in_one("jarUris"@, PropView::TextList(str_views(inputs.jar_uris@)));
    lemma_last_in_append(e11, seq![("jarUris"@, PropView::TextList(str_views(inputs.jar_uris@)))]);
    lemma_last_in_one("runtimeVersion"@, PropView::Text(inputs.runtime_version@));
    lemma_last_in_append(e12, seq![("runtimeVersion"@, PropView::Text(inputs.runtime_version@))]);
    lemma_last_in_one("serviceAccount"@, PropView::Text(inputs.service_account@));
    lemma_last_in_append(e13, seq![("serviceAccount"@, PropView::Text(inputs.service_account@))]);
    lemma_last_in_one("stagingBucket"@, PropView::Text(inputs.staging_bucket@));
    lemma_last_in_append(e14, seq![("stagingBucket"@, PropView::Text(inputs.staging_bucket@))]);
    lemma_last_in_one("processBucket"@, PropView::Text(inputs.process_bucket@));
    lemma_last_in_append(e15, seq![("processBucket"@, PropView::Text(inputs.process_bucket@))]);
    lemma_last_in_one("subnetworkUri"@, PropView::Text(inputs.subnetwork_uri@));
    lemma_last_in_append(e16, seq![("subnetworkUri"@, PropView::Text(inputs.subnetwork_uri@))]);
    lemma_last_in_one("networkTags"@, PropView::TextList(str_views(inputs.network_tags@)));
    lemma_last_in_append(e17, seq![("networkTags"@, PropView::TextList(str_views(inputs.network_tags@)))]);
    lemma_last_in_one("schedule"@, PropView::Text(inputs.schedule@));
    lemma_last_in_append(e18, seq![("schedule"@, PropView::Text(inputs.schedule@))]);
    lemma_last_in_one("timeZone"@, PropView::Text(inputs.time_zone@));
    lemma_last_in_append(e19, seq![("timeZone"@, PropView::Text(inputs.time_zone@))]);
    lemma_last_in_opt_bool("paused"@, inputs.paused);
    lemma_last_in_append(e20, opt_bool_entry("paused"@, inputs.paused));
    lemma_last_in_opt_text("description"@, opt_str(inputs.description));
    lemma_last_in_append(e21, opt_text_entry("description"@, opt_str(inputs.description)));
    lemma_last_in_opt_number("retryCount"@, opt_i64(inputs.retry_count));
    lemma_last_in_append(e22, opt_number_entry("retryCount"@, opt_i64(inputs.retry_count)));
    lemma_last_in_opt_text("attemptDeadline"@, opt_str(inputs.attempt_deadline));
    lemma_last_in_append(e23, opt_text_entry("attemptDeadline"@, opt_str(inputs.attempt_deadline)));
    lemma_last_in_one("workflowName"@, PropView::Text(state.workflow_name@));
    lemma_last_in_append(e24, seq![("workflowName"@, PropView::Text(state.workflow_name@))]);
    lemma_last_in_one("schedulerJobName"@, PropView::Text(state.scheduler_job_name@));
    lemma_last_in_append(e25, seq![("schedulerJobName"@, PropView::Text(state.scheduler_job_name@))]);
    lemma_last_in_one("state"@, PropView::Text(state.state@));
    lemma_last_in_append(e26, seq![("state"@, PropView::Text(state.state@))]);
    lemma_last_in_one("nextRunTime"@, PropView::Text(state.next_run_time@));
    lemma_last_in_append(e27, seq![("nextRunTime"@, PropView::Text(state.next_run_time@))]);
    lemma_last_in_one("definitionFingerprint"@, PropView::Text(state.definition_fingerprint@));
    lemma_last_in_append(e28, seq![("definitionFingerprint"@, PropView::Text(state.definition_fingerprint@))]);
    lemma_read_text(out, e29, "project"@, inputs.project@);
    lemma_read_text(out, e29, "region"@, inputs.region@);
    lemma_read_text(out, e29, "name"@, inputs.name@);
    lemma_read_text(out, e29, "sourceDataset"@, inputs.source_dataset@);
    lemma_read_text(out, e29, "sourceTable"@, inputs.source_table@);
    lemma_read_text(out, e29, "databaseType"@, inputs.database_type.label_text());
    lemma_read_text(out, e29, "connectionString"@, inputs.connection_string@);
}

proof fn export_output_reads_1(inputs: ExportJobInputs, state: DataprocJobState, out: Props)
    requires
        output_matches(out, export_output(inputs, state)),
    ensures
        text_at(out, "secret"@) == Some(inputs.secret@),
        text_at(out, "destTable"@) == Some(inputs.dest_table@),
        text_at(out, "imageUri"@) == nonempty_text(inputs.image_uri@),
        text_at(out, "scriptUri"@) == Some(inputs.script_uri@),
        text_list_at(out, "jarUris"@) == str_views(inputs.jar_uris@),
        text_at(out, "runtimeVersion"@) == Some(inputs.runtime_version@),
        text_at(out, "serviceAccount"@) == Some(inputs.service_account@),
{
    lemma_job_output_keys();
    let e0 = Seq::<(Seq<char>, PropView)>::empty();
    let e1 = e0 + seq![("project"@, PropView::Text(inputs.project@))];
    let e2 = e1 + seq![("region"@, PropView::Text(inputs.region@))];
    let e3 = e2 + seq![("name"@, PropView::Text(inputs.name@))];
    let e4 = e3 + seq![("sourceDataset"@, PropView::Text(inputs.source_dataset@))];
    let e5 = e4 + seq![("sourceTable"@, PropView::Text(inputs.source_table@))];
    let e6 = e5 + seq![("databaseType"@, PropView::Text(inputs.database_type.label_text()))];
    let e7 = e6 + seq![("connectionString"@, PropView::Text(inputs.connection_string@))];
    let e8 = e7 + seq![("secret"@, PropView::Text(inputs.secret@))];
    let e9 = e8 + seq![("destTable"@, PropView::Text(inputs.dest_table@))];
    let e10 = e9 + opt_text_entry("imageUri"@, nonempty_text(inputs.image_uri@));
    let e11 = e10 + seq![("scriptUri"@, PropView::Text(inputs.script_uri@))];
    let e12 = e11 + seq![("jarUris"@, PropView::TextList(str_views(inputs.jar_uris@)))];
    let e13 = e12 + seq![("runtimeVersion"@, PropView::Text(inputs.runtime_version@))];
    let e14 = e13 + seq![("serviceAccount"@, PropView::Text(inputs.service_account@))];
    let e15 = e14 + seq![("stagingBucket"@, PropView::Text(inputs.staging_bucket@))];
    let e16 = e15 + seq![("processBucket"@, PropView::Text(inputs.process_bucket@))];
    let e17 = e16 + seq![("subnetworkUri"@, PropView::Text(inputs.subnetwork_uri@))];
    let e18 = e17 + seq![("networkTags"@, PropView::TextList(str_views(inputs.network_tags@)))];
    let e19 = e18 + seq![("schedule"@, PropView::Text(inputs.schedule@))];
    let e20 = e19 + seq![("timeZone"@, PropView::Text(inputs.time_zone@))];
    let e21 = e20 + opt_bool_entry("paused"@, inputs.paused);
    let e22 = e21 + opt_text_entry("description"@, opt_str(inputs.description));
    let e23 = e22 + opt_number_entry("retryCount"@, opt_i64(inputs.retry_count));
    let e24 = e23 + opt_text_entry("attemptDeadline"@, opt_str(inputs.attempt_deadline));
    let e25 = e24 + seq![("workflowName"@, PropView::Text(state.workflow_name@))];
    let e26 = e25 + seq![("schedulerJobName"@, PropView::Text(state.scheduler_job_name@))];
    let e27 = e26 + seq![("state"@, PropView::Text(state.state@))];
    let e28 = e27 + seq![("nextRunTime"@, PropView::Text(state.next_run_time@))];
    let e29 = e28 + seq![("definitionFingerprint"@, PropView::Text(state.definition_fingerprint@))];
    assert(e29 == export_output(inputs, state));
    lemma_last_in_one("project"@, PropView::Text(inputs.project@));
    lemma_last_in_append(e0, seq![("project"@, PropView::Text(inputs.project@))]);
    lemma_last_in_one("region"@, PropView::Text(inputs.region@));
    lemma_last_in_append(e1, seq![("region"@, PropView::Text(inputs.region@))]);
    lemma_last_in_one("name"@, PropView::Text(inputs.name@));
    lemma_last_in_append(e2, seq![("name"@, PropView::Text(inputs.name@))]);
    lemma_last_in_one("sourceDataset"@, PropView::Text(inputs.source_dataset@));
    lemma_last_in_append(e3, seq![("sourceDataset"@, PropView::Text(inputs.source_dataset@))]);
    lemma_last_in_one("sourceTable"@, PropView::Text(inputs.source_table@));
    lemma_last_in_append(e4, seq![("sourceTable"@, PropView::Text(inputs.source_table@))]);
    lemma_last_in_one("databaseType"@, PropView::Text(inputs.database_type.label_text()));
    lemma_last_in_append(e5, seq![("databaseType"@, PropView::Text(inputs.database_type.label_text()))]);
    lemma_last_in_one("connectionString"@, PropView::Text(inputs.connection_string@));
    lemma_last_in_append(e6, seq![("connectionString"@, PropView::Text(inputs.connection_string@))]);
    lemma_last_in_one("secret"@, PropView::Text(inputs.secret@));
    lemma_last_in_append(e7, seq![("secret"@, PropView::Text(inputs.secret@))]);
    lemma_last_in_one("destTable"@, PropView::Text(inputs.dest_table@));
    lemma_last_in_append(e8, seq![("destTable"@, PropView::Text(inputs.dest_table@))]);
    lemma_last_in_opt_text("imageUri"@, nonempty_text(inputs.image_uri@));
    lemma_last_in_append(e9, opt_text_entry("imageUri"@, nonempty_text(inputs.image_uri@)));
    lemma_last_in_one("scriptUri"@, PropView::Text(inputs.script_uri@));
    lemma_last_in_append(e10, seq![("scriptUri"@, PropView::Text(inputs.script_uri@))]);
    lemma_last_in_one("jarUris"@, PropView::TextList(str_views(inputs.jar_uris@)));
    lemma_last_in_append(e11, seq![("jarUris"@, PropView::TextList(str_views(inputs.jar_uris@)))]);
    lemma_last_in_one("runtimeVersion"@, PropView::Text(inputs.runtime_version@));
    lemma_last_in_append(e12, seq![("runtimeVersion"@, PropView::Text(inputs.runtime_version@))]);
    lemma_last_in_one("serviceAccount"@, PropView::Text(inputs.service_account@));
    lemma_last_in_append(e13, seq![("serviceAccount"@, PropView::Text(inputs.service_account@))]);
    lemma_last_in_one("stagingBucket"@, PropView::Text(inputs.staging_bucket@));
    lemma_last_in_append(e14, seq![("stagingBucket"@, PropView::Text(inputs.staging_bucket@))]);
    lemma_last_in_one("processBucket"@, PropView::Text(inputs.process_bucket@));
    lemma_last_in_append(e15, seq![("processBucket"@, PropView::Text(inputs.process_bucket@))]);
    lemma_last_in_one("subnetworkUri"@, PropView::Text(inputs.subnetwork_uri@));
    lemma_last_in_append(e16, seq![("subnetworkUri"@, PropView::Text(inputs.subnetwork_uri@))]);
    lemma_last_in_one("networkTags"@, PropView::TextList(str_views(inputs.network_tags@)));
    lemma_last_in_append(e17, seq![("networkTags"@, PropView::TextList(str_views(inputs.network_tags@)))]);
    lemma_last_in_one("schedule"@, PropView::Text(inputs.schedule@));
    lemma_last_in_append(e18, seq![("schedule"@, PropView::Text(inputs.schedule@))]);
    lemma_last_in_one("timeZone"@, PropView::Text(inputs.time_zone@));
    lemma_last_in_append(e19, seq![("timeZone"@, PropView::Text(inputs.time_zone@))]);
    lemma_last_in_opt_bool("paused"@, inputs.paused);
    lemma_last_in_append(e20, opt_bool_entry("paused"@, inputs.paused));
    lemma_last_in_opt_text("description"@, opt_str(inputs.description));
    lemma_last_in_append(e21, opt_text_entry("description"@, opt_str(inputs.description)));
    lemma_last_in_opt_number("retryCount"@, opt_i64(inputs.retry_count));
    lemma_last_in_append(e22, opt_number_entry("retryCount"@, opt_i64(inputs.retry_count)));
    lemma_last_in_opt_text("attemptDeadline"@, opt_str(inputs.attempt_deadline));
    lemma_last_in_append(e23, opt_text_entry("attemptDeadline"@, opt_str(inputs.attempt_deadline)));
    lemma_last_in_one("workflowName"@, PropView::Text(state.workflow_name@));
    lemma_last_in_append(e24, seq![("workflowName"@, PropView::Text(state.workflow_name@))]);
    lemma_last_in_one("schedulerJobName"@, PropView::Text(state.scheduler_job_name@));
    lemma_last_in_append(e25, seq![("schedulerJobName"@, PropView::Text(state.scheduler_job_name@))]);
    lemma_last_in_one("state"@, PropView::Text(state.state@));
    lemma_last_in_append(e26, seq![("state"@, PropView::Text(state.state@))]);
    lemma_last_in_one("nextRunTime"@, PropView::Text(state.next_run_time@));
    lemma_last_in_append(e27, seq![("nextRunTime"@, PropView::Text(state.next_run_time@))]);
    lemma_last_in_one("definitionFingerprint"@, PropView::Text(state.definition_fingerprint@));
    lemma_last_in_append(e28, seq![("definitionFingerprint"@, PropView::Text(state.definition_fingerprint@))]);
    lemma_read_text(out, e29, "secret"@, inputs.secret@);
    lemma_read_text(out, e29, "destTable"@, inputs.dest_table@);
    lemma_read_opt_text(out, e29, "imageUri"@, nonempty_text(inputs.image_uri@));
    lemma_read_text(out, e29, "scriptUri"@, inputs.script_uri@);
    lemma_read_text_list(out, e29, "jarUris"@, str_views(inputs.jar_uris@));
    lemma_read_text(out, e29, "runtimeVersion"@, inputs.runtime_version@);
    lemma_read_text(out, e29, "serviceAccount"@, inputs.service_account@);
}

proof fn export_output_reads_2(inputs: ExportJobInputs, state: DataprocJobState, out: Props)
    requires
        output_matches(out, export_output(inputs, state)),
    ensures
        text_at(out, "stagingBucket"@) == Some(inputs.staging_bucket@),
        text_at(out, "processBucket"@) == Some(inputs.process_bucket@),
        text_at(out, "subnetworkUri"@) == Some(inputs.subnetwork_uri@),
        text_list_at(out, "networkTags"@) == str_views(inputs.network_tags@),
        text_at(out, "schedule"@) == Some(inputs.schedule@),
        text_at(out, "timeZone"@) == Some(inputs.time_zone@),
        bool_at(out, "paused"@) == inputs.paused,
{
    lemma_job_output_keys();
    let e0 = Seq::<(Seq<char>, PropView)>::empty();
    let e1 = e0 + seq![("project"@, PropView::Text(inputs.project@))];
    let e2 = e1 + seq![("region"@, PropView::Text(inputs.region@))];
    let e3 = e2 + seq![("name"@, PropView::Text(inputs.name@))];
    let e4 = e3 + seq![("sourceDataset"@, PropView::Text(inputs.source_dataset@))];
    let e5 = e4 + seq![("sourceTable"@, PropView::Text(inputs.source_table@))];
    let e6 = e5 + seq![("databaseType"@, PropView::Text(inputs.database_type.label_text()))];
    let e7 = e6 + seq![("connectionString"@, PropView::Text(inputs.connection_string@))];
    let e8 = e7 + seq![("secret"@, PropView::Text(inputs.secret@))];
    let e9 = e8 + seq![("destTable"@, PropView::Text(inputs.dest_table@))];
    let e10 = e9 + opt_text_entry("imageUri"@, nonempty_text(inputs.image_uri@));
    let e11 = e10 + seq![("scriptUri"@, PropView::Text(inputs.script_uri@))];
    let e12 = e11 + seq![("jarUris"@, PropView::TextList(str_views(inputs.jar_uris@)))];
    let e13 = e12 + seq![("runtimeVersion"@, PropView::Text(inputs.runtime_version@))];
    let e14 = e13 + seq![("serviceAccount"@, PropView::Text(inputs.service_account@))];
    let e15 = e14 + seq![("stagingBucket"@, PropView::Text(inputs.staging_bucket@))];
    let e16 = e15 + seq![("processBucket"@, PropView::Text(inputs.process_bucket@))];
    let e17 = e16 + seq![("subnetworkUri"@, PropView::Text(inputs.subnetwork_uri@))];
    let e18 = e17 + seq![("networkTags"@, PropView::TextList(str_views(inputs.network_tags@)))];
    let e19 = e18 + seq![("schedule"@, PropView::Text(inputs.schedule@))];
    let e20 = e19 + seq![("timeZone"@, PropView::Text(inputs.time_zone@))];
    let e21 = e20 + opt_bool_entry("paused"@, inputs.paused);
    let e22 = e21 + opt_text_entry("description"@, opt_str(inputs.description));
    let e23 = e22 + opt_number_entry("retryCount"@, opt_i64(inputs.retry_count));
    let e24 = e23 + opt_text_entry("attemptDeadline"@, opt_str(inputs.attempt_deadline));
    let e25 = e24 + seq![("workflowName"@, PropView::Text(state.workflow_name@))];
    let e26 = e25 + seq![("schedulerJobName"@, PropView::Text(state.scheduler_job_name@))];
    let e27 = e26 + seq![("state"@, PropView::Text(state.state@))];
    let e28 = e27 + seq![("nextRunTime"@, PropView::Text(state.next_run_time@))];
    let e29 = e28 + seq![("definitionFingerprint"@, PropView::Text(state.definition_fingerprint@))];
    assert(e29 == export_output(inputs, state));
    lemma_last_in_one("project"@, PropView::Text(inputs.project@));
    lemma_last_in_append(e0, seq![("project"@, PropView::Text(inputs.project@))]);
    lemma_last_in_one("region"@, PropView::Text(inputs.region@));
    lemma_last_in_append(e1, seq![("region"@, PropView::Text(inputs.region@))]);
    lemma_last_in_one("name"@, PropView::Text(inputs.name@));
    lemma_last_in_append(e2, seq![("name"@, PropView::Text(inputs.name@))]);
    lemma_last_in_one("sourceDataset"@, PropView::Text(inputs.source_dataset@));
    lemma_last_in_append(e3, seq![("sourceDataset"@, PropView::Text(inputs.source_dataset@))]);
    lemma_last_in_one("sourceTable"@, PropView::Text(inputs.source_table@));
    lemma_last_in_append(e4, seq![("sourceTable"@, PropView::Text(inputs.source_table@))]);
    lemma_last_in_one("databaseType"@, PropView::Text(inputs.database_type.label_text()));
    lemma_last_in_append(e5, seq![("databaseType"@, PropView::Text(inputs.database_type.label_text()))]);
    lemma_last_in_one("connectionString"@, PropView::Text(inputs.connection_string@));
    lemma_last_in_append(e6, seq![("connectionString"@, PropView::Text(inputs.connection_string@))]);
    lemma_last_in_one("secret"@, PropView::Text(inputs.secret@));
    lemma_last_in_append(e7, seq![("secret"@, PropView::Text(inputs.secret@))]);
    lemma_last_in_one("destTable"@, PropView::Text(inputs.dest_table@));
    lemma_last_in_append(e8, seq![("destTable"@, PropView::Text(inputs.dest_table@))]);
    lemma_last_in_opt_text("imageUri"@, nonempty_text(inputs.image_uri@));
    lemma_last_in_append(e9, opt_text_entry("imageUri"@, nonempty_text(inputs.image_uri@)));
    lemma_last_in_one("scriptUri"@, PropView::Text(inputs.script_uri@));
    lemma_last_in_append(e10, seq![("scriptUri"@, PropView::Text(inputs.script_uri@))]);
    lemma_last_in_one("jarUris"@, PropView::TextList(str_views(inputs.jar_uris@)));
    lemma_last_in_append(e11, seq![("jarUris"@, PropView::TextList(str_views(inputs.jar_uris@)))]);
    lemma_last_in_one("runtimeVersion"@, PropView::Text(inputs.runtime_version@));
    lemma_last_in_append(e12, seq![("runtimeVersion"@, PropView::Text(inputs.runtime_version@))]);
    lemma_last_in_one("serviceAccount"@, PropView::Text(inputs.service_account@));
    lemma_last_in_append(e13, seq![("serviceAccount"@, PropView::Text(inputs.service_account@))]);
    lemma_last_in_one("stagingBucket"@, PropView::Text(inputs.staging_bucket@));
    lemma_last_in_append(e14, seq![("stagingBucket"@, PropView::Text(inputs.staging_bucket@))]);
    lemma_last_in_one("processBucket"@, PropView::Text(inputs.process_bucket@));
    lemma_last_in_append(e15, seq![("processBucket"@, PropView::Text(inputs.process_bucket@))]);
    lemma_last_in_one("subnetworkUri"@, PropView::Text(inputs.subnetwork_uri@));
    lemma_last_in_append(e16, seq![("subnetworkUri"@, PropView::Text(inputs.subnetwork_uri@))]);
    lemma_last_in_one("networkTags"@, PropView::TextList(str_views(inputs.network_tags@)));
    lemma_last_in_append(e17, seq![("networkTags"@, PropView::TextList(str_views(inputs.network_tags@)))]);
    lemma_last_in_one("schedule"@, PropView::Text(inputs.schedule@));
    lemma_last_in_append(e18, seq![("schedule"@, PropView::Text(inputs.schedule@))]);
    lemma_last_in_one("timeZone"@, PropView::Text(inputs.time_zone@));
    lemma_last_in_append(e19, seq![("timeZone"@, PropView::Text(inputs.time_zone@))]);
    lemma_last_in_opt_bool("paused"@, inputs.paused);
    lemma_last_in_append(e20, opt_bool_entry("paused"@, inputs.paused));
    lemma_last_in_opt_text("description"@, opt_str(inputs.description));
    lemma_last_in_append(e21, opt_text_entry("description"@, opt_str(inputs.description)));
    lemma_last_in_opt_number("retryCount"@, opt_i64(inputs.retry_count));
    lemma_last_in_append(e22, opt_number_entry("retryCount"@, opt_i64(inputs.retry_count)));
    lemma_last_in_opt_text("attemptDeadline"@, opt_str(inputs.attempt_deadline));
    lemma_last_in_append(e23, opt_text_entry("attemptDeadline"@, opt_str(inputs.attempt_deadline)));
    lemma_last_in_one("workflowName"@, PropView::Text(state.workflow_name@));
    lemma_last_in_append(e24, seq![("workflowName"@, PropView::Text(state.workflow_name@))]);
    lemma_last_in_one("schedulerJobName"@, PropView::Text(state.scheduler_job_name@));
    lemma_last_in_append(e25, seq![("schedulerJobName"@, PropView::Text(state.scheduler_job_name@))]);
    lemma_last_in_one("state"@, PropView::Text(state.state@));
    lemma_last_in_append(e26, seq![("state"@, PropView::Text(state.state@))]);
    lemma_last_in_one("nextRunTime"@, PropView::Text(state.next_run_time@));
    lemma_last_in_append(e27, seq![("nextRunTime"@, PropView::Text(state.next_run_time@))]);
    lemma_last_in_one("definitionFingerprint"@, PropView::Text(state.definition_fingerprint@));
    lemma_last_in_append(e28, seq![("definitionFingerprint"@, PropView::Text(state.definition_fingerprint@))]);
    lemma_read_text(out, e29, "stagingBucket"@, inputs.staging_bucket@);
    lemma_read_text(out, e29, "processBucket"@, inputs.process_bucket@);
    lemma_read_text(out, e29, "subnetworkUri"@, inputs.subnetwork_uri@);
    lemma_read_text_list(out, e29, "networkTags"@, str_views(inputs.network_tags@));
    lemma_read_text(out, e29, "schedule"@, inputs.schedule@);
    lemma_read_text(out, e29, "timeZone"@, inputs.time_zone@);
    lemma_read_opt_bool(out, e29, "paused"@, inputs.paused);
}

proof fn export_output_reads_3(inputs: ExportJobInputs, state: DataprocJobState, out: Props)
    requires
        output_matches(out, export_output(inputs, state)),
    ensures
        text_at(out, "description"@) == opt_str(inputs.description),
        number_at(out, "retryCount"@) == opt_i64(inputs.retry_count),
        text_at(out, "attemptDeadline"@) == opt_str(inputs.attempt_deadline),
{
    lemma_job_output_keys();
    let e0 = Seq::<(Seq<char>, PropView)>::empty();
    let e1 = e0 + seq![("project"@, PropView::Text(inputs.project@))];
    let e2 = e1 + seq![("region"@, PropView::Text(inputs.region@))];
    let e3 = e2 + seq![("name"@, PropView::Text(inputs.name@))];
    let e4 = e3 + seq![("sourceDataset"@, PropView::Text(inputs.source_dataset@))];
    let e5 = e4 + seq![("sourceTable"@, PropView::Text(inputs.source_table@))];
    let e6 = e5 + seq![("databaseType"@, PropView::Text(inputs.database_type.label_text()))];
    let e7 = e6 + seq![("connectionString"@, PropView::Text(inputs.connection_string@))];
    let e8 = e7 + seq![("secret"@, PropView::Text(inputs.secret@))];
    let e9 = e8 + seq![("destTable"@, PropView::Text(inputs.dest_table@))];
    let e10 = e9 + opt_text_entry("imageUri"@, nonempty_text(inputs.image_uri@));
    let e11 = e10 + seq![("scriptUri"@, PropView::Text(inputs.script_uri@))];
    let e12 = e11 + seq![("jarUris"@, PropView::TextList(str_views(inputs.jar_uris@)))];
    let e13 = e12 + seq![("runtimeVersion"@, PropView::Text(inputs.runtime_version@))];
    let e14 = e13 + seq![("serviceAccount"@, PropView::Text(inputs.service_account@))];
    let e15 = e14 + seq![("stagingBucket"@, PropView::Text(inputs.staging_bucket@))];
    let e16 = e15 + seq![("processBucket"@, PropView::Text(inputs.process_bucket@))];
    let e17 = e16 + seq![("subnetworkUri"@, PropView::Text(inputs.subnetwork_uri@))];
    let e18 = e17 + seq![("networkTags"@, PropView::TextList(str_views(inputs.network_tags@)))];
    let e19 = e18 + seq![("schedule"@, PropView::Text(inputs.schedule@))];
    let e20 = e19 + seq![("timeZone"@, PropView::Text(inputs.time_zone@))];
    let e21 = e20 + opt_bool_entry("paused"@, inputs.paused);
    let e22 = e21 + opt_text_entry("description"@, opt_str(inputs.description));
    let e23 = e22 + opt_number_entry("retryCount"@, opt_i64(inputs.retry_count));
    let e24 = e23 + opt_text_entry("attemptDeadline"@, opt_str(inputs.attempt_deadline));
    let e25 = e24 + seq![("workflowName"@, PropView::Text(state.workflow_name@))];
    let e26 = e25 + seq![("schedulerJobName"@, PropView::Text(state.scheduler_job_name@))];
    let e27 = e26 + seq![("state"@, PropView::Text(state.state@))];
    let e28 = e27 + seq![("nextRunTime"@, PropView::Text(state.next_run_time@))];
    let e29 = e28 + seq![("definitionFingerprint"@, PropView::Text(state.definition_fingerprint@))];
    assert(e29 == export_output(inputs, state));
    lemma_last_in_one("project"@, PropView::Text(inputs.project@));
    lemma_last_in_append(e0, seq![("project"@, PropView::Text(inputs.project@))]);
    lemma_last_in_one("region"@, PropView::Text(inputs.region@));
    lemma_last_in_append(e1, seq![("region"@, PropView::Text(inputs.region@))]);
    lemma_last_in_one("name"@, PropView::Text(inputs.name@));
    lemma_last_in_append(e2, seq![("name"@, PropView::Text(inputs.name@))]);
    lemma_last_in_one("sourceDataset"@, PropView::Text(inputs.source_dataset@));
    lemma_last_in_append(e3, seq![("sourceDataset"@, PropView::Text(inputs.source_dataset@))]);
    lemma_last_in_one("sourceTable"@, PropView::Text(inputs.source_table@));
    lemma_last_in_append(e4, seq![("sourceTable"@, PropView::Text(inputs.source_table@))]);
    lemma_last_in_one("databaseType"@, PropView::Text(inputs.database_type.label_text()));
    lemma_last_in_append(e5, seq![("databaseType"@, PropView::Text(inputs.database_type.label_text()))]);
    lemma_last_in_one("connectionString"@, PropView::Text(inputs.connection_string@));
    lemma_last_in_append(e6, seq![("connectionString"@, PropView::Text(inputs.connection_string@))]);
    lemma_last_in_one("secret"@, PropView::Text(inputs.secret@));
    lemma_last_in_append(e7, seq![("secret"@, PropView::Text(inputs.secret@))]);
    lemma_last_in_one("destTable"@, PropView::Text(inputs.dest_table@));
    lemma_last_in_append(e8, seq![("destTable"@, PropView::Text(inputs.dest_table@))]);
    lemma_last_in_opt_text("imageUri"@, nonempty_text(inputs.image_uri@));
    lemma_last_in_append(e9, opt_text_entry("imageUri"@, nonempty_text(inputs.image_uri@)));
    lemma_last_in_one("scriptUri"@, PropView::Text(inputs.script_uri@));
    lemma_last_in_append(e10, seq![("scriptUri"@, PropView::Text(inputs.script_uri@))]);
    lemma_last_in_one("jarUris"@, PropView::TextList(str_views(inputs.jar_uris@)));
    lemma_last_in_append(e11, seq![("jarUris"@, PropView::TextList(str_views(inputs.jar_uris@)))]);
    lemma_last_in_one("runtimeVersion"@, PropView::Text(inputs.runtime_version@));
    lemma_last_in_append(e12, seq![("runtimeVersion"@, PropView::Text(inputs.runtime_version@))]);
    lemma_last_in_one("serviceAccount"@, PropView::Text(inputs.service_account@));
    lemma_last_in_append(e13, seq![("serviceAccount"@, PropView::Text(inputs.service_account@))]);
    lemma_last_in_one("stagingBucket"@, PropView::Text(inputs.staging_bucket@));
    lemma_last_in_append(e14, seq![("stagingBucket"@, PropView::Text(inputs.staging_bucket@))]);
    lemma_last_in_one("processBucket"@, PropView::Text(inputs.process_bucket@));
    lemma_last_in_append(e15, seq![("processBucket"@, PropView::Text(inputs.process_bucket@))]);
    lemma_last_in_one("subnetworkUri"@, PropView::Text(inputs.subnetwork_uri@));
    lemma_last_in_append(e16, seq![("subnetworkUri"@, PropView::Text(inputs.subnetwork_uri@))]);
    lemma_last_in_one("networkTags"@, PropView::TextList(str_views(inputs.network_tags@)));
    lemma_last_in_append(e17, seq![("networkTags"@, PropView::TextList(str_views(inputs.network_tags@)))]);
    lemma_last_in_one("schedule"@, PropView::Text(inputs.schedule@));
    lemma_last_in_append(e18, seq![("schedule"@, PropView::Text(inputs.schedule@))]);
    lemma_last_in_one("timeZone"@, PropView::Text(inputs.time_zone@));
    lemma_last_in_append(e19, seq![("timeZone"@, PropView::Text(inputs.time_zone@))]);
    lemma_last_in_opt_bool("paused"@, inputs.paused);
    lemma_last_in_append(e20, opt_bool_entry("paused"@, inputs.paused));
    lemma_last_in_opt_text("description"@, opt_str(inputs.description));
    lemma_last_in_append(e21, opt_text_entry("description"@, opt_str(inputs.description)));
    lemma_last_in_opt_number("retryCount"@, opt_i64(inputs.retry_count));
    lemma_last_in_append(e22, opt_number_entry("retryCount"@, opt_i64(inputs.retry_count)));
    lemma_last_in_opt_text("attemptDeadline"@, opt_str(inputs.attempt_deadline));
    lemma_last_in_append(e23, opt_text_entry("attemptDeadline"@, opt_str(inputs.attempt_deadline)));
    lemma_last_in_one("workflowName"@, PropView::Text(state.workflow_name@));
    lemma_last_in_append(e24, seq![("workflowName"@, PropView::Text(state.workflow_name@))]);
    lemma_last_in_one("schedulerJobName"@, PropView::Text(state.scheduler_job_name@));
    lemma_last_in_append(e25, seq![("schedulerJobName"@, PropView::Text(state.scheduler_job_name@))]);
    lemma_last_in_one("state"@, PropView::Text(state.state@));
    lemma_last_in_append(e26, seq![("state"@, PropView::Text(state.state@))]);
    lemma_last_in_one("nextRunTime"@, PropView::Text(state.next_run_time@));
    lemma_last_in_append(e27, seq![("nextRunTime"@, PropView::Text(state.next_run_time@))]);
    lemma_last_in_one("definitionFingerprint"@, PropView::Text(state.definition_fingerprint@));
    lemma_last_in_append(e28, seq![("definitionFingerprint"@, PropView::Text(state.definition_fingerprint@))]);
    lemma_read_opt_text(out, e29, "description"@, opt_str(inputs.description));
    lemma_read_opt_number(out, e29, "retryCount"@, opt_i64(inputs.retry_count));
    lemma_read_opt_text(out, e29, "attemptDeadline"@, opt_str(inputs.attempt_deadline));
}

/// The inputs read back from an export job's outputs are the inputs it was
/// deployed with, as long as it has network tags (none read back as the
/// default tag).
pub proof fn law_export_outputs_read_back(inputs: ExportJobInputs, state: DataprocJobState, out: Props)
    requires
        output_matches(out, export_output(inputs, state)),
        inputs.network_tags@.len() > 0,
    ensures
        export_inputs_error(out) is None,
        forall|r: ExportJobInputs| is_export_inputs(r, out) ==> same_export_inputs(r, inputs),
{
    lemma_job_output_keys();
    export_output_reads_0(inputs, state, out);
    export_output_reads_1(inputs, state, out);
    export_output_reads_2(inputs, state, out);
    export_output_reads_3(inputs, state, out);
    lemma_databasetype_label_read_back(inputs.database_type);
    if nonempty_text(inputs.image_uri@) is None {
        assert(inputs.image_uri@ =~= ""@);
    }
    assert(str_views(inputs.network_tags@).len() > 0);
}

/// Two sets of inputs that say the same.
pub open spec fn same_snapshot_inputs(a: SnapshotInputs, b: SnapshotInputs) -> bool {
    &&& a.project@ == b.project@
    &&& a.region@ == b.region@
    &&& a.dataset@ == b.dataset@
    &&& a.name@ == b.name@
    &&& a.source_sql@ == b.source_sql@
    &&& a.unique_key@ == b.unique_key@
    &&& a.strategy@ == b.strategy@
    &&& a.updated_at@ == b.updated_at@
    &&& a.schedule@ == b.schedule@
    &&& a.time_zone@ == b.time_zone@
    &&& a.service_account@ == b.service_account@
    &&& opt_str(a.description) == opt_str(b.description)
    &&& a.paused == b.paused
    &&& a.invalidate_hard_deletes == b.invalidate_hard_deletes
    &&& a.auto_optimize == b.auto_optimize
    &&& opt_str(a.source_schema) == opt_str(b.source_schema)
}

proof fn snapshot_output_reads_0(inputs: SnapshotInputs, state: SnapshotState, out: Props)
    requires
        output_matches(out, snapshot_output(inputs, state)),
    ensures
        text_at(out, "project"@) == Some(inputs.project@),
        text_at(out, "region"@) == Some(inputs.region@),
        text_at(out, "dataset"@) == Some(inputs.dataset@),
        text_at(out, "name"@) == Some(inputs.name@),
        text_at(out, "sourceSql"@) == Some(inputs.source_sql@),
        text_at(out, "uniqueKey"@) == Some(inputs.unique_key@),
        text_at(out, "strategy"@) == Some(inputs.strategy@),
{
    lemma_job_output_keys();
    let e0 = Seq::<(Seq<char>, PropView)>::empty();
    let e1 = e0 + seq![("project"@, PropView::Text(inputs.project@))];
    let e2 = e1 + seq![("region"@, PropView::Text(inputs.region@))];
    let e3 = e2 + seq![("dataset"@, PropView::Text(inputs.dataset@))];
    let e4 = e3 + seq![("name"@, PropView::Text(inputs.name@))];
    let e5 = e4 + seq![("sourceSql"@, PropView::Text(inputs.source_sql@))];
    let e6 = e5 + seq![("uniqueKey"@, PropView::Text(inputs.unique_key@))];
    let e7 = e6 + seq![("strategy"@, PropView::Text(inputs.strategy@))];
    let e8 = e7 + seq![("updatedAt"@, PropView::Text(inputs.updated_at@))];
    let e9 = e8 + seq![("schedule"@, PropView::Text(inputs.schedule@))];
    let e10 = e9 + seq![("timeZone"@, PropView::Text(inputs.time_zone@))];
    let e11 = e10 + seq![("serviceAccount"@, PropView::Text(inputs.service_account@))];
    let e12 = e11 + seq![("tableId"@, PropView::Text(inputs.name@))];
    let e13 = e12 + seq![("snapshotTable"@, PropView::Text(state.snapshot_table@))];
    let e14 = e13 + seq![("workflowName"@, PropView::Text(state.workflow_name@))];
    let e15 = e14 + seq![("schedulerJobName"@, PropView::Text(state.scheduler_job_name@))];
    let e16 = e15 + seq![("state"@, PropView::Text(state.state@))];
    let e17 = e16 + seq![("nextRunTime"@, PropView::Text(state.next_run_time@))];
    let e18 = e17 + opt_text_entry("description"@, opt_str(inputs.description));
    let e19 = e18 + opt_bool_entry("paused"@, inputs.paused);
    let e20 = e19 + opt_bool_entry("invalidateHardDeletes"@, inputs.invalidate_hard_deletes);
    let e21 = e20 + opt_bool_entry("autoOptimize"@, inputs.auto_optimize);
    let e22 = e21 + opt_text_entry("sourceSchema"@, opt_str(inputs.source_schema));
    assert(e22 == snapshot_output(inputs, state));
    lemma_last_in_one("project"@, PropView::Text(inputs.project@));
    lemma_last_in_append(e0, seq![("project"@, PropView::Text(inputs.project@))]);
    lemma_last_in_one("region"@, PropView::Text(inputs.region@));
    lemma_last_in_append(e1, seq![("region"@, PropView::Text(inputs.region@))]);
    lemma_last_in_one("dataset"@, PropView::Text(inputs.dataset@));
    lemma_last_in_append(e2, seq![("dataset"@, PropView::Text(inputs.dataset@))]);
    lemma_last_in_one("name"@, PropView::Text(inputs.name@));
    lemma_last_in_append(e3, seq![("name"@, PropView::Text(inputs.name@))]);
    lemma_last_in_one("sourceSql"@, PropView::Text(inputs.source_sql@));
    lemma_last_in_append(e4, seq![("sourceSql"@, PropView::Text(inputs.source_sql@))]);
    lemma_last_in_one("uniqueKey"@, PropView::Text(inputs.unique_key@));
    lemma_last_in_append(e5, seq![("uniqueKey"@, PropView::Text(inputs.unique_key@))]);
    lemma_last_in_one("strategy"@, PropView::Text(inputs.strategy@));
    lemma_last_in_append(e6, seq![("strategy"@, PropView::Text(inputs.strategy@))]);
    lemma_last_in_one("updatedAt"@, PropView::Text(inputs.updated_at@));
    lemma_last_in_append(e7, seq![("updatedAt"@, PropView::Text(inputs.updated_at@))]);
    lemma_last_in_one("schedule"@, PropView::Text(inputs.schedule@));
    lemma_last_in_append(e8, seq![("schedule"@, PropView::Text(inputs.schedule@))]);
    lemma_last_in_one("timeZone"@, PropView::Text(inputs.time_zone@));
    lemma_last_in_append(e9, seq![("timeZone"@, PropView::Text(inputs.time_zone@))]);
    lemma_last_in_one("serviceAccount"@, PropView::Text(inputs.service_account@));
    lemma_last_in_append(e10, seq![("serviceAccount"@, PropView::Text(inputs.service_account@))]);
    lemma_last_in_one("tableId"@, PropView::Text(inputs.name@));
    lemma_last_in_append(e11, seq![("tableId"@, PropView::Text(inputs.name@))]);
    lemma_last_in_one("snapshotTable"@, PropView::Text(state.snapshot_table@));
    lemma_last_in_append(e12, seq![("snapshotTable"@, PropView::Text(state.snapshot_table@))]);
    lemma_last_in_one("workflowName"@, PropView::Text(state.workflow_name@));
    lemma_last_in_append(e13, seq![("workflowName"@, PropView::Text(state.workflow_name@))]);
    lemma_last_in_one("schedulerJobName"@, PropView::Text(state.scheduler_job_name@));
    lemma_last_in_append(e14, seq![("schedulerJobName"@, PropView::Text(state.scheduler_job_name@))]);
    lemma_last_in_one("state"@, PropView::Text(state.state@));
    lemma_last_in_append(e15, seq![("state"@, PropView::Text(state.state@))]);
    lemma_last_in_one("nextRunTime"@, PropView::Text(state.next_run_time@));
    lemma_last_in_append(e16, seq![("nextRunTime"@, PropView::Text(state.next_run_time@))]);
    lemma_last_in_opt_text("description"@, opt_str(inputs.description));
    lemma_last_in_append(e17, opt_text_entry("description"@, opt_str(inputs.description)));
    lemma_last_in_opt_bool("paused"@, inputs.paused);
    lemma_last_in_append(e18, opt_bool_entry("paused"@, inputs.paused));
    lemma_last_in_opt_bool("invalidateHardDeletes"@, inputs.invalidate_hard_deletes);
    lemma_last_in_append(e19, opt_bool_entry("invalidateHardDeletes"@, inputs.invalidate_hard_deletes));
    lemma_last_in_opt_bool("autoOptimize"@, inputs.auto_optimize);
    lemma_last_in_append(e20, opt_bool_entry("autoOptimize"@, inputs.auto_optimize));
    lemma_last_in_opt_text("sourceSchema"@, opt_str(inputs.source_schema));
    lemma_last_in_append(e21, opt_text_entry("sourceSchema"@, opt_str(inputs.source_schema)));
    lemma_read_text(out, e22, "project"@, inputs.project@);
    lemma_read_text(out, e22, "region"@, inputs.region@);
    lemma_read_text(out, e22, "dataset"@, inputs.dataset@);
    lemma_read_text(out, e22, "name"@, inputs.name@);
    lemma_read_text(out, e22, "sourceSql"@, inputs.source_sql@);
    lemma_read_text(out, e22, "uniqueKey"@, inputs.unique_key@);
    lemma_read_text(out, e22, "strategy"@, inputs.strategy@);
}

proof fn snapshot_output_reads_1(inputs: SnapshotInputs, state: SnapshotState, out: Props)
    requires
        output_matches(out, snapshot_output(inputs, state)),
    ensures
        text_at(out, "updatedAt"@) == Some(inputs.updated_at@),
        text_at(out, "schedule"@) == Some(inputs.schedule@),
        text_at(out, "timeZone"@) == Some(inputs.time_zone@),
        text_at(out, "serviceAccount"@) == Some(inputs.service_account@),
        text_at(out, "description"@) == opt_str(inputs.description),
        bool_at(out, "paused"@) == inputs.paused,
        bool_at(out, "invalidateHardDeletes"@) == inputs.invalidate_hard_deletes,
{
    lemma_job_output_keys();
    let e0 = Seq::<(Seq<char>, PropView)>::empty();
    let e1 = e0 + seq![("project"@, PropView::Text(inputs.project@))];
    let e2 = e1 + seq![("region"@, PropView::Text(inputs.region@))];
    let e3 = e2 + seq![("dataset"@, PropView::Text(inputs.dataset@))];
    let e4 = e3 + seq![("name"@, PropView::Text(inputs.name@))];
    let e5 = e4 + seq![("sourceSql"@, PropView::Text(inputs.source_sql@))];
    let e6 = e5 + seq![("uniqueKey"@, PropView::Text(inputs.unique_key@))];
    let e7 = e6 + seq![("strategy"@, PropView::Text(inputs.strategy@))];
    let e8 = e7 + seq![("updatedAt"@, PropView::Text(inputs.updated_at@))];
    let e9 = e8 + seq![("schedule"@, PropView::Text(inputs.schedule@))];
    let e10 = e9 + seq![("timeZone"@, PropView::Text(inputs.time_zone@))];
    let e11 = e10 + seq![("serviceAccount"@, PropView::Text(inputs.service_account@))];
    let e12 = e11 + seq![("tableId"@, PropView::Text(inputs.name@))];
    let e13 = e12 + seq![("snapshotTable"@, PropView::Text(state.snapshot_table@))];
    let e14 = e13 + seq![("workflowName"@, PropView::Text(state.workflow_name@))];
    let e15 = e14 + seq![("schedulerJobName"@, PropView::Text(state.scheduler_job_name@))];
    let e16 = e15 + seq![("state"@, PropView::Text(state.state@))];
    let e17 = e16 + seq![("nextRunTime"@, PropView::Text(state.next_run_time@))];
    let e18 = e17 + opt_text_entry("description"@, opt_str(inputs.description));
    let e19 = e18 + opt_bool_entry("paused"@, inputs.paused);
    let e20 = e19 + opt_bool_entry("invalidateHardDeletes"@, inputs.invalidate_hard_deletes);
    let e21 = e20 + opt_bool_entry("autoOptimize"@, inputs.auto_optimize);
    let e22 = e21 + opt_text_entry("sourceSchema"@, opt_str(inputs.source_schema));
    assert(e22 == snapshot_output(inputs, state));
    lemma_last_in_one("project"@, PropView::Text(inputs.project@));
    lemma_last_in_append(e0, seq![("project"@, PropView::Text(inputs.project@))]);
    lemma_last_in_one("region"@, PropView::Text(inputs.region@));
    lemma_last_in_append(e1, seq![("region"@, PropView::Text(inputs.region@))]);
    lemma_last_in_one("dataset"@, PropView::Text(inputs.dataset@));
    lemma_last_in_append(e2, seq![("dataset"@, PropView::Text(inputs.dataset@))]);
    lemma_last_in_one("name"@, PropView::Text(inputs.name@));
    lemma_last_in_append(e3, seq![("name"@, PropView::Text(inputs.name@))]);
    lemma_last_in_one("sourceSql"@, PropView::Text(inputs.source_sql@));
    lemma_last_in_append(e4, seq![("sourceSql"@, PropView::Text(inputs.source_sql@))]);
    lemma_last_in_one("uniqueKey"@, PropView::Text(inputs.unique_key@));
    lemma_last_in_append(e5, seq![("uniqueKey"@, PropView::Text(inputs.unique_key@))]);
    lemma_last_in_one("strategy"@, PropView::Text(inputs.strategy@));
    lemma_last_in_append(e6, seq![("strategy"@, PropView::Text(inputs.strategy@))]);
    lemma_last_in_one("updatedAt"@, PropView::Text(inputs.updated_at@));
    lemma_last_in_append(e7, seq![("updatedAt"@, PropView::Text(inputs.updated_at@))]);
    lemma_last_in_one("schedule"@, PropView::Text(inputs.schedule@));
    lemma_last_in_append(e8, seq![("schedule"@, PropView::Text(inputs.schedule@))]);
    lemma_last_in_one("timeZone"@, PropView::Text(inputs.time_zone@));
    lemma_last_in_append(e9, seq![("timeZone"@, PropView::Text(inputs.time_zone@))]);
    lemma_last_in_one("serviceAccount"@, PropView::Text(inputs.service_account@));
    lemma_last_in_append(e10, seq![("serviceAccount"@, PropView::Text(inputs.service_account@))]);
    lemma_last_in_one("tableId"@, PropView::Text(inputs.name@));
    lemma_last_in_append(e11, seq![("tableId"@, PropView::Text(inputs.name@))]);
    lemma_last_in_one("snapshotTable"@, PropView::Text(state.snapshot_table@));
    lemma_last_in_append(e12, seq![("snapshotTable"@, PropView::Text(state.snapshot_table@))]);
    lemma_last_in_one("workflowName"@, PropView::Text(state.workflow_name@));
    lemma_last_in_append(e13, seq![("workflowName"@, PropView::Text(state.workflow_name@))]);
    lemma_last_in_one("schedulerJobName"@, PropView::Text(state.scheduler_job_name@));
    lemma_last_in_append(e14, seq![("schedulerJobName"@, PropView::Text(state.scheduler_job_name@))]);
    lemma_last_in_one("state"@, PropView::Text(state.state@));
    lemma_last_in_append(e15, seq![("state"@, PropView::Text(state.state@))]);
    lemma_last_in_one("nextRunTime"@, PropView::Text(state.next_run_time@));
    lemma_last_in_append(e16, seq![("nextRunTime"@, PropView::Text(state.next_run_time@))]);
    lemma_last_in_opt_text("description"@, opt_str(inputs.description));
    lemma_last_in_append(e17, opt_text_entry("description"@, opt_str(inputs.description)));
    lemma_last_in_opt_bool("paused"@, inputs.paused);
    lemma_last_in_append(e18, opt_bool_entry("paused"@, inputs.paused));
    lemma_last_in_opt_bool("invalidateHardDeletes"@, inputs.invalidate_hard_deletes);
    lemma_last_in_append(e19, opt_bool_entry("invalidateHardDeletes"@, inputs.invalidate_hard_deletes));
    lemma_last_in_opt_bool("autoOptimize"@, inputs.auto_optimize);
    lemma_last_in_append(e20, opt_bool_entry("autoOptimize"@, inputs.auto_optimize));
    lemma_last_in_opt_text("sourceSchema"@, opt_str(inputs.source_schema));
    lemma_last_in_append(e21, opt_text_entry("sourceSchema"@, opt_str(inputs.source_schema)));
    lemma_read_text(out, e22, "updatedAt"@, inputs.updated_at@);
    lemma_read_text(out, e22, "schedule"@, inputs.schedule@);
    lemma_read_text(out, e22, "timeZone"@, inputs.time_zone@);
    lemma_read_text(out, e22, "serviceAccount"@, inputs.service_account@);
    lemma_read_opt_text(out, e22, "description"@, opt_str(inputs.description));
    lemma_read_opt_bool(out, e22, "paused"@, inputs.paused);
    lemma_read_opt_bool(out, e22, "invalidateHardDeletes"@, inputs.invalidate_hard_deletes);
}

proof fn snapshot_output_reads_2(inputs: SnapshotInputs, state: SnapshotState, out: Props)
    requires
        output_matches(out, snapshot_output(inputs, state)),
    ensures
        bool_at(out, "autoOptimize"@) == inputs.auto_optimize,
        text_at(out, "sourceSchema"@) == opt_str(inputs.source_schema),
{
    lemma_job_output_keys();
    let e0 = Seq::<(Seq<char>, PropView)>::empty();
    let e1 = e0 + seq![("project"@, PropView::Text(inputs.project@))];
    let e2 = e1 + seq![("region"@, PropView::Text(inputs.region@))];
    let e3 = e2 + seq![("dataset"@, PropView::Text(inputs.dataset@))];
    let e4 = e3 + seq![("name"@, PropView::Text(inputs.name@))];
    let e5 = e4 + seq![("sourceSql"@, PropView::Text(inputs.source_sql@))];
    let e6 = e5 + seq![("uniqueKey"@, PropView::Text(inputs.unique_key@))];
    let e7 = e6 + seq![("strategy"@, PropView::Text(inputs.strategy@))];
    let e8 = e7 + seq![("updatedAt"@, PropView::Text(inputs.updated_at@))];
    let e9 = e8 + seq![("schedule"@, PropView::Text(inputs.schedule@))];
    let e10 = e9 + seq![("timeZone"@, PropView::Text(inputs.time_zone@))];
    let e11 = e10 + seq![("serviceAccount"@, PropView::Text(inputs.service_account@))];
    let e12 = e11 + seq![("tableId"@, PropView::Text(inputs.name@))];
    let e13 = e12 + seq![("snapshotTable"@, PropView::Text(state.snapshot_table@))];
    let e14 = e13 + seq![("workflowName"@, PropView::Text(state.workflow_name@))];
    let e15 = e14 + seq![("schedulerJobName"@, PropView::Text(state.scheduler_job_name@))];
    let e16 = e15 + seq![("state"@, PropView::Text(state.state@))];
    let e17 = e16 + seq![("nextRunTime"@, PropView::Text(state.next_run_time@))];
    let e18 = e17 + opt_text_entry("description"@, opt_str(inputs.description));
    let e19 = e18 + opt_bool_entry("paused"@, inputs.paused);
    let e20 = e19 + opt_bool_entry("invalidateHardDeletes"@, inputs.invalidate_hard_deletes);
    let e21 = e20 + opt_bool_entry("autoOptimize"@, inputs.auto_optimize);
    let e22 = e21 + opt_text_entry("sourceSchema"@, opt_str(inputs.source_schema));
    assert(e22 == snapshot_output(inputs, state));
    lemma_last_in_one("project"@, PropView::Text(inputs.project@));
    lemma_last_in_append(e0, seq![("project"@, PropView::Text(inputs.project@))]);
    lemma_last_in_one("region"@, PropView::Text(inputs.region@));
    lemma_last_in_append(e1, seq![("region"@, PropView::Text(inputs.region@))]);
    lemma_last_in_one("dataset"@, PropView::Text(inputs.dataset@));
    lemma_last_in_append(e2, seq![("dataset"@, PropView::Text(inputs.dataset@))]);
    lemma_last_in_one("name"@, PropView::Text(inputs.name@));
    lemma_last_in_append(e3, seq![("name"@, PropView::Text(inputs.name@))]);
    lemma_last_in_one("sourceSql"@, PropView::Text(inputs.source_sql@));
    lemma_last_in_append(e4, seq![("sourceSql"@, PropView::Text(inputs.source_sql@))]);
    lemma_last_in_one("uniqueKey"@, PropView::Text(inputs.unique_key@));
    lemma_last_in_append(e5, seq![("uniqueKey"@, PropView::Text(inputs.unique_key@))]);
    lemma_last_in_one("strategy"@, PropView::Text(inputs.strategy@));
    lemma_last_in_append(e6, seq![("strategy"@, PropView::Text(inputs.strategy@))]);
    lemma_last_in_one("updatedAt"@, PropView::Text(inputs.updated_at@));
    lemma_last_in_append(e7, seq![("updatedAt"@, PropView::Text(inputs.updated_at@))]);
    lemma_last_in_one("schedule"@, PropView::Text(inputs.schedule@));
    lemma_last_in_append(e8, seq![("schedule"@, PropView::Text(inputs.schedule@))]);
    lemma_last_in_one("timeZone"@, PropView::Text(inputs.time_zone@));
    lemma_last_in_append(e9, seq![("timeZone"@, PropView::Text(inputs.time_zone@))]);
    lemma_last_in_one("serviceAccount"@, PropView::Text(inputs.service_account@));
    lemma_last_in_append(e10, seq![("serviceAccount"@, PropView::Text(inputs.service_account@))]);
    lemma_last_in_one("tableId"@, PropView::Text(inputs.name@));
    lemma_last_in_append(e11, seq![("tableId"@, PropView::Text(inputs.name@))]);
    lemma_last_in_one("snapshotTable"@, PropView::Text(state.snapshot_table@));
    lemma_last_in_append(e12, seq![("snapshotTable"@, PropView::Text(state.snapshot_table@))]);
    lemma_last_in_one("workflowName"@, PropView::Text(state.workflow_name@));
    lemma_last_in_append(e13, seq![("workflowName"@, PropView::Text(state.workflow_name@))]);
    lemma_last_in_one("schedulerJobName"@, PropView::Text(state.scheduler_job_name@));
    lemma_last_in_append(e14, seq![("schedulerJobName"@, PropView::Text(state.scheduler_job_name@))]);
    lemma_last_in_one("state"@, PropView::Text(state.state@));
    lemma_last_in_append(e15, seq![("state"@, PropView::Text(state.state@))]);
    lemma_last_in_one("nextRunTime"@, PropView::Text(state.next_run_time@));
    lemma_last_in_append(e16, seq![("nextRunTime"@, PropView::Text(state.next_run_time@))]);
    lemma_last_in_opt_text("description"@, opt_str(inputs.description));
    lemma_last_in_append(e17, opt_text_entry("description"@, opt_str(inputs.description)));
    lemma_last_in_opt_bool("paused"@, inputs.paused);
    lemma_last_in_append(e18, opt_bool_entry("paused"@, inputs.paused));
    lemma_last_in_opt_bool("invalidateHardDeletes"@, inputs.invalidate_hard_deletes);
    lemma_last_in_append(e19, opt_bool_entry("invalidateHardDeletes"@, inputs.invalidate_hard_deletes));
    lemma_last_in_opt_bool("autoOptimize"@, inputs.auto_optimize);
    lemma_last_in_append(e20, opt_bool_entry("autoOptimize"@, inputs.auto_optimize));
    lemma_last_in_opt_text("sourceSchema"@, opt_str(inputs.source_schema));
    lemma_last_in_append(e21, opt_text_entry("sourceSchema"@, opt_str(inputs.source_schema)));
    lemma_read_opt_bool(out, e22, "autoOptimize"@, inputs.auto_optimize);
    lemma_read_opt_text(out, e22, "sourceSchema"@, opt_str(inputs.source_schema));
}

/// The inputs read back from a snapshot's outputs are the inputs it was
/// deployed with.
pub proof fn law_snapshot_outputs_read_back(inputs: SnapshotInputs, state: SnapshotState, out: Props)
    requires
        output_matches(out, snapshot_output(inputs, state)),
    ensures
        snapshot_inputs_error(out) is None,
        forall|r: SnapshotInputs| is_snapshot_inputs(r, out) ==> same_snapshot_inputs(r, inputs),
{
    lemma_job_output_keys();
    snapshot_output_reads_0(inputs, state, out);
    snapshot_output_reads_1(inputs, state, out);
    snapshot_output_reads_2(inputs, state, out);
}

} // verus!
