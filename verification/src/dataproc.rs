//! Dataproc Serverless ingest and export jobs: their inputs, the arguments
//! handed to the PySpark script, and the Cloud Workflows definition that
//! submits the batch.
use vstd::prelude::*;

use std::hash::BuildHasher;

use crate::config::eq_ignore_ascii_case;
use crate::preprocess::join;
use crate::scheduler::SchedulerBodyConfig;
use crate::text::{
    ascii_lower, chars_of, lower_seq, contains, eq_ignore_case, find_chars, is_ascii_alnum, push_char,
    range_eq, starts_with, to_ascii_lower, trim_end_by, TrimSet,
};

verus! {

// ───────────────────────── database and destination kinds ─────────────────────────

/// The source database of a job.
#[derive(Debug, Clone, Copy, PartialEq, Eq, Structural)]
pub enum DatabaseType {
    Oracle,
    Mssql,
    Mysql,
    Postgres,
}

/// The database named by `s`, in any ASCII case.
pub open spec fn database_named(s: Seq<char>) -> Option<DatabaseType> {
    if eq_ignore_case(s, "oracle"@) {
        Some(DatabaseType::Oracle)
    } else if eq_ignore_case(s, "mssql"@) {
        Some(DatabaseType::Mssql)
    } else if eq_ignore_case(s, "mysql"@) {
        Some(DatabaseType::Mysql)
    } else if eq_ignore_case(s, "postgres"@) {
        Some(DatabaseType::Postgres)
    } else {
        None
    }
}

impl DatabaseType {
    /// The prefix a JDBC connection string for this database starts with.
    pub open spec fn prefix_text(self) -> Seq<char> {
        match self {
            DatabaseType::Oracle => "jdbc:oracle:"@,
            DatabaseType::Mssql => "jdbc:sqlserver:"@,
            DatabaseType::Mysql => "jdbc:mysql:"@,
            DatabaseType::Postgres => "jdbc:postgresql:"@,
        }
    }

    /// The lower-case name of this database.
    pub open spec fn label_text(self) -> Seq<char> {
        match self {
            DatabaseType::Oracle => "oracle"@,
            DatabaseType::Mssql => "mssql"@,
            DatabaseType::Mysql => "mysql"@,
            DatabaseType::Postgres => "postgres"@,
        }
    }

    /// Reads a database name, ignoring ASCII case.
    pub fn parse(s: &str) -> (r: Option<Self>)
        ensures
            r == database_named(s@),
    {
        if eq_ignore_ascii_case(s, "oracle") {
            Some(DatabaseType::Oracle)
        } else if eq_ignore_ascii_case(s, "mssql") {
            Some(DatabaseType::Mssql)
        } else if eq_ignore_ascii_case(s, "mysql") {
            Some(DatabaseType::Mysql)
        } else if eq_ignore_ascii_case(s, "postgres") {
            Some(DatabaseType::Postgres)
        } else {
            None
        }
    }

    pub fn jdbc_prefix(&self) -> (r: &'static str)
        ensures
            r@ == self.prefix_text(),
    {
        match self {
            DatabaseType::Oracle => "jdbc:oracle:",
            DatabaseType::Mssql => "jdbc:sqlserver:",
            DatabaseType::Mysql => "jdbc:mysql:",
            DatabaseType::Postgres => "jdbc:postgresql:",
        }
    }

    pub fn label(&self) -> (r: &'static str)
        ensures
            r@ == self.label_text(),
    {
        match self {
            DatabaseType::Oracle => "oracle",
            DatabaseType::Mssql => "mssql",
            DatabaseType::Mysql => "mysql",
            DatabaseType::Postgres => "postgres",
        }
    }
}

/// Where an ingest job writes.
#[derive(Debug, Clone, Copy, PartialEq, Eq, Structural)]
pub enum DestinationType {
    Gcs,
    BigQuery,
}

/// The destination named by `s`, in any ASCII case.
pub open spec fn destination_named(s: Seq<char>) -> Option<DestinationType> {
    if eq_ignore_case(s, "gcs"@) {
        Some(DestinationType::Gcs)
    } else if eq_ignore_case(s, "bigquery"@) {
        Some(DestinationType::BigQuery)
    } else {
        None
    }
}

impl DestinationType {
    pub open spec fn label_text(self) -> Seq<char> {
        match self {
            DestinationType::Gcs => "gcs"@,
            DestinationType::BigQuery => "bigquery"@,
        }
    }

    /// Reads a destination name, ignoring ASCII case.
    pub fn parse(s: &str) -> (r: Option<Self>)
        ensures
            r == destination_named(s@),
    {
        if eq_ignore_ascii_case(s, "gcs") {
            Some(DestinationType::Gcs)
        } else if eq_ignore_ascii_case(s, "bigquery") {
            Some(DestinationType::BigQuery)
        } else {
            None
        }
    }

    pub fn label(&self) -> (r: &'static str)
        ensures
            r@ == self.label_text(),
    {
        match self {
            DestinationType::Gcs => "gcs",
            DestinationType::BigQuery => "bigquery",
        }
    }
}

// ───────────────────────── job inputs and state ─────────────────────────

/// The inputs of an ingest job: database to Cloud Storage or BigQuery.
#[derive(Debug)]
pub struct IngestJobInputs<'a> {
    pub project: &'a str,
    pub region: &'a str,
    pub name: &'a str,
    pub database_type: DatabaseType,
    pub connection_string: &'a str,
    pub secret: &'a str,
    pub query: &'a str,
    pub destination: DestinationType,
    pub landing_bucket: Option<&'a str>,
    pub dest_project: Option<&'a str>,
    pub dest_dataset: Option<&'a str>,
    pub dest_table: Option<&'a str>,
    pub image_uri: &'a str,
    pub script_uri: &'a str,
    pub jar_uris: Vec<&'a str>,
    pub runtime_version: &'a str,
    pub service_account: &'a str,
    pub staging_bucket: &'a str,
    pub process_bucket: &'a str,
    pub subnetwork_uri: &'a str,
    pub network_tags: Vec<&'a str>,
    pub schedule: &'a str,
    pub time_zone: &'a str,
    pub paused: Option<bool>,
    pub description: Option<&'a str>,
    pub retry_count: Option<i32>,
    pub attempt_deadline: Option<&'a str>,
}

/// The inputs of an export job: a BigQuery table to a database.
#[derive(Debug)]
pub struct ExportJobInputs<'a> {
    pub project: &'a str,
    pub region: &'a str,
    pub name: &'a str,
    pub source_dataset: &'a str,
    pub source_table: &'a str,
    pub database_type: DatabaseType,
    pub connection_string: &'a str,
    pub secret: &'a str,
    pub dest_table: &'a str,
    pub image_uri: &'a str,
    pub script_uri: &'a str,
    pub jar_uris: Vec<&'a str>,
    pub runtime_version: &'a str,
    pub service_account: &'a str,
    pub staging_bucket: &'a str,
    pub process_bucket: &'a str,
    pub subnetwork_uri: &'a str,
    pub network_tags: Vec<&'a str>,
    pub schedule: &'a str,
    pub time_zone: &'a str,
    pub paused: Option<bool>,
    pub description: Option<&'a str>,
    pub retry_count: Option<i32>,
    pub attempt_deadline: Option<&'a str>,
}

/// What a deployed job records of itself.
pub struct DataprocJobState {
    pub workflow_name: String,
    pub scheduler_job_name: String,
    pub state: String,
    pub next_run_time: String,
    /// The fingerprint of the workflow definition that was deployed.
    pub definition_fingerprint: String,
}

/// Each database type's label reads back as that type.
pub proof fn lemma_databasetype_label_read_back(d: DatabaseType)
    ensures
        database_named(d.label_text()) == Some(d),
{
    reveal_strlit("oracle");
    reveal_strlit("mssql");
    reveal_strlit("mysql");
    reveal_strlit("postgres");
    assert("oracle"@.len() == 6 && "mssql"@.len() == 5 && "mysql"@.len() == 5 && "postgres"@.len() == 8);
    assert(lower_seq("mssql"@)[1] == 's' && lower_seq("mysql"@)[1] == 'y');
    assert(lower_seq(d.label_text()) == lower_seq(d.label_text()));
}

/// Each destination's label reads back as that destination.
pub proof fn lemma_destinationtype_label_read_back(d: DestinationType)
    ensures
        destination_named(d.label_text()) == Some(d),
{
    reveal_strlit("gcs");
    reveal_strlit("bigquery");
    assert("gcs"@.len() == 3 && "bigquery"@.len() == 8);
}

// ───────────────────────── fingerprint ─────────────────────────

/// What `DefaultHasher` (std's default SipHash, with its fixed keys) gives
/// for the text `s`.
pub uninterp spec fn default_hash(s: Seq<char>) -> u64;

/// Hashes `s` with std's `DefaultHasher`, through `BuildHasher::hash_one` of a
/// `BuildHasherDefault<DefaultHasher>` (which builds `DefaultHasher::new()`,
/// feeds it `s` and finishes). Claimed of it: the result is the named hash
/// of `s`.
#[verifier::external_body]
fn hash_text(s: &str) -> (r: u64)
    ensures
        r == default_hash(s@),
{
    std::hash::BuildHasherDefault::<std::hash::DefaultHasher>::default().hash_one(s)
}

/// A lower-case hex digit.
pub open spec fn hex_char(d: nat) -> char {
    if d < 10 {
        ((d + 48) as u32) as char
    } else {
        ((d - 10 + 97) as u32) as char
    }
}

/// The last `k` hex digits of `n`, most significant first.
pub open spec fn hex_digits(n: nat, k: nat) -> Seq<char>
    decreases k,
{
    if k == 0 {
        Seq::empty()
    } else {
        hex_digits(n / 16, (k - 1) as nat).push(hex_char(n % 16))
    }
}

/// A lower-case hex digit character.
pub open spec fn is_hex_lower(c: char) -> bool {
    ('0' <= c && c <= '9') || ('a' <= c && c <= 'f')
}

/// Every fingerprint has exactly `k` characters, each a lower-case hex digit.
pub proof fn law_fingerprint_shape(n: nat, k: nat)
    ensures
        hex_digits(n, k).len() == k,
        forall|i: int| 0 <= i < k ==> is_hex_lower(#[trigger] hex_digits(n, k)[i]),
    decreases k,
{
    if k > 0 {
        law_fingerprint_shape(n / 16, (k - 1) as nat);
        let d = n % 16;
        assert(is_hex_lower(hex_char(d))) by {
            if d < 10 {
                assert((d + 48) as u32 as char == hex_char(d));
            }
        }
        let prev = hex_digits(n / 16, (k - 1) as nat);
        assert forall|i: int| 0 <= i < k implies is_hex_lower(#[trigger] hex_digits(n, k)[i]) by {
            if i < k - 1 {
                assert(hex_digits(n, k)[i] == prev[i]);
            }
        }
    }
}

fn push_hex(out: &mut String, n: u64, k: usize)
    ensures
        final(out)@ == old(out)@ + hex_digits(n as nat, k as nat),
    decreases k,
{
    if k > 0 {
        push_hex(out, n / 16, k - 1);
        let d: u64 = n % 16;
        let c: char = if d < 10 {
            ((d + 48) as u8) as char
        } else {
            ((d - 10 + 97) as u8) as char
        };
        push_char(out, c);
        assert(hex_digits(n as nat, k as nat) == hex_digits((n / 16) as nat, (k - 1) as nat).push(
            hex_char((n % 16) as nat),
        ));
    }
}

/// The fingerprint text of a hash: exactly sixteen lower-case hex digits.
pub fn fingerprint_text(h: u64) -> (r: String)
    ensures
        r@ == hex_digits(h as nat, 16),
{
    let mut r = String::new();
    push_hex(&mut r, h, 16);
    r
}

/// A fingerprint of a generated workflow definition: its `DefaultHasher`
/// hash in sixteen hex digits. Recording it makes a change of the generator
/// itself, with identical inputs, visible to diffing.
pub fn definition_fingerprint(definition: &str) -> (r: String)
    ensures
        r@ == hex_digits(default_hash(definition@) as nat, 16),
{
    let h = hash_text(definition);
    fingerprint_text(h)
}

// ───────────────────────── batch ids and arguments ─────────────────────────

/// A character of a batch id: ASCII letters and digits lower-cased, `-` kept,
/// anything else becomes `-`.
pub open spec fn batch_char(c: char) -> char {
    if is_ascii_alnum(c) || c == '-' {
        ascii_lower(c)
    } else {
        '-'
    }
}

pub open spec fn batch_id(s: Seq<char>) -> Seq<char> {
    s.map_values(|c: char| batch_char(c))
}

/// A character a batch id may hold: a lower-case ASCII letter, a digit or `-`.
pub open spec fn batch_id_char(c: char) -> bool {
    ('a' <= c && c <= 'z') || ('0' <= c && c <= '9') || c == '-'
}

/// A sanitized batch id has one character for each character of the name,
/// and only lower-case letters, digits and hyphens.
pub proof fn law_batch_id_is_valid(s: Seq<char>)
    ensures
        batch_id(s).len() == s.len(),
        forall|i: int| 0 <= i < s.len() ==> batch_id_char(#[trigger] batch_id(s)[i]),
{
    assert forall|i: int| 0 <= i < s.len() implies batch_id_char(#[trigger] batch_id(s)[i]) by {
        let c = s[i];
        assert(batch_id(s)[i] == batch_char(c));
        if 'A' <= c && c <= 'Z' {
            let u = c as u32;
            assert(65 <= u <= 90);
            assert(97 <= u + 32 <= 122);
            assert(ascii_lower(c) == ((u + 32) as char));
        }
    }
}

/// Makes `name` a valid Dataproc batch id: lower-case letters, digits and
/// hyphens only, one character for each character of `name`.
pub fn sanitize_batch_id(name: &str) -> (r: String)
    ensures
        r@ == batch_id(name@),
{
    let c = chars_of(name);
    let mut r = String::new();
    let mut i: usize = 0;
    while i < c.len()
        invariant
            i <= c@.len(),
            c@ == name@,
            r@ == batch_id(c@.take(i as int)),
        decreases c.len() - i,
    {
        let ch = c[i];
        let alnum = ('a' <= ch && ch <= 'z') || ('A' <= ch && ch <= 'Z') || ('0' <= ch && ch <= '9');
        let out = if alnum || ch == '-' {
            to_ascii_lower(ch)
        } else {
            '-'
        };
        push_char(&mut r, out);
        assert(batch_id(c@.take(i + 1)) =~= batch_id(c@.take(i as int)).push(batch_char(ch)));
        i += 1;
    }
    assert(c@.take(c@.len() as int) =~= c@);
    r
}

/// The script arguments of an ingest job writing to Cloud Storage, in order.
pub fn build_ingest_gcs_args<'a>(
    secret: &'a str,
    landing_bucket: &'a str,
    query: &'a str,
    jdbc_uri: &'a str,
    process_bucket: &'a str,
) -> (r: Vec<&'a str>)
    ensures
        r@ == seq![secret, landing_bucket, query, jdbc_uri, process_bucket],
{
    let r = vec![secret, landing_bucket, query, jdbc_uri, process_bucket];
    assert(r@ =~= seq![secret, landing_bucket, query, jdbc_uri, process_bucket]);
    r
}

/// The script arguments of an ingest job writing to BigQuery, in order.
pub fn build_ingest_bq_args<'a>(
    secret: &'a str,
    query: &'a str,
    jdbc_uri: &'a str,
    process_bucket: &'a str,
    dest_project: &'a str,
    dest_dataset: &'a str,
    dest_table: &'a str,
) -> (r: Vec<&'a str>)
    ensures
        r@ == seq![secret, query, jdbc_uri, process_bucket, dest_project, dest_dataset, dest_table],
{
    let r = vec![secret, query, jdbc_uri, process_bucket, dest_project, dest_dataset, dest_table];
    assert(r@ =~= seq![secret, query, jdbc_uri, process_bucket, dest_project, dest_dataset, dest_table]);
    r
}

/// The script arguments of an export job, in order.
pub fn build_export_args<'a>(
    process_bucket: &'a str,
    source_dataset: &'a str,
    source_table: &'a str,
    jdbc_uri: &'a str,
    secret: &'a str,
    dest_table: &'a str,
) -> (r: Vec<&'a str>)
    ensures
        r@ == seq![process_bucket, source_dataset, source_table, jdbc_uri, secret, dest_table],
{
    let r = vec![process_bucket, source_dataset, source_table, jdbc_uri, secret, dest_table];
    assert(r@ =~= seq![process_bucket, source_dataset, source_table, jdbc_uri, secret, dest_table]);
    r
}

// ───────────────────────── the workflow definition ─────────────────────────

/// The Spark BigQuery connector, added when BigQuery is involved.
pub const SPARK_BQ_JAR: &'static str = "gs://spark-lib/bigquery/spark-bigquery-with-dependencies_2.12-0.36.1.jar";

pub const WF_INIT: &'static str = "- init:\n    assign:\n        - uuid: ${sys.get_env(\"GOOGLE_CLOUD_WORKFLOW_EXECUTION_ID\")}\n        - short_uuid: ${text.substring(uuid, 0, 8)}\n        - batchId: ${\"";

pub const WF_CALL: &'static str = "-\" + short_uuid}\n- spark_execution:\n    call: http.post\n    args:\n        url: https://dataproc.googleapis.com/v1/projects/";

pub const WF_LOCATIONS: &'static str = "/locations/";

pub const WF_BATCH: &'static str = "/batches\n        query:\n            batchId: ${batchId}\n        auth:\n            type: OAuth2\n        body:\n            pysparkBatch:\n                mainPythonFileUri: \"";

pub const WF_JARS: &'static str = "\"\n                jarFileUris: ";

pub const WF_ARGS: &'static str = "\n                args: ";

pub const WF_RUNTIME: &'static str = "\n            runtimeConfig:\n                version: \"";

pub const WF_QUOTE: &'static str = "\"";

pub const WF_IMAGE: &'static str = "\n                containerImage: \"";

pub const WF_ACCOUNT: &'static str = "\n            environmentConfig:\n                executionConfig:\n                    serviceAccount: \"";

pub const WF_STAGING: &'static str = "\"\n                    stagingBucket: \"";

pub const WF_SUBNET: &'static str = "\"\n                    subnetworkUri: \"";

pub const WF_TAGS: &'static str = "\"\n                    networkTags: ";

pub const WF_RETURN: &'static str = "\n    result: batchResult\n- returnOutput:\n    return: ${batchResult.body.metadata.batchUuid}";

/// The texts of borrowed strings.
pub open spec fn texts<'a>(items: Seq<&'a str>) -> Seq<Seq<char>> {
    items.map_values(|s: &'a str| s@)
}

/// A YAML inline array of double-quoted strings: `["a", "b"]`, or `[]`.
pub open spec fn yaml_array(items: Seq<Seq<char>>) -> Seq<char> {
    "["@ + join(items.map_values(|s: Seq<char>| "\""@ + s + "\""@), ", "@) + "]"@
}

/// Formats strings as a YAML inline array of double-quoted strings.
pub fn format_yaml_string_array(items: &[&str]) -> (r: String)
    ensures
        r@ == yaml_array(texts(items@)),
{
    let ghost v = texts(items@).map_values(|s: Seq<char>| "\""@ + s + "\""@);
    let mut inner = String::new();
    let mut i: usize = 0;
    while i < items.len()
        invariant
            i <= items@.len(),
            v == texts(items@).map_values(|s: Seq<char>| "\""@ + s + "\""@),
            v.len() == items@.len(),
            inner@ == join(v.take(i as int), ", "@),
        decreases items.len() - i,
    {
        if i > 0 {
            inner.append(", ");
        }
        inner.append("\"");
        inner.append(items[i]);
        inner.append("\"");
        proof {
            assert(v[i as int] == "\""@ + items@[i as int]@ + "\""@);
            assert(v.take(i + 1).drop_last() =~= v.take(i as int));
            if i == 0 {
                assert(v.take(0) =~= Seq::<Seq<char>>::empty());
            }
        }
        i += 1;
    }
    assert(v.take(items@.len() as int) =~= v);
    let mut r = String::new();
    r.append("[");
    r.append(inner.as_str());
    r.append("]");
    r
}

/// The jars of a batch: those given, plus the BigQuery connector when it is
/// needed and no given jar is a `spark-bigquery` one.
pub open spec fn batch_jars(jars: Seq<Seq<char>>, needs_bq_jar: bool) -> Seq<Seq<char>> {
    if needs_bq_jar && !(exists|i: int| 0 <= i < jars.len() && contains(#[trigger] jars[i], "spark-bigquery"@)) {
        jars.push(SPARK_BQ_JAR@)
    } else {
        jars
    }
}

/// When the BigQuery connector is needed, some jar of the batch is a
/// `spark-bigquery` one; and a jar list that already has one is kept as it
/// is, so the connector is never added twice.
pub proof fn law_connector_once(jars: Seq<Seq<char>>, needs_bq_jar: bool)
    ensures
        needs_bq_jar ==> exists|i: int|
            0 <= i < batch_jars(jars, needs_bq_jar).len() && contains(
                #[trigger] batch_jars(jars, needs_bq_jar)[i],
                "spark-bigquery"@,
            ),
        (exists|i: int| 0 <= i < jars.len() && contains(#[trigger] jars[i], "spark-bigquery"@))
            ==> batch_jars(jars, needs_bq_jar) == jars,
{
    if needs_bq_jar && !(exists|i: int| 0 <= i < jars.len() && contains(#[trigger] jars[i], "spark-bigquery"@)) {
        let r = batch_jars(jars, needs_bq_jar);
        let jar = SPARK_BQ_JAR@;
        let pat = "spark-bigquery"@;
        reveal_strlit("gs://spark-lib/bigquery/spark-bigquery-with-dependencies_2.12-0.36.1.jar");
        reveal_strlit("spark-bigquery");
        assert(jar.subrange(24, 38) =~= pat);
        assert(crate::text::matches_at(jar, pat, 24));
        assert(r[jars.len() as int] == jar);
        assert(contains(r[jars.len() as int], pat));
    } else if needs_bq_jar {
        let i = choose|i: int| 0 <= i < jars.len() && contains(#[trigger] jars[i], "spark-bigquery"@);
        assert(batch_jars(jars, needs_bq_jar)[i] == jars[i]);
    }
}

/// A staging bucket as the batches API wants it: a bare bucket name, without
/// a `gs://` scheme or trailing slashes.
pub open spec fn bucket_name(s: Seq<char>) -> Seq<char> {
    trim_end_by(
        if starts_with(s, "gs://"@) {
            s.skip(5)
        } else {
            s
        },
        TrimSet::Char('/'),
    )
}

/// The `containerImage` line, present only when an image is given.
pub open spec fn image_line(image: Seq<char>) -> Seq<char> {
    if image.len() == 0 {
        Seq::empty()
    } else {
        WF_IMAGE@ + image + WF_QUOTE@
    }
}

/// The workflow definition, from its already-formatted parts.
pub open spec fn dataproc_yaml(
    project: Seq<char>,
    region: Seq<char>,
    batch: Seq<char>,
    image: Seq<char>,
    script: Seq<char>,
    jar_array: Seq<char>,
    args_array: Seq<char>,
    runtime: Seq<char>,
    account: Seq<char>,
    staging: Seq<char>,
    subnet: Seq<char>,
    tags_array: Seq<char>,
) -> Seq<char> {
    WF_INIT@ + batch + WF_CALL@ + project + WF_LOCATIONS@ + region + WF_BATCH@ + script + WF_JARS@
        + jar_array + WF_ARGS@ + args_array + WF_RUNTIME@ + runtime + WF_QUOTE@ + image_line(image)
        + WF_ACCOUNT@ + account + WF_STAGING@ + staging + WF_SUBNET@ + subnet + WF_TAGS@
        + tags_array + WF_RETURN@
}

/// The jars with the connector added where it is needed.
fn jars_with_connector<'a>(jar_uris: &[&'a str], needs_bq_jar: bool) -> (r: Vec<&'a str>)
    ensures
        texts(r@) == batch_jars(texts(jar_uris@), needs_bq_jar),
{
    let pat = chars_of("spark-bigquery");
    let mut r: Vec<&'a str> = Vec::new();
    let mut has_bq = false;
    let mut i: usize = 0;
    while i < jar_uris.len()
        invariant
            i <= jar_uris@.len(),
            pat@ == "spark-bigquery"@,
            r@ == jar_uris@.take(i as int),
            has_bq == exists|j: int| 0 <= j < i && contains(#[trigger] texts(jar_uris@)[j], "spark-bigquery"@),
        decreases jar_uris.len() - i,
    {
        let c = chars_of(jar_uris[i]);
        proof {
            crate::text::lemma_find_none_all(c@, pat@, 0);
        }
        let hit = find_chars(&c, &pat, 0).is_some();
        assert(hit == contains(texts(jar_uris@)[i as int], "spark-bigquery"@));
        has_bq = has_bq || hit;
        r.push(jar_uris[i]);
        assert(r@ =~= jar_uris@.take(i + 1));
        i += 1;
    }
    assert(jar_uris@.take(jar_uris@.len() as int) =~= jar_uris@);
    if needs_bq_jar && !has_bq {
        r.push(SPARK_BQ_JAR);
        assert(texts(r@) =~= texts(jar_uris@).push(SPARK_BQ_JAR@));
    }
    r
}

/// The staging bucket without a `gs://` scheme or trailing slashes.
fn bare_bucket(s: &str) -> (r: &str)
    ensures
        r@ == bucket_name(s@),
{
    let c = chars_of(s);
    let scheme = chars_of("gs://");
    proof {
        reveal_strlit("gs://");
    }
    let start: usize = if c.len() >= 5 && range_eq(&c, 0, 5, &scheme) {
        5
    } else {
        0
    };
    let ghost u = if starts_with(s@, "gs://"@) {
        s@.skip(5)
    } else {
        s@
    };
    assert(u =~= c@.subrange(start as int, c@.len() as int));
    let end = crate::text::trim_end_index(&c, start, c.len(), TrimSet::Char('/'));
    proof {
        assert(c@.subrange(start as int, end as int) == trim_end_by(u, TrimSet::Char('/')));
    }
    s.substring_char(start, end)
}

/// The Cloud Workflows definition that submits a Dataproc Serverless PySpark
/// batch and returns its uuid (read from the operation's `metadata`, since
/// `batches.create` answers with a long-running operation).
pub fn generate_dataproc_workflow_yaml(
    project: &str,
    region: &str,
    batch_id_prefix: &str,
    image_uri: &str,
    script_uri: &str,
    jar_uris: &[&str],
    args: &[&str],
    runtime_version: &str,
    service_account: &str,
    staging_bucket: &str,
    subnetwork_uri: &str,
    network_tags: &[&str],
    needs_bq_jar: bool,
) -> (r: String)
    ensures
        r@ == dataproc_yaml(
            project@,
            region@,
            batch_id(batch_id_prefix@),
            image_uri@,
            script_uri@,
            yaml_array(batch_jars(texts(jar_uris@), needs_bq_jar)),
            yaml_array(texts(args@)),
            runtime_version@,
            service_account@,
            bucket_name(staging_bucket@),
            subnetwork_uri@,
            yaml_array(texts(network_tags@)),
        ),
{
    let sanitized = sanitize_batch_id(batch_id_prefix);
    let all_jars = jars_with_connector(jar_uris, needs_bq_jar);
    let jar_array = format_yaml_string_array(all_jars.as_slice());
    let args_array = format_yaml_string_array(args);
    let tags_array = format_yaml_string_array(network_tags);
    let staging = bare_bucket(staging_bucket);
    let mut r = String::new();
    r.append(WF_INIT);
    r.append(sanitized.as_str());
    r.append(WF_CALL);
    r.append(project);
    r.append(WF_LOCATIONS);
    r.append(region);
    r.append(WF_BATCH);
    r.append(script_uri);
    r.append(WF_JARS);
    r.append(jar_array.as_str());
    r.append(WF_ARGS);
    r.append(args_array.as_str());
    r.append(WF_RUNTIME);
    r.append(runtime_version);
    r.append(WF_QUOTE);
    if image_uri.unicode_len() > 0 {
        r.append(WF_IMAGE);
        r.append(image_uri);
        r.append(WF_QUOTE);
    }
    r.append(WF_ACCOUNT);
    r.append(service_account);
    r.append(WF_STAGING);
    r.append(staging);
    r.append(WF_SUBNET);
    r.append(subnetwork_uri);
    r.append(WF_TAGS);
    r.append(tags_array.as_str());
    r.append(WF_RETURN);
    r
}

// ───────────────────────── per-job definitions ─────────────────────────

/// The workflow definition of an export job; the BigQuery connector is always
/// needed, since an export reads from BigQuery.
pub open spec fn export_definition(inputs: ExportJobInputs) -> Seq<char> {
    dataproc_yaml(
            inputs.project@,
            inputs.region@,
            batch_id(inputs.name@),
            inputs.image_uri@,
            inputs.script_uri@,
            yaml_array(batch_jars(texts(inputs.jar_uris@), true)),
            yaml_array(
                seq![
                    inputs.process_bucket@,
                    inputs.source_dataset@,
                    inputs.source_table@,
                    inputs.connection_string@,
                    inputs.secret@,
                    inputs.dest_table@,
                ],
            ),
            inputs.runtime_version@,
            inputs.service_account@,
            bucket_name(inputs.staging_bucket@),
            inputs.subnetwork_uri@,
            yaml_array(texts(inputs.network_tags@)),
        )
}

/// Writes the workflow definition of an export job.
pub fn generate_export_workflow(inputs: &ExportJobInputs<'_>) -> (r: String)
    ensures
        r@ == export_definition(*inputs),
{
    let args = build_export_args(
        inputs.process_bucket,
        inputs.source_dataset,
        inputs.source_table,
        inputs.connection_string,
        inputs.secret,
        inputs.dest_table,
    );
    assert(texts(args@) =~= seq![
        inputs.process_bucket@,
        inputs.source_dataset@,
        inputs.source_table@,
        inputs.connection_string@,
        inputs.secret@,
        inputs.dest_table@,
    ]);
    generate_dataproc_workflow_yaml(
        inputs.project,
        inputs.region,
        inputs.name,
        inputs.image_uri,
        inputs.script_uri,
        inputs.jar_uris.as_slice(),
        args.as_slice(),
        inputs.runtime_version,
        inputs.service_account,
        inputs.staging_bucket,
        inputs.subnetwork_uri,
        inputs.network_tags.as_slice(),
        true,
    )
}

/// The text of an optional string, or `default` when it is absent.
pub open spec fn text_or<'a>(o: Option<&'a str>, default: Seq<char>) -> Seq<char> {
    match o {
        Some(s) => s@,
        None => default,
    }
}

/// The script arguments of an ingest job: those for Cloud Storage (a missing
/// landing bucket is empty) or those for BigQuery (the destination project
/// defaults to the job's project, a missing dataset or table is empty).
pub open spec fn ingest_args(inputs: IngestJobInputs) -> Seq<Seq<char>> {
    match inputs.destination {
        DestinationType::Gcs => seq![
            inputs.secret@,
            text_or(inputs.landing_bucket, Seq::empty()),
            inputs.query@,
            inputs.connection_string@,
            inputs.process_bucket@,
        ],
        DestinationType::BigQuery => seq![
            inputs.secret@,
            inputs.query@,
            inputs.connection_string@,
            inputs.process_bucket@,
            text_or(inputs.dest_project, inputs.project@),
            text_or(inputs.dest_dataset, Seq::empty()),
            text_or(inputs.dest_table, Seq::empty()),
        ],
    }
}

fn or_str<'a>(o: Option<&'a str>, default: &'a str) -> (r: &'a str)
    ensures
        r@ == text_or(o, default@),
{
    match o {
        Some(s) => s,
        None => default,
    }
}

/// The script arguments of an export job are, in order, the process bucket,
/// the BigQuery source dataset and table, the connection string, the secret
/// and the destination table, and its batch always carries the BigQuery
/// connector.
pub proof fn law_export_args_carry_the_inputs(inputs: ExportJobInputs)
    ensures
        export_definition(inputs) == dataproc_yaml(
            inputs.project@,
            inputs.region@,
            batch_id(inputs.name@),
            inputs.image_uri@,
            inputs.script_uri@,
            yaml_array(batch_jars(texts(inputs.jar_uris@), true)),
            yaml_array(
                seq![
                    inputs.process_bucket@,
                    inputs.source_dataset@,
                    inputs.source_table@,
                    inputs.connection_string@,
                    inputs.secret@,
                    inputs.dest_table@,
                ],
            ),
            inputs.runtime_version@,
            inputs.service_account@,
            bucket_name(inputs.staging_bucket@),
            inputs.subnetwork_uri@,
            yaml_array(texts(inputs.network_tags@)),
        ),
{
}

/// The script arguments of an ingest job are laid out as its argument
/// builders take them, from the job's own inputs: to Cloud Storage, the
/// secret, the landing bucket (empty when none is given), the query, the
/// connection string and the process bucket; to BigQuery, the secret, the
/// query, the connection string, the process bucket, the destination
/// project (the job's own when none is given), dataset and table (empty
/// when not given).
pub proof fn law_ingest_args_carry_the_inputs(inputs: IngestJobInputs)
    ensures
        inputs.destination == DestinationType::Gcs ==> ingest_args(inputs) == seq![
            inputs.secret@,
            match inputs.landing_bucket {
                Some(b) => b@,
                None => Seq::<char>::empty(),
            },
            inputs.query@,
            inputs.connection_string@,
            inputs.process_bucket@,
        ],
        inputs.destination == DestinationType::BigQuery ==> ingest_args(inputs) == seq![
            inputs.secret@,
            inputs.query@,
            inputs.connection_string@,
            inputs.process_bucket@,
            match inputs.dest_project {
                Some(p) => p@,
                None => inputs.project@,
            },
            match inputs.dest_dataset {
                Some(d) => d@,
                None => Seq::<char>::empty(),
            },
            match inputs.dest_table {
                Some(t) => t@,
                None => Seq::<char>::empty(),
            },
        ],
{
}

/// The workflow definition of an ingest job; the BigQuery connector is
/// needed when the job writes to BigQuery.
pub open spec fn ingest_definition(inputs: IngestJobInputs) -> Seq<char> {
    dataproc_yaml(
        inputs.project@,
        inputs.region@,
        batch_id(inputs.name@),
        inputs.image_uri@,
        inputs.script_uri@,
        yaml_array(
            batch_jars(texts(inputs.jar_uris@), inputs.destination == DestinationType::BigQuery),
        ),
        yaml_array(ingest_args(inputs)),
        inputs.runtime_version@,
        inputs.service_account@,
        bucket_name(inputs.staging_bucket@),
        inputs.subnetwork_uri@,
        yaml_array(texts(inputs.network_tags@)),
    )
}

/// Writes the workflow definition of an ingest job.
pub fn generate_ingest_workflow(inputs: &IngestJobInputs<'_>) -> (r: String)
    ensures
        r@ == ingest_definition(*inputs),
{
    proof {
        reveal_strlit("");
        assert(""@ =~= Seq::<char>::empty());
    }
    let args = match inputs.destination {
        DestinationType::Gcs => build_ingest_gcs_args(
            inputs.secret,
            or_str(inputs.landing_bucket, ""),
            inputs.query,
            inputs.connection_string,
            inputs.process_bucket,
        ),
        DestinationType::BigQuery => build_ingest_bq_args(
            inputs.secret,
            inputs.query,
            inputs.connection_string,
            inputs.process_bucket,
            or_str(inputs.dest_project, inputs.project),
            or_str(inputs.dest_dataset, ""),
            or_str(inputs.dest_table, ""),
        ),
    };
    assert(texts(args@) =~= ingest_args(*inputs));
    let to_bq = match inputs.destination {
        DestinationType::Gcs => false,
        DestinationType::BigQuery => true,
    };
    generate_dataproc_workflow_yaml(
        inputs.project,
        inputs.region,
        inputs.name,
        inputs.image_uri,
        inputs.script_uri,
        inputs.jar_uris.as_slice(),
        args.as_slice(),
        inputs.runtime_version,
        inputs.service_account,
        inputs.staging_bucket,
        inputs.subnetwork_uri,
        inputs.network_tags.as_slice(),
        to_bq,
    )
}

// ───────────────────────── scheduler configuration ─────────────────────────

/// The scheduler settings of a job, with the given job and workflow names.
pub open spec fn job_sched_config<'a>(
    project: &'a str,
    region: &'a str,
    sched_name: &'a str,
    wf_name: &'a str,
    schedule: &'a str,
    time_zone: &'a str,
    service_account: &'a str,
    description: Option<&'a str>,
    paused: Option<bool>,
    retry_count: Option<i32>,
    attempt_deadline: Option<&'a str>,
) -> SchedulerBodyConfig<'a> {
    SchedulerBodyConfig {
        project,
        region,
        sched_name,
        wf_name,
        schedule,
        time_zone,
        service_account,
        description,
        paused,
        retry_count,
        attempt_deadline,
    }
}

impl<'a> ExportJobInputs<'a> {
    /// The scheduler job configuration of this export job.
    pub fn sched_config(&'a self, sched_name: &'a str, wf_name: &'a str) -> (r: SchedulerBodyConfig<'a>)
        ensures
            r == job_sched_config(
                self.project,
                self.region,
                sched_name,
                wf_name,
                self.schedule,
                self.time_zone,
                self.service_account,
                self.description,
                self.paused,
                self.retry_count,
                self.attempt_deadline,
            ),
    {
        SchedulerBodyConfig {
            project: self.project,
            region: self.region,
            sched_name,
            wf_name,
            schedule: self.schedule,
            time_zone: self.time_zone,
            service_account: self.service_account,
            description: self.description,
            paused: self.paused,
            retry_count: self.retry_count,
            attempt_deadline: self.attempt_deadline,
        }
    }
}

impl<'a> IngestJobInputs<'a> {
    /// The scheduler job configuration of this ingest job.
    pub fn sched_config(&'a self, sched_name: &'a str, wf_name: &'a str) -> (r: SchedulerBodyConfig<'a>)
        ensures
            r == job_sched_config(
                self.project,
                self.region,
                sched_name,
                wf_name,
                self.schedule,
                self.time_zone,
                self.service_account,
                self.description,
                self.paused,
                self.retry_count,
                self.attempt_deadline,
            ),
    {
        SchedulerBodyConfig {
            project: self.project,
            region: self.region,
            sched_name,
            wf_name,
            schedule: self.schedule,
            time_zone: self.time_zone,
            service_account: self.service_account,
            description: self.description,
            paused: self.paused,
            retry_count: self.retry_count,
            attempt_deadline: self.attempt_deadline,
        }
    }
}

} // verus!
