//! Type-2 slowly changing dimension snapshots: the snapshot table, the
//! statements that keep it current, and the workflow that runs them.
//!
//! The quoted table reference and the escaped key and timestamp column names
//! are made by the identifier-quoting code at the edge and handed in as a
//! [`SnapshotRefs`].
use vstd::prelude::*;

use crate::workflow::{format_step, step_yaml};

verus! {

/// The inputs of a snapshot resource.
#[derive(Debug)]
pub struct SnapshotInputs<'a> {
    pub project: &'a str,
    pub region: &'a str,
    pub dataset: &'a str,
    pub name: &'a str,
    pub source_sql: &'a str,
    pub unique_key: &'a str,
    pub strategy: &'a str,
    pub updated_at: &'a str,
    pub schedule: &'a str,
    pub time_zone: &'a str,
    pub service_account: &'a str,
    pub description: Option<&'a str>,
    pub paused: Option<bool>,
    pub invalidate_hard_deletes: Option<bool>,
    pub auto_optimize: Option<bool>,
    pub source_schema: Option<&'a str>,
}

/// What a deployed snapshot records of itself.
pub struct SnapshotState {
    pub workflow_name: String,
    pub scheduler_job_name: String,
    pub snapshot_table: String,
    pub state: String,
    pub next_run_time: String,
}

/// The quoted names a snapshot's statements use: the table reference, and
/// the escaped unique key and `updated_at` column names.
pub struct SnapshotRefs<'a> {
    pub table_ref: &'a str,
    pub key: &'a str,
    pub ts: &'a str,
}

pub const CREATE_HEAD: &'static str = "CREATE TABLE IF NOT EXISTS ";

pub const OPTIMIZE: &'static str = "\nPARTITION BY DATE(dbt_valid_from)\nCLUSTER BY `";

pub const BACKTICK: &'static str = "`";

pub const SCD_SELECT: &'static str = " AS\nSELECT src.*,\nTO_HEX(MD5(CAST(src.`";

pub const SCD_KEY_END: &'static str = "` AS STRING) || '|' || CAST(src.`";

pub const SCD_TS_END: &'static str = "` AS STRING))) AS dbt_scd_id,\nsrc.`";

pub const SCD_COLUMNS: &'static str = "` AS dbt_updated_at,\nCURRENT_TIMESTAMP() AS dbt_valid_from,\nCAST(NULL AS TIMESTAMP) AS dbt_valid_to\nFROM (";

pub const SRC_END: &'static str = ") src";

pub const UPDATE_HEAD: &'static str = "UPDATE ";

pub const INVALIDATE_WHERE: &'static str = " snap\nSET snap.dbt_valid_to = CURRENT_TIMESTAMP()\nWHERE snap.dbt_valid_to IS NULL\nAND snap.`";

pub const IN_SELECT: &'static str = "` IN (\nSELECT src.`";

pub const FROM_OPEN: &'static str = "` FROM (";

pub const NEWER: &'static str = ") src\nWHERE src.`";

pub const NEWER_END: &'static str = "` > snap.dbt_updated_at\n)";

pub const INSERT_HEAD: &'static str = "INSERT INTO ";

pub const INSERT_SELECT: &'static str = "\nSELECT src.*,\nTO_HEX(MD5(CAST(src.`";

pub const LEFT_JOIN: &'static str = ") src\nLEFT JOIN ";

pub const JOIN_ON: &'static str = " snap\nON src.`";

pub const JOIN_EQ: &'static str = "` = snap.`";

pub const JOIN_CURRENT: &'static str = "` AND snap.dbt_valid_to IS NULL\nWHERE snap.`";

pub const KEY_NULL: &'static str = "` IS NULL OR src.`";

pub const TS_NEWER: &'static str = "` > snap.dbt_updated_at";

pub const NOT_IN_SELECT: &'static str = "` NOT IN (\nSELECT src.`";

pub const CLOSE_SUBQUERY: &'static str = ") src\n)";

/// The SCD columns selected over the source: a row id from key and
/// timestamp, the update time, and an open validity interval.
pub open spec fn scd_select(key: Seq<char>, ts: Seq<char>, source: Seq<char>) -> Seq<char> {
    key + SCD_KEY_END@ + ts + SCD_TS_END@ + ts + SCD_COLUMNS@ + source
}

/// Whether the snapshot table is partitioned and clustered (the default).
pub open spec fn optimized(o: Option<bool>) -> bool {
    match o {
        Some(b) => b,
        None => true,
    }
}

/// The statement that creates the snapshot table.
pub open spec fn create_ddl_text(inputs: SnapshotInputs, r: SnapshotRefs) -> Seq<char> {
    CREATE_HEAD@ + r.table_ref@ + (if optimized(inputs.auto_optimize) {
        OPTIMIZE@ + r.key@ + BACKTICK@
    } else {
        Seq::empty()
    }) + SCD_SELECT@ + scd_select(r.key@, r.ts@, inputs.source_sql@) + SRC_END@
}

/// The statement that closes the current version of each changed row.
pub open spec fn invalidate_text(inputs: SnapshotInputs, r: SnapshotRefs) -> Seq<char> {
    UPDATE_HEAD@ + r.table_ref@ + INVALIDATE_WHERE@ + r.key@ + IN_SELECT@ + r.key@ + FROM_OPEN@
        + inputs.source_sql@ + NEWER@ + r.ts@ + NEWER_END@
}

/// The statement that inserts a new version of each new or changed row.
pub open spec fn insert_text(inputs: SnapshotInputs, r: SnapshotRefs) -> Seq<char> {
    INSERT_HEAD@ + r.table_ref@ + INSERT_SELECT@ + scd_select(r.key@, r.ts@, inputs.source_sql@)
        + LEFT_JOIN@ + r.table_ref@ + JOIN_ON@ + r.key@ + JOIN_EQ@ + r.key@ + JOIN_CURRENT@ + r.key@
        + KEY_NULL@ + r.ts@ + TS_NEWER@
}

/// The statement that closes the current version of rows gone from the source.
pub open spec fn hard_delete_text(inputs: SnapshotInputs, r: SnapshotRefs) -> Seq<char> {
    UPDATE_HEAD@ + r.table_ref@ + INVALIDATE_WHERE@ + r.key@ + NOT_IN_SELECT@ + r.key@ + FROM_OPEN@
        + inputs.source_sql@ + CLOSE_SUBQUERY@
}

fn append_scd_select(out: &mut String, key: &str, ts: &str, source: &str)
    ensures
        final(out)@ == old(out)@ + scd_select(key@, ts@, source@),
{
    out.append(key);
    out.append(SCD_KEY_END);
    out.append(ts);
    out.append(SCD_TS_END);
    out.append(ts);
    out.append(SCD_COLUMNS);
    out.append(source);
}

/// Creates the snapshot table from the source, with the SCD columns; unless
/// `auto_optimize` is off it is partitioned by the validity start and
/// clustered by the key.
pub fn generate_snapshot_create_ddl(inputs: &SnapshotInputs<'_>, refs: &SnapshotRefs<'_>) -> (r: String)
    ensures
        r@ == create_ddl_text(*inputs, *refs),
{
    let mut ddl = String::new();
    ddl.append(CREATE_HEAD);
    ddl.append(refs.table_ref);
    let auto = match inputs.auto_optimize {
        Some(b) => b,
        None => true,
    };
    if auto {
        ddl.append(OPTIMIZE);
        ddl.append(refs.key);
        ddl.append(BACKTICK);
    }
    ddl.append(SCD_SELECT);
    append_scd_select(&mut ddl, refs.key, refs.ts, inputs.source_sql);
    ddl.append(SRC_END);
    proof {
        if !auto {
            assert(CREATE_HEAD@ + refs.table_ref@ + Seq::<char>::empty() =~= CREATE_HEAD@ + refs.table_ref@);
        }
    }
    ddl
}

/// Step one: closes the current version of every row whose source is newer.
pub fn generate_invalidate_sql(inputs: &SnapshotInputs<'_>, refs: &SnapshotRefs<'_>) -> (r: String)
    ensures
        r@ == invalidate_text(*inputs, *refs),
{
    let mut s = String::new();
    s.append(UPDATE_HEAD);
    s.append(refs.table_ref);
    s.append(INVALIDATE_WHERE);
    s.append(refs.key);
    s.append(IN_SELECT);
    s.append(refs.key);
    s.append(FROM_OPEN);
    s.append(inputs.source_sql);
    s.append(NEWER);
    s.append(refs.ts);
    s.append(NEWER_END);
    s
}

/// Step two: inserts a new version of every new or changed row.
pub fn generate_insert_sql(inputs: &SnapshotInputs<'_>, refs: &SnapshotRefs<'_>) -> (r: String)
    ensures
        r@ == insert_text(*inputs, *refs),
{
    let mut s = String::new();
    s.append(INSERT_HEAD);
    s.append(refs.table_ref);
    s.append(INSERT_SELECT);
    append_scd_select(&mut s, refs.key, refs.ts, inputs.source_sql);
    s.append(LEFT_JOIN);
    s.append(refs.table_ref);
    s.append(JOIN_ON);
    s.append(refs.key);
    s.append(JOIN_EQ);
    s.append(refs.key);
    s.append(JOIN_CURRENT);
    s.append(refs.key);
    s.append(KEY_NULL);
    s.append(refs.ts);
    s.append(TS_NEWER);
    s
}

/// Step three (optional): closes the current version of rows no longer in
/// the source.
pub fn generate_hard_delete_sql(inputs: &SnapshotInputs<'_>, refs: &SnapshotRefs<'_>) -> (r: String)
    ensures
        r@ == hard_delete_text(*inputs, *refs),
{
    let mut s = String::new();
    s.append(UPDATE_HEAD);
    s.append(refs.table_ref);
    s.append(INVALIDATE_WHERE);
    s.append(refs.key);
    s.append(NOT_IN_SELECT);
    s.append(refs.key);
    s.append(FROM_OPEN);
    s.append(inputs.source_sql);
    s.append(CLOSE_SUBQUERY);
    s
}

/// The snapshot workflow: invalidate changed rows, insert new versions, and,
/// when hard deletes are tracked, invalidate rows gone from the source; the
/// steps are separated by newlines.
pub open spec fn snapshot_workflow_text(inputs: SnapshotInputs, r: SnapshotRefs) -> Seq<char> {
    step_yaml("invalidateChanged"@, inputs.project@, invalidate_text(inputs, r)) + "\n"@ + step_yaml(
        "insertNewVersions"@,
        inputs.project@,
        insert_text(inputs, r),
    ) + if inputs.invalidate_hard_deletes == Some(true) {
        "\n"@ + step_yaml("invalidateHardDeletes"@, inputs.project@, hard_delete_text(inputs, r))
    } else {
        Seq::empty()
    }
}

/// Writes the multi-step workflow that keeps the snapshot current.
pub fn generate_snapshot_workflow_yaml(inputs: &SnapshotInputs<'_>, refs: &SnapshotRefs<'_>) -> (r:
    String)
    ensures
        r@ == snapshot_workflow_text(*inputs, *refs),
{
    let invalidate_sql = generate_invalidate_sql(inputs, refs);
    let insert_sql = generate_insert_sql(inputs, refs);
    let mut yaml = String::new();
    yaml.append(format_step("invalidateChanged", inputs.project, invalidate_sql.as_str()).as_str());
    yaml.append("\n");
    yaml.append(format_step("insertNewVersions", inputs.project, insert_sql.as_str()).as_str());
    let ghost two = yaml@;
    let hard = match inputs.invalidate_hard_deletes {
        Some(b) => b,
        None => false,
    };
    if hard {
        let hard_delete_sql = generate_hard_delete_sql(inputs, refs);
        yaml.append("\n");
        yaml.append(format_step("invalidateHardDeletes", inputs.project, hard_delete_sql.as_str()).as_str());
    } else {
        assert(two + Seq::<char>::empty() =~= two);
    }
    yaml
}

/// New versions are inserted for exactly the rows that have no current
/// version under their key or whose `updated_at` is later than the current
/// version's: the insert ends with that condition, the key column tested for
/// a missing current version and the `updated_at` column compared with the
/// recorded update time.
pub proof fn law_insert_versions_new_or_updated_rows(inputs: SnapshotInputs, r: SnapshotRefs)
    ensures
        crate::text::ends_with(
            insert_text(inputs, r),
            "\nWHERE snap.`"@ + r.key@ + "` IS NULL OR src.`"@ + r.ts@ + "` > snap.dbt_updated_at"@,
        ),
{
    let tail = "\nWHERE snap.`"@ + r.key@ + "` IS NULL OR src.`"@ + r.ts@ + "` > snap.dbt_updated_at"@;
    let head = INSERT_HEAD@ + r.table_ref@ + INSERT_SELECT@ + scd_select(r.key@, r.ts@, inputs.source_sql@)
        + LEFT_JOIN@ + r.table_ref@ + JOIN_ON@ + r.key@ + JOIN_EQ@ + r.key@
        + "` AND snap.dbt_valid_to IS NULL"@;
    reveal_strlit("` AND snap.dbt_valid_to IS NULL\nWHERE snap.`");
    reveal_strlit("` AND snap.dbt_valid_to IS NULL");
    reveal_strlit("\nWHERE snap.`");
    assert(JOIN_CURRENT@ =~= "` AND snap.dbt_valid_to IS NULL"@ + "\nWHERE snap.`"@);
    let s = insert_text(inputs, r);
    assert(s =~= head + tail);
    assert(s.subrange(s.len() - tail.len(), s.len() as int) =~= tail);
}

/// The current version of a row is closed exactly when the source holds a
/// row under the same key with a later `updated_at`: the invalidation ends
/// with that key membership and that comparison.
pub proof fn law_invalidate_closes_rows_updated_later(inputs: SnapshotInputs, r: SnapshotRefs)
    ensures
        crate::text::ends_with(
            invalidate_text(inputs, r),
            r.key@ + "` IN (\nSELECT src.`"@ + r.key@ + "` FROM ("@ + inputs.source_sql@
                + ") src\nWHERE src.`"@ + r.ts@ + "` > snap.dbt_updated_at\n)"@,
        ),
{
    let tail = r.key@ + "` IN (\nSELECT src.`"@ + r.key@ + "` FROM ("@ + inputs.source_sql@
        + ") src\nWHERE src.`"@ + r.ts@ + "` > snap.dbt_updated_at\n)"@;
    let head = UPDATE_HEAD@ + r.table_ref@ + INVALIDATE_WHERE@;
    let t = invalidate_text(inputs, r);
    assert(t =~= head + tail);
    assert(t.subrange(t.len() - tail.len(), t.len() as int) =~= tail);
}

/// A hard delete closes the current version of exactly the rows whose key
/// the source no longer holds: it ends with the key's non-membership in the
/// source's keys.
pub proof fn law_hard_delete_closes_rows_gone_from_source(inputs: SnapshotInputs, r: SnapshotRefs)
    ensures
        crate::text::ends_with(
            hard_delete_text(inputs, r),
            r.key@ + "` NOT IN (\nSELECT src.`"@ + r.key@ + "` FROM ("@ + inputs.source_sql@ + ") src\n)"@,
        ),
{
    let tail = r.key@ + "` NOT IN (\nSELECT src.`"@ + r.key@ + "` FROM ("@ + inputs.source_sql@ + ") src\n)"@;
    let head = UPDATE_HEAD@ + r.table_ref@ + INVALIDATE_WHERE@;
    let t = hard_delete_text(inputs, r);
    assert(t =~= head + tail);
    assert(t.subrange(t.len() - tail.len(), t.len() as int) =~= tail);
}

} // verus!


