use gcpx::config::{extract_model_config, parse_u32};
use gcpx::dataproc::{definition_fingerprint, fingerprint_text, generate_ingest_workflow, DatabaseType, DestinationType, IngestJobInputs};
use gcpx::macros::MacroDef;
use gcpx::model::{ModelConfig, PartitionConfig};
use gcpx::options::{merge_options, OwnedTableOptions, TableOptions};
use gcpx::strmap::StrMap;
use gcpx::validate::{i64_to_text, validate_max_bytes_billed};
use gcpx::workflow::{escape_sql_for_yaml, format_step};

#[test]
fn fingerprints_are_sixteen_lowercase_hex_digits() {
    assert_eq!(fingerprint_text(0), "0000000000000000");
    assert_eq!(fingerprint_text(255), "00000000000000ff");
    assert_eq!(fingerprint_text(u64::MAX), "ffffffffffffffff");
    let a = definition_fingerprint("- init: a");
    let b = definition_fingerprint("- init: a");
    let c = definition_fingerprint("- init: b");
    assert_eq!(a, b);
    assert_ne!(a, c);
    assert_eq!(a.len(), 16);
    assert!(a.chars().all(|ch| ch.is_ascii_hexdigit() && !ch.is_ascii_uppercase()));
}

#[test]
fn yaml_sql_indents_continuation_lines_and_drops_crlf() {
    assert_eq!(escape_sql_for_yaml(""), "");
    assert_eq!(escape_sql_for_yaml("SELECT 1"), "SELECT 1");
    assert_eq!(
        escape_sql_for_yaml("SELECT *\r\nFROM t\n"),
        "SELECT *\n                FROM t"
    );
    assert_eq!(escape_sql_for_yaml("a\n\nb"), "a\n                \n                b");
    assert_eq!(escape_sql_for_yaml("a\rb"), "a\rb");
}

#[test]
fn a_step_runs_its_sql_through_the_bigquery_connector() {
    assert_eq!(
        format_step("s", "p", "SELECT 1\nFROM t"),
        "- s:\n    call: googleapis.bigquery.v2.jobs.query\n    args:\n        projectId: p\n        body:\n            useLegacySql: false\n            useQueryCache: false\n            timeoutMs: 600000\n            query: |\n                SELECT 1\n                FROM t"
    );
}

#[test]
fn u32_parsing_follows_str_parse() {
    assert_eq!(parse_u32("30"), Some(30));
    assert_eq!(parse_u32("+7"), Some(7));
    assert_eq!(parse_u32("007"), Some(7));
    assert_eq!(parse_u32("4294967295"), Some(u32::MAX));
    assert_eq!(parse_u32("4294967296"), None);
    assert_eq!(parse_u32(""), None);
    assert_eq!(parse_u32("+"), None);
    assert_eq!(parse_u32("-1"), None);
    assert_eq!(parse_u32(" 1"), None);
    assert_eq!(parse_u32("1a"), None);
    for s in ["0", "12", "+99", "99999999999", "x"] {
        assert_eq!(parse_u32(s), s.parse::<u32>().ok(), "{s}");
    }
}

#[test]
fn model_config_reads_every_option() {
    let sql = "{{ config(materialized='incremental', unique_key=['a', 'b'], incremental_strategy='merge', \
               partition_by={'field': 'ts', 'data_type': 'timestamp', 'granularity': 'hour'}, \
               cluster_by=['c'], require_partition_filter='TRUE', partition_expiration_days='30', \
               friendly_name='F', description='D', labels={'env': 'prod', 'team': 'x'}, \
               kms_key_name='k', default_collation_name='und:ci', enable_refresh=false, \
               refresh_interval_minutes='abc', max_staleness='0-0 0 4:0:0') }} SELECT 1";
    let c = extract_model_config(sql, &StrMap::new());
    assert_eq!(c.materialization, "incremental");
    assert_eq!(c.unique_key, None);
    assert_eq!(c.unique_key_list, Some(vec!["a".to_owned(), "b".to_owned()]));
    assert_eq!(c.incremental_strategy.as_deref(), Some("merge"));
    let p = c.partition_by.as_ref().unwrap();
    assert_eq!((p.field.as_str(), p.data_type.as_str()), ("ts", "timestamp"));
    assert_eq!(p.granularity.as_deref(), Some("hour"));
    assert_eq!(p.to_ddl(), "TIMESTAMP_TRUNC(ts, HOUR)");
    assert_eq!(c.cluster_by, Some(vec!["c".to_owned()]));
    assert_eq!(c.require_partition_filter, Some(true));
    assert_eq!(c.partition_expiration_days, Some(30));
    assert_eq!(c.friendly_name.as_deref(), Some("F"));
    assert_eq!(c.description.as_deref(), Some("D"));
    assert_eq!(c.labels, vec![("env".to_owned(), "prod".to_owned()), ("team".to_owned(), "x".to_owned())]);
    assert_eq!(c.kms_key_name.as_deref(), Some("k"));
    assert_eq!(c.default_collation_name.as_deref(), Some("und:ci"));
    assert_eq!(c.enable_refresh, Some(false));
    assert_eq!(c.refresh_interval_minutes, None);
    assert_eq!(c.max_staleness.as_deref(), Some("0-0 0 4:0:0"));
}

#[test]
fn model_config_defaults_to_table_and_later_settings_win() {
    let c = extract_model_config("SELECT 1", &StrMap::new());
    assert_eq!(c.materialization, "table");
    let c = extract_model_config(
        "{{ config(materialized='view') }} {{ config(materialized='ephemeral') }}",
        &StrMap::new(),
    );
    assert_eq!(c.materialization, "ephemeral");
}

#[test]
fn model_config_is_read_after_macro_expansion() {
    let mut macros = StrMap::new();
    macros.insert(
        "cfg",
        MacroDef {
            args: vec![],
            sql: "{{ config(materialized='view') }}".to_owned(),
        },
    );
    let c = extract_model_config("{{ cfg() }} SELECT 1", &macros);
    assert_eq!(c.materialization, "view");
}

#[test]
fn partition_on_datetime_defaults_to_day() {
    let p = PartitionConfig {
        field: "dt".to_owned(),
        data_type: "DateTime".to_owned(),
        granularity: None,
    };
    assert_eq!(p.to_ddl(), "DATETIME_TRUNC(dt, DAY)");
}

#[test]
fn merged_labels_take_the_override_value() {
    let mut base_labels = StrMap::new();
    base_labels.insert("env", "dev");
    base_labels.insert("team", "a");
    let mut over_labels = StrMap::new();
    over_labels.insert("env", "prod");
    let base = TableOptions {
        labels: base_labels,
        ..Default::default()
    };
    let over = TableOptions {
        labels: over_labels,
        ..Default::default()
    };
    let m = merge_options(&base, &over);
    assert_eq!(m.labels.get("env"), Some(&"prod"));
    assert_eq!(m.labels.get("team"), Some(&"a"));
    assert_eq!(
        m.to_ddl(),
        "OPTIONS(labels = [(\"env\", \"prod\"), (\"team\", \"a\")])"
    );
    let unchanged = merge_options(&base, &TableOptions::default());
    assert_eq!(unchanged.to_ddl(), base.to_ddl());
}

#[test]
fn options_render_in_fixed_order_with_days() {
    let opts = TableOptions {
        partition_expiration_days: Some(2),
        max_staleness: Some("x\"y"),
        require_partition_filter: Some(false),
        ..Default::default()
    };
    assert_eq!(
        opts.to_ddl(),
        "OPTIONS(require_partition_filter = false, partition_expiration_days = 2, max_staleness = INTERVAL \"x\\\"y\")"
    );
}

#[test]
fn owned_options_and_overrides_carry_every_field() {
    let mut labels = StrMap::new();
    labels.insert("b", "2".to_owned());
    labels.insert("a", "1".to_owned());
    let owned = OwnedTableOptions {
        description: Some("d".to_owned()),
        refresh_interval_minutes: Some(5),
        labels,
        ..Default::default()
    };
    let t = owned.to_table_options();
    assert_eq!(t.description, Some("d"));
    assert_eq!(t.refresh_interval_minutes, Some(5));
    assert_eq!(t.labels.key_at(0), "a");
    let mut config: ModelConfig = extract_model_config("{{ config(description='old', labels={'z': '9'}) }}", &StrMap::new());
    config.override_options(&owned);
    assert_eq!(config.description.as_deref(), Some("d"));
    assert_eq!(config.labels, vec![("a".to_owned(), "1".to_owned()), ("b".to_owned(), "2".to_owned())]);
    let t2 = config.to_table_options();
    assert_eq!(t2.labels.len(), 2);
}

#[test]
fn non_positive_byte_limits_are_rejected() {
    assert!(validate_max_bytes_billed(None).is_empty());
    assert!(validate_max_bytes_billed(Some(1)).is_empty());
    let f = validate_max_bytes_billed(Some(-5));
    assert_eq!(f.len(), 1);
    assert_eq!(
        f[0].reason,
        "maxBytesBilled must be greater than 0, got -5. Set a positive byte limit or remove the field to disable cost governance."
    );
    assert_eq!(i64_to_text(i64::MIN), "-9223372036854775808");
    assert_eq!(i64_to_text(0), "0");
}

#[test]
fn ingest_to_bigquery_defaults_the_destination_project() {
    let inputs = IngestJobInputs {
        project: "proj",
        region: "r",
        name: "Daily Load",
        database_type: DatabaseType::Mysql,
        connection_string: "jdbc:mysql://h/db",
        secret: "s",
        query: "SELECT 1",
        destination: DestinationType::BigQuery,
        landing_bucket: None,
        dest_project: None,
        dest_dataset: Some("ds"),
        dest_table: None,
        image_uri: "",
        script_uri: "gs://b/i.py",
        jar_uris: vec![],
        runtime_version: "2.2",
        service_account: "sa",
        staging_bucket: "gs://st//",
        process_bucket: "gs://pr",
        subnetwork_uri: "sub",
        network_tags: vec![],
        schedule: "0 * * * *",
        time_zone: "UTC",
        paused: None,
        description: None,
        retry_count: None,
        attempt_deadline: None,
    };
    let yaml = generate_ingest_workflow(&inputs);
    assert!(yaml.contains(r#"args: ["s", "SELECT 1", "jdbc:mysql://h/db", "gs://pr", "proj", "ds", ""]"#), "{yaml}");
    assert!(yaml.contains("spark-bigquery"), "{yaml}");
    assert!(yaml.contains(r#"stagingBucket: "st""#), "{yaml}");
    assert!(yaml.contains(r#"batchId: ${"daily-load-" + short_uuid}"#), "{yaml}");
}
