use gcpx::options::{merge_options, TableOptions};
use gcpx::strmap::StrMap;


#[test]
fn empty_options() {
    let opts = TableOptions::default();
    assert!(opts.is_empty());
    assert_eq!(opts.to_ddl(), "");
}

#[test]
fn partition_filter_only() {
    let opts = TableOptions {
        require_partition_filter: Some(true),
        ..Default::default()
    };
    assert!(!opts.is_empty());
    assert_eq!(opts.to_ddl(), "OPTIONS(require_partition_filter = true)");
}

#[test]
fn multiple_options() {
    let opts = TableOptions {
        require_partition_filter: Some(true),
        friendly_name: Some("My Table"),
        description: Some("A test table"),
        ..Default::default()
    };
    let ddl = opts.to_ddl();
    assert!(ddl.starts_with("OPTIONS("));
    assert!(ddl.contains("require_partition_filter = true"));
    assert!(ddl.contains("friendly_name = \"My Table\""));
    assert!(ddl.contains("description = \"A test table\""));
}

#[test]
fn labels() {
    let mut labels = StrMap::new();
    labels.insert("env", "prod");
    labels.insert("team", "analytics");
    let opts = TableOptions {
        labels,
        ..Default::default()
    };
    let ddl = opts.to_ddl();
    assert!(ddl.contains("labels = ["));
    assert!(ddl.contains("(\"env\", \"prod\")"));
    assert!(ddl.contains("(\"team\", \"analytics\")"));
}

#[test]
fn kms_and_collation() {
    let opts = TableOptions {
        kms_key_name: Some("projects/p/locations/l/keyRings/kr/cryptoKeys/k"),
        default_collation_name: Some("und:ci"),
        ..Default::default()
    };
    let ddl = opts.to_ddl();
    assert!(ddl.contains("kms_key_name"));
    assert!(ddl.contains("default_collation_name = \"und:ci\""));
}

#[test]
fn materialized_view_refresh() {
    let opts = TableOptions {
        enable_refresh: Some(true),
        refresh_interval_minutes: Some(30),
        max_staleness: Some("0-0 0 4:0:0"),
        ..Default::default()
    };
    let ddl = opts.to_ddl();
    assert!(ddl.contains("enable_refresh = true"));
    assert!(ddl.contains("refresh_interval_minutes = 30"));
    assert!(ddl.contains("max_staleness = INTERVAL \"0-0 0 4:0:0\""));
}

#[test]
fn merge_overrides() {
    let base = TableOptions {
        require_partition_filter: Some(false),
        friendly_name: Some("Base"),
        ..Default::default()
    };
    let over = TableOptions {
        require_partition_filter: Some(true),
        description: Some("Override"),
        ..Default::default()
    };
    let merged = merge_options(&base, &over);
    assert_eq!(merged.require_partition_filter, Some(true));
    assert_eq!(merged.friendly_name, Some("Base"));
    assert_eq!(merged.description, Some("Override"));
}

#[test]
fn escape_special_chars() {
    let opts = TableOptions {
        description: Some("Say \"hello\" \\ world"),
        ..Default::default()
    };
    let ddl = opts.to_ddl();
    assert!(ddl.contains("Say \\\"hello\\\" \\\\ world"));
}

