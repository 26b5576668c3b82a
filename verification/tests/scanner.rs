use gcpx::scanner::{ConfigArgIter, ConfigValue, DbtScanner, DbtSegment};


#[test]
fn scan_plain_sql() {
    let sql = "SELECT * FROM table";
    let segments: Vec<_> = DbtScanner::new(sql).collect();
    assert_eq!(segments, vec![DbtSegment::Sql("SELECT * FROM table")]);
}

#[test]
fn scan_config() {
    let sql = "{{ config(materialized='table') }}";
    let segments: Vec<_> = DbtScanner::new(sql).collect();
    assert_eq!(
        segments,
        vec![DbtSegment::Config {
            raw_args: "materialized='table'"
        }]
    );
}

#[test]
fn scan_ref() {
    let sql = "SELECT * FROM {{ ref('stg_customers') }}";
    let segments: Vec<_> = DbtScanner::new(sql).collect();
    assert_eq!(segments.len(), 2);
    assert_eq!(segments[0], DbtSegment::Sql("SELECT * FROM "));
    assert_eq!(
        segments[1],
        DbtSegment::Ref {
            model: "stg_customers"
        }
    );
}

#[test]
fn scan_source() {
    let sql = "FROM {{ source('raw', 'customers') }}";
    let segments: Vec<_> = DbtScanner::new(sql).collect();
    assert_eq!(segments.len(), 2);
    assert_eq!(
        segments[1],
        DbtSegment::Source {
            source: "raw",
            table: "customers"
        }
    );
}

#[test]
fn scan_macro_call() {
    let sql = "{{ surrogate_key('id, email') }}";
    let segments: Vec<_> = DbtScanner::new(sql).collect();
    assert_eq!(
        segments,
        vec![DbtSegment::Call {
            name: "surrogate_key",
            raw_args: "'id, email'"
        }]
    );
}

#[test]
fn scan_mixed() {
    let sql = "{{ config(materialized='view') }}\nSELECT * FROM {{ ref('stg') }}";
    let segments: Vec<_> = DbtScanner::new(sql).collect();
    assert!(segments.len() >= 3);
    assert!(matches!(segments[0], DbtSegment::Config { .. }));
    assert!(matches!(segments[2], DbtSegment::Ref { model: "stg" }));
}

#[test]
fn scan_empty_input() {
    let segments: Vec<_> = DbtScanner::new("").collect();
    assert!(segments.is_empty());
}

#[test]
fn scan_no_templates() {
    let sql = "SELECT 1 + 2 FROM {table}";
    let segments: Vec<_> = DbtScanner::new(sql).collect();
    // Should be all SQL segments, no template segments.
    for seg in &segments {
        match seg {
            DbtSegment::Sql(_) => {}
            _ => panic!("expected only Sql segments, got: {:?}", seg),
        }
    }
}

#[test]
fn scan_unclosed_template() {
    let sql = "SELECT {{ ref('x'";
    let segments: Vec<_> = DbtScanner::new(sql).collect();
    // Should not panic, treat as SQL.
    assert!(!segments.is_empty());
}

#[test]
fn config_iter_single() {
    let iter = ConfigArgIter::new("materialized='table'");
    let entries: Vec<_> = iter.collect();
    assert_eq!(entries.len(), 1);
    assert_eq!(entries[0].key, "materialized");
    match entries[0].value {
        ConfigValue::Str(v) => assert_eq!(v, "table"),
        _ => panic!("expected Str"),
    }
}

#[test]
fn config_iter_multiple() {
    let iter = ConfigArgIter::new("materialized='table', tags=['daily', 'mart']");
    let entries: Vec<_> = iter.collect();
    assert_eq!(entries.len(), 2);
    assert_eq!(entries[0].key, "materialized");
    assert_eq!(entries[1].key, "tags");
    match &entries[1].value {
        ConfigValue::List(items) => {
            assert_eq!(items, &["daily", "mart"]);
        }
        _ => panic!("expected List"),
    }
}

#[test]
fn config_iter_bool() {
    let iter = ConfigArgIter::new("materialized='incremental', unique_key='id'");
    let entries: Vec<_> = iter.collect();
    assert_eq!(entries.len(), 2);
}

#[test]
fn config_iter_empty() {
    let iter = ConfigArgIter::new("");
    let entries: Vec<_> = iter.collect();
    assert!(entries.is_empty());
}

#[test]
fn config_value_dict() {
    let iter = ConfigArgIter::new("partition_by={'field': 'order_date', 'data_type': 'date'}");
    let entries: Vec<_> = iter.collect();
    assert_eq!(entries.len(), 1);
    assert_eq!(entries[0].key, "partition_by");
    match &entries[0].value {
        ConfigValue::Dict(pairs) => {
            assert_eq!(pairs.len(), 2);
            assert_eq!(pairs[0], ("field", "order_date"));
            assert_eq!(pairs[1], ("data_type", "date"));
        }
        _ => panic!("expected Dict"),
    }
}

#[test]
fn config_value_dict_partition_by_with_other_args() {
    let iter = ConfigArgIter::new(
        "materialized='incremental', unique_key='id', partition_by={'field': 'ts', 'data_type': 'timestamp'}, cluster_by=['region']",
    );
    let entries: Vec<_> = iter.collect();
    assert_eq!(entries.len(), 4);
    assert_eq!(entries[0].key, "materialized");
    assert_eq!(entries[1].key, "unique_key");
    assert_eq!(entries[2].key, "partition_by");
    assert_eq!(entries[3].key, "cluster_by");
    match &entries[2].value {
        ConfigValue::Dict(pairs) => {
            assert_eq!(pairs[0], ("field", "ts"));
            assert_eq!(pairs[1], ("data_type", "timestamp"));
        }
        _ => panic!("expected Dict"),
    }
}

#[test]
fn unrecognised_templates_keep_their_braces() {
    let sql = "SELECT 1 -- a {{ comment-like }} thing";
    let segments: Vec<_> = DbtScanner::new(sql).collect();
    let mut joined = String::new();
    for s in &segments {
        match s {
            DbtSegment::Sql(t) => joined.push_str(t),
            _ => panic!("only text expected"),
        }
    }
    assert_eq!(joined, sql);
    assert!(segments.contains(&DbtSegment::Sql("{{ comment-like }}")));
}
