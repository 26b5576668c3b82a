use gcpx::model::{PartitionConfig, ResolvedSql};


#[test]
fn resolved_sql_no_ctes() {
    let r = ResolvedSql {
        ctes: vec![],
        body: "SELECT 1".to_owned(),
    };
    assert_eq!(r.to_sql(), "SELECT 1");
}

#[test]
fn resolved_sql_with_ctes() {
    let r = ResolvedSql {
        ctes: vec![
            ("cte1".to_owned(), "SELECT * FROM t".to_owned()),
            ("cte2".to_owned(), "SELECT * FROM cte1".to_owned()),
        ],
        body: "SELECT * FROM cte2".to_owned(),
    };
    let sql = r.to_sql();
    assert!(sql.starts_with("WITH cte1 AS (SELECT * FROM t), cte2 AS (SELECT * FROM cte1)"));
    assert!(sql.ends_with("SELECT * FROM cte2"));
}

#[test]
fn partition_config_date() {
    let pc = PartitionConfig {
        field: "order_date".to_owned(),
        data_type: "date".to_owned(),
        granularity: None,
    };
    assert_eq!(pc.to_ddl(), "order_date");
}

#[test]
fn partition_config_timestamp() {
    let pc = PartitionConfig {
        field: "created_at".to_owned(),
        data_type: "timestamp".to_owned(),
        granularity: Some("day".to_owned()),
    };
    assert_eq!(pc.to_ddl(), "TIMESTAMP_TRUNC(created_at, DAY)");
}

#[test]
fn partition_config_int64() {
    let pc = PartitionConfig {
        field: "id".to_owned(),
        data_type: "int64".to_owned(),
        granularity: None,
    };
    assert_eq!(pc.to_ddl(), "id");
}

