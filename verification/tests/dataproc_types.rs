use gcpx::dataproc::{DatabaseType, DestinationType};


#[test]
fn test_database_type_from_str() {
    assert_eq!(DatabaseType::parse("oracle"), Some(DatabaseType::Oracle));
    assert_eq!(DatabaseType::parse("ORACLE"), Some(DatabaseType::Oracle));
    assert_eq!(DatabaseType::parse("Oracle"), Some(DatabaseType::Oracle));
    assert_eq!(DatabaseType::parse("mssql"), Some(DatabaseType::Mssql));
    assert_eq!(DatabaseType::parse("mysql"), Some(DatabaseType::Mysql));
    assert_eq!(
        DatabaseType::parse("postgres"),
        Some(DatabaseType::Postgres)
    );
}

#[test]
fn test_database_type_jdbc_prefix() {
    assert_eq!(DatabaseType::Oracle.jdbc_prefix(), "jdbc:oracle:");
    assert_eq!(DatabaseType::Mssql.jdbc_prefix(), "jdbc:sqlserver:");
    assert_eq!(DatabaseType::Mysql.jdbc_prefix(), "jdbc:mysql:");
    assert_eq!(DatabaseType::Postgres.jdbc_prefix(), "jdbc:postgresql:");
}

#[test]
fn test_database_type_unknown_returns_none() {
    assert_eq!(DatabaseType::parse("sqlite"), None);
    assert_eq!(DatabaseType::parse(""), None);
    assert_eq!(DatabaseType::parse("db2"), None);
}

#[test]
fn test_destination_type_from_str() {
    assert_eq!(DestinationType::parse("gcs"), Some(DestinationType::Gcs));
    assert_eq!(DestinationType::parse("GCS"), Some(DestinationType::Gcs));
    assert_eq!(
        DestinationType::parse("bigquery"),
        Some(DestinationType::BigQuery)
    );
    assert_eq!(
        DestinationType::parse("BigQuery"),
        Some(DestinationType::BigQuery)
    );
}

#[test]
fn test_destination_type_unknown_returns_none() {
    assert_eq!(DestinationType::parse("s3"), None);
    assert_eq!(DestinationType::parse(""), None);
}

