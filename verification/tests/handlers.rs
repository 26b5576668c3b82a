use gcpx::config::references_missing_objects;

/// A model whose tables are created by the same stack must not fail its own
/// preview: the dry run reports the missing dataset, which is expected on a
/// first run.
#[test]
fn missing_objects_are_not_treated_as_invalid_sql() {
    for message in [
        r#"{"error":{"code":404,"message":"Not found: Dataset p:ds was not found in location US"}}"#,
        "Not found: Table p:ds.t",
        "notFound",
    ] {
        assert!(
            references_missing_objects(message),
            "should be tolerated during preview: {message}"
        );
    }
}

#[test]
fn genuine_sql_errors_are_still_reported() {
    // The case the dry run exists for: catching a broken query before a
    // deploy runs it.
    for message in [
        "Syntax error: Unexpected identifier \"SELEC\" at [1:1]",
        "Column x is not present in table y",
        "Query exceeded limit for bytes billed",
    ] {
        assert!(
            !references_missing_objects(message),
            "should still fail validation: {message}"
        );
    }
}
