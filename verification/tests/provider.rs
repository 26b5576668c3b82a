use gcpx::provider::all_resource_types;
use gcpx::provider::{resource_kind, unknown_type_message, ResourceKind};

#[test]
fn resource_tokens_are_well_formed() {
    // These strings appear in every user's stack file and state, so a typo
    // is a breaking change that no amount of testing elsewhere catches.
    for token in all_resource_types() {
        let parts: Vec<&str> = token.split(':').collect();
        assert_eq!(parts.len(), 3, "{token} should be pkg:module:Type");
        assert_eq!(parts[0], "gcpx", "{token} must be in the gcpx package");
        assert!(
            parts[2].starts_with(|c: char| c.is_ascii_uppercase()),
            "{token} type name should be capitalised"
        );
    }
}

#[test]
fn resource_tokens_are_unique() {
    let mut seen = std::collections::HashSet::new();
    for token in all_resource_types() {
        assert!(seen.insert(token), "duplicate resource token {token}");
    }
}

#[test]
fn the_eleven_predecessor_types_are_all_still_served() {
    // Parity contract: dropping one of these silently breaks every stack
    // that uses it.
    let all = all_resource_types();
    for token in [
        "gcpx:bigquery/tableSchema:TableSchema",
        "gcpx:bigquery/table:Table",
        "gcpx:bigquery/dataset:Dataset",
        "gcpx:bigquery/routineFunction:RoutineFunction",
        "gcpx:dbt/project:Project",
        "gcpx:dbt/model:Model",
        "gcpx:dbt/macro:Macro",
        "gcpx:dbt/snapshot:Snapshot",
        "gcpx:scheduler/sqlJob:SqlJob",
        "gcpx:dataproc/ingestJob:IngestJob",
        "gcpx:dataproc/exportJob:ExportJob",
    ] {
        assert!(all.contains(&token), "{token} was dropped in the migration");
    }
}

#[test]
fn every_token_routes_to_its_kind_and_others_to_none() {
    assert!(resource_kind("gcpx:dbt/model:Model") == Some(ResourceKind::DbtModel));
    assert!(resource_kind("gcpx:scheduler/sqlJob:SqlJob") == Some(ResourceKind::SqlJob));
    assert!(resource_kind("gcpx:agent/memory:Memory") == Some(ResourceKind::Memory));
    for t in gcpx::provider::all_resource_types() {
        assert!(resource_kind(t).is_some());
    }
    assert!(resource_kind("gcpx:dbt/modle:Model").is_none());
    assert_eq!(
        unknown_type_message("x:y:Z"),
        "unknown resource type 'x:y:Z'. This provider serves the gcpx:* types listed in its schema; check the type token for a typo."
    );
}

#[test]
fn agent_eval_is_served() {
    assert!(resource_kind("gcpx:agent/agentEval:AgentEval") == Some(ResourceKind::AgentEval));
    assert!(all_resource_types().contains(&"gcpx:agent/agentEval:AgentEval"));
}
