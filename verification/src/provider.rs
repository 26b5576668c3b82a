//! The resource provider's fixed surface: the client it serves requests with,
//! and the resource types it serves.
use vstd::prelude::*;

use crate::text::str_eq;

verus! {

/// The provider, holding the client that performs every API call.
pub struct GcpxProvider<C> {
    pub client: C,
}

impl<C> GcpxProvider<C> {
    pub fn new(client: C) -> (r: Self)
        ensures
            r.client == client,
    {
        GcpxProvider { client }
    }
}

pub const TABLE_SCHEMA: &'static str = "gcpx:bigquery/tableSchema:TableSchema";
pub const TABLE: &'static str = "gcpx:bigquery/table:Table";
pub const DATASET: &'static str = "gcpx:bigquery/dataset:Dataset";
pub const ROUTINE: &'static str = "gcpx:bigquery/routineFunction:RoutineFunction";
pub const DBT_PROJECT: &'static str = "gcpx:dbt/project:Project";
pub const DBT_MODEL: &'static str = "gcpx:dbt/model:Model";
pub const DBT_MACRO: &'static str = "gcpx:dbt/macro:Macro";
pub const DBT_SNAPSHOT: &'static str = "gcpx:dbt/snapshot:Snapshot";
pub const SQL_JOB: &'static str = "gcpx:scheduler/sqlJob:SqlJob";
pub const INGEST_JOB: &'static str = "gcpx:dataproc/ingestJob:IngestJob";
pub const EXPORT_JOB: &'static str = "gcpx:dataproc/exportJob:ExportJob";
pub const DATA_AGENT: &'static str = "gcpx:agent/dataAgent:DataAgent";
pub const AGENT_IAM: &'static str = "gcpx:agent/dataAgentIamPolicy:DataAgentIamPolicy";
pub const CONVERSATION: &'static str = "gcpx:agent/conversation:Conversation";
pub const AGENT_ENGINE: &'static str = "gcpx:agent/agentEngine:AgentEngine";
pub const MEMORY: &'static str = "gcpx:agent/memory:Memory";
pub const AGENT_EVAL: &'static str = "gcpx:agent/agentEval:AgentEval";

/// Every resource type token, in schema order.
pub open spec fn resource_type_tokens() -> Seq<Seq<char>> {
    seq![
        TABLE_SCHEMA@,
        TABLE@,
        DATASET@,
        ROUTINE@,
        DBT_PROJECT@,
        DBT_MODEL@,
        DBT_MACRO@,
        DBT_SNAPSHOT@,
        SQL_JOB@,
        INGEST_JOB@,
        EXPORT_JOB@,
        DATA_AGENT@,
        AGENT_IAM@,
        CONVERSATION@,
        AGENT_ENGINE@,
        MEMORY@,
        AGENT_EVAL@,
    ]
}

/// Every resource type this provider serves. These tokens appear in users'
/// stack files and state, so they are never renamed.
pub fn all_resource_types() -> (r: Vec<&'static str>)
    ensures
        r@.map_values(|t: &'static str| t@) == resource_type_tokens(),
{
    let r = vec![
        TABLE_SCHEMA,
        TABLE,
        DATASET,
        ROUTINE,
        DBT_PROJECT,
        DBT_MODEL,
        DBT_MACRO,
        DBT_SNAPSHOT,
        SQL_JOB,
        INGEST_JOB,
        EXPORT_JOB,
        DATA_AGENT,
        AGENT_IAM,
        CONVERSATION,
        AGENT_ENGINE,
        MEMORY,
        AGENT_EVAL,
    ];
    assert(r@.map_values(|t: &'static str| t@) =~= resource_type_tokens());
    r
}

/// The resource types, one for each token.
#[derive(Clone, Copy, PartialEq, Eq)]
pub enum ResourceKind {
    TableSchema,
    Table,
    Dataset,
    Routine,
    DbtProject,
    DbtModel,
    DbtMacro,
    DbtSnapshot,
    SqlJob,
    IngestJob,
    ExportJob,
    DataAgent,
    AgentIam,
    Conversation,
    AgentEngine,
    Memory,
    AgentEval,
}

/// The token of each resource type.
pub open spec fn kind_token(k: ResourceKind) -> Seq<char> {
    match k {
        ResourceKind::TableSchema => TABLE_SCHEMA@,
        ResourceKind::Table => TABLE@,
        ResourceKind::Dataset => DATASET@,
        ResourceKind::Routine => ROUTINE@,
        ResourceKind::DbtProject => DBT_PROJECT@,
        ResourceKind::DbtModel => DBT_MODEL@,
        ResourceKind::DbtMacro => DBT_MACRO@,
        ResourceKind::DbtSnapshot => DBT_SNAPSHOT@,
        ResourceKind::SqlJob => SQL_JOB@,
        ResourceKind::IngestJob => INGEST_JOB@,
        ResourceKind::ExportJob => EXPORT_JOB@,
        ResourceKind::DataAgent => DATA_AGENT@,
        ResourceKind::AgentIam => AGENT_IAM@,
        ResourceKind::Conversation => CONVERSATION@,
        ResourceKind::AgentEngine => AGENT_ENGINE@,
        ResourceKind::Memory => MEMORY@,
        ResourceKind::AgentEval => AGENT_EVAL@,
    }
}

/// The resource type a request is routed to by its type token, if any.
pub fn resource_kind(token: &str) -> (r: Option<ResourceKind>)
    ensures
        r matches Some(k) ==> kind_token(k) == token@,
        r is None ==> forall|k: ResourceKind| kind_token(k) != token@,
{
    if str_eq(token, TABLE_SCHEMA) {
        return Some(ResourceKind::TableSchema);
    }
    if str_eq(token, TABLE) {
        return Some(ResourceKind::Table);
    }
    if str_eq(token, DATASET) {
        return Some(ResourceKind::Dataset);
    }
    if str_eq(token, ROUTINE) {
        return Some(ResourceKind::Routine);
    }
    if str_eq(token, DBT_PROJECT) {
        return Some(ResourceKind::DbtProject);
    }
    if str_eq(token, DBT_MODEL) {
        return Some(ResourceKind::DbtModel);
    }
    if str_eq(token, DBT_MACRO) {
        return Some(ResourceKind::DbtMacro);
    }
    if str_eq(token, DBT_SNAPSHOT) {
        return Some(ResourceKind::DbtSnapshot);
    }
    if str_eq(token, SQL_JOB) {
        return Some(ResourceKind::SqlJob);
    }
    if str_eq(token, INGEST_JOB) {
        return Some(ResourceKind::IngestJob);
    }
    if str_eq(token, EXPORT_JOB) {
        return Some(ResourceKind::ExportJob);
    }
    if str_eq(token, DATA_AGENT) {
        return Some(ResourceKind::DataAgent);
    }
    if str_eq(token, AGENT_IAM) {
        return Some(ResourceKind::AgentIam);
    }
    if str_eq(token, CONVERSATION) {
        return Some(ResourceKind::Conversation);
    }
    if str_eq(token, AGENT_ENGINE) {
        return Some(ResourceKind::AgentEngine);
    }
    if str_eq(token, MEMORY) {
        return Some(ResourceKind::Memory);
    }
    if str_eq(token, AGENT_EVAL) {
        return Some(ResourceKind::AgentEval);
    }
    assert forall|k: ResourceKind| kind_token(k) != token@ by {
        match k {
            ResourceKind::TableSchema => {},
            ResourceKind::Table => {},
            ResourceKind::Dataset => {},
            ResourceKind::Routine => {},
            ResourceKind::DbtProject => {},
            ResourceKind::DbtModel => {},
            ResourceKind::DbtMacro => {},
            ResourceKind::DbtSnapshot => {},
            ResourceKind::SqlJob => {},
            ResourceKind::IngestJob => {},
            ResourceKind::ExportJob => {},
            ResourceKind::DataAgent => {},
            ResourceKind::AgentIam => {},
            ResourceKind::Conversation => {},
            ResourceKind::AgentEngine => {},
            ResourceKind::Memory => {},
            ResourceKind::AgentEval => {},
        }
    }
    None
}

/// What a request for a type this provider does not serve is answered.
pub fn unknown_type_message(token: &str) -> (r: String)
    ensures
        r@ == "unknown resource type '"@ + token@
            + "'. This provider serves the gcpx:* types listed in its schema; check the type token for a typo."@,
{
    let mut r = String::new();
    r.append("unknown resource type '");
    r.append(token);
    r.append("'. This provider serves the gcpx:* types listed in its schema; check the type token for a typo.");
    r
}

} // verus!
