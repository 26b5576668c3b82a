//! Deploying a model: which statement creates it, which statement its
//! scheduler runs, and the sequence of BigQuery calls a create or an update
//! makes, as a state machine.
//!
//! [`plan_model`] fixes the statements that need no answer from BigQuery.
//! [`begin_model`] gives the first step, and [`model_step`] takes the reply
//! to the last call and gives the next one, until the step is a finish or a
//! failure.
use vstd::prelude::*;

use crate::checks::CheckFailure;
use crate::config::{extract_model_config, model_config};
use crate::preprocess::{preprocess, preprocessed, PreprocessError, PreprocessFailure};
use crate::resolver::{reports_failure, resolution, resolve_segments, Resolution, ResolveError, ResolveFailure, SpecResolution};
use crate::config::{only_missing_objects, references_missing_objects, strings_view};
use crate::macros::MacroDef;
use crate::model::{
    ModelOutput, is_overridden, last_value, options_of, found_text, ModelConfig, ModelRefData, PartitionConfig,
    ProjectContext, ResolvedSql,
};
use crate::options::{OwnedTableOptions, TableOptions};
use crate::strmap::{lookup, StrMap};
use crate::preprocess::join;
use crate::resolver::{
    append_text, ddl_text, delete_insert_text, generate_append_ddl, generate_ddl,
    generate_delete_insert_ddl, generate_merge_ddl, generate_merge_ddl_placeholder,
    generate_merge_replace_ddl, json_pairs, merge_replace_text, merge_text, on_text, pairs_json,
    pairs_to_json, pairs_view, placeholder_text, query_of, quoted_of, texts_view, updates_upto,
    QuotedName,
};
use crate::text::str_eq;
use crate::validate::{
    diff_options, failures_text, is_label_map, label_diffs, max_bytes_failures, model_failures,
    option_diffs, schema_errors, string_texts, validate_max_bytes_billed, validate_model,
    validate_model_schema, BqField,
};
use crate::workflow::{generate_workflow_yaml, step_yaml};

verus! {

// ───────────────────────── keys and statements ─────────────────────────

/// The unique keys of an incremental model: the key list when one is given,
/// else the single key, else none.
pub open spec fn unique_keys(c: ModelConfig) -> Seq<Seq<char>> {
    match c.unique_key_list {
        Some(l) => strings_view(l@),
        None => match c.unique_key {
            Some(k) => seq![k@],
            None => Seq::empty(),
        },
    }
}

fn copy_strings(v: &Vec<String>) -> (r: Vec<String>)
    ensures
        strings_view(r@) == strings_view(v@),
{
    let mut r: Vec<String> = Vec::new();
    let mut i: usize = 0;
    while i < v.len()
        invariant
            i <= v@.len(),
            r@.len() == i,
            forall|j: int| 0 <= j < i ==> #[trigger] r@[j]@ == v@[j]@,
        decreases v.len() - i,
    {
        let s = v[i].clone();
        assert(s@ == v@[i as int]@);
        r.push(s);
        i += 1;
    }
    assert(strings_view(r@) =~= strings_view(v@));
    r
}

/// The unique keys of an incremental model.
pub fn unique_keys_of(config: &ModelConfig) -> (r: Vec<String>)
    ensures
        strings_view(r@) == unique_keys(*config),
{
    match &config.unique_key_list {
        Some(l) => copy_strings(l),
        None => match &config.unique_key {
            Some(k) => {
                let r = vec![k.clone()];
                assert(strings_view(r@) =~= seq![k@]);
                r
            },
            None => {
                let r: Vec<String> = Vec::new();
                assert(strings_view(r@) =~= Seq::<Seq<char>>::empty());
                r
            },
        },
    }
}

/// How a model's table comes to be.
#[derive(PartialEq, Eq)]
pub enum DdlMode {
    /// The table exists (its id is given): its rows are replaced by a MERGE.
    MergeReplace,
    /// The table exists and the model is incremental: nothing is created,
    /// the scheduler does the work.
    Skip,
    /// The table or view is created (or replaced) by the model.
    Create,
}

/// The mode of a model with or without a given table id.
pub open spec fn ddl_mode_of(has_table_id: bool, materialization: Seq<char>) -> DdlMode {
    if has_table_id && materialization == "table"@ {
        DdlMode::MergeReplace
    } else if has_table_id && materialization == "incremental"@ {
        DdlMode::Skip
    } else {
        DdlMode::Create
    }
}

/// The mode of a model with or without a given table id.
pub fn ddl_mode(has_table_id: bool, materialization: &str) -> (r: DdlMode)
    ensures
        r == ddl_mode_of(has_table_id, materialization@),
{
    if has_table_id && str_eq(materialization, "table") {
        DdlMode::MergeReplace
    } else if has_table_id && str_eq(materialization, "incremental") {
        DdlMode::Skip
    } else {
        DdlMode::Create
    }
}

/// The clustering columns of a configuration as text.
pub open spec fn cluster_view(c: ModelConfig) -> Option<Seq<Seq<char>>> {
    match c.cluster_by {
        Some(v) => Some(texts_view(v@)),
        None => None,
    }
}

/// `ddl` is the statement that deploys a model of configuration `c` into
/// `table_ref`: the MERGE replacement or nothing when its table is given,
/// else the creating DDL with the configuration's layout and options.
pub open spec fn is_model_ddl(
    ddl: Seq<char>,
    table_ref: Seq<char>,
    has_table_id: bool,
    c: ModelConfig,
    query: Seq<char>,
) -> bool {
    match ddl_mode_of(has_table_id, c.materialization@) {
        DdlMode::MergeReplace => ddl == merge_replace_text(table_ref, query),
        DdlMode::Skip => ddl == Seq::<char>::empty(),
        DdlMode::Create => exists|o: TableOptions|
            options_of(o, c) && ddl == ddl_text(
                table_ref,
                c.materialization@,
                query,
                c.partition_by,
                cluster_view(c),
                Some(o),
            ),
    }
}

/// The statement that deploys a model.
pub fn model_ddl(table_ref: &str, has_table_id: bool, config: &ModelConfig, resolved: &ResolvedSql) -> (r:
    String)
    ensures
        is_model_ddl(r@, table_ref@, has_table_id, *config, query_of(*resolved)),
{
    match ddl_mode(has_table_id, config.materialization.as_str()) {
        DdlMode::MergeReplace => generate_merge_replace_ddl(table_ref, resolved),
        DdlMode::Skip => String::new(),
        DdlMode::Create => {
            let options = config.to_table_options();
            let partition: Option<&PartitionConfig> = match &config.partition_by {
                Some(p) => Some(p),
                None => None,
            };
            let cluster: Option<&[String]> = match &config.cluster_by {
                Some(c) => Some(c.as_slice()),
                None => None,
            };
            let r = generate_ddl(
                table_ref,
                config.materialization.as_str(),
                resolved,
                partition,
                cluster,
                Some(&options),
            );
            assert(options_of(options, *config));
            r
        },
    }
}

/// Where the statement a model's scheduler runs comes from.
pub enum SchedulerSql {
    /// It is known.
    Ready(String),
    /// A MERGE on these quoted keys, of this incremental query, whose
    /// `UPDATE SET` list needs the target table's columns.
    NeedsColumns { keys: Vec<QuotedName>, resolved: ResolvedSql },
}

/// The strategy of an incremental model: the configured one, else `merge`.
pub open spec fn strategy_of(c: ModelConfig) -> Seq<char> {
    match c.incremental_strategy {
        Some(s) => s@,
        None => "merge"@,
    }
}

/// `s` is the scheduler statement of a model: the deploying statement
/// itself unless the model is incremental; for an incremental model, by
/// strategy over the incremental query, the MERGE on the keys (its columns
/// still to be read when the deploy is real and there are keys, else the
/// insert-only MERGE), the delete+insert script or the append. An unknown
/// strategy is taken as `merge` without columns.
pub open spec fn is_scheduler_sql(
    s: SchedulerSql,
    c: ModelConfig,
    ddl: Seq<char>,
    table_ref: Seq<char>,
    preview: bool,
    keys: Seq<QuotedName>,
    resolved_inc: Option<ResolvedSql>,
) -> bool {
    if c.materialization@ != "incremental"@ {
        s matches SchedulerSql::Ready(t) && t@ == ddl
    } else {
        let q = query_of(resolved_inc.unwrap());
        let strategy = strategy_of(c);
        if strategy == "merge"@ && !preview && keys.len() > 0 {
            s matches SchedulerSql::NeedsColumns { keys: k, resolved } && k@ == keys && resolved
                == resolved_inc.unwrap()
        } else if strategy == "delete+insert"@ {
            s matches SchedulerSql::Ready(t) && t@ == delete_insert_text(table_ref, q, quoted_of(keys))
        } else if strategy == "append"@ {
            s matches SchedulerSql::Ready(t) && t@ == append_text(table_ref, q)
        } else {
            s matches SchedulerSql::Ready(t) && t@ == placeholder_text(table_ref, q, keys)
        }
    }
}

/// Everything a model's create or update needs besides BigQuery's answers.
pub struct ModelPlan {
    pub preview: bool,
    /// Whether the generated MERGE and the schema contract are checked by
    /// dry runs (on create).
    pub check_contract: bool,
    pub has_table_id: bool,
    pub ephemeral: bool,
    pub incremental: bool,
    pub project: String,
    pub table_ref: String,
    /// The statement that deploys the model.
    pub ddl: String,
    /// The model's query.
    pub select_sql: String,
    pub scheduler: SchedulerSql,
}

/// The plan of a model's create (`check_contract`) or update. `keys` are
/// the quoted unique keys; `resolved_inc` is the query resolved for
/// incremental runs, which an incremental model needs.
pub fn plan_model(
    preview: bool,
    check_contract: bool,
    has_table_id: bool,
    project: &str,
    table_ref: &str,
    config: &ModelConfig,
    resolved: &ResolvedSql,
    resolved_inc: Option<ResolvedSql>,
    keys: Vec<QuotedName>,
) -> (p: ModelPlan)
    requires
        config.materialization@ == "incremental"@ ==> resolved_inc is Some,
    ensures
        p.preview == preview,
        p.check_contract == check_contract,
        p.has_table_id == has_table_id,
        p.ephemeral == (config.materialization@ == "ephemeral"@),
        p.incremental == (config.materialization@ == "incremental"@),
        p.project@ == project@,
        p.table_ref@ == table_ref@,
        is_model_ddl(p.ddl@, table_ref@, has_table_id, *config, query_of(*resolved)),
        p.select_sql@ == query_of(*resolved),
        is_scheduler_sql(p.scheduler, *config, p.ddl@, table_ref@, preview, keys@, resolved_inc),
{
    let ddl = model_ddl(table_ref, has_table_id, config, resolved);
    let ephemeral = str_eq(config.materialization.as_str(), "ephemeral");
    let incremental = str_eq(config.materialization.as_str(), "incremental");
    let scheduler = if !incremental {
        let t = ddl.clone();
        assert(t@ == ddl@);
        let sq = SchedulerSql::Ready(t);
        assert(is_scheduler_sql(sq, *config, ddl@, table_ref@, preview, keys@, resolved_inc));
        sq
    } else {
        let ghost inc = resolved_inc;
        let r = match resolved_inc {
            Some(r) => r,
            None => {
                proof {
                    assert(false);
                }
                return ModelPlan {
                    preview,
                    check_contract,
                    has_table_id,
                    ephemeral,
                    incremental,
                    project: String::new(),
                    table_ref: String::new(),
                    ddl,
                    select_sql: String::new(),
                    scheduler: SchedulerSql::Ready(String::new()),
                };
            },
        };
        let is_merge = match &config.incremental_strategy {
            Some(st) => str_eq(st.as_str(), "merge"),
            None => true,
        };
        let is_delete_insert = match &config.incremental_strategy {
            Some(st) => str_eq(st.as_str(), "delete+insert"),
            None => false,
        };
        let is_append = match &config.incremental_strategy {
            Some(st) => str_eq(st.as_str(), "append"),
            None => false,
        };
        assert(r == inc.unwrap());
        assert(is_merge == (strategy_of(*config) == "merge"@));
        let ghost kv = keys@;
        proof {
            reveal_strlit("merge");
            reveal_strlit("delete+insert");
            reveal_strlit("append");
            assert("merge"@.len() == 5);
            assert("append"@.len() == 6);
            assert("delete+insert"@.len() == 13);
        }
        assert(is_delete_insert == (strategy_of(*config) == "delete+insert"@));
        assert(is_append == (strategy_of(*config) == "append"@));
        let sq = if is_merge && !preview && keys.len() > 0 {
            let x = SchedulerSql::NeedsColumns { keys, resolved: r };
            assert(is_scheduler_sql(x, *config, ddl@, table_ref@, preview, kv, resolved_inc));
            x
        } else if is_delete_insert {
            SchedulerSql::Ready(generate_delete_insert_ddl(table_ref, keys.as_slice(), &r))
        } else if is_append {
            SchedulerSql::Ready(generate_append_ddl(table_ref, &r))
        } else {
            SchedulerSql::Ready(generate_merge_ddl_placeholder(table_ref, keys.as_slice(), &r))
        };
        assert(is_scheduler_sql(sq, *config, ddl@, table_ref@, preview, kv, resolved_inc));
        sq
    };
    assert(is_scheduler_sql(scheduler, *config, ddl@, table_ref@, preview, keys@, resolved_inc));
    let mut project_text = String::new();
    project_text.append(project);
    let mut table_text = String::new();
    table_text.append(table_ref);
    ModelPlan {
        preview,
        check_contract,
        has_table_id,
        ephemeral,
        incremental,
        project: project_text,
        table_ref: table_text,
        ddl,
        select_sql: resolved.to_sql(),
        scheduler,
    }
}

// ───────────────────────── the machine ─────────────────────────

/// A call the caller is to make next: read the target table's columns
/// (quoted, for the MERGE); execute the plan's `ddl`; dry-run this SQL; read
/// the target table's declared schema.
pub enum ModelCall {
    FetchColumns,
    ExecuteDdl,
    DryRun(String),
    FetchDeclaredSchema,
}

/// The answer to the last call.
pub enum ModelReply {
    /// The statement was executed.
    Done,
    /// The table's columns, quoted.
    Columns(Vec<QuotedName>),
    /// The table's declared schema.
    Schema(Vec<BqField>),
    /// The dry run ran: whether the SQL is valid, the error it found, the
    /// bytes the query would process and the columns it would produce.
    DryRun { valid: bool, error_message: Option<String>, total_bytes: i64, schema: Vec<BqField> },
    /// The call failed, for this reason.
    Failed(String),
}

/// Why a model's create or update fails.
pub enum ModelError {
    /// The deploying statement failed.
    DdlFailed(String),
    /// The dry run of the scheduler's MERGE could not be made.
    MergeCheckFailed(String),
    /// The dry run found the scheduler's MERGE invalid.
    MergeInvalid(Option<String>),
    /// The query's columns break the schema contract, for these reasons.
    ContractViolated(Vec<String>),
    /// A reply that does not answer the call that was asked for.
    OutOfOrder,
}

/// What a deployed model reports: the statement its scheduler runs, the
/// workflow that runs it (empty when there is none) and the bytes the query
/// is estimated to process.
pub struct ModelResult {
    pub scheduler_sql: String,
    pub workflow_yaml: String,
    pub estimated_bytes: Option<i64>,
}

/// What happens next.
pub enum ModelStep {
    Call(ModelCall),
    Finish(ModelResult),
    Fail(ModelError),
}

/// Where a model's create or update stands; every stage after the first
/// holds the scheduler statement.
pub enum ModelStage {
    FetchingColumns,
    ExecutingDdl { scheduler_sql: String },
    CheckingMerge { scheduler_sql: String },
    CheckingContract { scheduler_sql: String },
    /// The query's columns, waiting for the declared schema.
    FetchingDeclared { scheduler_sql: String, columns: Vec<BqField> },
    Estimating { scheduler_sql: String },
    Over,
}

pub enum CallView {
    FetchColumns,
    ExecuteDdl,
    DryRun(Seq<char>),
    FetchDeclaredSchema,
}

pub enum ErrorView {
    DdlFailed(Seq<char>),
    MergeCheckFailed(Seq<char>),
    MergeInvalid(Option<Seq<char>>),
    ContractViolated(Seq<Seq<char>>),
    OutOfOrder,
}

pub struct ResultView {
    pub scheduler_sql: Seq<char>,
    pub workflow_yaml: Seq<char>,
    pub estimated_bytes: Option<i64>,
}

pub enum StepView {
    Call(CallView),
    Finish(ResultView),
    Fail(ErrorView),
}

pub enum StageView {
    FetchingColumns,
    ExecutingDdl(Seq<char>),
    CheckingMerge(Seq<char>),
    CheckingContract(Seq<char>),
    FetchingDeclared(Seq<char>, Seq<BqField>),
    Estimating(Seq<char>),
    Over,
}

pub open spec fn opt_view(o: Option<String>) -> Option<Seq<char>> {
    match o {
        Some(s) => Some(s@),
        None => None,
    }
}

impl View for ModelCall {
    type V = CallView;

    open spec fn view(&self) -> CallView {
        match self {
            ModelCall::FetchColumns => CallView::FetchColumns,
            ModelCall::ExecuteDdl => CallView::ExecuteDdl,
            ModelCall::DryRun(s) => CallView::DryRun(s@),
            ModelCall::FetchDeclaredSchema => CallView::FetchDeclaredSchema,
        }
    }
}

impl View for ModelError {
    type V = ErrorView;

    open spec fn view(&self) -> ErrorView {
        match self {
            ModelError::DdlFailed(e) => ErrorView::DdlFailed(e@),
            ModelError::MergeCheckFailed(e) => ErrorView::MergeCheckFailed(e@),
            ModelError::MergeInvalid(m) => ErrorView::MergeInvalid(opt_view(*m)),
            ModelError::ContractViolated(v) => ErrorView::ContractViolated(strings_view(v@)),
            ModelError::OutOfOrder => ErrorView::OutOfOrder,
        }
    }
}

impl View for ModelResult {
    type V = ResultView;

    open spec fn view(&self) -> ResultView {
        ResultView {
            scheduler_sql: self.scheduler_sql@,
            workflow_yaml: self.workflow_yaml@,
            estimated_bytes: self.estimated_bytes,
        }
    }
}

impl View for ModelStep {
    type V = StepView;

    open spec fn view(&self) -> StepView {
        match self {
            ModelStep::Call(c) => StepView::Call(c@),
            ModelStep::Finish(r) => StepView::Finish(r@),
            ModelStep::Fail(e) => StepView::Fail(e@),
        }
    }
}

impl View for ModelStage {
    type V = StageView;

    open spec fn view(&self) -> StageView {
        match self {
            ModelStage::FetchingColumns => StageView::FetchingColumns,
            ModelStage::ExecutingDdl { scheduler_sql } => StageView::ExecutingDdl(scheduler_sql@),
            ModelStage::CheckingMerge { scheduler_sql } => StageView::CheckingMerge(scheduler_sql@),
            ModelStage::CheckingContract { scheduler_sql } => StageView::CheckingContract(
                scheduler_sql@,
            ),
            ModelStage::FetchingDeclared { scheduler_sql, columns } => StageView::FetchingDeclared(
                scheduler_sql@,
                columns@,
            ),
            ModelStage::Estimating { scheduler_sql } => StageView::Estimating(scheduler_sql@),
            ModelStage::Over => StageView::Over,
        }
    }
}

/// The deploying statement runs unless the model is ephemeral, the deploy
/// is a preview or there is no statement.
pub open spec fn runs_ddl(p: ModelPlan) -> bool {
    !p.ephemeral && !p.preview && p.ddl@.len() > 0
}

/// A create of an incremental model dry-runs its scheduler statement, when
/// there is one, unless it is a preview.
pub open spec fn checks_merge(p: ModelPlan, sql: Seq<char>) -> bool {
    p.check_contract && !p.preview && p.incremental && sql.len() > 0
}

/// A create of a model with a table checks its schema contract, unless it
/// is a preview.
pub open spec fn checks_contract(p: ModelPlan) -> bool {
    p.check_contract && !p.preview && !p.ephemeral
}

/// The query's cost is estimated for every model with a table and a query,
/// in a preview too.
pub open spec fn estimates(p: ModelPlan) -> bool {
    !p.ephemeral && p.select_sql@.len() > 0
}

/// What a deploy reports: the scheduler statement, its workflow (none for
/// no statement) and the estimate.
pub open spec fn model_result(p: ModelPlan, sql: Seq<char>, estimate: Option<i64>) -> ResultView {
    ResultView {
        scheduler_sql: sql,
        workflow_yaml: if sql.len() == 0 {
            Seq::empty()
        } else {
            step_yaml("runQuery"@, p.project@, sql)
        },
        estimated_bytes: estimate,
    }
}

pub open spec fn out_of_order() -> (StageView, StepView) {
    (StageView::Over, StepView::Fail(ErrorView::OutOfOrder))
}

/// From the estimate on: a dry run of the query, or the finish.
pub open spec fn from_estimate(p: ModelPlan, sql: Seq<char>) -> (StageView, StepView) {
    if estimates(p) {
        (StageView::Estimating(sql), StepView::Call(CallView::DryRun(p.select_sql@)))
    } else {
        (StageView::Over, StepView::Finish(model_result(p, sql, None)))
    }
}

/// From the schema contract on.
pub open spec fn from_contract(p: ModelPlan, sql: Seq<char>) -> (StageView, StepView) {
    if checks_contract(p) {
        (StageView::CheckingContract(sql), StepView::Call(CallView::DryRun(p.select_sql@)))
    } else {
        from_estimate(p, sql)
    }
}

/// From the check of the scheduler statement on.
pub open spec fn from_merge(p: ModelPlan, sql: Seq<char>) -> (StageView, StepView) {
    if checks_merge(p, sql) {
        (StageView::CheckingMerge(sql), StepView::Call(CallView::DryRun(sql)))
    } else {
        from_contract(p, sql)
    }
}

/// From the deploying statement on, once the scheduler statement is known.
pub open spec fn from_ddl(p: ModelPlan, sql: Seq<char>) -> (StageView, StepView) {
    if runs_ddl(p) {
        (StageView::ExecutingDdl(sql), StepView::Call(CallView::ExecuteDdl))
    } else {
        from_merge(p, sql)
    }
}

/// The first step: the columns of the target table when the MERGE needs
/// them, else the rest with the known scheduler statement.
pub open spec fn model_start(p: ModelPlan) -> (StageView, StepView) {
    match p.scheduler {
        SchedulerSql::NeedsColumns { .. } => (
            StageView::FetchingColumns,
            StepView::Call(CallView::FetchColumns),
        ),
        SchedulerSql::Ready(s) => from_ddl(p, s@),
    }
}

/// The schema contract's verdict on the query's columns: failure with the
/// reasons, if any, else on to the estimate.
pub open spec fn contract_verdict(
    p: ModelPlan,
    c: ModelConfig,
    sql: Seq<char>,
    columns: Seq<BqField>,
    declared: Option<Seq<BqField>>,
) -> (StageView, StepView) {
    let errors = schema_errors(columns, declared, c);
    if errors.len() > 0 {
        (StageView::Over, StepView::Fail(ErrorView::ContractViolated(errors)))
    } else {
        from_estimate(p, sql)
    }
}

/// A step on a reply. The MERGE's columns, when they cannot be read (the
/// table does not exist yet), give way to the insert-only MERGE. A dry run
/// of the query that fails, is invalid or yields no columns leaves the
/// contract unchecked; a declared schema that cannot be read leaves only the
/// configuration to check against. The estimate is the bytes of a valid dry
/// run that processes some, and nothing otherwise.
pub open spec fn model_next(p: ModelPlan, c: ModelConfig, stage: StageView, reply: ModelReply) -> (
    StageView,
    StepView,
) {
    match stage {
        StageView::FetchingColumns => match p.scheduler {
            SchedulerSql::NeedsColumns { keys, resolved } => match reply {
                ModelReply::Columns(cols) => from_ddl(
                    p,
                    merge_text(
                        p.table_ref@,
                        query_of(resolved),
                        on_text(keys@),
                        join(updates_upto(keys@, cols@, cols@.len() as int), ", "@),
                    ),
                ),
                ModelReply::Failed(_) => from_ddl(p, placeholder_text(p.table_ref@, query_of(resolved), keys@)),
                _ => out_of_order(),
            },
            SchedulerSql::Ready(_) => out_of_order(),
        },
        StageView::ExecutingDdl(sql) => match reply {
            ModelReply::Done => from_merge(p, sql),
            ModelReply::Failed(e) => (StageView::Over, StepView::Fail(ErrorView::DdlFailed(e@))),
            _ => out_of_order(),
        },
        StageView::CheckingMerge(sql) => match reply {
            ModelReply::DryRun { valid, error_message, .. } => if valid {
                from_contract(p, sql)
            } else {
                (StageView::Over, StepView::Fail(ErrorView::MergeInvalid(opt_view(error_message))))
            },
            ModelReply::Failed(e) => (StageView::Over, StepView::Fail(ErrorView::MergeCheckFailed(e@))),
            _ => out_of_order(),
        },
        StageView::CheckingContract(sql) => match reply {
            ModelReply::DryRun { valid, schema, .. } => if valid && schema@.len() > 0 {
                if p.has_table_id {
                    (
                        StageView::FetchingDeclared(sql, schema@),
                        StepView::Call(CallView::FetchDeclaredSchema),
                    )
                } else {
                    contract_verdict(p, c, sql, schema@, None)
                }
            } else {
                from_estimate(p, sql)
            },
            ModelReply::Failed(_) => from_estimate(p, sql),
            _ => out_of_order(),
        },
        StageView::FetchingDeclared(sql, columns) => match reply {
            ModelReply::Schema(d) => contract_verdict(p, c, sql, columns, Some(d@)),
            ModelReply::Failed(_) => contract_verdict(p, c, sql, columns, None),
            _ => out_of_order(),
        },
        StageView::Estimating(sql) => match reply {
            ModelReply::DryRun { valid, total_bytes, .. } => (
                StageView::Over,
                StepView::Finish(
                    model_result(
                        p,
                        sql,
                        if valid && total_bytes > 0 {
                            Some(total_bytes)
                        } else {
                            None
                        },
                    ),
                ),
            ),
            ModelReply::Failed(_) => (StageView::Over, StepView::Finish(model_result(p, sql, None))),
            _ => out_of_order(),
        },
        StageView::Over => out_of_order(),
    }
}

fn finish(p: &ModelPlan, sql: String, estimate: Option<i64>) -> (r: ModelResult)
    ensures
        r@ == model_result(*p, sql@, estimate),
{
    let workflow_yaml = if sql.as_str().unicode_len() == 0 {
        String::new()
    } else {
        generate_workflow_yaml(p.project.as_str(), sql.as_str())
    };
    ModelResult { scheduler_sql: sql, workflow_yaml, estimated_bytes: estimate }
}

fn go_estimate(p: &ModelPlan, sql: String) -> (r: (ModelStage, ModelStep))
    ensures
        (r.0@, r.1@) == from_estimate(*p, sql@),
{
    if !p.ephemeral && p.select_sql.as_str().unicode_len() > 0 {
        (ModelStage::Estimating { scheduler_sql: sql }, ModelStep::Call(ModelCall::DryRun(p.select_sql.clone())))
    } else {
        (ModelStage::Over, ModelStep::Finish(finish(p, sql, None)))
    }
}

fn go_contract(p: &ModelPlan, sql: String) -> (r: (ModelStage, ModelStep))
    ensures
        (r.0@, r.1@) == from_contract(*p, sql@),
{
    if p.check_contract && !p.preview && !p.ephemeral {
        (
            ModelStage::CheckingContract { scheduler_sql: sql },
            ModelStep::Call(ModelCall::DryRun(p.select_sql.clone())),
        )
    } else {
        go_estimate(p, sql)
    }
}

fn go_merge(p: &ModelPlan, sql: String) -> (r: (ModelStage, ModelStep))
    ensures
        (r.0@, r.1@) == from_merge(*p, sql@),
{
    if p.check_contract && !p.preview && p.incremental && sql.as_str().unicode_len() > 0 {
        let check = sql.clone();
        (ModelStage::CheckingMerge { scheduler_sql: sql }, ModelStep::Call(ModelCall::DryRun(check)))
    } else {
        go_contract(p, sql)
    }
}

fn go_ddl(p: &ModelPlan, sql: String) -> (r: (ModelStage, ModelStep))
    ensures
        (r.0@, r.1@) == from_ddl(*p, sql@),
{
    if !p.ephemeral && !p.preview && p.ddl.as_str().unicode_len() > 0 {
        (ModelStage::ExecutingDdl { scheduler_sql: sql }, ModelStep::Call(ModelCall::ExecuteDdl))
    } else {
        go_merge(p, sql)
    }
}

fn verdict(
    p: &ModelPlan,
    config: &ModelConfig,
    sql: String,
    columns: &[BqField],
    declared: Option<&[BqField]>,
) -> (r: (ModelStage, ModelStep))
    ensures
        (r.0@, r.1@) == contract_verdict(
            *p,
            *config,
            sql@,
            columns@,
            match declared {
                Some(d) => Some(d@),
                None => None,
            },
        ),
{
    let errors = validate_model_schema(columns, declared, config);
    if errors.len() > 0 {
        (ModelStage::Over, ModelStep::Fail(ModelError::ContractViolated(errors)))
    } else {
        go_estimate(p, sql)
    }
}

/// The first step of a model's create or update.
pub fn begin_model(p: &ModelPlan) -> (r: (ModelStage, ModelStep))
    ensures
        (r.0@, r.1@) == model_start(*p),
{
    match &p.scheduler {
        SchedulerSql::NeedsColumns { .. } => (
            ModelStage::FetchingColumns,
            ModelStep::Call(ModelCall::FetchColumns),
        ),
        SchedulerSql::Ready(s) => go_ddl(p, s.clone()),
    }
}

/// The step of a model's create or update on the reply to its last call.
pub fn model_step(p: &ModelPlan, config: &ModelConfig, stage: ModelStage, reply: ModelReply) -> (r: (
    ModelStage,
    ModelStep,
))
    ensures
        (r.0@, r.1@) == model_next(*p, *config, stage@, reply),
{
    match stage {
        ModelStage::FetchingColumns => match &p.scheduler {
            SchedulerSql::NeedsColumns { keys, resolved } => match reply {
                ModelReply::Columns(cols) => {
                    let sql = generate_merge_ddl(
                        p.table_ref.as_str(),
                        keys.as_slice(),
                        cols.as_slice(),
                        resolved,
                    );
                    go_ddl(p, sql)
                },
                ModelReply::Failed(_) => {
                    let sql = generate_merge_ddl_placeholder(p.table_ref.as_str(), keys.as_slice(), resolved);
                    go_ddl(p, sql)
                },
                _ => (ModelStage::Over, ModelStep::Fail(ModelError::OutOfOrder)),
            },
            SchedulerSql::Ready(_) => (ModelStage::Over, ModelStep::Fail(ModelError::OutOfOrder)),
        },
        ModelStage::ExecutingDdl { scheduler_sql } => match reply {
            ModelReply::Done => go_merge(p, scheduler_sql),
            ModelReply::Failed(e) => (ModelStage::Over, ModelStep::Fail(ModelError::DdlFailed(e))),
            _ => (ModelStage::Over, ModelStep::Fail(ModelError::OutOfOrder)),
        },
        ModelStage::CheckingMerge { scheduler_sql } => match reply {
            ModelReply::DryRun { valid, error_message, .. } => if valid {
                go_contract(p, scheduler_sql)
            } else {
                (ModelStage::Over, ModelStep::Fail(ModelError::MergeInvalid(error_message)))
            },
            ModelReply::Failed(e) => (ModelStage::Over, ModelStep::Fail(ModelError::MergeCheckFailed(e))),
            _ => (ModelStage::Over, ModelStep::Fail(ModelError::OutOfOrder)),
        },
        ModelStage::CheckingContract { scheduler_sql } => match reply {
            ModelReply::DryRun { valid, schema, .. } => if valid && schema.len() > 0 {
                if p.has_table_id {
                    (
                        ModelStage::FetchingDeclared { scheduler_sql, columns: schema },
                        ModelStep::Call(ModelCall::FetchDeclaredSchema),
                    )
                } else {
                    verdict(p, config, scheduler_sql, schema.as_slice(), None)
                }
            } else {
                go_estimate(p, scheduler_sql)
            },
            ModelReply::Failed(_) => go_estimate(p, scheduler_sql),
            _ => (ModelStage::Over, ModelStep::Fail(ModelError::OutOfOrder)),
        },
        ModelStage::FetchingDeclared { scheduler_sql, columns } => match reply {
            ModelReply::Schema(d) => verdict(p, config, scheduler_sql, columns.as_slice(), Some(d.as_slice())),
            ModelReply::Failed(_) => verdict(p, config, scheduler_sql, columns.as_slice(), None),
            _ => (ModelStage::Over, ModelStep::Fail(ModelError::OutOfOrder)),
        },
        ModelStage::Estimating { scheduler_sql } => match reply {
            ModelReply::DryRun { valid, total_bytes, .. } => {
                let estimate = if valid && total_bytes > 0 {
                    Some(total_bytes)
                } else {
                    None
                };
                (ModelStage::Over, ModelStep::Finish(finish(p, scheduler_sql, estimate)))
            },
            ModelReply::Failed(_) => (ModelStage::Over, ModelStep::Finish(finish(p, scheduler_sql, None))),
            _ => (ModelStage::Over, ModelStep::Fail(ModelError::OutOfOrder)),
        },
        ModelStage::Over => (ModelStage::Over, ModelStep::Fail(ModelError::OutOfOrder)),
    }
}

// ───────────────────────── outputs ─────────────────────────

fn copy_text(s: &str) -> (r: String)
    ensures
        r@ == s@,
{
    let mut r = String::new();
    r.append(s);
    r
}

/// What a deployed model reports: its materialization, the resolved query
/// (CTEs as JSON, body, whole), the table, the deploying statement, the
/// scheduler statement and its workflow, the estimate with its cost text
/// (written at the edge), and the byte limit. The CTEs it writes read back,
/// for the models that refer to it, as the same CTEs.
pub fn model_output(
    name: &str,
    materialization: &str,
    plan: &ModelPlan,
    resolved: &ResolvedSql,
    result: ModelResult,
    estimated_cost: Option<String>,
    max_bytes_billed: Option<i64>,
) -> (o: ModelOutput)
    ensures
        o.materialization@ == materialization@,
        o.resolved_ctes_json@ == pairs_json(pairs_view(resolved.ctes@)),
        json_pairs(o.resolved_ctes_json@) == Some(pairs_view(resolved.ctes@)),
        o.resolved_body@ == resolved.body@,
        o.table_ref@ == plan.table_ref@,
        o.resolved_ddl@ == plan.ddl@,
        o.resolved_sql@ == query_of(*resolved),
        o.workflow_yaml@ == result.workflow_yaml@,
        o.table_id@ == name@,
        o.scheduler_sql@ == result.scheduler_sql@,
        o.estimated_bytes_processed == result.estimated_bytes,
        o.estimated_cost == estimated_cost,
        o.max_bytes_billed == max_bytes_billed,
{
    ModelOutput {
        materialization: copy_text(materialization),
        resolved_ctes_json: pairs_to_json(&resolved.ctes),
        resolved_body: resolved.body.clone(),
        table_ref: plan.table_ref.clone(),
        resolved_ddl: plan.ddl.clone(),
        resolved_sql: resolved.to_sql(),
        workflow_yaml: result.workflow_yaml,
        table_id: copy_text(name),
        scheduler_sql: result.scheduler_sql,
        estimated_bytes_processed: result.estimated_bytes,
        estimated_cost,
        max_bytes_billed,
    }
}

// ───────────────────────── errors ─────────────────────────

/// The message of each error.
pub open spec fn model_error_text(e: ErrorView) -> Seq<char> {
    match e {
        ErrorView::DdlFailed(m) => m,
        ErrorView::MergeCheckFailed(m) => "MERGE SQL validation failed (would fail at scheduler runtime): "@ + m,
        ErrorView::MergeInvalid(m) => "Generated MERGE SQL is invalid \u{2014} scheduler job would fail at runtime: "@
            + match m {
            Some(t) => t,
            None => Seq::empty(),
        },
        ErrorView::ContractViolated(errors) => "Schema contract validation failed:\n"@ + join(
            errors.map_values(|e: Seq<char>| "  - "@ + e),
            "\n"@,
        ),
        ErrorView::OutOfOrder => "a reply did not answer the call that was made"@,
    }
}

impl ModelError {
    /// Whether the error lies in what the model asks for (its generated
    /// MERGE, its schema contract) rather than in the calls.
    pub fn is_invalid_argument(&self) -> (r: bool)
        ensures
            r == (self is MergeCheckFailed || self is MergeInvalid || self is ContractViolated),
    {
        match self {
            ModelError::MergeCheckFailed(_) => true,
            ModelError::MergeInvalid(_) => true,
            ModelError::ContractViolated(_) => true,
            _ => false,
        }
    }

    /// The error's message.
    pub fn message(&self) -> (r: String)
        ensures
            r@ == model_error_text(self@),
    {
        let mut r = String::new();
        match self {
            ModelError::DdlFailed(m) => r.append(m.as_str()),
            ModelError::MergeCheckFailed(m) => {
                r.append("MERGE SQL validation failed (would fail at scheduler runtime): ");
                r.append(m.as_str());
            },
            ModelError::MergeInvalid(m) => {
                r.append("Generated MERGE SQL is invalid \u{2014} scheduler job would fail at runtime: ");
                match m {
                    Some(t) => r.append(t.as_str()),
                    None => {},
                }
            },
            ModelError::ContractViolated(errors) => {
                r.append("Schema contract validation failed:\n");
                let ghost head = r@;
                let ghost items = strings_view(errors@).map_values(|e: Seq<char>| "  - "@ + e);
                let mut i: usize = 0;
                while i < errors.len()
                    invariant
                        i <= errors@.len(),
                        items == strings_view(errors@).map_values(|e: Seq<char>| "  - "@ + e),
                        r@ == head + join(items.take(i as int), "\n"@),
                    decreases errors.len() - i,
                {
                    if i > 0 {
                        r.append("\n");
                    }
                    r.append("  - ");
                    r.append(errors[i].as_str());
                    proof {
                        assert(items.take(i + 1).drop_last() =~= items.take(i as int));
                        if i == 0 {
                            assert(items.take(0) =~= Seq::<Seq<char>>::empty());
                        }
                    }
                    i += 1;
                }
                assert(items.take(errors@.len() as int) =~= items);
            },
            ModelError::OutOfOrder => r.append("a reply did not answer the call that was made"),
        }
        proof {
            reveal_strlit("");
        }
        r
    }
}

// ───────────────────────── ids, reads and deletes ─────────────────────────

/// The resource id of a model: `dbt-model/<project>/<dataset>/<name>`.
pub fn model_id(project: &str, dataset: &str, name: &str) -> (r: String)
    ensures
        r@ == "dbt-model/"@ + project@ + "/"@ + dataset@ + "/"@ + name@,
{
    let mut r = String::new();
    r.append("dbt-model/");
    r.append(project);
    r.append("/");
    r.append(dataset);
    r.append("/");
    r.append(name);
    r
}

/// The resource id of a project: `dbt-project/<project>/<dataset>`.
pub fn project_id(project: &str, dataset: &str) -> (r: String)
    ensures
        r@ == "dbt-project/"@ + project@ + "/"@ + dataset@,
{
    let mut r = String::new();
    r.append("dbt-project/");
    r.append(project);
    r.append("/");
    r.append(dataset);
    r
}

/// The resource id of a macro: `dbt-macro/<name>`.
pub fn macro_id(name: &str) -> (r: String)
    ensures
        r@ == "dbt-macro/"@ + name@,
{
    let mut r = String::new();
    r.append("dbt-macro/");
    r.append(name);
    r
}

/// The materialization a stored model records, `table` when it records none.
pub open spec fn stored_materialization<'a>(m: Option<&'a str>) -> Seq<char> {
    match m {
        Some(t) => t@,
        None => "table"@,
    }
}

/// A context that names a project and a dataset.
pub open spec fn context_known<'a>(context: Option<(&'a str, &'a str)>) -> bool {
    match context {
        Some((p, d)) => p@.len() > 0 && d@.len() > 0,
        None => false,
    }
}

/// Whether reading a stored model asks BigQuery for its table: not for an
/// ephemeral or unnamed model, and only with a context that names a project
/// and a dataset. A table that is gone then ends the resource.
pub fn read_checks_table(materialization: Option<&str>, name: &str, context: Option<(&str, &str)>) -> (r:
    bool)
    ensures
        r == (stored_materialization(materialization) != "ephemeral"@ && name@.len() > 0
            && context_known(context)),
{
    let m = match materialization {
        Some(t) => t,
        None => "table",
    };
    if str_eq(m, "ephemeral") || name.unicode_len() == 0 {
        return false;
    }
    match context {
        Some((p, d)) => p.unicode_len() > 0 && d.unicode_len() > 0,
        None => false,
    }
}

/// Whether deleting a model drops its table: not for an ephemeral model, not
/// for a table that was given by id (another resource manages it), and only
/// with a context and a name that are all known. A table that is already
/// gone counts as dropped.
pub fn delete_drops_table(
    materialization: Option<&str>,
    table_id_given: bool,
    context: Option<(&str, &str)>,
    name: &str,
) -> (r: bool)
    ensures
        r == (stored_materialization(materialization) != "ephemeral"@ && !table_id_given
            && context_known(context) && name@.len() > 0),
{
    let m = match materialization {
        Some(t) => t,
        None => "table",
    };
    if str_eq(m, "ephemeral") || table_id_given {
        return false;
    }
    match context {
        Some((p, d)) => p.unicode_len() > 0 && d.unicode_len() > 0 && name.unicode_len() > 0,
        None => false,
    }
}

// ───────────────────────── checks ─────────────────────────

/// Why options beside a given table id are refused.
pub const TABLE_ID_OPTIONS_REASON: &'static str = "Table options are ignored when 'tableId' is set (Mode 2). The table is managed by a separate Table/TableSchema resource. Remove options from the Model's SQL config block and/or YAML options property.";

/// Whether a configuration sets any table option.
pub open spec fn sets_options(c: ModelConfig) -> bool {
    ||| c.require_partition_filter is Some
    ||| c.partition_expiration_days is Some
    ||| c.friendly_name is Some
    ||| c.description is Some
    ||| c.labels@.len() > 0
    ||| c.kms_key_name is Some
    ||| c.default_collation_name is Some
    ||| c.enable_refresh is Some
    ||| c.refresh_interval_minutes is Some
    ||| c.max_staleness is Some
}

proof fn lemma_options_empty<'a>(o: TableOptions<'a>, c: ModelConfig)
    requires
        options_of(o, c),
    ensures
        o.is_empty_spec() <==> !sets_options(c),
{
    if c.labels@.len() > 0 {
        let q = c.labels@.last().0@;
        assert(last_value(c.labels@, q) is Some);
        assert(found_text(lookup(o.labels@, q)) is Some);
    }
    if o.labels@.len() > 0 {
        let q = o.labels@[0].0;
        assert(lookup(o.labels@, q) is Some);
        assert(found_text(lookup(o.labels@, q)) is Some);
        if c.labels@.len() == 0 {
            assert(last_value(c.labels@, q) is None);
        }
    }
}

/// The option failures of a model's declared options against its SQL: those
/// [`diff_options`] reports.
pub open spec fn is_option_diff(d: Seq<(Seq<char>, Seq<char>)>, c: ModelConfig, y: OwnedTableOptions) -> bool {
    exists|m: Seq<(Seq<char>, &str)>|
        is_label_map(m, c.labels@) && d == option_diffs(c, y) + label_diffs(m, y.labels@)
}

/// The outcome of a model's check: the failures, and whether its query is
/// then to be dry-run.
pub struct ModelCheck {
    pub failures: Vec<CheckFailure>,
    pub dry_run: bool,
}

/// The failures of a model whose options agree (configuration `c`): those
/// of [`validate_model`] and of its byte limit, and options beside a given
/// table id.
pub open spec fn model_check_failures(
    name: Seq<char>,
    sql: Seq<char>,
    c: ModelConfig,
    context: ProjectContext,
    refs: Seq<(Seq<char>, ModelRefData)>,
    macros: Seq<(Seq<char>, MacroDef)>,
    max_bytes_billed: Option<i64>,
    table_id_given: bool,
) -> Seq<(Seq<char>, Seq<char>)> {
    model_failures(name, sql, c, string_texts(context.declared_models@), refs, context.sources@, macros)
        + max_bytes_failures(max_bytes_billed) + crate::validate::when(
        table_id_given && sets_options(c),
        "options"@,
        TABLE_ID_OPTIONS_REASON@,
    )
}

/// The check of a model whose options agree (configuration `c`): its
/// failures, and a dry run when there are none, the model has a table, SQL
/// and a project, and it is new or its SQL changed.
pub open spec fn is_model_check(
    r: ModelCheck,
    name: Seq<char>,
    sql: Seq<char>,
    c: ModelConfig,
    context: ProjectContext,
    refs: Seq<(Seq<char>, ModelRefData)>,
    macros: Seq<(Seq<char>, MacroDef)>,
    max_bytes_billed: Option<i64>,
    table_id_given: bool,
    new_or_changed: bool,
) -> bool {
    &&& failures_text(r.failures@) == model_check_failures(
        name,
        sql,
        c,
        context,
        refs,
        macros,
        max_bytes_billed,
        table_id_given,
    )
    &&& r.dry_run == (r.failures@.len() == 0 && c.materialization@ != "ephemeral"@ && sql.len() > 0
        && context.gcp_project@.len() > 0 && new_or_changed)
}

/// Checks a model. Declared options (`yaml`) are compared with those its
/// SQL sets first: any disagreement is the whole answer. Otherwise they
/// replace the SQL's options in `config`, and the model is checked with them.
pub fn check_model(
    name: &str,
    sql: &str,
    config: &mut ModelConfig,
    yaml: Option<&OwnedTableOptions>,
    context: &ProjectContext<'_>,
    model_refs: &StrMap<ModelRefData>,
    macros: &StrMap<MacroDef>,
    max_bytes_billed: Option<i64>,
    table_id_given: bool,
    new_or_changed: bool,
) -> (r: ModelCheck)
    ensures
        yaml is None ==> *final(config) == *old(config) && is_model_check(
            r,
            name@,
            sql@,
            *final(config),
            *context,
            model_refs@,
            macros@,
            max_bytes_billed,
            table_id_given,
            new_or_changed,
        ),
        yaml matches Some(y) ==> exists|d: Seq<(Seq<char>, Seq<char>)>|
            #![trigger is_option_diff(d, *old(config), *y)]
            is_option_diff(d, *old(config), *y) && (d.len() > 0 ==> failures_text(r.failures@) == d
                && !r.dry_run && *final(config) == *old(config)) && (d.len() == 0 ==> is_overridden(
                *final(config),
                *old(config),
                *y,
            ) && is_model_check(
                r,
                name@,
                sql@,
                *final(config),
                *context,
                model_refs@,
                macros@,
                max_bytes_billed,
                table_id_given,
                new_or_changed,
            )),
{
    match yaml {
        Some(y) => {
            let diffs = diff_options(config, y);
            if diffs.len() > 0 {
                assert(is_option_diff(failures_text(diffs@), *config, *y));
                return ModelCheck { failures: diffs, dry_run: false };
            }
            assert(is_option_diff(failures_text(diffs@), *config, *y));
            config.override_options(y);
        },
        None => {},
    }
    let mut failures = validate_model(name, sql, config, context, model_refs, macros);
    let mut more = validate_max_bytes_billed(max_bytes_billed);
    failures.append(&mut more);
    let options = config.to_table_options();
    proof {
        lemma_options_empty(options, *config);
    }
    let ghost before = failures@;
    if table_id_given && !options.is_empty() {
        let mut reason = String::new();
        reason.append(TABLE_ID_OPTIONS_REASON);
        let mut property = String::new();
        property.append("options");
        failures.push(CheckFailure { property, reason });
    }
    assert(failures_text(failures@) =~= model_check_failures(
        name@,
        sql@,
        *config,
        *context,
        model_refs@,
        macros@,
        max_bytes_billed,
        table_id_given,
    ));
    let dry_run = failures.len() == 0 && !str_eq(config.materialization.as_str(), "ephemeral")
        && sql.unicode_len() > 0 && context.gcp_project.unicode_len() > 0 && new_or_changed;
    ModelCheck { failures, dry_run }
}

/// Whether a model is new or its SQL changed: no earlier properties, or no
/// earlier SQL, or other SQL.
pub fn new_or_changed(has_old_properties: bool, old_sql: Option<&str>, sql: &str) -> (r: bool)
    ensures
        r == (!has_old_properties || match old_sql {
            Some(o) => o@ != sql@,
            None => true,
        }),
{
    !has_old_properties || match old_sql {
        Some(o) => !str_eq(o, sql),
        None => true,
    }
}

/// The failure a dry run of a model's query reports: none for valid SQL,
/// none when the only trouble is objects that do not exist yet (they may be
/// created by the same deploy), else the dry run's message.
pub fn dry_run_failure(valid: bool, error_message: Option<&str>) -> (r: Option<CheckFailure>)
    ensures
        ({
            let m = match error_message {
                Some(t) => t@,
                None => Seq::<char>::empty(),
            };
            &&& r is Some <==> (!valid && !only_missing_objects(m))
            &&& r matches Some(f) ==> f.property@ == "sql"@ && f.reason@
                == "SQL dry-run validation failed: "@ + m
        }),
{
    let m = match error_message {
        Some(t) => t,
        None => "",
    };
    proof {
        reveal_strlit("");
        assert(""@ =~= Seq::<char>::empty());
    }
    if valid || references_missing_objects(m) {
        None
    } else {
        let mut reason = String::new();
        reason.append("SQL dry-run validation failed: ");
        reason.append(m);
        let mut property = String::new();
        property.append("sql");
        Some(CheckFailure { property, reason })
    }
}

// ───────────────────────── diffs ─────────────────────────

/// The project and dataset a model's context names, each where it holds a
/// string.
pub type ContextKeys<'a> = (Option<&'a str>, Option<&'a str>);

pub open spec fn opt_str_view<'a>(o: Option<&'a str>) -> Option<Seq<char>> {
    match o {
        Some(s) => Some(s@),
        None => None,
    }
}

/// Two contexts are the same when both are absent, or both name the same
/// project and dataset; whatever else they hold does not count.
pub open spec fn same_context_spec<'a>(old: Option<ContextKeys<'a>>, new: Option<ContextKeys<'a>>) -> bool {
    match (old, new) {
        (Some(o), Some(n)) => opt_str_view(o.0) == opt_str_view(n.0) && opt_str_view(o.1)
            == opt_str_view(n.1),
        (None, None) => true,
        _ => false,
    }
}

fn same_opt(a: Option<&str>, b: Option<&str>) -> (r: bool)
    ensures
        r == (opt_str_view(a) == opt_str_view(b)),
{
    match (a, b) {
        (Some(x), Some(y)) => str_eq(x, y),
        (None, None) => true,
        _ => false,
    }
}

/// Whether two models' contexts are the same.
pub fn context_fields_equal(old: Option<ContextKeys<'_>>, new: Option<ContextKeys<'_>>) -> (r: bool)
    ensures
        r == same_context_spec(old, new),
{
    match (old, new) {
        (Some(o), Some(n)) => same_opt(o.0, n.0) && same_opt(o.1, n.1),
        (None, None) => true,
        _ => false,
    }
}

fn find_text(v: &Vec<String>, x: &str) -> (r: Option<usize>)
    ensures
        r matches Some(j) ==> j < v@.len() && v@[j as int]@ == x@,
        r is None ==> forall|j: int| 0 <= j < v@.len() ==> v@[j]@ != x@,
{
    let mut j: usize = 0;
    while j < v.len()
        invariant
            j <= v@.len(),
            forall|k: int| 0 <= k < j ==> v@[k]@ != x@,
        decreases v.len() - j,
    {
        if str_eq(v[j].as_str(), x) {
            return Some(j);
        }
        j += 1;
    }
    None
}

/// Whether two lists hold the same texts, each as many times, in any order.
pub fn same_texts(a: &Vec<String>, b: &Vec<String>) -> (r: bool)
    ensures
        r == (strings_view(a@).to_multiset() == strings_view(b@).to_multiset()),
{
    broadcast use vstd::seq_lib::group_to_multiset_ensures;
    let ghost av = strings_view(a@);
    let ghost bv = strings_view(b@);
    let mut rest = copy_strings(b);
    let mut i: usize = 0;
    assert(av.take(0) =~= Seq::<Seq<char>>::empty());
    while i < a.len()
        invariant
            i <= a@.len(),
            av == strings_view(a@),
            bv == strings_view(b@),
            av.take(i as int).to_multiset().add(strings_view(rest@).to_multiset()) == bv.to_multiset(),
        decreases a.len() - i,
    {
        let x = a[i].as_str();
        assert(av.take(i + 1) =~= av.take(i as int).push(x@));
        match find_text(&rest, x) {
            Some(j) => {
                let ghost rv = strings_view(rest@);
                rest.remove(j);
                assert(strings_view(rest@) =~= rv.remove(j as int));
                assert(rv.to_multiset().count(x@) > 0) by {
                    assert(rv[j as int] == x@);
                    assert(rv.contains(x@));
                    rv.to_multiset_ensures();
                }
                proof {
                    rv.to_multiset_ensures();
                    av.take(i as int).to_multiset_ensures();
                }
                assert(av.take(i + 1).to_multiset().add(strings_view(rest@).to_multiset())
                    =~= bv.to_multiset());
            },
            None => {
                let ghost rv = strings_view(rest@);
                assert(!rv.contains(x@));
                proof {
                    rv.to_multiset_ensures();
                    av.take(i as int).to_multiset_ensures();
                }
                assert(rv.to_multiset().count(x@) == 0);
                assert(av =~= av.take(i + 1) + av.skip(i + 1));
                proof { vstd::seq_lib::lemma_multiset_commutative(av.take(i + 1), av.skip(i + 1)); }
                assert(av.to_multiset().count(x@) > bv.to_multiset().count(x@));
                return false;
            },
        }
        i += 1;
    }
    assert(av.take(a@.len() as int) =~= av);
    proof {
        strings_view(rest@).to_multiset_ensures();
        av.to_multiset_ensures();
        bv.to_multiset_ensures();
    }
    assert(strings_view(rest@).to_multiset().len() == rest@.len());
    if rest.len() == 0 {
        assert(strings_view(rest@) =~= Seq::<Seq<char>>::empty());
        assert(av.to_multiset() =~= bv.to_multiset());
        true
    } else {
        assert(av.to_multiset().len() < bv.to_multiset().len());
        false
    }
}

/// The table references of two models' referenced models are the same
/// when both are absent, or both hold the same references in any order;
/// what else the references hold (resolved SQL, DDL) does not count.
pub fn model_refs_equal(old: Option<&Vec<String>>, new: Option<&Vec<String>>) -> (r: bool)
    ensures
        r == match (old, new) {
            (Some(o), Some(n)) => strings_view(o@).to_multiset() == strings_view(n@).to_multiset(),
            (None, None) => true,
            _ => false,
        },
{
    match (old, new) {
        (Some(o), Some(n)) => same_texts(o, n),
        (None, None) => true,
        _ => false,
    }
}

/// The properties a model's diff reports as changed: the stable inputs
/// that differ (in order), then the table id when the earlier inputs are
/// known and it differs, then the context and the referenced models.
pub fn model_changes(
    differing_inputs: Vec<&'static str>,
    old_inputs_known: bool,
    table_id_differs: bool,
    same_context: bool,
    same_refs: bool,
) -> (r: Vec<&'static str>)
    ensures
        r@ == differing_inputs@ + (if old_inputs_known && table_id_differs {
            seq!["tableId"]
        } else {
            Seq::empty()
        }) + (if !same_context {
            seq!["context"]
        } else {
            Seq::empty()
        }) + (if !same_refs {
            seq!["modelRefs"]
        } else {
            Seq::empty()
        }),
{
    let mut r = differing_inputs;
    let ghost d = r@;
    if old_inputs_known && table_id_differs {
        r.push("tableId");
    }
    let ghost d1 = r@;
    if !same_context {
        r.push("context");
    }
    let ghost d2 = r@;
    if !same_refs {
        r.push("modelRefs");
    }
    assert(r@ =~= d + (if old_inputs_known && table_id_differs {
        seq!["tableId"]
    } else {
        Seq::empty()
    }) + (if !same_context {
        seq!["context"]
    } else {
        Seq::empty()
    }) + (if !same_refs {
        seq!["modelRefs"]
    } else {
        Seq::empty()
    }));
    r
}

/// The inputs of a model whose difference means a change. The table id is
/// not among them: as an input it selects a mode, as an output it is a
/// name, so the two never compare equal.
pub fn model_stable_inputs() -> (r: Vec<&'static str>)
    ensures
        r@ == seq!["name", "sql", "macros", "schema", "options", "maxBytesBilled"],
{
    vec!["name", "sql", "macros", "schema", "options", "maxBytesBilled"]
}

// ───────────────────────── laws ─────────────────────────

/// A preview runs no statement and reads no table: it makes at most one
/// call, the dry run of the model's query (for the estimate), and whatever
/// that answers it then finishes.
pub proof fn law_preview_only_estimates(p: ModelPlan, c: ModelConfig, reply: ModelReply)
    requires
        p.preview,
        p.scheduler is Ready,
    ensures
        model_start(p).1 is Call ==> model_start(p).1 == StepView::Call(CallView::DryRun(p.select_sql@))
            && (model_next(p, c, model_start(p).0, reply).1 is Finish || model_next(
            p,
            c,
            model_start(p).0,
            reply,
        ).1 == StepView::Fail(ErrorView::OutOfOrder)),
{
}

/// An ephemeral model makes no call at all: it finishes at once, with no
/// estimate.
pub proof fn law_ephemeral_calls_nothing(p: ModelPlan)
    requires
        p.ephemeral,
        !p.incremental,
        p.scheduler is Ready,
    ensures
        model_start(p).1 == StepView::Finish(
            model_result(p, p.scheduler->Ready_0@, None),
        ),
{
}

/// The plan of a preview, or of a model that is not incremental, knows its
/// scheduler statement without reading the table.
pub proof fn law_plan_needs_columns_only_when_real(
    s: SchedulerSql,
    c: ModelConfig,
    ddl: Seq<char>,
    table_ref: Seq<char>,
    preview: bool,
    keys: Seq<QuotedName>,
    resolved_inc: Option<ResolvedSql>,
)
    requires
        is_scheduler_sql(s, c, ddl, table_ref, preview, keys, resolved_inc),
        preview || c.materialization@ != "incremental"@,
    ensures
        s is Ready,
{
}

// ───────────────────────── a model's inputs ─────────────────────────

/// Why a model's SQL cannot be deployed: its preprocessing or its
/// resolution failed.
pub enum ModelInputError {
    Preprocess(PreprocessError),
    Resolve(ResolveError),
}

impl ModelInputError {
    /// The error's message.
    pub fn to_string(&self) -> (r: String)
        ensures
            r@ == match self {
                ModelInputError::Preprocess(e) => e.message(),
                ModelInputError::Resolve(e) => e.message(),
            },
    {
        match self {
            ModelInputError::Preprocess(e) => e.to_string(),
            ModelInputError::Resolve(e) => e.to_string(),
        }
    }
}

/// Why a model's SQL cannot be deployed, as text.
pub enum InputFailure {
    Preprocess(PreprocessFailure),
    Resolve(ResolveFailure),
}

/// `e` reports `f` (for variables `vars`), as [`preprocess`] and
/// [`resolve_segments`] report their failures.
pub open spec fn reports_input(e: ModelInputError, f: InputFailure, vars: Seq<(Seq<char>, String)>) -> bool {
    match f {
        InputFailure::Preprocess(PreprocessFailure::Nul) => e matches ModelInputError::Preprocess(
            PreprocessError::UnsupportedInput { reason },
        ) && reason@ == "SQL may not contain NUL bytes"@,
        InputFailure::Preprocess(PreprocessFailure::UnknownVar(n)) => e matches ModelInputError::Preprocess(
            PreprocessError::UnknownVar { name, available },
        ) && name@ == n && available@ == join(crate::strmap::keys_of(vars), ", "@),
        InputFailure::Resolve(r) => e matches ModelInputError::Resolve(x) && reports_failure(x, r),
    }
}

/// The resolution of a model's SQL for one pass: preprocessed (with
/// `is_incremental` as given) against the project's vars and the model's
/// table, then resolved against the project's sources, the referenced
/// models and the macros.
pub open spec fn pass_resolution(
    sql: Seq<char>,
    context: ProjectContext,
    refs: Seq<(Seq<char>, ModelRefData)>,
    macros: Seq<(Seq<char>, MacroDef)>,
    table_ref: Seq<char>,
    is_incremental: bool,
) -> Result<SpecResolution, InputFailure> {
    match preprocessed(sql, context.vars@, table_ref, is_incremental) {
        Err(f) => Err(InputFailure::Preprocess(f)),
        Ok(t) => match resolution(t, context.sources@, refs, macros) {
            Err(f) => Err(InputFailure::Resolve(f)),
            Ok(st) => Ok(st),
        },
    }
}

/// What a model's deploy is made from, before its source tables are
/// quoted: its configuration (declared options taking the place of the
/// SQL's), the resolution of its deploy pass, that of its incremental pass
/// (for an incremental model) and its unique keys.
pub struct PreparedModel {
    pub config: ModelConfig,
    pub deploy: Resolution,
    pub incremental: Option<Resolution>,
    pub unique_keys: Vec<String>,
}

fn resolve_pass(
    sql: &str,
    context: &ProjectContext<'_>,
    model_refs: &StrMap<ModelRefData>,
    macros: &StrMap<MacroDef>,
    table_ref: &str,
    is_incremental: bool,
) -> (r: Result<Resolution, ModelInputError>)
    requires
        sql@.len() <= usize::MAX / 8,
    ensures
        match pass_resolution(sql@, *context, model_refs@, macros@, table_ref@, is_incremental) {
            Ok(st) => r matches Ok(x) && x@ == st,
            Err(f) => r matches Err(e) && reports_input(e, f, context.vars@),
        },
{
    let pre = match preprocess(sql, &context.vars, table_ref, is_incremental) {
        Ok(t) => t,
        Err(e) => {
            return Err(ModelInputError::Preprocess(e));
        },
    };
    match resolve_segments(pre.as_str(), &context.sources, model_refs, macros) {
        Ok(x) => Ok(x),
        Err(e) => Err(ModelInputError::Resolve(e)),
    }
}

/// Prepares a model's deploy from its SQL and properties. The deploy pass
/// comes first and its failure is the answer; an incremental model then
/// resolves its incremental pass too. The caller quotes the source tables
/// each resolution looks up ([`crate::resolver::source_lookups`]) and
/// assembles the queries ([`crate::resolver::assemble`]).
pub fn prepare_model(
    sql: &str,
    context: &ProjectContext<'_>,
    model_refs: &StrMap<ModelRefData>,
    macros: &StrMap<MacroDef>,
    yaml: Option<&OwnedTableOptions>,
    table_ref: &str,
) -> (r: Result<PreparedModel, ModelInputError>)
    requires
        sql@.len() <= usize::MAX / 8,
    ensures
        ({
            let deploy = pass_resolution(sql@, *context, model_refs@, macros@, table_ref@, false);
            let inc = pass_resolution(sql@, *context, model_refs@, macros@, table_ref@, true);
            let incremental = model_config(sql@, macros@).materialization == Some("incremental"@);
            match deploy {
                Err(f) => r matches Err(e) && reports_input(e, f, context.vars@),
                Ok(st) => if incremental && inc is Err {
                    r matches Err(e) && reports_input(e, inc->Err_0, context.vars@)
                } else {
                    r matches Ok(p) && p.deploy@ == st && (incremental ==> (p.incremental matches Some(i)
                        && i@ == inc->Ok_0)) && (!incremental ==> p.incremental is None)
                },
            }
        }),
        r matches Ok(p) ==> Some(p.config.materialization@) == model_config(sql@, macros@).materialization
            && strings_view(p.unique_keys@) == unique_keys(p.config) && match yaml {
            None => p.config@ == model_config(sql@, macros@),
            Some(y) => exists|o: ModelConfig|
                o@ == model_config(sql@, macros@) && #[trigger] is_overridden(p.config, o, *y),
        },
{
    let mut config = extract_model_config(sql, macros);
    let ghost extracted = config;
    match yaml {
        Some(y) => config.override_options(y),
        None => {},
    }
    let deploy = resolve_pass(sql, context, model_refs, macros, table_ref, false)?;
    let incremental = if str_eq(config.materialization.as_str(), "incremental") {
        Some(resolve_pass(sql, context, model_refs, macros, table_ref, true)?)
    } else {
        None
    };
    let unique_keys = unique_keys_of(&config);
    Ok(PreparedModel { config, deploy, incremental, unique_keys })
}

} // verus!
