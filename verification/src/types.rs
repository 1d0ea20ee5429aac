//! Request and response shapes exchanged with the query service, the
//! execution states with their wire tags, and the paging options of a result
//! request with their query-string encoding.

use crate::text::{decimal, decimal_string, join, joined};
use std::collections::HashMap;
use vstd::prelude::*;

verus! {

/// `serde_json::Value`, one loosely typed cell of a result row. Opaque: cells
/// are carried to the caller, never read here.
#[verifier::external_type_specification]
#[verifier::external_body]
pub struct ExCell(serde_json::Value);

/// Parameters for executing a SQL statement.
#[derive(Debug, Clone)]
pub struct ExecuteSqlRequest {
    /// The SQL text to execute.
    pub sql: String,
    /// Optional query parameters.
    pub query_parameters: Option<Vec<QueryParameter>>,
    /// Performance tier: "medium" or "large". Not checked here; the service
    /// rejects anything else.
    pub performance: Option<String>,
}

impl Default for ExecuteSqlRequest {
    fn default() -> (r: ExecuteSqlRequest)
        ensures
            r.sql@ == Seq::<char>::empty(),
            r.query_parameters is None,
            r.performance is None,
    {
        ExecuteSqlRequest { sql: String::new(), query_parameters: None, performance: None }
    }
}

/// Parameters for executing a saved query.
#[derive(Debug, Clone)]
pub struct ExecuteQueryRequest {
    /// Optional query parameters to override.
    pub query_parameters: Option<Vec<QueryParameter>>,
    /// Performance tier: "medium" or "large". Not checked here; the service
    /// rejects anything else.
    pub performance: Option<String>,
}

impl Default for ExecuteQueryRequest {
    fn default() -> (r: ExecuteQueryRequest)
        ensures
            r.query_parameters is None,
            r.performance is None,
    {
        ExecuteQueryRequest { query_parameters: None, performance: None }
    }
}

/// A value substituted into a saved query at execution time.
#[derive(Debug, Clone)]
pub struct QueryParameter {
    /// Parameter key.
    pub key: String,
    /// Parameter type tag: "text", "number", "date" or "enum".
    pub param_type: String,
    /// Parameter value.
    pub value: String,
}

/// The handle returned when an execution is submitted.
#[derive(Debug, Clone)]
pub struct ExecuteResponse {
    /// The identifier under which the execution is tracked.
    pub execution_id: String,
    /// State of the execution at submission.
    pub state: ExecutionState,
}

/// The handle returned when a pipeline is submitted.
#[derive(Debug, Clone)]
pub struct PipelineExecuteResponse {
    /// The pipeline execution identifier.
    pub pipeline_execution_id: String,
    /// State of the pipeline execution at submission.
    pub state: ExecutionState,
}

/// State of a query execution, as the service reports it.
#[derive(Debug, Clone, Copy, PartialEq, Eq, Structural)]
pub enum ExecutionState {
    /// Accepted and waiting in the queue.
    Pending,
    /// Currently running.
    Executing,
    /// Finished with a result.
    Completed,
    /// Finished with an error.
    Failed,
    /// Stopped on request.
    Cancelled,
}

impl ExecutionState {
    /// The states from which the service makes no further transition.
    pub open spec fn terminal(self) -> bool {
        self is Completed || self is Failed || self is Cancelled
    }

    /// The transitions of the lifecycle: `Pending` may become `Executing` or
    /// any terminal state, `Executing` may become any terminal state, and a
    /// terminal state becomes nothing else.
    pub open spec fn may_become(self, next: ExecutionState) -> bool {
        match self {
            ExecutionState::Pending => next is Executing || next.terminal(),
            ExecutionState::Executing => next.terminal(),
            _ => false,
        }
    }

    /// The tag that stands for the state on the wire.
    pub open spec fn tag(self) -> Seq<char> {
        match self {
            ExecutionState::Pending => "QUERY_STATE_PENDING"@,
            ExecutionState::Executing => "QUERY_STATE_EXECUTING"@,
            ExecutionState::Completed => "QUERY_STATE_COMPLETED"@,
            ExecutionState::Failed => "QUERY_STATE_FAILED"@,
            ExecutionState::Cancelled => "QUERY_STATE_CANCELLED"@,
        }
    }

    /// Returns true if the execution is in a terminal state.
    pub fn is_terminal(&self) -> (r: bool)
        ensures
            r == self.terminal(),
            r <==> (*self == ExecutionState::Completed || *self == ExecutionState::Failed || *self
                == ExecutionState::Cancelled),
    {
        matches!(self, ExecutionState::Completed | ExecutionState::Failed | ExecutionState::Cancelled)
    }

    /// Returns true if the execution completed successfully.
    pub fn is_success(&self) -> (r: bool)
        ensures
            r <==> *self == ExecutionState::Completed,
    {
        matches!(self, ExecutionState::Completed)
    }

    /// The tag under which the state travels on the wire.
    pub fn wire_tag(&self) -> (t: &'static str)
        ensures
            t@ == self.tag(),
    {
        match self {
            ExecutionState::Pending => "QUERY_STATE_PENDING",
            ExecutionState::Executing => "QUERY_STATE_EXECUTING",
            ExecutionState::Completed => "QUERY_STATE_COMPLETED",
            ExecutionState::Failed => "QUERY_STATE_FAILED",
            ExecutionState::Cancelled => "QUERY_STATE_CANCELLED",
        }
    }

    /// The state that a wire tag stands for: the one whose tag it is, letter
    /// for letter, and none where no state has that tag.
    pub open spec fn of_tag(text: Seq<char>) -> Option<ExecutionState> {
        if text == ExecutionState::Pending.tag() {
            Some(ExecutionState::Pending)
        } else if text == ExecutionState::Executing.tag() {
            Some(ExecutionState::Executing)
        } else if text == ExecutionState::Completed.tag() {
            Some(ExecutionState::Completed)
        } else if text == ExecutionState::Failed.tag() {
            Some(ExecutionState::Failed)
        } else if text == ExecutionState::Cancelled.tag() {
            Some(ExecutionState::Cancelled)
        } else {
            None
        }
    }

    /// Reads a wire tag.
    pub fn from_wire_tag(text: &str) -> (r: Option<ExecutionState>)
        ensures
            r == ExecutionState::of_tag(text@),
    {
        let given = text.to_owned();
        if given == ExecutionState::Pending.wire_tag().to_owned() {
            Some(ExecutionState::Pending)
        } else if given == ExecutionState::Executing.wire_tag().to_owned() {
            Some(ExecutionState::Executing)
        } else if given == ExecutionState::Completed.wire_tag().to_owned() {
            Some(ExecutionState::Completed)
        } else if given == ExecutionState::Failed.wire_tag().to_owned() {
            Some(ExecutionState::Failed)
        } else if given == ExecutionState::Cancelled.wire_tag().to_owned() {
            Some(ExecutionState::Cancelled)
        } else {
            None
        }
    }
}

/// Wire tags round-trip exactly: reading the tag of a state gives that state
/// back, a text is read as a state only where it is that state's tag, and no
/// two states share a tag.
pub proof fn lemma_tags_round_trip(state: ExecutionState, other: ExecutionState, text: Seq<char>)
    ensures
        ExecutionState::of_tag(state.tag()) == Some(state),
        ExecutionState::of_tag(text) == Some(state) <==> text == state.tag(),
        state.tag() == other.tag() <==> state == other,
{
    reveal_strlit("QUERY_STATE_PENDING");
    reveal_strlit("QUERY_STATE_EXECUTING");
    reveal_strlit("QUERY_STATE_COMPLETED");
    reveal_strlit("QUERY_STATE_FAILED");
    reveal_strlit("QUERY_STATE_CANCELLED");
    let e = ExecutionState::Executing.tag();
    let c = ExecutionState::Completed.tag();
    let x = ExecutionState::Cancelled.tag();
    assert(e[12] == 'E' && c[12] == 'C' && x[12] == 'C');
    assert(c[13] == 'O' && x[13] == 'A');
    assert(ExecutionState::Pending.tag().len() == 19);
    assert(ExecutionState::Failed.tag().len() == 18);
    assert(e.len() == 21 && c.len() == 21 && x.len() == 21);
}

/// Response from getting execution status.
#[derive(Debug, Clone)]
pub struct ExecutionStatusResponse {
    /// The execution identifier.
    pub execution_id: String,
    /// The query identifier, for executions of a saved query.
    pub query_id: Option<u64>,
    /// Current state of the execution.
    pub state: ExecutionState,
    /// Time when the execution was submitted.
    pub submitted_at: Option<String>,
    /// Time when execution started.
    pub execution_started_at: Option<String>,
    /// Time when execution ended.
    pub execution_ended_at: Option<String>,
    /// Time at which the results expire.
    pub expires_at: Option<String>,
    /// Position in the queue while pending. Informational only.
    pub queue_position: Option<u32>,
}

/// Metadata about query results.
#[derive(Debug, Clone)]
pub struct ResultMetadata {
    /// Column names in the result, in row key order.
    pub column_names: Vec<String>,
    /// Column types, parallel to the names; may be shorter or empty.
    pub column_types: Vec<String>,
    /// Number of rows available on the server.
    pub total_row_count: u64,
    /// Number of rows returned in this page.
    pub datapoint_count: u64,
    /// Size of the result set in bytes.
    pub result_set_bytes: Option<u64>,
    /// Time spent pending, in milliseconds.
    pub pending_time_millis: Option<u64>,
    /// Time spent executing, in milliseconds.
    pub execution_time_millis: Option<u64>,
}

/// Row counts of one page, derived from metadata whose counts agree.
#[derive(Debug, Clone, Copy, PartialEq, Eq, Structural)]
pub struct Pagination {
    /// Rows available on the server.
    pub total_row_count: u64,
    /// Rows returned in this page.
    pub datapoint_count: u64,
    /// Rows on the server that this page does not hold.
    pub remaining: u64,
}

impl Pagination {
    /// The counts add up: the rows of the page and the rows left out of it
    /// are the rows on the server, so the page never holds more than the total.
    pub open spec fn adds_up(self) -> bool {
        self.datapoint_count + self.remaining == self.total_row_count
    }
}

impl ResultMetadata {
    /// The counts agree: a page holds no more rows than the server has.
    pub open spec fn consistent(&self) -> bool {
        self.datapoint_count <= self.total_row_count
    }

    /// Whether the counts agree.
    pub fn is_consistent(&self) -> (r: bool)
        ensures
            r == self.consistent(),
    {
        self.datapoint_count <= self.total_row_count
    }

    /// The row counts of this page, or `None` where the metadata reports
    /// more returned rows than the server has.
    pub fn pagination(&self) -> (r: Option<Pagination>)
        ensures
            r is Some <==> self.consistent(),
            r matches Some(p) ==> p.total_row_count == self.total_row_count && p.datapoint_count
                == self.datapoint_count && p.adds_up(),
            r matches Some(p) ==> p.datapoint_count <= p.total_row_count,
    {
        if self.datapoint_count <= self.total_row_count {
            Some(
                Pagination {
                    total_row_count: self.total_row_count,
                    datapoint_count: self.datapoint_count,
                    remaining: self.total_row_count - self.datapoint_count,
                },
            )
        } else {
            None
        }
    }
}

/// Response from getting execution results.
#[derive(Debug, Clone)]
pub struct ExecutionResultsResponse {
    /// The execution identifier.
    pub execution_id: String,
    /// The query identifier, for executions of a saved query.
    pub query_id: Option<u64>,
    /// Current state of the execution.
    pub state: ExecutionState,
    /// Time when the execution was submitted.
    pub submitted_at: Option<String>,
    /// Time when execution started.
    pub execution_started_at: Option<String>,
    /// Time when execution ended.
    pub execution_ended_at: Option<String>,
    /// Time at which the results expire.
    pub expires_at: Option<String>,
    /// The result, present once the execution has completed.
    pub result: Option<ResultData>,
}

/// The actual result data.
#[derive(Debug, Clone)]
pub struct ResultData {
    /// Metadata about the results.
    pub metadata: ResultMetadata,
    /// The result rows, each a mapping from column name to cell.
    pub rows: Vec<HashMap<String, serde_json::Value>>,
}

/// Response from cancelling an execution.
#[derive(Debug, Clone)]
pub struct CancelExecutionResponse {
    /// Whether the service accepted the cancellation request.
    pub success: bool,
}

/// Options for fetching results. An unset option leaves the choice to the service.
#[derive(Debug, Clone)]
pub struct ResultOptions {
    /// Maximum number of rows to return.
    pub limit: Option<u32>,
    /// Number of rows to skip.
    pub offset: Option<u32>,
    /// Column to sort by.
    pub sort_by: Option<String>,
    /// Sort order: "asc" or "desc".
    pub order: Option<String>,
    /// Columns to include in the result.
    pub columns: Option<Vec<String>>,
    /// Filter expression.
    pub filters: Option<String>,
}

/// The mathematical value of [`ResultOptions`].
pub struct ResultOptionsView {
    pub limit: Option<u32>,
    pub offset: Option<u32>,
    pub sort_by: Option<Seq<char>>,
    pub order: Option<Seq<char>>,
    pub columns: Option<Seq<Seq<char>>>,
    pub filters: Option<Seq<char>>,
}

/// One query pair under `key` where the option is set, none where it is not.
pub open spec fn pair_if_set(key: Seq<char>, value: Option<Seq<char>>) -> Seq<
    (Seq<char>, Seq<char>),
> {
    match value {
        Some(v) => seq![(key, v)],
        None => Seq::empty(),
    }
}

/// The numeral of a count that is set.
pub open spec fn numeral_if_set(n: Option<u32>) -> Option<Seq<char>> {
    match n {
        Some(n) => Some(decimal(n as nat)),
        None => None,
    }
}

/// The comma-joined list of columns that is set.
pub open spec fn list_if_set(columns: Option<Seq<Seq<char>>>) -> Option<Seq<char>> {
    match columns {
        Some(c) => Some(joined(c, ","@)),
        None => None,
    }
}

impl ResultOptionsView {
    /// The query-string pairs of the options: one pair for each option that is
    /// set, in the order limit, offset, sort_by, order, columns, filters.
    pub open spec fn query_pairs(self) -> Seq<(Seq<char>, Seq<char>)> {
        pair_if_set("limit"@, numeral_if_set(self.limit)) + pair_if_set(
            "offset"@,
            numeral_if_set(self.offset),
        ) + pair_if_set("sort_by"@, self.sort_by) + pair_if_set("order"@, self.order)
            + pair_if_set("columns"@, list_if_set(self.columns)) + pair_if_set(
            "filters"@,
            self.filters,
        )
    }

    /// How many of the six options are set.
    pub open spec fn count_set(self) -> nat {
        let one = |b: bool| if b { 1nat } else { 0nat };
        one(self.limit is Some) + one(self.offset is Some) + one(self.sort_by is Some) + one(
            self.order is Some,
        ) + one(self.columns is Some) + one(self.filters is Some)
    }
}

impl View for ResultOptions {
    type V = ResultOptionsView;

    open spec fn view(&self) -> ResultOptionsView {
        ResultOptionsView {
            limit: self.limit,
            offset: self.offset,
            sort_by: self.sort_by.deep_view(),
            order: self.order.deep_view(),
            columns: self.columns.deep_view(),
            filters: self.filters.deep_view(),
        }
    }
}

impl Default for ResultOptions {
    fn default() -> (r: ResultOptions)
        ensures
            r@ == ResultOptions::unset(),
    {
        ResultOptions {
            limit: None,
            offset: None,
            sort_by: None,
            order: None,
            columns: None,
            filters: None,
        }
    }
}

/// Appends the pair `(key, value)` to `params`.
fn push_pair(params: &mut Vec<(String, String)>, key: &str, value: String)
    ensures
        final(params).deep_view() == old(params).deep_view().push((key@, value@)),
{
    params.push((key.to_owned(), value));
    assert(params.deep_view() =~= old(params).deep_view().push((key@, value@)));
}

impl ResultOptions {
    /// The options with none set.
    pub open spec fn unset() -> ResultOptionsView {
        ResultOptionsView {
            limit: None,
            offset: None,
            sort_by: None,
            order: None,
            columns: None,
            filters: None,
        }
    }

    /// Creates options with none set.
    pub fn new() -> (r: ResultOptions)
        ensures
            r@ == ResultOptions::unset(),
    {
        ResultOptions::default()
    }

    /// Sets the limit.
    pub fn limit(self, limit: u32) -> (r: ResultOptions)
        ensures
            r@ == (ResultOptionsView { limit: Some(limit), ..self@ }),
    {
        let mut options = self;
        options.limit = Some(limit);
        options
    }

    /// Sets the offset.
    pub fn offset(self, offset: u32) -> (r: ResultOptions)
        ensures
            r@ == (ResultOptionsView { offset: Some(offset), ..self@ }),
    {
        let mut options = self;
        options.offset = Some(offset);
        options
    }

    /// Sets the sort column.
    pub fn sort_by(self, column: &str) -> (r: ResultOptions)
        ensures
            r@ == (ResultOptionsView { sort_by: Some(column@), ..self@ }),
    {
        let mut options = self;
        options.sort_by = Some(column.to_owned());
        options
    }

    /// Sets the sort order.
    pub fn order(self, order: &str) -> (r: ResultOptions)
        ensures
            r@ == (ResultOptionsView { order: Some(order@), ..self@ }),
    {
        let mut options = self;
        options.order = Some(order.to_owned());
        options
    }

    /// Sets the columns to include.
    pub fn columns(self, columns: Vec<String>) -> (r: ResultOptions)
        ensures
            r@ == (ResultOptionsView { columns: Some(columns.deep_view()), ..self@ }),
    {
        let mut options = self;
        options.columns = Some(columns);
        options
    }

    /// Encodes the options as query-string pairs: a pair for each option that
    /// is set and none for the others, always in the same order.
    pub fn to_query_params(&self) -> (params: Vec<(String, String)>)
        ensures
            params.deep_view() == self@.query_pairs(),
            params.len() == self@.count_set(),
    {
        let mut params: Vec<(String, String)> = Vec::new();
        assert(params.deep_view() =~= Seq::empty());
        if let Some(limit) = self.limit {
            push_pair(&mut params, "limit", decimal_string(limit as u64));
        }
        if let Some(offset) = self.offset {
            push_pair(&mut params, "offset", decimal_string(offset as u64));
        }
        if let Some(ref sort_by) = self.sort_by {
            push_pair(&mut params, "sort_by", sort_by.clone());
        }
        if let Some(ref order) = self.order {
            push_pair(&mut params, "order", order.clone());
        }
        if let Some(ref columns) = self.columns {
            push_pair(&mut params, "columns", join(columns, ","));
        }
        if let Some(ref filters) = self.filters {
            push_pair(&mut params, "filters", filters.clone());
        }
        assert(params.deep_view() =~= self@.query_pairs());
        params
    }
}

} // verus!
