//! The decisions of a query execution.
//!
//! The caller submits the query and pulls the rows; after each of these it
//! reports what happened, and the functions here decide how the execution
//! goes on: pull another row, hand out the complete result, or fail with a
//! message and nothing else.

use vstd::prelude::*;
use vstd::string::StringExecFns;
use crate::conversions::{convert_row_to_elixir, mapping_converts, row_entries};
use crate::value::{entries_wf, entry_views, map_of, GenericValue, Record};
use crate::wire::{lemma_item_models, RowModel, WireRow};

verus! {

/// The failure of a query: a message for the host, and nothing else.
#[derive(Debug, Clone, PartialEq, Eq)]
pub struct QueryError {
    pub message: String,
}

/// What one pull on the row stream brought.
#[derive(Debug, PartialEq)]
pub enum RowEvent {
    /// The next row.
    Row(WireRow),
    /// The stream is exhausted.
    End,
    /// The pull failed, with the client's message.
    Failed(String),
}

/// The content of a [`RowEvent`].
pub enum RowEventModel {
    Row(RowModel),
    End,
    Failed(Seq<char>),
}

impl View for RowEvent {
    type V = RowEventModel;

    open spec fn view(&self) -> RowEventModel {
        match self {
            RowEvent::Row(row) => RowEventModel::Row(row@),
            RowEvent::End => RowEventModel::End,
            RowEvent::Failed(detail) => RowEventModel::Failed(detail@),
        }
    }
}

/// A query that was accepted and whose rows are being pulled: the records of
/// the rows pulled so far.
#[derive(Debug)]
pub struct QueryRun {
    records: Vec<Record>,
}

/// How a query execution goes on.
#[derive(Debug)]
pub enum QueryStep {
    /// Pull the next row and report it.
    Pull(QueryRun),
    /// The result is complete: one record for each row, in the rows' order.
    Done(Vec<Record>),
    /// The query failed. No record is handed out.
    Failed(QueryError),
}

/// The content of a [`QueryStep`]: the records as mappings, or the message.
pub enum StepModel {
    Pull(Seq<Map<Seq<char>, GenericValue>>),
    Done(Seq<Map<Seq<char>, GenericValue>>),
    Failed(Seq<char>),
}

/// The records, each as the mapping it stands for.
pub open spec fn record_views(records: Seq<Record>) -> Seq<Map<Seq<char>, GenericValue>> {
    Seq::new(records.len(), |i: int| map_of(entry_views(records[i]@)))
}

/// No record holds a key twice, at any depth.
pub open spec fn records_wf(records: Seq<Record>) -> bool {
    forall|i: int| 0 <= i < records.len() ==> entries_wf(#[trigger] records[i]@)
}

/// The message of a query that the database did not accept.
pub open spec fn submit_failure_text(detail: Seq<char>) -> Seq<char> {
    "Query execution failed: "@ + detail
}

/// The message of a query whose row stream failed.
pub open spec fn fetch_failure_text(detail: Seq<char>) -> Seq<char> {
    "Row fetch failed: "@ + detail
}

/// The message of a query one of whose rows could not be converted.
pub open spec fn decode_failure_text() -> Seq<char> {
    "Row decode failed: the numbers of columns and of values differ"@
}

/// The first step of an execution: an accepted query starts pulling with no
/// record yet, a refused one fails with the client's message.
pub open spec fn begun(submitted: Result<(), Seq<char>>) -> StepModel {
    match submitted {
        Ok(_) => StepModel::Pull(Seq::empty()),
        Err(detail) => StepModel::Failed(submit_failure_text(detail)),
    }
}

/// `next` is a step that may follow the report of `event` while `records` are
/// held.
///
/// A row with as many column names as values adds one record, a conversion of
/// that row, and the pulling goes on; any other row fails the query. The end of
/// the stream hands out the records as they are. A failed pull fails the query,
/// whatever was held.
pub open spec fn advances(
    records: Seq<Map<Seq<char>, GenericValue>>,
    event: RowEventModel,
    next: StepModel,
) -> bool {
    match event {
        RowEventModel::Row(row) => if row.columns.len() == row.values.len() {
            &&& next matches StepModel::Pull(more)
            &&& more.len() == records.len() + 1
            &&& more.drop_last() == records
            &&& mapping_converts(map_of(row_entries(row)), GenericValue::Mapping(more.last()))
        } else {
            next == StepModel::Failed(decode_failure_text())
        },
        RowEventModel::End => next == StepModel::Done(records),
        RowEventModel::Failed(detail) => next == StepModel::Failed(fetch_failure_text(detail)),
    }
}

/// `outcome` is a step that an execution holding `records` may reach when the
/// events are reported one after the other, up to the first step that does not
/// pull.
pub open spec fn runs(
    records: Seq<Map<Seq<char>, GenericValue>>,
    events: Seq<RowEventModel>,
    outcome: StepModel,
) -> bool
    decreases events.len(),
{
    if events.len() == 0 {
        outcome == StepModel::Pull(records)
    } else {
        exists|next: StepModel| #[trigger]
            advances(records, events[0], next) && match next {
                StepModel::Pull(more) => runs(more, events.drop_first(), outcome),
                _ => outcome == next,
            }
    }
}

impl View for QueryRun {
    type V = Seq<Map<Seq<char>, GenericValue>>;

    closed spec fn view(&self) -> Seq<Map<Seq<char>, GenericValue>> {
        record_views(self.records@)
    }
}

impl QueryRun {
    #[verifier::type_invariant]
    spec fn inv(self) -> bool {
        records_wf(self.records@)
    }

    /// Decides the step after a pull.
    pub fn advance(self, event: RowEvent) -> (step: QueryStep)
        ensures
            step.wf(),
            advances(self@, event@, step@),
    {
        proof {
            use_type_invariant(&self);
        }
        let mut records = self.records;
        match event {
            RowEvent::Row(row) => match convert_row_to_elixir(&row) {
                Ok(record) => {
                    proof {
                        lemma_item_models(row.values@);
                    }
                    let ghost before = records@;
                    records.push(record);
                    proof {
                        assert(record_views(records@).drop_last() =~= record_views(before));
                    }
                    QueryStep::Pull(QueryRun { records })
                },
                Err(_) => {
                    proof {
                        lemma_item_models(row.values@);
                    }
                    let message =
                        "Row decode failed: the numbers of columns and of values differ".to_string();
                    QueryStep::Failed(QueryError { message })
                },
            },
            RowEvent::End => QueryStep::Done(records),
            RowEvent::Failed(detail) => QueryStep::Failed(
                QueryError { message: "Row fetch failed: ".to_string().concat(detail.as_str()) },
            ),
        }
    }
}

impl QueryStep {
    /// No record that is handed out holds a key twice, at any depth.
    pub open spec fn wf(&self) -> bool {
        match self {
            QueryStep::Done(records) => records_wf(records@),
            _ => true,
        }
    }
}

impl View for QueryStep {
    type V = StepModel;

    open spec fn view(&self) -> StepModel {
        match self {
            QueryStep::Pull(run) => StepModel::Pull(run@),
            QueryStep::Done(records) => StepModel::Done(record_views(records@)),
            QueryStep::Failed(error) => StepModel::Failed(error.message@),
        }
    }
}

/// Decides the first step of an execution from the outcome of submitting the
/// query: `Err` holds the client's message.
pub fn begin_query(submitted: Result<(), String>) -> (step: QueryStep)
    ensures
        step.wf(),
        submitted is Ok ==> step@ == begun(Ok(())),
        submitted matches Err(detail) ==> step@ == begun(Err(detail@)),
{
    match submitted {
        Ok(_) => {
            let run = QueryRun { records: Vec::new() };
            proof {
                assert(run@ =~= Seq::empty());
            }
            QueryStep::Pull(run)
        },
        Err(detail) => QueryStep::Failed(
            QueryError { message: "Query execution failed: ".to_string().concat(detail.as_str()) },
        ),
    }
}

/// A query that is accepted and returns no row ends with the empty result,
/// not with an error.
pub proof fn law_no_rows_give_empty_result(outcome: StepModel)
    requires
        begun(Ok(())) matches StepModel::Pull(records) && runs(
            records,
            seq![RowEventModel::End],
            outcome,
        ),
    ensures
        outcome == StepModel::Done(Seq::empty()),
{
}

/// When the stream fails after any number of rows, the query ends with an
/// error: whatever records were held, none is handed out.
pub proof fn law_failed_pull_gives_error_only(
    records: Seq<Map<Seq<char>, GenericValue>>,
    events: Seq<RowEventModel>,
    failure: int,
    outcome: StepModel,
)
    requires
        0 <= failure < events.len(),
        events[failure] is Failed,
        forall|j: int| 0 <= j < failure ==> (#[trigger] events[j]) is Row,
        runs(records, events, outcome),
    ensures
        outcome is Failed,
    decreases events.len(),
{
    let next = choose|next: StepModel| #[trigger]
        advances(records, events[0], next) && match next {
            StepModel::Pull(more) => runs(more, events.drop_first(), outcome),
            _ => outcome == next,
        };
    if failure > 0 {
        if let StepModel::Pull(more) = next {
            law_failed_pull_gives_error_only(more, events.drop_first(), failure - 1, outcome);
        }
    }
}

/// When the stream ends after rows that each have as many column names as
/// values, the query ends with the complete result: the records held before,
/// followed by one record for each row, in the rows' order, each a conversion
/// of its row.
pub proof fn law_exhausted_stream_gives_every_row(
    records: Seq<Map<Seq<char>, GenericValue>>,
    events: Seq<RowEventModel>,
    outcome: StepModel,
)
    requires
        events.len() > 0,
        events.last() is End,
        forall|j: int|
            0 <= j < events.len() - 1 ==> (#[trigger] events[j] matches RowEventModel::Row(row)
                && row.columns.len() == row.values.len()),
        runs(records, events, outcome),
    ensures
        outcome is Done,
        outcome->Done_0.len() == records.len() + events.len() - 1,
        outcome->Done_0.take(records.len() as int) == records,
        forall|j: int|
            0 <= j < events.len() - 1 ==> mapping_converts(
                map_of(row_entries(events[j]->Row_0)),
                GenericValue::Mapping(#[trigger] outcome->Done_0[records.len() + j]),
            ),
    decreases events.len(),
{
    let next = choose|next: StepModel| #[trigger]
        advances(records, events[0], next) && match next {
            StepModel::Pull(more) => runs(more, events.drop_first(), outcome),
            _ => outcome == next,
        };
    if events.len() > 1 {
        let more = next->Pull_0;
        law_exhausted_stream_gives_every_row(more, events.drop_first(), outcome);
        let result = outcome->Done_0;
        assert(result.take(records.len() as int) =~= records);
        assert forall|j: int| 0 <= j < events.len() - 1 implies mapping_converts(
            map_of(row_entries(events[j]->Row_0)),
            GenericValue::Mapping(#[trigger] result[records.len() + j]),
        ) by {
            if j > 0 {
                assert(result[more.len() + (j - 1)] == result[records.len() + j]);
            }
        }
    }
}

} // verus!
