use vstd::prelude::*;

use crate::common::{unescape_query, unescaped};
use crate::row::{Entries, RowResult};

verus! {

/// Why a query execution failed as a whole.
#[derive(Debug, PartialEq)]
pub enum ExecutionError {
    /// No connection could be had or used (timeout, refused, authentication).
    Connection(String),
    /// The database rejected or failed the query, possibly mid-stream.
    Query(String),
}

/// The mathematical model of an `ExecutionError`.
pub ghost enum ErrorView {
    Connection(Seq<char>),
    Query(Seq<char>),
}

impl View for ExecutionError {
    type V = ErrorView;

    open spec fn view(&self) -> ErrorView {
        match self {
            ExecutionError::Connection(m) => ErrorView::Connection(m@),
            ExecutionError::Query(m) => ErrorView::Query(m@),
        }
    }
}

impl ExecutionError {
    /// The message carried by the error.
    pub fn message(&self) -> (r: String)
        ensures
            r@ == match self@ {
                ErrorView::Connection(m) => m,
                ErrorView::Query(m) => m,
            },
    {
        match self {
            ExecutionError::Connection(m) => m.clone(),
            ExecutionError::Query(m) => m.clone(),
        }
    }
}

/// The result of a complete execution: the query as run, its rows in arrival
/// order, and the elapsed wall-clock time as text.
#[derive(Debug, PartialEq)]
pub struct QueryOutcome {
    pub query: String,
    pub rows: Vec<RowResult>,
    pub elapsed: String,
}

/// The mathematical model of a `QueryOutcome`.
pub ghost struct OutcomeView {
    pub query: Seq<char>,
    pub rows: Seq<Entries>,
    pub elapsed: Seq<char>,
}

impl View for QueryOutcome {
    type V = OutcomeView;

    open spec fn view(&self) -> OutcomeView {
        OutcomeView {
            query: self.query@,
            rows: self.rows@.map_values(|r: RowResult| r@),
            elapsed: self.elapsed@,
        }
    }
}

/// An execution in progress: the query as run and the rows gathered so far.
#[derive(Debug)]
pub struct QueryRun {
    query: String,
    rows: Vec<RowResult>,
}

/// The mathematical model of a `QueryRun`.
pub ghost struct RunView {
    pub query: Seq<char>,
    pub rows: Seq<Entries>,
}

impl View for QueryRun {
    type V = RunView;

    closed spec fn view(&self) -> RunView {
        RunView { query: self.query@, rows: self.rows@.map_values(|r: RowResult| r@) }
    }
}

/// What the result stream hands the executor next.
#[derive(Debug)]
pub enum StreamEvent {
    /// A row arrived, already converted.
    Row(RowResult),
    /// The connection or the query failed.
    Failed(ExecutionError),
    /// The stream ended; the elapsed time as text.
    Finished(String),
}

/// The mathematical model of a `StreamEvent`.
pub ghost enum EventView {
    Row(Entries),
    Failed(ErrorView),
    Finished(Seq<char>),
}

impl View for StreamEvent {
    type V = EventView;

    open spec fn view(&self) -> EventView {
        match self {
            StreamEvent::Row(r) => EventView::Row(r@),
            StreamEvent::Failed(e) => EventView::Failed(e@),
            StreamEvent::Finished(t) => EventView::Finished(t@),
        }
    }
}

/// Where an execution stands.
#[derive(Debug)]
pub enum RunState {
    Streaming(QueryRun),
    Done(QueryOutcome),
    Aborted(ExecutionError),
}

/// The mathematical model of a `RunState`.
pub ghost enum StateView {
    Streaming(RunView),
    Done(OutcomeView),
    Aborted(ErrorView),
}

impl View for RunState {
    type V = StateView;

    open spec fn view(&self) -> StateView {
        match self {
            RunState::Streaming(r) => StateView::Streaming(r@),
            RunState::Done(o) => StateView::Done(o@),
            RunState::Aborted(e) => StateView::Aborted(e@),
        }
    }
}

/// The state after one event. A row is appended; a failure discards the rows
/// gathered so far; the end of the stream makes the outcome. Once done or
/// aborted, an execution stays so.
pub open spec fn next_state(s: StateView, ev: EventView) -> StateView {
    match s {
        StateView::Streaming(run) => match ev {
            EventView::Row(r) => StateView::Streaming(RunView { query: run.query, rows: run.rows.push(r) }),
            EventView::Failed(e) => StateView::Aborted(e),
            EventView::Finished(t) => StateView::Done(
                OutcomeView { query: run.query, rows: run.rows, elapsed: t },
            ),
        },
        _ => s,
    }
}

/// The state after each event in turn.
pub open spec fn run_events(s: StateView, evs: Seq<EventView>) -> StateView
    decreases evs.len(),
{
    if evs.len() == 0 {
        s
    } else {
        run_events(next_state(s, evs[0]), evs.drop_first())
    }
}

/// The state in which an execution of `raw` starts.
pub open spec fn start_state(raw: Seq<char>) -> StateView {
    StateView::Streaming(RunView { query: unescaped(raw), rows: seq![] })
}

impl QueryRun {
    /// Starts an execution of `raw_query`, with its backticks turned into
    /// single quotes and no rows yet.
    pub fn start(raw_query: &str) -> (r: QueryRun)
        ensures
            StateView::Streaming(r@) == start_state(raw_query@),
    {
        let r = QueryRun { query: unescape_query(raw_query), rows: Vec::new() };
        assert(r@.rows =~= Seq::<Entries>::empty());
        r
    }

    /// The query as it is run.
    pub fn query(&self) -> (r: &String)
        ensures
            r@ == self@.query,
    {
        &self.query
    }

    /// The number of rows gathered so far.
    pub fn row_count(&self) -> (r: usize)
        ensures
            r == self@.rows.len(),
    {
        self.rows.len()
    }

    /// Takes the next event of the result stream.
    pub fn step(self, ev: StreamEvent) -> (r: RunState)
        ensures
            r@ == next_state(StateView::Streaming(self@), ev@),
    {
        let QueryRun { query, mut rows } = self;
        match ev {
            StreamEvent::Row(row) => {
                let ghost before = rows@;
                rows.push(row);
                let r = QueryRun { query, rows };
                assert(r@.rows =~= before.map_values(|x: RowResult| x@).push(row@));
                RunState::Streaming(r)
            },
            StreamEvent::Failed(e) => RunState::Aborted(e),
            StreamEvent::Finished(elapsed) => RunState::Done(QueryOutcome { query, rows, elapsed }),
        }
    }
}

/// A failure in the stream, before its end, aborts the execution with that
/// error: no outcome is made, whatever rows were gathered before.
pub proof fn lemma_failure_discards_rows(run: RunView, evs: Seq<EventView>, i: int)
    requires
        0 <= i < evs.len(),
        evs[i] is Failed,
        forall|j: int| 0 <= j < i ==> evs[j] is Row,
    ensures
        run_events(StateView::Streaming(run), evs) == StateView::Aborted(evs[i]->Failed_0),
    decreases evs.len(),
{
    if i == 0 {
        lemma_final_state_stays(StateView::Aborted(evs[0]->Failed_0), evs.drop_first());
    } else {
        let r = evs[0]->Row_0;
        let next = RunView { query: run.query, rows: run.rows.push(r) };
        assert(evs.drop_first()[i - 1] == evs[i]);
        lemma_failure_discards_rows(next, evs.drop_first(), i - 1);
    }
}

/// A done or aborted execution ignores what follows.
pub proof fn lemma_final_state_stays(s: StateView, evs: Seq<EventView>)
    requires
        !(s is Streaming),
    ensures
        run_events(s, evs) == s,
    decreases evs.len(),
{
    if evs.len() > 0 {
        lemma_final_state_stays(s, evs.drop_first());
    }
}

/// An execution whose connection fails ends in that connection error, and
/// never in an outcome.
pub proof fn lemma_connection_failure(raw: Seq<char>, msg: Seq<char>, rest: Seq<EventView>)
    ensures
        run_events(
            start_state(raw),
            seq![EventView::Failed(ErrorView::Connection(msg))] + rest,
        ) == StateView::Aborted(ErrorView::Connection(msg)),
        !(run_events(
            start_state(raw),
            seq![EventView::Failed(ErrorView::Connection(msg))] + rest,
        ) is Done),
{
    let evs = seq![EventView::Failed(ErrorView::Connection(msg))] + rest;
    assert(evs[0] == EventView::Failed(ErrorView::Connection(msg)));
    let run = RunView { query: unescaped(raw), rows: seq![] };
    lemma_failure_discards_rows(run, evs, 0);
}

/// The rows that a stream of row events carries, in arrival order.
pub open spec fn event_rows(evs: Seq<EventView>) -> Seq<Entries>
    decreases evs.len(),
{
    if evs.len() == 0 {
        seq![]
    } else {
        seq![evs[0]->Row_0] + event_rows(evs.drop_first())
    }
}

/// Rows followed by the end of the stream make an outcome that holds the
/// query and every row, in arrival order, after those gathered before.
pub proof fn lemma_rows_then_end(run: RunView, rows: Seq<EventView>, elapsed: Seq<char>)
    requires
        forall|j: int| 0 <= j < rows.len() ==> rows[j] is Row,
    ensures
        run_events(StateView::Streaming(run), rows.push(EventView::Finished(elapsed)))
            == StateView::Done(
            OutcomeView { query: run.query, rows: run.rows + event_rows(rows), elapsed },
        ),
    decreases rows.len(),
{
    let evs = rows.push(EventView::Finished(elapsed));
    if rows.len() == 0 {
        assert(evs.drop_first() =~= Seq::<EventView>::empty());
        assert(evs[0] == EventView::Finished(elapsed));
        assert(run.rows + event_rows(rows) =~= run.rows);
        let done = StateView::Done(OutcomeView { query: run.query, rows: run.rows, elapsed });
        assert(next_state(StateView::Streaming(run), evs[0]) == done);
        assert(run_events(done, evs.drop_first()) == done);
    } else {
        let next = RunView { query: run.query, rows: run.rows.push(rows[0]->Row_0) };
        assert(evs.drop_first() =~= rows.drop_first().push(EventView::Finished(elapsed)));
        assert(evs[0] == rows[0]);
        assert(next_state(StateView::Streaming(run), evs[0]) == StateView::Streaming(next));
        lemma_rows_then_end(next, rows.drop_first(), elapsed);
        assert(next.rows + event_rows(rows.drop_first()) =~= run.rows + event_rows(rows));
    }
}

} // verus!
