use crate::metrics::{MetricEvent, QueryKind};
use crate::response::{Completion, GatewayResponse};
use crate::timeseries::query_length_of;
use vstd::prelude::*;

verus! {

/// Where a streaming SQL query stands: waiting on `prepare`, on `execute`, on
/// opening the page stream of an endpoint, on the next page, or finished.
#[derive(Clone, Copy, Debug, PartialEq, Eq, Structural)]
pub enum SqlPhase {
    Preparing,
    Executing,
    Opening,
    Reading,
    Done,
}

/// What the SQL backend answered to the last action.
pub enum SqlEvent {
    /// The statement was prepared.
    Prepared,
    PrepareFailed(String),
    /// The statement ran; one entry per result endpoint, in the backend's
    /// order, telling whether that endpoint carries a fetch ticket.
    Executed(Vec<bool>),
    ExecuteFailed(String),
    /// The page stream of the current endpoint is open.
    StreamOpened,
    StreamFailed(String),
    /// One page arrived.
    PageReceived,
    PageFailed(String),
    /// The current endpoint has no more pages.
    StreamEnded,
}

/// What the caller must do next for the query.
pub enum SqlAction {
    /// Execute the prepared statement.
    Execute,
    /// Open the page stream of the endpoint at this index.
    OpenStream(usize),
    /// Pull the next page of the open stream.
    NextPage,
    /// The query is over: answer with this and record its event. The success
    /// payload is the number of pages received.
    Finish(Completion<u64>),
}

/// The abstract state of a query on the streaming SQL path.
pub ghost struct SqlSessionView {
    pub phase: SqlPhase,
    pub query_length: usize,
    pub tickets: Seq<bool>,
    pub endpoint: int,
    pub pages: nat,
}

/// The first endpoint at or after `from` that carries a ticket, or the number
/// of endpoints if none does.
pub open spec fn next_ticket(tickets: Seq<bool>, from: int) -> int
    decreases tickets.len() - from,
{
    if from < 0 || from >= tickets.len() {
        tickets.len() as int
    } else if tickets[from] {
        from
    } else {
        next_ticket(tickets, from + 1)
    }
}

/// The message of an event that reports a failure.
pub open spec fn failure_message(e: SqlEvent) -> Option<Seq<char>> {
    match e {
        SqlEvent::PrepareFailed(m) => Some(m@),
        SqlEvent::ExecuteFailed(m) => Some(m@),
        SqlEvent::StreamFailed(m) => Some(m@),
        SqlEvent::PageFailed(m) => Some(m@),
        _ => None,
    }
}

/// The duration recorded with a failure: none when `prepare` or `execute`
/// failed, the elapsed time when streaming failed.
pub open spec fn failure_duration(e: SqlEvent, elapsed_ms: u64) -> Option<u64> {
    match e {
        SqlEvent::PrepareFailed(_) => None,
        SqlEvent::ExecuteFailed(_) => None,
        _ => Some(elapsed_ms),
    }
}

impl SqlSessionView {
    pub open spec fn is_done(self) -> bool {
        self.phase == SqlPhase::Done
    }

    /// The events that the backend can answer in this state.
    pub open spec fn accepts(self, e: SqlEvent) -> bool {
        match self.phase {
            SqlPhase::Preparing => e is Prepared || e is PrepareFailed,
            SqlPhase::Executing => e is Executed || e is ExecuteFailed,
            SqlPhase::Opening => e is StreamOpened || e is StreamFailed,
            SqlPhase::Reading => e is PageReceived || e is PageFailed || e is StreamEnded,
            SqlPhase::Done => false,
        }
    }

    /// Moves on to the first endpoint at or after `from` with a ticket, or
    /// finishes when there is none.
    pub open spec fn seek(self, from: int) -> SqlSessionView {
        let j = next_ticket(self.tickets, from);
        if j < self.tickets.len() {
            SqlSessionView { phase: SqlPhase::Opening, endpoint: j, ..self }
        } else {
            SqlSessionView { phase: SqlPhase::Done, ..self }
        }
    }

    /// The state after event `e`.
    pub open spec fn advance(self, e: SqlEvent) -> SqlSessionView {
        match e {
            SqlEvent::Prepared => SqlSessionView { phase: SqlPhase::Executing, ..self },
            SqlEvent::Executed(t) => SqlSessionView { tickets: t@, ..self }.seek(0),
            SqlEvent::StreamOpened => SqlSessionView { phase: SqlPhase::Reading, ..self },
            SqlEvent::PageReceived => SqlSessionView { pages: self.pages + 1, ..self },
            SqlEvent::StreamEnded => self.seek(self.endpoint + 1),
            _ => SqlSessionView { phase: SqlPhase::Done, ..self },
        }
    }

    /// `a` is the action owed after event `e`, `elapsed_ms` after the query began.
    pub open spec fn action_fits(self, e: SqlEvent, elapsed_ms: u64, a: SqlAction) -> bool {
        let n = self.advance(e);
        match failure_message(e) {
            Some(m) => a is Finish && a->Finish_0.is_failure(
                QueryKind::FlightSql,
                m,
                failure_duration(e, elapsed_ms),
                None,
            ),
            None => match n.phase {
                SqlPhase::Executing => a is Execute,
                SqlPhase::Opening => a is OpenStream && a->OpenStream_0 == n.endpoint,
                SqlPhase::Reading => a is NextPage,
                SqlPhase::Done => a is Finish && a->Finish_0.is_success(
                    QueryKind::FlightSql,
                    n.pages as u64,
                    elapsed_ms,
                    self.query_length,
                ),
                SqlPhase::Preparing => false,
            },
        }
    }
}

/// The gateway's side of one query on the streaming SQL path: the caller
/// performs each action against the backend and hands back what came of it.
pub struct SqlSession {
    phase: SqlPhase,
    query_length: usize,
    tickets: Vec<bool>,
    endpoint: usize,
    pages: u64,
}

impl View for SqlSession {
    type V = SqlSessionView;

    closed spec fn view(&self) -> SqlSessionView {
        SqlSessionView {
            phase: self.phase,
            query_length: self.query_length,
            tickets: self.tickets@,
            endpoint: self.endpoint as int,
            pages: self.pages as nat,
        }
    }
}

/// The index of the first endpoint at or after `from` with a ticket, or the
/// number of endpoints.
fn find_ticket(tickets: &Vec<bool>, from: usize) -> (r: usize)
    requires
        from <= tickets@.len(),
    ensures
        r as int == next_ticket(tickets@, from as int),
{
    let mut i: usize = from;
    while i < tickets.len() && !tickets[i]
        invariant
            from <= i <= tickets@.len(),
            next_ticket(tickets@, from as int) == next_ticket(tickets@, i as int),
        decreases tickets@.len() - i,
    {
        i = i + 1;
    }
    i
}

impl SqlSession {
    pub closed spec fn wf(&self) -> bool {
        (self.phase == SqlPhase::Opening || self.phase == SqlPhase::Reading) ==> self.endpoint
            < self.tickets@.len()
    }

    /// A query on the streaming SQL path, before `prepare` is called with its
    /// text.
    pub fn new(query: &str) -> (r: SqlSession)
        ensures
            r.wf(),
            r@ == (SqlSessionView {
                phase: SqlPhase::Preparing,
                query_length: query_length_of(query@),
                tickets: Seq::empty(),
                endpoint: 0,
                pages: 0,
            }),
    {
        SqlSession {
            phase: SqlPhase::Preparing,
            query_length: query.len(),
            tickets: Vec::new(),
            endpoint: 0,
            pages: 0,
        }
    }

    pub fn is_done(&self) -> (r: bool)
        ensures
            r == self@.is_done(),
    {
        self.phase == SqlPhase::Done
    }

    /// The number of pages received so far.
    pub fn page_count(&self) -> (r: u64)
        ensures
            r == self@.pages,
    {
        self.pages
    }

    fn finish_failure(&mut self, message: String, duration_ms: Option<u64>) -> (r: SqlAction)
        ensures
            final(self)@ == (SqlSessionView { phase: SqlPhase::Done, ..old(self)@ }),
            r is Finish && r->Finish_0.is_failure(QueryKind::FlightSql, message@, duration_ms, None),
    {
        self.phase = SqlPhase::Done;
        let shown = message.clone();
        SqlAction::Finish(
            Completion {
                response: GatewayResponse::Failure(message),
                metric: MetricEvent::failure(QueryKind::FlightSql, shown, duration_ms, None),
            },
        )
    }

    fn seek(&mut self, from: usize, elapsed_ms: u64) -> (r: SqlAction)
        requires
            from <= old(self).tickets@.len(),
        ensures
            final(self).wf(),
            final(self)@ == old(self)@.seek(from as int),
            final(self)@.phase == SqlPhase::Opening ==> r is OpenStream && r->OpenStream_0
                == final(self)@.endpoint,
            final(self)@.phase == SqlPhase::Done ==> r is Finish && r->Finish_0.is_success(
                QueryKind::FlightSql,
                old(self).pages,
                elapsed_ms,
                old(self).query_length,
            ),
    {
        let j = find_ticket(&self.tickets, from);
        if j < self.tickets.len() {
            self.phase = SqlPhase::Opening;
            self.endpoint = j;
            SqlAction::OpenStream(j)
        } else {
            self.phase = SqlPhase::Done;
            SqlAction::Finish(
                Completion {
                    response: GatewayResponse::Success(self.pages),
                    metric: MetricEvent::success(
                        QueryKind::FlightSql,
                        elapsed_ms,
                        self.query_length,
                    ),
                },
            )
        }
    }

    /// Takes in what the backend answered, `elapsed_ms` after the query began,
    /// and returns what to do next. The first failure, or the end of the last
    /// endpoint, finishes the query; a finished query takes no more events.
    pub fn step(&mut self, event: SqlEvent, elapsed_ms: u64) -> (r: SqlAction)
        requires
            old(self).wf(),
            old(self)@.accepts(event),
            event is PageReceived ==> old(self)@.pages < u64::MAX,
        ensures
            final(self).wf(),
            final(self)@ == old(self)@.advance(event),
            old(self)@.action_fits(event, elapsed_ms, r),
    {
        match event {
            SqlEvent::Prepared => {
                self.phase = SqlPhase::Executing;
                SqlAction::Execute
            },
            SqlEvent::PrepareFailed(m) => self.finish_failure(m, None),
            SqlEvent::Executed(t) => {
                self.tickets = t;
                self.seek(0, elapsed_ms)
            },
            SqlEvent::ExecuteFailed(m) => self.finish_failure(m, None),
            SqlEvent::StreamOpened => {
                self.phase = SqlPhase::Reading;
                SqlAction::NextPage
            },
            SqlEvent::StreamFailed(m) => self.finish_failure(m, Some(elapsed_ms)),
            SqlEvent::PageReceived => {
                self.pages = self.pages + 1;
                SqlAction::NextPage
            },
            SqlEvent::PageFailed(m) => self.finish_failure(m, Some(elapsed_ms)),
            SqlEvent::StreamEnded => {
                let count = self.tickets.len();
                assert(self.endpoint < count);
                let from = self.endpoint + 1;
                self.seek(from, elapsed_ms)
            },
        }
    }
}

/// The state after each event of `events` in turn.
pub open spec fn run(s: SqlSessionView, events: Seq<SqlEvent>) -> SqlSessionView
    decreases events.len(),
{
    if events.len() == 0 {
        s
    } else {
        run(s.advance(events[0]), events.drop_first())
    }
}

/// Each event of `events` is one that the state reached before it accepts.
pub open spec fn accepts_all(s: SqlSessionView, events: Seq<SqlEvent>) -> bool
    decreases events.len(),
{
    events.len() == 0 || (s.accepts(events[0]) && accepts_all(
        s.advance(events[0]),
        events.drop_first(),
    ))
}

/// How many of the steps through `events` finish the query, each of which
/// records an event.
pub open spec fn finish_count(s: SqlSessionView, events: Seq<SqlEvent>) -> nat
    decreases events.len(),
{
    if events.len() == 0 {
        0
    } else {
        (if s.advance(events[0]).is_done() {
            1nat
        } else {
            0nat
        }) + finish_count(s.advance(events[0]), events.drop_first())
    }
}

/// A step hands back `Finish`, the only action that carries an event to
/// record, exactly when it ends the query.
pub proof fn lemma_finish_exactly_when_done(s: SqlSessionView, e: SqlEvent, elapsed_ms: u64, a: SqlAction)
    requires
        s.accepts(e),
        s.action_fits(e, elapsed_ms, a),
    ensures
        (a is Finish) == s.advance(e).is_done(),
{
}

/// Over any run of a query that has not yet finished, the number of recorded
/// events is one once the query is over and none before: never two.
pub proof fn lemma_one_event_per_query(s: SqlSessionView, events: Seq<SqlEvent>)
    requires
        !s.is_done(),
        accepts_all(s, events),
    ensures
        finish_count(s, events) == (if run(s, events).is_done() {
            1nat
        } else {
            0nat
        }),
    decreases events.len(),
{
    if events.len() > 0 {
        let n = s.advance(events[0]);
        let rest = events.drop_first();
        if n.is_done() {
            reveal_with_fuel(accepts_all, 2);
            if rest.len() > 0 {
                assert(!n.accepts(rest[0]));
            }
            assert(rest.len() == 0);
            assert(finish_count(n, rest) == 0);
            assert(run(n, rest) == n);
        } else {
            lemma_one_event_per_query(n, rest);
        }
    }
}

proof fn lemma_no_ticket_from(tickets: Seq<bool>, from: int)
    requires
        0 <= from <= tickets.len(),
        forall|i: int| 0 <= i < tickets.len() ==> !tickets[i],
    ensures
        next_ticket(tickets, from) == tickets.len(),
    decreases tickets.len() - from,
{
    if from < tickets.len() {
        lemma_no_ticket_from(tickets, from + 1);
    }
}

/// When no endpoint that `execute` returned carries a ticket, however many
/// there are, the query succeeds at once with zero pages and status 200.
pub proof fn lemma_ticketless_endpoints_give_zero(
    s: SqlSessionView,
    tickets: Vec<bool>,
    elapsed_ms: u64,
    a: SqlAction,
)
    requires
        s.phase == SqlPhase::Executing,
        s.pages == 0,
        forall|i: int| 0 <= i < tickets@.len() ==> !tickets@[i],
        s.action_fits(SqlEvent::Executed(tickets), elapsed_ms, a),
    ensures
        s.advance(SqlEvent::Executed(tickets)).is_done(),
        a is Finish,
        a->Finish_0.response == GatewayResponse::<u64>::Success(0),
        a->Finish_0.response.spec_status() == 200,
{
    lemma_no_ticket_from(tickets@, 0);
}

/// A failure at any stage ends the query: the answer is status 500 with the
/// failure's own message, and no further backend call follows, as the
/// finished query takes no event.
pub proof fn lemma_failure_ends_query(s: SqlSessionView, e: SqlEvent, elapsed_ms: u64, a: SqlAction)
    requires
        s.accepts(e),
        failure_message(e) is Some,
        s.action_fits(e, elapsed_ms, a),
    ensures
        a is Finish,
        a->Finish_0.response is Failure,
        a->Finish_0.response->Failure_0@ == failure_message(e)->0,
        a->Finish_0.response.spec_status() == 500,
        a->Finish_0.metric.status == crate::metrics::QueryStatus::Error,
        s.advance(e).is_done(),
        forall|later: SqlEvent| !s.advance(e).accepts(later),
{
}

} // verus!
