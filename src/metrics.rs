use vstd::prelude::*;

verus! {

/// The measurement name under which every query event is recorded.
pub open spec fn measurement_name() -> Seq<char> {
    seq!['q', 'u', 'e', 'r', 'y', '_', 'm', 'e', 't', 'r', 'i', 'c', 's']
}

/// Which backend served a query: the `type` tag of its event.
#[derive(Clone, Copy, Debug, PartialEq, Eq, Structural)]
pub enum QueryKind {
    Influx,
    FlightSql,
}

/// How a query ended: the `status` tag of its event.
#[derive(Clone, Copy, Debug, PartialEq, Eq, Structural)]
pub enum QueryStatus {
    Success,
    Error,
}

pub open spec fn kind_tag(k: QueryKind) -> Seq<char> {
    match k {
        QueryKind::Influx => seq!['i', 'n', 'f', 'l', 'u', 'x'],
        QueryKind::FlightSql => seq!['f', 'l', 'i', 'g', 'h', 't', 's', 'q', 'l'],
    }
}

pub open spec fn status_tag(s: QueryStatus) -> Seq<char> {
    match s {
        QueryStatus::Success => seq!['s', 'u', 'c', 'c', 'e', 's', 's'],
        QueryStatus::Error => seq!['e', 'r', 'r', 'o', 'r'],
    }
}

impl QueryKind {
    /// The text of the `type` tag.
    pub fn tag(&self) -> (r: &'static str)
        ensures
            r@ == kind_tag(*self),
    {
        match self {
            QueryKind::Influx => {
                proof { reveal_strlit("influx"); }
                "influx"
            },
            QueryKind::FlightSql => {
                proof { reveal_strlit("flightsql"); }
                "flightsql"
            },
        }
    }
}

impl QueryStatus {
    /// The text of the `status` tag.
    pub fn tag(&self) -> (r: &'static str)
        ensures
            r@ == status_tag(*self),
    {
        match self {
            QueryStatus::Success => {
                proof { reveal_strlit("success"); }
                "success"
            },
            QueryStatus::Error => {
                proof { reveal_strlit("error"); }
                "error"
            },
        }
    }
}

/// One operational record of a query: its tags (`type`, `status`) and its
/// fields (`duration_ms`, `query_length`, `error`), each field present or not.
pub struct MetricEvent {
    pub kind: QueryKind,
    pub status: QueryStatus,
    pub duration_ms: Option<u64>,
    pub query_length: Option<usize>,
    pub error: Option<String>,
}

impl MetricEvent {
    /// The measurement under which the event is recorded; the same for every event.
    pub fn measurement(&self) -> (r: &'static str)
        ensures
            r@ == measurement_name(),
    {
        proof { reveal_strlit("query_metrics"); }
        "query_metrics"
    }

    /// The event of a query that succeeded.
    pub open spec fn is_success(&self, kind: QueryKind, duration_ms: u64, query_length: usize) -> bool {
        &&& self.kind == kind
        &&& self.status == QueryStatus::Success
        &&& self.duration_ms == Some(duration_ms)
        &&& self.query_length == Some(query_length)
        &&& self.error is None
    }

    /// The event of a query that failed with `message`.
    pub open spec fn is_failure(
        &self,
        kind: QueryKind,
        message: Seq<char>,
        duration_ms: Option<u64>,
        query_length: Option<usize>,
    ) -> bool {
        &&& self.kind == kind
        &&& self.status == QueryStatus::Error
        &&& self.duration_ms == duration_ms
        &&& self.query_length == query_length
        &&& self.error is Some
        &&& self.error->0@ == message
    }

    pub fn success(kind: QueryKind, duration_ms: u64, query_length: usize) -> (r: MetricEvent)
        ensures
            r.is_success(kind, duration_ms, query_length),
    {
        MetricEvent {
            kind,
            status: QueryStatus::Success,
            duration_ms: Some(duration_ms),
            query_length: Some(query_length),
            error: None,
        }
    }

    pub fn failure(
        kind: QueryKind,
        message: String,
        duration_ms: Option<u64>,
        query_length: Option<usize>,
    ) -> (r: MetricEvent)
        ensures
            r.is_failure(kind, message@, duration_ms, query_length),
    {
        MetricEvent { kind, status: QueryStatus::Error, duration_ms, query_length, error: Some(message) }
    }
}

} // verus!
