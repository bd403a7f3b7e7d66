use vstd::prelude::*;
use crate::metrics::{MetricEvent, QueryKind};

verus! {

/// The HTTP status of a successful query.
pub const STATUS_OK: u16 = 200;

/// The HTTP status of a failed query.
pub const STATUS_SERVER_ERROR: u16 = 500;

/// What the gateway answers to one query: the backend's payload, or the
/// message of the first error met.
pub enum GatewayResponse<T> {
    Success(T),
    Failure(String),
}

impl<T> GatewayResponse<T> {
    pub open spec fn spec_status(&self) -> u16 {
        match self {
            GatewayResponse::Success(_) => STATUS_OK,
            GatewayResponse::Failure(_) => STATUS_SERVER_ERROR,
        }
    }

    /// The HTTP status that goes with this response: 200 on success, 500 on error.
    pub fn status(&self) -> (r: u16)
        ensures
            r == self.spec_status(),
    {
        match self {
            GatewayResponse::Success(_) => STATUS_OK,
            GatewayResponse::Failure(_) => STATUS_SERVER_ERROR,
        }
    }
}

} // verus!

verus! {

/// The terminal outcome of one query: the answer for the caller and the one
/// event recorded for it.
pub struct Completion<T> {
    pub response: GatewayResponse<T>,
    pub metric: MetricEvent,
}

impl<T> Completion<T> {
    /// A completed success: payload `body`, with its success event.
    pub open spec fn is_success(&self, kind: QueryKind, body: T, duration_ms: u64, query_length: usize) -> bool {
        &&& self.response == GatewayResponse::<T>::Success(body)
        &&& self.metric.is_success(kind, duration_ms, query_length)
    }

    /// A completed failure: the same message in the answer and in the event.
    pub open spec fn is_failure(
        &self,
        kind: QueryKind,
        message: Seq<char>,
        duration_ms: Option<u64>,
        query_length: Option<usize>,
    ) -> bool {
        &&& self.response is Failure
        &&& self.response->Failure_0@ == message
        &&& self.metric.is_failure(kind, message, duration_ms, query_length)
    }
}

} // verus!
