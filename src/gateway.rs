use crate::flightsql::SqlSession;
use crate::timeseries::{bucket_query, full_query, query_length_of};
use vstd::prelude::*;

verus! {

/// The body of a query request: the whole backend-specific query text. An
/// empty text is forwarded as it is.
pub struct QueryRequest {
    pub query: String,
}

/// What the gateway is configured with once, at startup, and shares read-only
/// with every request.
pub struct GatewayConfig {
    pub bucket: String,
}

impl GatewayConfig {
    pub fn new(bucket: String) -> (r: GatewayConfig)
        ensures
            r.bucket@ == bucket@,
    {
        GatewayConfig { bucket }
    }

    /// The text sent to the time-series store for this request.
    pub fn timeseries_query(&self, request: &QueryRequest) -> (r: String)
        ensures
            r@ == bucket_query(self.bucket@, request.query@),
    {
        full_query(self.bucket.as_str(), request.query.as_str())
    }

    /// A fresh streaming SQL query for this request; `prepare` receives the
    /// request's text unchanged.
    pub fn sql_session(&self, request: &QueryRequest) -> (r: SqlSession)
        ensures
            r.wf(),
            r@.phase == crate::flightsql::SqlPhase::Preparing,
            r@.query_length == query_length_of(request.query@),
            r@.tickets.len() == 0,
            r@.pages == 0,
    {
        SqlSession::new(request.query.as_str())
    }
}

} // verus!
