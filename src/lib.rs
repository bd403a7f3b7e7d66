// A gateway for ad-hoc analytical queries over two backends: a time-series
// store and a streaming SQL engine. The library takes every decision of a
// query, from the text sent to the backend to the answer and the one metric
// event recorded for it; the server around it performs the I/O.

pub mod assets;
pub mod flightsql;
pub mod gateway;
pub mod metrics;
pub mod response;
pub mod timeseries;
