use query_runner::assets::{asset_or_index, content_type_for};
use query_runner::flightsql::{SqlAction, SqlEvent, SqlSession};
use query_runner::gateway::{GatewayConfig, QueryRequest};
use query_runner::metrics::{MetricEvent, QueryKind, QueryStatus};
use query_runner::response::{Completion, GatewayResponse, STATUS_OK, STATUS_SERVER_ERROR};
use query_runner::timeseries::{complete_timeseries, full_query};

fn failure_text<T>(response: &GatewayResponse<T>) -> Option<&str> {
    match response {
        GatewayResponse::Success(_) => None,
        GatewayResponse::Failure(m) => Some(m.as_str()),
    }
}

fn finished(action: SqlAction) -> Completion<u64> {
    match action {
        SqlAction::Finish(c) => c,
        _ => panic!("the query was expected to finish"),
    }
}

fn assert_event(m: &MetricEvent, kind: QueryKind, status: QueryStatus) {
    assert_eq!(m.kind, kind);
    assert_eq!(m.status, status);
}

#[test]
fn full_query_wraps_fragment_with_bucket() {
    let q = full_query("metrics", "|> range(start: -1h)");
    assert_eq!(q, "from(bucket:\"metrics\") |> range(start: -1h)");
}

#[test]
fn full_query_forwards_empty_fragment() {
    assert_eq!(full_query("b", ""), "from(bucket:\"b\") ");
}

#[test]
fn full_query_does_not_escape_fragment() {
    let fragment = "from(bucket:\"other\") |> \"quoted\"";
    let q = full_query("main", fragment);
    assert_eq!(q, "from(bucket:\"main\") from(bucket:\"other\") |> \"quoted\"");
    assert!(q.ends_with(fragment));
}

#[test]
fn gateway_config_builds_timeseries_query() {
    let config = GatewayConfig::new("your-bucket".to_string());
    let request = QueryRequest { query: "|> last()".to_string() };
    assert_eq!(config.timeseries_query(&request), "from(bucket:\"your-bucket\") |> last()");
}

#[test]
fn timeseries_success_passes_payload_and_records_success() {
    let c = complete_timeseries("|> last()", 12, Ok::<&str, String>("payload"));
    assert!(matches!(c.response, GatewayResponse::Success("payload")));
    assert_eq!(c.response.status(), STATUS_OK);
    assert_event(&c.metric, QueryKind::Influx, QueryStatus::Success);
    assert_eq!(c.metric.duration_ms, Some(12));
    assert_eq!(c.metric.query_length, Some(9));
    assert_eq!(c.metric.error, None);
}

#[test]
fn timeseries_query_length_counts_bytes() {
    let c = complete_timeseries("é", 0, Ok::<u8, String>(1));
    assert_eq!(c.metric.query_length, Some(2));
}

#[test]
fn timeseries_failure_reports_message() {
    let c = complete_timeseries("bad", 7, Err::<u8, String>("connection refused".to_string()));
    assert_eq!(failure_text(&c.response), Some("connection refused"));
    assert_eq!(c.response.status(), STATUS_SERVER_ERROR);
    assert_event(&c.metric, QueryKind::Influx, QueryStatus::Error);
    assert_eq!(c.metric.duration_ms, Some(7));
    assert_eq!(c.metric.query_length, Some(3));
    assert_eq!(c.metric.error.as_deref(), Some("connection refused"));
}

#[test]
fn metric_tags_and_measurement() {
    let m = MetricEvent::success(QueryKind::FlightSql, 1, 2);
    assert_eq!(m.measurement(), "query_metrics");
    assert_eq!(m.kind.tag(), "flightsql");
    assert_eq!(m.status.tag(), "success");
    assert_eq!(QueryKind::Influx.tag(), "influx");
    assert_eq!(QueryStatus::Error.tag(), "error");
}

#[test]
fn sql_ticketless_endpoints_give_zero_pages() {
    for n in [0usize, 1, 3, 10] {
        let mut s = SqlSession::new("select 1");
        assert!(matches!(s.step(SqlEvent::Prepared, 1), SqlAction::Execute));
        let c = finished(s.step(SqlEvent::Executed(vec![false; n]), 4));
        assert!(matches!(c.response, GatewayResponse::Success(0)));
        assert_eq!(c.response.status(), STATUS_OK);
        assert_event(&c.metric, QueryKind::FlightSql, QueryStatus::Success);
        assert_eq!(c.metric.duration_ms, Some(4));
        assert_eq!(c.metric.query_length, Some(8));
        assert!(s.is_done());
    }
}

#[test]
fn sql_counts_pages_across_endpoints_and_skips_ticketless() {
    let mut s = SqlSession::new("q");
    s.step(SqlEvent::Prepared, 0);
    let a = s.step(SqlEvent::Executed(vec![false, true, false, true]), 1);
    assert!(matches!(a, SqlAction::OpenStream(1)));
    assert!(matches!(s.step(SqlEvent::StreamOpened, 2), SqlAction::NextPage));
    assert!(matches!(s.step(SqlEvent::PageReceived, 3), SqlAction::NextPage));
    assert!(matches!(s.step(SqlEvent::PageReceived, 3), SqlAction::NextPage));
    assert!(matches!(s.step(SqlEvent::StreamEnded, 4), SqlAction::OpenStream(3)));
    assert!(matches!(s.step(SqlEvent::StreamOpened, 5), SqlAction::NextPage));
    assert!(matches!(s.step(SqlEvent::PageReceived, 6), SqlAction::NextPage));
    assert_eq!(s.page_count(), 3);
    let c = finished(s.step(SqlEvent::StreamEnded, 9));
    assert!(matches!(c.response, GatewayResponse::Success(3)));
    assert_eq!(c.metric.duration_ms, Some(9));
    assert_eq!(c.metric.query_length, Some(1));
}

#[test]
fn sql_third_of_five_pages_fails() {
    // Two endpoints with tickets; the first holds the first three of five pages.
    let mut s = SqlSession::new("select * from t");
    s.step(SqlEvent::Prepared, 0);
    assert!(matches!(s.step(SqlEvent::Executed(vec![true, true]), 1), SqlAction::OpenStream(0)));
    s.step(SqlEvent::StreamOpened, 2);
    s.step(SqlEvent::PageReceived, 3);
    s.step(SqlEvent::PageReceived, 4);
    let c = finished(s.step(SqlEvent::PageFailed("page decode error".to_string()), 5));
    assert_eq!(failure_text(&c.response), Some("page decode error"));
    assert_eq!(c.response.status(), STATUS_SERVER_ERROR);
    assert_event(&c.metric, QueryKind::FlightSql, QueryStatus::Error);
    assert_eq!(c.metric.error.as_deref(), Some("page decode error"));
    assert_eq!(c.metric.duration_ms, Some(5));
    // Finished: the second endpoint is never opened.
    assert!(s.is_done());
}

#[test]
fn sql_prepare_failure_has_no_duration() {
    let mut s = SqlSession::new("nonsense");
    let c = finished(s.step(SqlEvent::PrepareFailed("syntax error".to_string()), 3));
    assert_eq!(failure_text(&c.response), Some("syntax error"));
    assert_eq!(c.metric.duration_ms, None);
    assert_eq!(c.metric.query_length, None);
    assert!(s.is_done());
}

#[test]
fn sql_execute_failure() {
    let mut s = SqlSession::new("select 1");
    s.step(SqlEvent::Prepared, 0);
    let c = finished(s.step(SqlEvent::ExecuteFailed("execute failed".to_string()), 3));
    assert_eq!(failure_text(&c.response), Some("execute failed"));
    assert_eq!(c.response.status(), STATUS_SERVER_ERROR);
    assert_eq!(c.metric.duration_ms, None);
}

#[test]
fn sql_stream_open_failure_records_duration() {
    let mut s = SqlSession::new("select 1");
    s.step(SqlEvent::Prepared, 0);
    s.step(SqlEvent::Executed(vec![true, true]), 1);
    let c = finished(s.step(SqlEvent::StreamFailed("unavailable".to_string()), 8));
    assert_eq!(failure_text(&c.response), Some("unavailable"));
    assert_eq!(c.metric.duration_ms, Some(8));
    assert_event(&c.metric, QueryKind::FlightSql, QueryStatus::Error);
}

#[test]
fn sql_one_finish_per_query() {
    let mut s = SqlSession::new("q");
    let events = vec![
        SqlEvent::Prepared,
        SqlEvent::Executed(vec![true]),
        SqlEvent::StreamOpened,
        SqlEvent::PageReceived,
        SqlEvent::StreamEnded,
    ];
    let mut finishes = 0;
    for e in events {
        assert!(!s.is_done());
        if let SqlAction::Finish(_) = s.step(e, 0) {
            finishes += 1;
        }
    }
    assert_eq!(finishes, 1);
    assert!(s.is_done());
}

#[test]
fn content_types_by_extension() {
    assert_eq!(content_type_for(Some("css")), "text/css");
    assert_eq!(content_type_for(Some("js")), "application/javascript");
    assert_eq!(content_type_for(Some("png")), "image/png");
    assert_eq!(content_type_for(Some("txt")), "text/plain");
    assert_eq!(content_type_for(Some("CSS")), "text/plain");
    assert_eq!(content_type_for(None), "text/html");
}

#[test]
fn unknown_asset_falls_back_to_index() {
    assert_eq!(asset_or_index(None, "index"), "index");
    assert_eq!(asset_or_index(Some("app.css"), "index"), "app.css");
}

#[test]
fn interleaved_queries_keep_their_own_outcomes() {
    // Sixty queries driven in turn; every third query's stream fails.
    let n = 60usize;
    let mut sessions: Vec<SqlSession> = (0..n).map(|_| SqlSession::new("select 1")).collect();
    let mut outcomes: Vec<Option<Completion<u64>>> = (0..n).map(|_| None).collect();
    let mut round = 0u64;
    while outcomes.iter().any(|o| o.is_none()) {
        for i in 0..n {
            if outcomes[i].is_some() {
                continue;
            }
            let fails = i % 3 == 0;
            let s = &mut sessions[i];
            let event = match round {
                0 => SqlEvent::Prepared,
                1 => SqlEvent::Executed(vec![true]),
                2 => SqlEvent::StreamOpened,
                3 if fails => SqlEvent::PageFailed(format!("query {i} failed")),
                3 | 4 => SqlEvent::PageReceived,
                _ => SqlEvent::StreamEnded,
            };
            if let SqlAction::Finish(c) = s.step(event, round) {
                outcomes[i] = Some(c);
            }
        }
        round += 1;
    }
    for (i, o) in outcomes.iter().enumerate() {
        let c = o.as_ref().unwrap();
        if i % 3 == 0 {
            assert_eq!(failure_text(&c.response), Some(format!("query {i} failed").as_str()));
        } else {
            assert!(matches!(c.response, GatewayResponse::Success(2)));
        }
    }
}
