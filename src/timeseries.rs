use crate::metrics::{MetricEvent, QueryKind};
use crate::response::{Completion, GatewayResponse};
use vstd::prelude::*;
use vstd::string::StringExecFns;
use vstd::utf8::encode_utf8;

verus! {

/// The full time-series query: the fragment placed after a selector of the
/// bucket, `from(bucket:"<bucket>") <fragment>`. Neither part is escaped.
pub open spec fn bucket_query(bucket: Seq<char>, fragment: Seq<char>) -> Seq<char> {
    seq!['f', 'r', 'o', 'm', '(', 'b', 'u', 'c', 'k', 'e', 't', ':', '"'] + bucket + seq![
        '"',
        ')',
        ' ',
    ] + fragment
}

/// The length of a query as it is recorded: its size in UTF-8 bytes.
pub open spec fn query_length_of(query: Seq<char>) -> usize {
    encode_utf8(query).len() as usize
}

/// Builds the text sent to the time-series store for `fragment` against `bucket`.
pub fn full_query(bucket: &str, fragment: &str) -> (r: String)
    ensures
        r@ == bucket_query(bucket@, fragment@),
{
    proof {
        reveal_strlit("from(bucket:\"");
        reveal_strlit("\") ");
    }
    let mut text = String::from_str("from(bucket:\"");
    text.append(bucket);
    text.append("\") ");
    text.append(fragment);
    proof {
        assert(text@ =~= bucket_query(bucket@, fragment@));
    }
    text
}

/// Shapes what the time-series store answered to `query`, after `duration_ms`
/// milliseconds, into the caller's answer and the query's one event.
pub fn complete_timeseries<T>(query: &str, duration_ms: u64, outcome: Result<T, String>) -> (r:
    Completion<T>)
    ensures
        outcome is Ok ==> r.is_success(
            QueryKind::Influx,
            outcome->Ok_0,
            duration_ms,
            query_length_of(query@),
        ),
        outcome is Err ==> r.is_failure(
            QueryKind::Influx,
            outcome->Err_0@,
            Some(duration_ms),
            Some(query_length_of(query@)),
        ),
{
    let query_length = query.len();
    match outcome {
        Ok(body) => Completion {
            response: GatewayResponse::Success(body),
            metric: MetricEvent::success(QueryKind::Influx, duration_ms, query_length),
        },
        Err(message) => {
            let shown = message.clone();
            Completion {
                response: GatewayResponse::Failure(message),
                metric: MetricEvent::failure(
                    QueryKind::Influx,
                    shown,
                    Some(duration_ms),
                    Some(query_length),
                ),
            }
        },
    }
}

/// The fragment reaches the store verbatim, as the tail of the full query,
/// whatever it holds: a fragment that itself holds a bucket selector is not
/// escaped.
pub proof fn lemma_fragment_forwarded_verbatim(bucket: Seq<char>, fragment: Seq<char>)
    ensures
        ({
            let q = bucket_query(bucket, fragment);
            &&& q.len() == 16 + bucket.len() + fragment.len()
            &&& q.subrange(q.len() - fragment.len(), q.len() as int) == fragment
        }),
{
    let q = bucket_query(bucket, fragment);
    assert(q.subrange(q.len() - fragment.len(), q.len() as int) =~= fragment);
}

} // verus!
