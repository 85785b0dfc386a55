//! Facts about the analysis of a capture buffer that hold of every buffer.

use vstd::prelude::*;
use crate::browser::{
    analysis_of, category_of, count_of_type, encoded_length, encoded_total, failure_text,
    failures_in, lemma_projections_push, request_entry, requests_in, resource_id_of,
    resource_type_name, response_entry, responses_in, FinishedEventView,
    NetworkAnalysis, NetworkEventView, RequestEventView, ResponseEventView,
};

verus! {

/// The finish records of a buffer, in the order of capture.
pub open spec fn finishes_in(events: Seq<NetworkEventView>) -> Seq<FinishedEventView>
    decreases events.len(),
{
    if events.len() == 0 {
        Seq::empty()
    } else {
        match events.last() {
            NetworkEventView::Finished(e) => finishes_in(events.drop_last()).push(e),
            _ => finishes_in(events.drop_last()),
        }
    }
}

/// Each category of a concatenation is the concatenation of that category
/// of the parts.
pub proof fn lemma_projections_concat(a: Seq<NetworkEventView>, b: Seq<NetworkEventView>)
    ensures
        requests_in(a + b) == requests_in(a) + requests_in(b),
        responses_in(a + b) == responses_in(a) + responses_in(b),
        failures_in(a + b) == failures_in(a) + failures_in(b),
        finishes_in(a + b) == finishes_in(a) + finishes_in(b),
    decreases b.len(),
{
    if b.len() == 0 {
        assert(a + b =~= a);
        assert(requests_in(a) + requests_in(b) =~= requests_in(a));
        assert(responses_in(a) + responses_in(b) =~= responses_in(a));
        assert(failures_in(a) + failures_in(b) =~= failures_in(a));
        assert(finishes_in(a) + finishes_in(b) =~= finishes_in(a));
    } else {
        let front = b.drop_last();
        lemma_projections_concat(a, front);
        assert((a + b).drop_last() =~= a + front);
        assert((a + b).last() == b.last());
        match b.last() {
            NetworkEventView::Request(e) => {
                assert((requests_in(a) + requests_in(front)).push(e) =~= requests_in(a)
                    + requests_in(front).push(e));
            },
            NetworkEventView::Response(e) => {
                assert((responses_in(a) + responses_in(front)).push(e) =~= responses_in(a)
                    + responses_in(front).push(e));
            },
            NetworkEventView::Failed(e) => {
                assert((failures_in(a) + failures_in(front)).push(e) =~= failures_in(a)
                    + failures_in(front).push(e));
            },
            NetworkEventView::Finished(e) => {
                assert((finishes_in(a) + finishes_in(front)).push(e) =~= finishes_in(a)
                    + finishes_in(front).push(e));
            },
        }
    }
}

/// The total size of a concatenation is the sum of the parts' totals.
pub proof fn lemma_encoded_total_concat(a: Seq<ResponseEventView>, b: Seq<ResponseEventView>)
    ensures
        encoded_total(a + b) == encoded_total(a) + encoded_total(b),
    decreases b.len(),
{
    if b.len() == 0 {
        assert(a + b =~= a);
    } else {
        lemma_encoded_total_concat(a, b.drop_last());
        assert((a + b).drop_last() =~= a + b.drop_last());
    }
}

/// The analysis is a function of the buffer and the load time: two
/// reports that were made of the same frozen buffer and load time are
/// equal in every field.
pub proof fn lemma_analysis_is_repeatable(
    first: NetworkAnalysis,
    second: NetworkAnalysis,
    events: Seq<NetworkEventView>,
    load_time: u64,
)
    requires
        first@ == analysis_of(events, load_time),
        second@ == analysis_of(events, load_time),
    ensures
        first@ == second@,
{
}

/// The report depends on a buffer only through the order of its records
/// within each category: two buffers whose request, response and failure
/// records come in the same order, however the categories are interleaved
/// and wherever finish records stand, give the same report.
pub proof fn lemma_analysis_ignores_interleaving(
    a: Seq<NetworkEventView>,
    b: Seq<NetworkEventView>,
    load_time: u64,
)
    requires
        requests_in(a) == requests_in(b),
        responses_in(a) == responses_in(b),
        failures_in(a) == failures_in(b),
    ensures
        analysis_of(a, load_time) == analysis_of(b, load_time),
{
}

/// Exchanging two neighbouring records of different categories does not
/// change the report.
pub proof fn lemma_analysis_ignores_swap(events: Seq<NetworkEventView>, i: int, load_time: u64)
    requires
        0 <= i,
        i + 1 < events.len(),
        category_of(events[i]) != category_of(events[i + 1]),
    ensures
        analysis_of(events.update(i, events[i + 1]).update(i + 1, events[i]), load_time)
            == analysis_of(events, load_time),
{
    let swapped = events.update(i, events[i + 1]).update(i + 1, events[i]);
    let head = events.take(i);
    let tail = events.skip(i + 2);
    let x = events[i];
    let y = events[i + 1];
    assert(events =~= head.push(x).push(y) + tail);
    assert(swapped =~= head.push(y).push(x) + tail);
    lemma_projections_concat(head.push(x).push(y), tail);
    lemma_projections_concat(head.push(y).push(x), tail);
    lemma_projections_push(head, x);
    lemma_projections_push(head.push(x), y);
    lemma_projections_push(head, y);
    lemma_projections_push(head.push(y), x);
}

/// The report counts exactly the request records of the buffer.
pub proof fn lemma_total_requests_counts_request_records(
    events: Seq<NetworkEventView>,
    load_time: u64,
)
    ensures
        analysis_of(events, load_time).total_requests == events.filter(
            |e: NetworkEventView| e is Request,
        ).len(),
    decreases events.len(),
{
    reveal(Seq::filter);
    if events.len() > 0 {
        lemma_total_requests_counts_request_records(events.drop_last(), load_time);
    }
}

/// Whether a record adds nothing to the total size: any record but a
/// response that carries an encoded length.
pub open spec fn carries_no_length(event: NetworkEventView) -> bool {
    match event {
        NetworkEventView::Response(e) => e.encoded_data_length is None,
        _ => true,
    }
}

/// The total size is the sum of the encoded lengths that are present: a
/// record that carries none can be taken out of the buffer without
/// changing it.
pub proof fn lemma_total_size_ignores_absent_lengths(
    events: Seq<NetworkEventView>,
    i: int,
    load_time: u64,
)
    requires
        0 <= i < events.len(),
        carries_no_length(events[i]),
    ensures
        analysis_of(events.remove(i), load_time).total_size == analysis_of(
            events,
            load_time,
        ).total_size,
{
    let head = events.take(i);
    let tail = events.skip(i + 1);
    assert(events =~= head.push(events[i]) + tail);
    assert(events.remove(i) =~= head + tail);
    lemma_projections_concat(head.push(events[i]), tail);
    lemma_projections_concat(head, tail);
    lemma_projections_push(head, events[i]);
    lemma_encoded_total_concat(responses_in(head.push(events[i])), responses_in(tail));
    lemma_encoded_total_concat(responses_in(head), responses_in(tail));
    match events[i] {
        NetworkEventView::Response(e) => {
            assert(responses_in(head).push(e).drop_last() =~= responses_in(head));
        },
        _ => {},
    }
}

/// A response that carries an encoded length adds exactly that length to
/// the total size.
pub proof fn lemma_total_size_adds_present_length(
    events: Seq<NetworkEventView>,
    i: int,
    load_time: u64,
)
    requires
        0 <= i < events.len(),
        events[i] is Response,
    ensures
        analysis_of(events, load_time).total_size == analysis_of(
            events.remove(i),
            load_time,
        ).total_size + encoded_length(events[i]->Response_0),
{
    let head = events.take(i);
    let tail = events.skip(i + 1);
    let e = events[i]->Response_0;
    assert(events =~= head.push(events[i]) + tail);
    assert(events.remove(i) =~= head + tail);
    lemma_projections_concat(head.push(events[i]), tail);
    lemma_projections_concat(head, tail);
    lemma_projections_push(head, events[i]);
    lemma_encoded_total_concat(responses_in(head.push(events[i])), responses_in(tail));
    lemma_encoded_total_concat(responses_in(head), responses_in(tail));
    assert(responses_in(head).push(e).drop_last() =~= responses_in(head));
}

/// Every request record of the buffer is among its requests.
pub proof fn lemma_request_is_listed(events: Seq<NetworkEventView>, j: int) -> (m: int)
    requires
        0 <= j < events.len(),
        events[j] is Request,
    ensures
        0 <= m < requests_in(events).len(),
        requests_in(events)[m] == events[j]->Request_0,
    decreases events.len(),
{
    let front = events.drop_last();
    if j == events.len() - 1 {
        requests_in(front).len() as int
    } else {
        let m = lemma_request_is_listed(front, j);
        m
    }
}

/// Every response record of the buffer is among its responses.
pub proof fn lemma_response_is_listed(events: Seq<NetworkEventView>, i: int) -> (k: int)
    requires
        0 <= i < events.len(),
        events[i] is Response,
    ensures
        0 <= k < responses_in(events).len(),
        responses_in(events)[k] == events[i]->Response_0,
    decreases events.len(),
{
    let front = events.drop_last();
    if i == events.len() - 1 {
        responses_in(front).len() as int
    } else {
        let k = lemma_response_is_listed(front, i);
        k
    }
}

/// Every failure record of the buffer is among its failures.
pub proof fn lemma_failure_is_listed(events: Seq<NetworkEventView>, i: int) -> (k: int)
    requires
        0 <= i < events.len(),
        events[i] is Failed,
    ensures
        0 <= k < failures_in(events).len(),
        failures_in(events)[k] == events[i]->Failed_0,
    decreases events.len(),
{
    let front = events.drop_last();
    if i == events.len() - 1 {
        failures_in(front).len() as int
    } else {
        let k = lemma_failure_is_listed(front, i);
        k
    }
}

/// A request that is listed is counted under its type.
pub proof fn lemma_listed_request_is_counted(requests: Seq<RequestEventView>, m: int)
    requires
        0 <= m < requests.len(),
    ensures
        count_of_type(requests, resource_type_name(requests[m].resource_type)) >= 1,
    decreases requests.len(),
{
    if m < requests.len() - 1 {
        lemma_listed_request_is_counted(requests.drop_last(), m);
    }
}

/// A response record is reported under its own resource id, and a request
/// record with the same id is reported under that id too, with the type
/// that the request declared and a count for that type.
pub proof fn lemma_response_correlates_with_request(
    events: Seq<NetworkEventView>,
    load_time: u64,
    i: int,
    j: int,
) -> (at: (int, int))
    requires
        0 <= i < events.len(),
        0 <= j < events.len(),
        events[i] is Response,
        events[j] is Request,
        resource_id_of(events[i]) == resource_id_of(events[j]),
    ensures
        ({
            let report = analysis_of(events, load_time);
            let response = events[i]->Response_0;
            let request = events[j]->Request_0;
            &&& 0 <= at.0 < report.responses.len()
            &&& 0 <= at.1 < report.requests.len()
            &&& report.responses[at.0] == response_entry(response)
            &&& report.requests[at.1] == request_entry(request)
            &&& report.responses[at.0].request_id == report.requests[at.1].request_id
            &&& report.requests[at.1].resource_type == resource_type_name(request.resource_type)
            &&& report.requests_by_type.dom().contains(report.requests[at.1].resource_type)
            &&& report.requests_by_type[report.requests[at.1].resource_type] >= 1
        }),
{
    let k = lemma_response_is_listed(events, i);
    let m = lemma_request_is_listed(events, j);
    lemma_listed_request_is_counted(requests_in(events), m);
    (k, m)
}

/// A failure record is reported under its own resource id, and a request
/// record with the same id is reported under that id too, with the type
/// that the request declared and a count for that type.
pub proof fn lemma_failure_correlates_with_request(
    events: Seq<NetworkEventView>,
    load_time: u64,
    i: int,
    j: int,
) -> (at: (int, int))
    requires
        0 <= i < events.len(),
        0 <= j < events.len(),
        events[i] is Failed,
        events[j] is Request,
        resource_id_of(events[i]) == resource_id_of(events[j]),
    ensures
        ({
            let report = analysis_of(events, load_time);
            let failure = events[i]->Failed_0;
            let request = events[j]->Request_0;
            &&& 0 <= at.0 < report.failed_requests.len()
            &&& 0 <= at.1 < report.requests.len()
            &&& report.failed_requests[at.0] == failure_text(failure)
            &&& failure.request_id == report.requests[at.1].request_id
            &&& report.requests[at.1] == request_entry(request)
            &&& report.requests[at.1].resource_type == resource_type_name(request.resource_type)
            &&& report.requests_by_type.dom().contains(report.requests[at.1].resource_type)
            &&& report.requests_by_type[report.requests[at.1].resource_type] >= 1
        }),
{
    let k = lemma_failure_is_listed(events, i);
    let m = lemma_request_is_listed(events, j);
    lemma_listed_request_is_counted(requests_in(events), m);
    (k, m)
}

/// The buffer after the records of `batch` were appended to `start` one
/// by one, in the order in which the appends took the lock.
pub open spec fn after_appends(start: Seq<NetworkEventView>, batch: Seq<NetworkEventView>) -> Seq<
    NetworkEventView,
>
    decreases batch.len(),
{
    if batch.len() == 0 {
        start
    } else {
        after_appends(start, batch.drop_last()).push(batch.last())
    }
}

/// Appends lose and repeat nothing: whatever the order in which the
/// collectors' appends arrive, the buffer grows by exactly the records
/// appended, and each category of the buffer grows by that collector's
/// records in the order in which it delivered them.
pub proof fn lemma_appends_lose_nothing(start: Seq<NetworkEventView>, batch: Seq<NetworkEventView>)
    ensures
        after_appends(start, batch) == start + batch,
        after_appends(start, batch).len() == start.len() + batch.len(),
        requests_in(after_appends(start, batch)) == requests_in(start) + requests_in(batch),
        responses_in(after_appends(start, batch)) == responses_in(start) + responses_in(batch),
        finishes_in(after_appends(start, batch)) == finishes_in(start) + finishes_in(batch),
        failures_in(after_appends(start, batch)) == failures_in(start) + failures_in(batch),
    decreases batch.len(),
{
    if batch.len() == 0 {
        assert(start + batch =~= start);
    } else {
        lemma_appends_lose_nothing(start, batch.drop_last());
        assert((start + batch.drop_last()).push(batch.last()) =~= start + batch);
    }
    lemma_projections_concat(start, batch);
}

/// Every record belongs to exactly one category: the sizes of the four
/// categories add up to the size of the buffer.
pub proof fn lemma_categories_partition(events: Seq<NetworkEventView>)
    ensures
        events.len() == requests_in(events).len() + responses_in(events).len() + finishes_in(
            events,
        ).len() + failures_in(events).len(),
    decreases events.len(),
{
    if events.len() > 0 {
        lemma_categories_partition(events.drop_last());
    }
}

/// The report lists no request but those of the buffer: each of its
/// request entries is the entry of a request record.
pub proof fn lemma_listed_request_was_captured(events: Seq<NetworkEventView>, m: int) -> (j: int)
    requires
        0 <= m < requests_in(events).len(),
    ensures
        0 <= j < events.len(),
        events[j] == NetworkEventView::Request(requests_in(events)[m]),
    decreases events.len(),
{
    let front = events.drop_last();
    match events.last() {
        NetworkEventView::Request(e) => {
            if m == requests_in(front).len() {
                events.len() - 1
            } else {
                lemma_listed_request_was_captured(front, m)
            }
        },
        _ => lemma_listed_request_was_captured(front, m),
    }
}

/// The report lists no response but those of the buffer.
pub proof fn lemma_listed_response_was_captured(events: Seq<NetworkEventView>, k: int) -> (i: int)
    requires
        0 <= k < responses_in(events).len(),
    ensures
        0 <= i < events.len(),
        events[i] == NetworkEventView::Response(responses_in(events)[k]),
    decreases events.len(),
{
    let front = events.drop_last();
    match events.last() {
        NetworkEventView::Response(e) => {
            if k == responses_in(front).len() {
                events.len() - 1
            } else {
                lemma_listed_response_was_captured(front, k)
            }
        },
        _ => lemma_listed_response_was_captured(front, k),
    }
}

/// The report lists no failure but those of the buffer.
pub proof fn lemma_listed_failure_was_captured(events: Seq<NetworkEventView>, k: int) -> (i: int)
    requires
        0 <= k < failures_in(events).len(),
    ensures
        0 <= i < events.len(),
        events[i] == NetworkEventView::Failed(failures_in(events)[k]),
    decreases events.len(),
{
    let front = events.drop_last();
    match events.last() {
        NetworkEventView::Failed(e) => {
            if k == failures_in(front).len() {
                events.len() - 1
            } else {
                lemma_listed_failure_was_captured(front, k)
            }
        },
        _ => lemma_listed_failure_was_captured(front, k),
    }
}

/// Every entry of the report stems from a record of its own category and
/// carries that record's resource id: the report holds nothing that the
/// buffer does not, and mixes no ids. Given the place of an entry, the
/// lemma names the record.
pub proof fn lemma_reported_request_stems_from_record(
    events: Seq<NetworkEventView>,
    load_time: u64,
    m: int,
) -> (j: int)
    requires
        0 <= m < analysis_of(events, load_time).requests.len(),
    ensures
        0 <= j < events.len(),
        events[j] is Request,
        analysis_of(events, load_time).requests[m] == request_entry(events[j]->Request_0),
        analysis_of(events, load_time).requests[m].request_id == resource_id_of(events[j]),
{
    lemma_listed_request_was_captured(events, m)
}

/// The same for the responses of the report.
pub proof fn lemma_reported_response_stems_from_record(
    events: Seq<NetworkEventView>,
    load_time: u64,
    k: int,
) -> (i: int)
    requires
        0 <= k < analysis_of(events, load_time).responses.len(),
    ensures
        0 <= i < events.len(),
        events[i] is Response,
        analysis_of(events, load_time).responses[k] == response_entry(events[i]->Response_0),
        analysis_of(events, load_time).responses[k].request_id == resource_id_of(events[i]),
{
    lemma_listed_response_was_captured(events, k)
}

/// The same for the failures of the report.
pub proof fn lemma_reported_failure_stems_from_record(
    events: Seq<NetworkEventView>,
    load_time: u64,
    k: int,
) -> (i: int)
    requires
        0 <= k < analysis_of(events, load_time).failed_requests.len(),
    ensures
        0 <= i < events.len(),
        events[i] is Failed,
        analysis_of(events, load_time).failed_requests[k] == failure_text(events[i]->Failed_0),
{
    lemma_listed_failure_was_captured(events, k)
}

} // verus!
