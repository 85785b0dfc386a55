//! Network activity of one page load: the records that the collectors
//! capture, the buffer they share, and the analysis that turns a frozen
//! buffer into a report.

use vstd::prelude::*;
use vstd::string::StringExecFns;
use crate::session::EventCategory;
use crate::table::StringMap;
use crate::text::{decimal, decimal_text, lemma_views_push, to_lowercase, views_of};

verus! {

/// A protocol timestamp: seconds since an epoch that the browser chooses,
/// kept as the IEEE-754 bit pattern of the 64-bit value it was sent as.
#[derive(Clone, Copy, Debug, PartialEq, Eq, Structural)]
pub struct Timestamp {
    pub bits: u64,
}

impl Timestamp {
    /// The timestamp with the given bit pattern.
    pub fn from_bits(bits: u64) -> (t: Self)
        ensures
            t.bits == bits,
    {
        Timestamp { bits }
    }

    /// The bit pattern of the timestamp.
    pub fn to_bits(&self) -> (bits: u64)
        ensures
            bits == self.bits,
    {
        self.bits
    }
}

/// A request was issued.
#[derive(Clone, Debug)]
pub struct RequestEvent {
    pub request_id: String,
    pub url: String,
    pub method: String,
    pub headers: StringMap<String>,
    /// The resource type as the protocol declared it, if it declared one.
    pub resource_type: Option<String>,
    pub timestamp: Timestamp,
}

/// A response was received.
#[derive(Clone, Debug)]
pub struct ResponseEvent {
    pub request_id: String,
    pub status: u16,
    pub headers: StringMap<String>,
    pub mime_type: String,
    /// The encoded byte length, if the notification carried one.
    pub encoded_data_length: Option<u64>,
    pub timestamp: Timestamp,
}

/// A resource finished loading.
#[derive(Clone, Debug)]
pub struct FinishedEvent {
    pub request_id: String,
    pub timestamp: Timestamp,
}

/// A resource failed to load.
#[derive(Clone, Debug)]
pub struct FailedEvent {
    pub request_id: String,
    pub error_text: String,
    pub timestamp: Timestamp,
}

/// One observed network occurrence.
#[derive(Clone, Debug)]
pub enum NetworkEvent {
    Request(RequestEvent),
    Response(ResponseEvent),
    Finished(FinishedEvent),
    Failed(FailedEvent),
}

/// A request record as the contracts see it.
pub struct RequestEventView {
    pub request_id: Seq<char>,
    pub url: Seq<char>,
    pub method: Seq<char>,
    pub headers: Seq<(Seq<char>, Seq<char>)>,
    pub resource_type: Option<Seq<char>>,
    pub timestamp: Timestamp,
}

/// A response record as the contracts see it.
pub struct ResponseEventView {
    pub request_id: Seq<char>,
    pub status: u16,
    pub headers: Seq<(Seq<char>, Seq<char>)>,
    pub mime_type: Seq<char>,
    pub encoded_data_length: Option<u64>,
    pub timestamp: Timestamp,
}

/// A finish record as the contracts see it.
pub struct FinishedEventView {
    pub request_id: Seq<char>,
    pub timestamp: Timestamp,
}

/// A failure record as the contracts see it.
pub struct FailedEventView {
    pub request_id: Seq<char>,
    pub error_text: Seq<char>,
    pub timestamp: Timestamp,
}

/// A record as the contracts see it.
pub enum NetworkEventView {
    Request(RequestEventView),
    Response(ResponseEventView),
    Finished(FinishedEventView),
    Failed(FailedEventView),
}

impl View for RequestEvent {
    type V = RequestEventView;

    open spec fn view(&self) -> RequestEventView {
        RequestEventView {
            request_id: self.request_id@,
            url: self.url@,
            method: self.method@,
            headers: self.headers.listing(),
            resource_type: match self.resource_type {
                Some(t) => Some(t@),
                None => None,
            },
            timestamp: self.timestamp,
        }
    }
}

impl View for ResponseEvent {
    type V = ResponseEventView;

    open spec fn view(&self) -> ResponseEventView {
        ResponseEventView {
            request_id: self.request_id@,
            status: self.status,
            headers: self.headers.listing(),
            mime_type: self.mime_type@,
            encoded_data_length: self.encoded_data_length,
            timestamp: self.timestamp,
        }
    }
}

impl View for FinishedEvent {
    type V = FinishedEventView;

    open spec fn view(&self) -> FinishedEventView {
        FinishedEventView { request_id: self.request_id@, timestamp: self.timestamp }
    }
}

impl View for FailedEvent {
    type V = FailedEventView;

    open spec fn view(&self) -> FailedEventView {
        FailedEventView {
            request_id: self.request_id@,
            error_text: self.error_text@,
            timestamp: self.timestamp,
        }
    }
}

impl View for NetworkEvent {
    type V = NetworkEventView;

    open spec fn view(&self) -> NetworkEventView {
        match self {
            NetworkEvent::Request(e) => NetworkEventView::Request(e@),
            NetworkEvent::Response(e) => NetworkEventView::Response(e@),
            NetworkEvent::Finished(e) => NetworkEventView::Finished(e@),
            NetworkEvent::Failed(e) => NetworkEventView::Failed(e@),
        }
    }
}

impl NetworkEvent {
    /// The category of the record.
    pub fn category(&self) -> (category: EventCategory)
        ensures
            category == category_of(self@),
    {
        match self {
            NetworkEvent::Request(_) => EventCategory::Request,
            NetworkEvent::Response(_) => EventCategory::Response,
            NetworkEvent::Finished(_) => EventCategory::Finished,
            NetworkEvent::Failed(_) => EventCategory::Failed,
        }
    }

    /// The identifier that ties the record to its resource.
    pub fn resource_id(&self) -> (id: &String)
        ensures
            id@ == resource_id_of(self@),
    {
        match self {
            NetworkEvent::Request(e) => &e.request_id,
            NetworkEvent::Response(e) => &e.request_id,
            NetworkEvent::Finished(e) => &e.request_id,
            NetworkEvent::Failed(e) => &e.request_id,
        }
    }
}

/// The category that a record belongs to.
pub open spec fn category_of(event: NetworkEventView) -> EventCategory {
    match event {
        NetworkEventView::Request(_) => EventCategory::Request,
        NetworkEventView::Response(_) => EventCategory::Response,
        NetworkEventView::Finished(_) => EventCategory::Finished,
        NetworkEventView::Failed(_) => EventCategory::Failed,
    }
}

/// The resource identifier that a record carries.
pub open spec fn resource_id_of(event: NetworkEventView) -> Seq<char> {
    match event {
        NetworkEventView::Request(e) => e.request_id,
        NetworkEventView::Response(e) => e.request_id,
        NetworkEventView::Finished(e) => e.request_id,
        NetworkEventView::Failed(e) => e.request_id,
    }
}

/// The shared, append-only log of one capture window.
#[derive(Debug)]
pub struct CaptureBuffer {
    events: Vec<NetworkEvent>,
}

impl View for CaptureBuffer {
    type V = Seq<NetworkEventView>;

    closed spec fn view(&self) -> Seq<NetworkEventView> {
        views_of(self.events@)
    }
}

impl CaptureBuffer {
    /// An empty buffer, as it is at the start of a capture window.
    pub fn new() -> (buffer: Self)
        ensures
            buffer@ == Seq::<NetworkEventView>::empty(),
    {
        let buffer = CaptureBuffer { events: Vec::new() };
        assert(buffer@ =~= Seq::<NetworkEventView>::empty());
        buffer
    }

    /// Appends one record. Nothing that the buffer already holds changes.
    pub fn append(&mut self, event: NetworkEvent)
        ensures
            final(self)@ == old(self)@.push(event@),
    {
        self.events.push(event);
        assert(self@ =~= old(self)@.push(event@));
    }

    /// The number of records.
    pub fn len(&self) -> (n: usize)
        ensures
            n == self@.len(),
    {
        self.events.len()
    }

    /// Whether the buffer holds no record.
    pub fn is_empty(&self) -> (empty: bool)
        ensures
            empty == (self@.len() == 0),
    {
        self.events.len() == 0
    }

    /// The record at place `i`.
    pub fn get(&self, i: usize) -> (event: &NetworkEvent)
        requires
            i < self@.len(),
        ensures
            event@ == self@[i as int],
    {
        &self.events[i]
    }
}

/// A request as the report lists it.
#[derive(Clone, Debug)]
pub struct NetworkRequest {
    pub request_id: String,
    pub url: String,
    pub method: String,
    pub headers: StringMap<String>,
    pub resource_type: String,
    pub timestamp: Timestamp,
}

/// A response as the report lists it.
#[derive(Clone, Debug)]
pub struct NetworkResponse {
    pub request_id: String,
    pub status: u16,
    pub headers: StringMap<String>,
    pub mime_type: String,
    pub timestamp: Timestamp,
    pub encoded_data_length: Option<u64>,
}

/// The report on one page load.
#[derive(Debug)]
pub struct NetworkAnalysis {
    pub total_requests: usize,
    pub requests_by_type: StringMap<usize>,
    pub total_size: u64,
    pub load_time: u64,
    pub requests: Vec<NetworkRequest>,
    pub responses: Vec<NetworkResponse>,
    pub failed_requests: Vec<String>,
}

/// A request entry of the report as the contracts see it.
pub struct NetworkRequestView {
    pub request_id: Seq<char>,
    pub url: Seq<char>,
    pub method: Seq<char>,
    pub headers: Seq<(Seq<char>, Seq<char>)>,
    pub resource_type: Seq<char>,
    pub timestamp: Timestamp,
}

/// A response entry of the report as the contracts see it.
pub struct NetworkResponseView {
    pub request_id: Seq<char>,
    pub status: u16,
    pub headers: Seq<(Seq<char>, Seq<char>)>,
    pub mime_type: Seq<char>,
    pub timestamp: Timestamp,
    pub encoded_data_length: Option<u64>,
}

/// The report as the contracts see it: counts and sizes as natural
/// numbers, the counts per type as a mapping, texts as sequences of
/// characters.
pub struct NetworkAnalysisView {
    pub total_requests: nat,
    pub requests_by_type: Map<Seq<char>, nat>,
    pub total_size: nat,
    pub load_time: u64,
    pub requests: Seq<NetworkRequestView>,
    pub responses: Seq<NetworkResponseView>,
    pub failed_requests: Seq<Seq<char>>,
}

impl View for NetworkRequest {
    type V = NetworkRequestView;

    open spec fn view(&self) -> NetworkRequestView {
        NetworkRequestView {
            request_id: self.request_id@,
            url: self.url@,
            method: self.method@,
            headers: self.headers.listing(),
            resource_type: self.resource_type@,
            timestamp: self.timestamp,
        }
    }
}

impl View for NetworkResponse {
    type V = NetworkResponseView;

    open spec fn view(&self) -> NetworkResponseView {
        NetworkResponseView {
            request_id: self.request_id@,
            status: self.status,
            headers: self.headers.listing(),
            mime_type: self.mime_type@,
            timestamp: self.timestamp,
            encoded_data_length: self.encoded_data_length,
        }
    }
}

impl View for NetworkAnalysis {
    type V = NetworkAnalysisView;

    open spec fn view(&self) -> NetworkAnalysisView {
        NetworkAnalysisView {
            total_requests: self.total_requests as nat,
            requests_by_type: Map::new(
                |name: Seq<char>| self.requests_by_type@.dom().contains(name),
                |name: Seq<char>| self.requests_by_type@[name] as nat,
            ),
            total_size: self.total_size as nat,
            load_time: self.load_time,
            requests: views_of(self.requests@),
            responses: views_of(self.responses@),
            failed_requests: views_of(self.failed_requests@),
        }
    }
}

/// The request records of a buffer, in the order of capture.
pub open spec fn requests_in(events: Seq<NetworkEventView>) -> Seq<RequestEventView>
    decreases events.len(),
{
    if events.len() == 0 {
        Seq::empty()
    } else {
        match events.last() {
            NetworkEventView::Request(e) => requests_in(events.drop_last()).push(e),
            _ => requests_in(events.drop_last()),
        }
    }
}

/// The response records of a buffer, in the order of capture.
pub open spec fn responses_in(events: Seq<NetworkEventView>) -> Seq<ResponseEventView>
    decreases events.len(),
{
    if events.len() == 0 {
        Seq::empty()
    } else {
        match events.last() {
            NetworkEventView::Response(e) => responses_in(events.drop_last()).push(e),
            _ => responses_in(events.drop_last()),
        }
    }
}

/// The failure records of a buffer, in the order of capture.
pub open spec fn failures_in(events: Seq<NetworkEventView>) -> Seq<FailedEventView>
    decreases events.len(),
{
    if events.len() == 0 {
        Seq::empty()
    } else {
        match events.last() {
            NetworkEventView::Failed(e) => failures_in(events.drop_last()).push(e),
            _ => failures_in(events.drop_last()),
        }
    }
}

/// The type under which a request is counted: the declared type in lower
/// case, or "unknown" where none was declared.
pub open spec fn resource_type_name(declared: Option<Seq<char>>) -> Seq<char> {
    match declared {
        Some(name) => crate::text::lowercase_of(name),
        None => "unknown"@,
    }
}

/// The report's entry for a request record.
pub open spec fn request_entry(event: RequestEventView) -> NetworkRequestView {
    NetworkRequestView {
        request_id: event.request_id,
        url: event.url,
        method: event.method,
        headers: event.headers,
        resource_type: resource_type_name(event.resource_type),
        timestamp: event.timestamp,
    }
}

/// The report's entry for a response record.
pub open spec fn response_entry(event: ResponseEventView) -> NetworkResponseView {
    NetworkResponseView {
        request_id: event.request_id,
        status: event.status,
        headers: event.headers,
        mime_type: event.mime_type,
        timestamp: event.timestamp,
        encoded_data_length: event.encoded_data_length,
    }
}

/// The report's description of a failure record.
pub open spec fn failure_text(event: FailedEventView) -> Seq<char> {
    "Request "@ + event.request_id + " failed: "@ + event.error_text
}

/// How many of the requests are counted under the type `name`.
pub open spec fn count_of_type(requests: Seq<RequestEventView>, name: Seq<char>) -> nat
    decreases requests.len(),
{
    if requests.len() == 0 {
        0
    } else {
        count_of_type(requests.drop_last(), name) + if resource_type_name(
            requests.last().resource_type,
        ) == name {
            1nat
        } else {
            0nat
        }
    }
}

/// The number of requests per resource type; a type without requests has
/// no entry.
pub open spec fn type_counts(requests: Seq<RequestEventView>) -> Map<Seq<char>, nat> {
    Map::new(
        |name: Seq<char>| count_of_type(requests, name) > 0,
        |name: Seq<char>| count_of_type(requests, name),
    )
}

/// The bytes that a response contributes to the total size.
pub open spec fn encoded_length(event: ResponseEventView) -> nat {
    match event.encoded_data_length {
        Some(n) => n as nat,
        None => 0,
    }
}

/// The sum of the encoded lengths that the responses carry.
pub open spec fn encoded_total(responses: Seq<ResponseEventView>) -> nat
    decreases responses.len(),
{
    if responses.len() == 0 {
        0
    } else {
        encoded_total(responses.drop_last()) + encoded_length(responses.last())
    }
}

/// The report's entries for request records, in their order.
pub open spec fn request_entries(requests: Seq<RequestEventView>) -> Seq<NetworkRequestView> {
    Seq::new(requests.len(), |i: int| request_entry(requests[i]))
}

/// The report's entries for response records, in their order.
pub open spec fn response_entries(responses: Seq<ResponseEventView>) -> Seq<NetworkResponseView> {
    Seq::new(responses.len(), |i: int| response_entry(responses[i]))
}

/// The report's descriptions of failure records, in their order.
pub open spec fn failure_texts(failures: Seq<FailedEventView>) -> Seq<Seq<char>> {
    Seq::new(failures.len(), |i: int| failure_text(failures[i]))
}

/// The report on a frozen buffer and a measured load time.
pub open spec fn analysis_of(events: Seq<NetworkEventView>, load_time: u64) -> NetworkAnalysisView {
    NetworkAnalysisView {
        total_requests: requests_in(events).len(),
        requests_by_type: type_counts(requests_in(events)),
        total_size: encoded_total(responses_in(events)),
        load_time,
        requests: request_entries(requests_in(events)),
        responses: response_entries(responses_in(events)),
        failed_requests: failure_texts(failures_in(events)),
    }
}

/// Whether the total size of a buffer's responses fits the report's field.
pub open spec fn total_size_fits(events: Seq<NetworkEventView>) -> bool {
    encoded_total(responses_in(events)) <= u64::MAX
}

/// What one more record adds to each category of a buffer.
pub proof fn lemma_projections_push(events: Seq<NetworkEventView>, event: NetworkEventView)
    ensures
        requests_in(events.push(event)) == match event {
            NetworkEventView::Request(e) => requests_in(events).push(e),
            _ => requests_in(events),
        },
        responses_in(events.push(event)) == match event {
            NetworkEventView::Response(e) => responses_in(events).push(e),
            _ => responses_in(events),
        },
        failures_in(events.push(event)) == match event {
            NetworkEventView::Failed(e) => failures_in(events).push(e),
            _ => failures_in(events),
        },
{
    assert(events.push(event).drop_last() =~= events);
}

/// A buffer holds no more requests than records.
pub proof fn lemma_requests_in_len(events: Seq<NetworkEventView>)
    ensures
        requests_in(events).len() <= events.len(),
    decreases events.len(),
{
    if events.len() > 0 {
        lemma_requests_in_len(events.drop_last());
    }
}

/// No type counts more requests than there are.
pub proof fn lemma_count_of_type_bound(requests: Seq<RequestEventView>, name: Seq<char>)
    ensures
        count_of_type(requests, name) <= requests.len(),
    decreases requests.len(),
{
    if requests.len() > 0 {
        lemma_count_of_type_bound(requests.drop_last(), name);
    }
}

/// The total size of a prefix of a buffer does not exceed that of the
/// whole buffer.
pub proof fn lemma_encoded_total_prefix(events: Seq<NetworkEventView>, i: int)
    requires
        0 <= i <= events.len(),
    ensures
        encoded_total(responses_in(events.take(i))) <= encoded_total(responses_in(events)),
    decreases events.len(),
{
    if i == events.len() {
        assert(events.take(i) =~= events);
    } else {
        let front = events.drop_last();
        lemma_encoded_total_prefix(front, i);
        assert(front.take(i) =~= events.take(i));
        assert(front.push(events.last()) =~= events);
        lemma_projections_push(front, events.last());
        match events.last() {
            NetworkEventView::Response(e) => {
                assert(responses_in(front).push(e).drop_last() =~= responses_in(front));
            },
            _ => {},
        }
    }
}

/// The type under which a request with the given declared type is
/// counted.
pub fn classify_resource_type(declared: &Option<String>) -> (name: String)
    ensures
        name@ == resource_type_name(
            match *declared {
                Some(t) => Some(t@),
                None => None,
            },
        ),
{
    match declared {
        Some(t) => to_lowercase(t.as_str()),
        None => String::from_str("unknown"),
    }
}

impl NetworkRequest {
    /// The report's entry for a request record whose resource type has
    /// been classified as `resource_type`.
    pub fn from_event(event: &RequestEvent, resource_type: String) -> (entry: Self)
        ensures
            entry.request_id@ == event.request_id@,
            entry.url@ == event.url@,
            entry.method@ == event.method@,
            entry.headers.listing() == event.headers.listing(),
            entry.resource_type@ == resource_type@,
            entry.timestamp == event.timestamp,
    {
        NetworkRequest {
            request_id: event.request_id.clone(),
            url: event.url.clone(),
            method: event.method.clone(),
            headers: event.headers.duplicate(),
            resource_type,
            timestamp: event.timestamp,
        }
    }
}

impl NetworkResponse {
    /// The report's entry for a response record.
    pub fn from_event(event: &ResponseEvent) -> (entry: Self)
        ensures
            entry@ == response_entry(event@),
    {
        NetworkResponse {
            request_id: event.request_id.clone(),
            status: event.status,
            headers: event.headers.duplicate(),
            mime_type: event.mime_type.clone(),
            timestamp: event.timestamp,
            encoded_data_length: event.encoded_data_length,
        }
    }
}

/// The report's description of a failure record.
pub fn failure_description(event: &FailedEvent) -> (text: String)
    ensures
        text@ == failure_text(event@),
{
    let mut text = String::from_str("Request ");
    text.append(event.request_id.as_str());
    text.append(" failed: ");
    text.append(event.error_text.as_str());
    text
}

/// One more request record adds its entry at the end.
pub proof fn lemma_request_entries_push(requests: Seq<RequestEventView>, event: RequestEventView)
    ensures
        request_entries(requests.push(event)) == request_entries(requests).push(
            request_entry(event),
        ),
{
    assert(request_entries(requests.push(event)) =~= request_entries(requests).push(
        request_entry(event),
    ));
}

/// One more response record adds its entry at the end.
pub proof fn lemma_response_entries_push(responses: Seq<ResponseEventView>, event: ResponseEventView)
    ensures
        response_entries(responses.push(event)) == response_entries(responses).push(
            response_entry(event),
        ),
{
    assert(response_entries(responses.push(event)) =~= response_entries(responses).push(
        response_entry(event),
    ));
}

/// One more failure record adds its description at the end.
pub proof fn lemma_failure_texts_push(failures: Seq<FailedEventView>, event: FailedEventView)
    ensures
        failure_texts(failures.push(event)) == failure_texts(failures).push(failure_text(event)),
{
    assert(failure_texts(failures.push(event)) =~= failure_texts(failures).push(
        failure_text(event),
    ));
}

/// Whether a table of counts holds exactly the counts per type of the
/// requests.
pub open spec fn counts_match(table: Map<Seq<char>, usize>, requests: Seq<RequestEventView>) -> bool {
    forall|name: Seq<char>|
        {
            &&& #[trigger] table.dom().contains(name) <==> count_of_type(requests, name) > 0
            &&& table.dom().contains(name) ==> table[name] == count_of_type(requests, name)
        }
}

/// Counts one more request under `name`.
fn count_request(
    by_type: &mut StringMap<usize>,
    name: &String,
    Ghost(requests): Ghost<Seq<RequestEventView>>,
    Ghost(request): Ghost<RequestEventView>,
)
    requires
        counts_match(old(by_type)@, requests),
        name@ == resource_type_name(request.resource_type),
        requests.len() < usize::MAX,
    ensures
        counts_match(final(by_type)@, requests.push(request)),
{
    let ghost before = by_type@;
    proof {
        lemma_count_of_type_bound(requests, name@);
        assert(before.dom().contains(name@) <==> count_of_type(requests, name@) > 0);
    }
    by_type.increment(name.as_str());
    proof {
        let after = requests.push(request);
        assert(after.drop_last() =~= requests);
        assert forall|other: Seq<char>|
            {
                &&& #[trigger] by_type@.dom().contains(other) <==> count_of_type(after, other) > 0
                &&& by_type@.dom().contains(other) ==> by_type@[other] == count_of_type(
                    after,
                    other,
                )
            } by {
            assert(before.dom().contains(other) <==> count_of_type(requests, other) > 0);
        }
    }
}

/// Reduces a frozen buffer to its report, unless the total size of its
/// responses exceeds what the report can hold.
pub fn try_analyze_network_events(buffer: &CaptureBuffer, load_time: u64) -> (report: Option<
    NetworkAnalysis,
>)
    ensures
        report is Some <==> total_size_fits(buffer@),
        report matches Some(r) ==> r@ == analysis_of(buffer@, load_time),
{
    let mut requests: Vec<NetworkRequest> = Vec::new();
    let mut responses: Vec<NetworkResponse> = Vec::new();
    let mut failed_requests: Vec<String> = Vec::new();
    let mut requests_by_type: StringMap<usize> = StringMap::new();
    let mut total_size: u64 = 0;
    let n: usize = buffer.len();
    let mut i: usize = 0;
    assert(buffer@.take(0) =~= Seq::<NetworkEventView>::empty());
    assert(views_of(requests@) =~= request_entries(requests_in(buffer@.take(0))));
    assert(views_of(responses@) =~= response_entries(responses_in(buffer@.take(0))));
    assert(views_of(failed_requests@) =~= failure_texts(failures_in(buffer@.take(0))));
    while i < n
        invariant
            n == buffer@.len(),
            i <= n,
            views_of(requests@) == request_entries(requests_in(buffer@.take(i as int))),
            views_of(responses@) == response_entries(responses_in(buffer@.take(i as int))),
            views_of(failed_requests@) == failure_texts(failures_in(buffer@.take(i as int))),
            counts_match(requests_by_type@, requests_in(buffer@.take(i as int))),
            total_size == encoded_total(responses_in(buffer@.take(i as int))),
        decreases n - i,
    {
        let ghost seen = buffer@.take(i as int);
        proof {
            assert(buffer@.take(i + 1) =~= seen.push(buffer@[i as int]));
            lemma_projections_push(seen, buffer@[i as int]);
            lemma_requests_in_len(seen);
        }
        match buffer.get(i) {
            NetworkEvent::Request(event) => {
                let name = classify_resource_type(&event.resource_type);
                count_request(&mut requests_by_type, &name, Ghost(requests_in(seen)), Ghost(event@));
                let entry = NetworkRequest::from_event(event, name);
                proof {
                    lemma_views_push(requests@, entry);
                    lemma_request_entries_push(requests_in(seen), event@);
                }
                requests.push(entry);
            },
            NetworkEvent::Response(event) => {
                let length: u64 = match event.encoded_data_length {
                    Some(length) => length,
                    None => 0,
                };
                proof {
                    assert(responses_in(seen).push(event@).drop_last() =~= responses_in(seen));
                }
                match total_size.checked_add(length) {
                    Some(sum) => {
                        total_size = sum;
                    },
                    None => {
                        proof {
                            lemma_encoded_total_prefix(buffer@, i + 1);
                        }
                        return None;
                    },
                }
                let entry = NetworkResponse::from_event(event);
                proof {
                    lemma_views_push(responses@, entry);
                    lemma_response_entries_push(responses_in(seen), event@);
                }
                responses.push(entry);
            },
            NetworkEvent::Failed(event) => {
                let text = failure_description(event);
                proof {
                    lemma_views_push(failed_requests@, text);
                    lemma_failure_texts_push(failures_in(seen), event@);
                }
                failed_requests.push(text);
            },
            NetworkEvent::Finished(_) => {},
        }
        i += 1;
    }
    proof {
        assert(buffer@.take(n as int) =~= buffer@);
        lemma_requests_in_len(buffer@);
    }
    let report = NetworkAnalysis {
        total_requests: requests.len(),
        requests_by_type,
        total_size,
        load_time,
        requests,
        responses,
        failed_requests,
    };
    proof {
        assert(report@.total_requests == requests_in(buffer@).len()) by {
            assert(views_of(report.requests@).len() == report.requests@.len());
        }
        assert(report@.requests_by_type =~= type_counts(requests_in(buffer@)));
    }
    Some(report)
}

/// Reduces a frozen buffer and the measured load time to the report.
pub fn analyze_network_events(buffer: &CaptureBuffer, load_time: u64) -> (report: NetworkAnalysis)
    requires
        total_size_fits(buffer@),
    ensures
        report@ == analysis_of(buffer@, load_time),
{
    match try_analyze_network_events(buffer, load_time) {
        Some(report) => report,
        None => {
            proof {
                assert(false);
            }
            NetworkAnalysis {
                total_requests: 0,
                requests_by_type: StringMap::new(),
                total_size: 0,
                load_time,
                requests: Vec::new(),
                responses: Vec::new(),
                failed_requests: Vec::new(),
            }
        },
    }
}

/// One line per resource type: the type and the number of its requests.
pub open spec fn type_lines(counts: Seq<(Seq<char>, usize)>) -> Seq<char>
    decreases counts.len(),
{
    if counts.len() == 0 {
        Seq::empty()
    } else {
        type_lines(counts.drop_last()) + "  "@ + counts.last().0 + ": "@ + decimal_text(
            counts.last().1 as nat,
        ) + "\n"@
    }
}

/// One line per failure description.
pub open spec fn failure_lines(failures: Seq<Seq<char>>) -> Seq<char>
    decreases failures.len(),
{
    if failures.len() == 0 {
        Seq::empty()
    } else {
        failure_lines(failures.drop_last()) + "  - "@ + failures.last() + "\n"@
    }
}

/// The part of the summary that lists the failures: nothing where there
/// is none.
pub open spec fn failure_section(failures: Seq<Seq<char>>) -> Seq<char> {
    if failures.len() == 0 {
        Seq::empty()
    } else {
        "\nFailed Requests:\n"@ + failure_lines(failures)
    }
}

/// The summary of a report for a reader: the number of requests, the load
/// time, the total size as the caller has put it in kilobytes, the
/// requests per type, and the failures if there are any.
pub open spec fn summary_text(
    total_requests: usize,
    load_time: u64,
    size_in_kb: Seq<char>,
    counts: Seq<(Seq<char>, usize)>,
    failures: Seq<Seq<char>>,
) -> Seq<char> {
    "\n=== NETWORK ANALYSIS ===\nTotal Requests: "@ + decimal_text(total_requests as nat)
        + "\nLoad Time: "@ + decimal_text(load_time as nat) + "ms\nTotal Size: "@ + size_in_kb
        + "KB\n\nRequest Types:\n"@ + type_lines(counts) + failure_section(failures)
        + "=========================\n"@
}

impl NetworkAnalysis {
    /// The summary of the report for a reader. The total size in
    /// kilobytes is written by the caller and put in as it is.
    pub fn summary(&self, size_in_kb: &str) -> (text: String)
        ensures
            text@ == summary_text(
                self.total_requests,
                self.load_time,
                size_in_kb@,
                self.requests_by_type.listing(),
                views_of(self.failed_requests@),
            ),
    {
        let mut text = String::from_str("\n=== NETWORK ANALYSIS ===\nTotal Requests: ");
        text.append(decimal(self.total_requests as u64).as_str());
        text.append("\nLoad Time: ");
        text.append(decimal(self.load_time).as_str());
        text.append("ms\nTotal Size: ");
        text.append(size_in_kb);
        text.append("KB\n\nRequest Types:\n");
        let ghost head = text@;
        let ghost counts = self.requests_by_type.listing();
        let n: usize = self.requests_by_type.len();
        let mut i: usize = 0;
        assert(counts.take(0) =~= Seq::empty());
        assert(text@ =~= head + type_lines(counts.take(0)));
        while i < n
            invariant
                n == counts.len(),
                counts == self.requests_by_type.listing(),
                i <= n,
                text@ == head + type_lines(counts.take(i as int)),
            decreases n - i,
        {
            proof {
                assert(counts.take(i + 1).drop_last() =~= counts.take(i as int));
                assert(counts.take(i + 1).last() == counts[i as int]);
            }
            text.append("  ");
            text.append(self.requests_by_type.key_at(i).as_str());
            text.append(": ");
            text.append(decimal(*self.requests_by_type.value_at(i) as u64).as_str());
            text.append("\n");
            assert(text@ =~= head + type_lines(counts.take(i + 1)));
            i += 1;
        }
        assert(counts.take(n as int) =~= counts);
        let ghost failures = views_of(self.failed_requests@);
        if self.failed_requests.len() > 0 {
            text.append("\nFailed Requests:\n");
            let ghost middle = text@;
            let m: usize = self.failed_requests.len();
            let mut j: usize = 0;
            assert(failures.take(0) =~= Seq::empty());
            assert(text@ =~= middle + failure_lines(failures.take(0)));
            while j < m
                invariant
                    m == self.failed_requests@.len(),
                    failures == views_of(self.failed_requests@),
                    j <= m,
                    text@ == middle + failure_lines(failures.take(j as int)),
                decreases m - j,
            {
                proof {
                    assert(failures.take(j + 1).drop_last() =~= failures.take(j as int));
                    assert(failures.take(j + 1).last() == self.failed_requests@[j as int]@);
                }
                text.append("  - ");
                text.append(self.failed_requests[j].as_str());
                text.append("\n");
                assert(text@ =~= middle + failure_lines(failures.take(j + 1)));
                j += 1;
            }
            assert(failures.take(m as int) =~= failures);
            assert(text@ =~= head + type_lines(counts) + failure_section(failures));
        } else {
            assert(text@ =~= head + type_lines(counts) + failure_section(failures));
        }
        text.append("=========================\n");
        text
    }
}

} // verus!
