//! One HTTP exchange as a record: what was sent, what came back, and how
//! long it took.

use vstd::prelude::*;
use vstd::string::StringExecFns;
use crate::table::{put, StringMap};
use crate::text::{decimal, decimal_text};

verus! {

/// `http::HeaderMap`, taken as it is: the verifier sees nothing inside it.
#[verifier::external_type_specification]
#[verifier::external_body]
#[verifier::reject_recursive_types(T)]
pub struct ExHeaderMap<T>(::http::HeaderMap<T>);

/// `http::HeaderValue`, taken as it is.
#[verifier::external_type_specification]
#[verifier::external_body]
pub struct ExHeaderValue(::http::HeaderValue);

/// `http::StatusCode`, taken as it is.
#[verifier::external_type_specification]
#[verifier::external_body]
pub struct ExStatusCode(::http::StatusCode);

/// `std::time::Instant`, taken as it is.
#[verifier::external_type_specification]
#[verifier::external_body]
pub struct ExInstant(std::time::Instant);

/// What a header map holds: the name of each header, in lower case as the
/// map keeps it, with each of its values, in the order in which the map's
/// iterator yields them. A name comes once per value. A value that is not
/// made of visible ASCII characters alone is `None`.
pub uninterp spec fn header_pairs(headers: ::http::HeaderMap<::http::HeaderValue>) -> Seq<
    (Seq<char>, Option<Seq<char>>),
>;

/// The number of a status code.
pub uninterp spec fn status_number(status: ::http::StatusCode) -> u16;

/// The views of a list of header pairs.
pub open spec fn pairs_view(pairs: Seq<(String, Option<String>)>) -> Seq<
    (Seq<char>, Option<Seq<char>>),
> {
    Seq::new(
        pairs.len(),
        |i: int|
            (
                pairs[i].0@,
                match pairs[i].1 {
                    Some(value) => Some(value@),
                    None => None,
                },
            ),
    )
}

/// Hands out what a header map holds.
///
/// Trusted: calls `HeaderMap::iter`, `HeaderName`'s `to_string` and
/// `HeaderValue::to_str`, and only converts what they yield; the contract
/// gives the result the name `header_pairs`.
#[verifier::external_body]
fn header_entries(headers: &::http::HeaderMap<::http::HeaderValue>) -> (pairs: Vec<
    (String, Option<String>),
>)
    ensures
        pairs_view(pairs@) == header_pairs(*headers),
{
    headers.iter().map(
        |(name, value)| (name.to_string(), value.to_str().ok().map(|text| text.to_string())),
    ).collect()
}

/// The number of a status code.
///
/// Trusted: calls `StatusCode::as_u16`.
#[verifier::external_body]
fn status_as_u16(status: &::http::StatusCode) -> (number: u16)
    ensures
        number == status_number(*status),
{
    status.as_u16()
}

/// The present moment.
///
/// Trusted: calls `Instant::now`; nothing is claimed of the result.
#[verifier::external_body]
fn instant_now() -> std::time::Instant {
    std::time::Instant::now()
}

/// The whole milliseconds that have passed since `start`.
///
/// Trusted: calls `Instant::elapsed` and `Duration::as_millis`; nothing is
/// claimed of the result.
#[verifier::external_body]
fn elapsed_millis(start: &std::time::Instant) -> u64 {
    start.elapsed().as_millis() as u64
}

/// The text that stands for a header value: the value itself, or
/// "<invalid>" where it cannot be shown as text.
pub open spec fn shown_value(value: Option<Seq<char>>) -> Seq<char> {
    match value {
        Some(text) => text,
        None => "<invalid>"@,
    }
}

/// The listing that results when the pairs are stored one after another:
/// of several values under one name the last one stays, at the place of
/// the first.
pub open spec fn collected(pairs: Seq<(Seq<char>, Option<Seq<char>>)>) -> Seq<
    (Seq<char>, Seq<char>),
>
    decreases pairs.len(),
{
    if pairs.len() == 0 {
        Seq::empty()
    } else {
        put(collected(pairs.drop_last()), pairs.last().0, shown_value(pairs.last().1))
    }
}

/// Stores header pairs in a map, one after another.
pub fn headers_from_pairs(pairs: &Vec<(String, Option<String>)>) -> (map: StringMap<String>)
    ensures
        map.listing() == collected(pairs_view(pairs@)),
{
    let mut map: StringMap<String> = StringMap::new();
    let mut i: usize = 0;
    assert(pairs_view(pairs@).take(0) =~= Seq::empty());
    while i < pairs.len()
        invariant
            i <= pairs.len(),
            map.listing() == collected(pairs_view(pairs@).take(i as int)),
        decreases pairs.len() - i,
    {
        let name = pairs[i].0.clone();
        let value = match &pairs[i].1 {
            Some(text) => text.clone(),
            None => String::from_str("<invalid>"),
        };
        proof {
            let all = pairs_view(pairs@);
            assert(all.take(i + 1).drop_last() =~= all.take(i as int));
            assert(all.take(i + 1).last() == all[i as int]);
        }
        map.insert(name, value);
        i += 1;
    }
    assert(pairs_view(pairs@).take(pairs.len() as int) =~= pairs_view(pairs@));
    map
}

/// The headers of a header map as a map from names to values.
pub fn headers_to_hashmap(headers: &::http::HeaderMap<::http::HeaderValue>) -> (map: StringMap<String>)
    ensures
        map.listing() == collected(header_pairs(*headers)),
{
    let pairs = header_entries(headers);
    headers_from_pairs(&pairs)
}

/// What was sent.
#[derive(Clone, Debug)]
pub struct HttpRequestInfo {
    pub method: String,
    pub url: String,
    pub headers: StringMap<String>,
    pub body: Option<String>,
}

/// What came back.
#[derive(Clone, Debug)]
pub struct HttpResponseInfo {
    pub status: u16,
    pub headers: StringMap<String>,
    pub body: String,
    pub body_length: usize,
}

/// One exchange.
#[derive(Clone, Debug)]
pub struct HttpTransaction {
    pub request: HttpRequestInfo,
    pub response: HttpResponseInfo,
    pub duration_ms: u64,
}

/// What was sent, as the contracts see it; the headers in the order of
/// their map.
pub struct HttpRequestInfoView {
    pub method: Seq<char>,
    pub url: Seq<char>,
    pub headers: Seq<(Seq<char>, Seq<char>)>,
    pub body: Option<Seq<char>>,
}

/// What came back, as the contracts see it.
pub struct HttpResponseInfoView {
    pub status: u16,
    pub headers: Seq<(Seq<char>, Seq<char>)>,
    pub body: Seq<char>,
    pub body_length: usize,
}

/// An exchange as the contracts see it.
pub struct HttpTransactionView {
    pub request: HttpRequestInfoView,
    pub response: HttpResponseInfoView,
    pub duration_ms: u64,
}

impl View for HttpRequestInfo {
    type V = HttpRequestInfoView;

    open spec fn view(&self) -> HttpRequestInfoView {
        HttpRequestInfoView {
            method: self.method@,
            url: self.url@,
            headers: self.headers.listing(),
            body: match self.body {
                Some(text) => Some(text@),
                None => None,
            },
        }
    }
}

impl View for HttpResponseInfo {
    type V = HttpResponseInfoView;

    open spec fn view(&self) -> HttpResponseInfoView {
        HttpResponseInfoView {
            status: self.status,
            headers: self.headers.listing(),
            body: self.body@,
            body_length: self.body_length,
        }
    }
}

impl View for HttpTransaction {
    type V = HttpTransactionView;

    open spec fn view(&self) -> HttpTransactionView {
        HttpTransactionView {
            request: self.request@,
            response: self.response@,
            duration_ms: self.duration_ms,
        }
    }
}

/// The line that shows one header.
pub open spec fn header_line(entry: (Seq<char>, Seq<char>)) -> Seq<char> {
    "    "@ + entry.0 + ": "@ + entry.1
}

/// The lines of the headers, one per header in the order of the listing,
/// with a line break between two lines and none at the end.
pub open spec fn header_lines(headers: Seq<(Seq<char>, Seq<char>)>) -> Seq<char>
    decreases headers.len(),
{
    if headers.len() == 0 {
        Seq::empty()
    } else if headers.len() == 1 {
        header_line(headers[0])
    } else {
        header_lines(headers.drop_last()) + "\n"@ + header_line(headers.last())
    }
}

/// The text that shows a set of headers.
pub open spec fn headers_text(headers: Seq<(Seq<char>, Seq<char>)>) -> Seq<char> {
    if headers.len() == 0 {
        "    (no headers)"@
    } else {
        header_lines(headers)
    }
}

/// The text that shows a request body.
pub open spec fn body_text(body: Option<Seq<char>>) -> Seq<char> {
    match body {
        Some(text) => text,
        None => "(empty)"@,
    }
}

/// The text that shows an exchange.
pub open spec fn transaction_text(t: HttpTransactionView) -> Seq<char> {
    "=== HTTP TRANSACTION ===\nREQUEST:\n  Method: "@ + t.request.method + "\n  URL: "@
        + t.request.url + "\n  Headers: ("@ + decimal_text(t.request.headers.len())
        + " headers)\n"@ + headers_text(t.request.headers) + "\n  Body: "@ + body_text(
        t.request.body,
    ) + "\n\nRESPONSE:\n  Status: "@ + decimal_text(t.response.status as nat)
        + "\n  Headers: ("@ + decimal_text(t.response.headers.len()) + " headers)\n"@
        + headers_text(t.response.headers) + "\n  Body Length: "@ + decimal_text(
        t.response.body_length as nat,
    ) + " bytes\n  Duration: "@ + decimal_text(t.duration_ms as nat)
        + "ms\n\nRESPONSE BODY:\n"@ + t.response.body + "\n========================"@
}

impl HttpTransaction {
    /// The exchange as a block of plain text.
    pub fn format_for_llm(&self) -> (text: String)
        ensures
            text@ == transaction_text(self@),
    {
        let mut text = String::from_str("=== HTTP TRANSACTION ===\nREQUEST:\n  Method: ");
        text.append(self.request.method.as_str());
        text.append("\n  URL: ");
        text.append(self.request.url.as_str());
        text.append("\n  Headers: (");
        text.append(decimal(self.request.headers.len() as u64).as_str());
        text.append(" headers)\n");
        text.append(self.format_headers(&self.request.headers).as_str());
        text.append("\n  Body: ");
        match &self.request.body {
            Some(body) => text.append(body.as_str()),
            None => text.append("(empty)"),
        }
        text.append("\n\nRESPONSE:\n  Status: ");
        text.append(decimal(self.response.status as u64).as_str());
        text.append("\n  Headers: (");
        text.append(decimal(self.response.headers.len() as u64).as_str());
        text.append(" headers)\n");
        text.append(self.format_headers(&self.response.headers).as_str());
        text.append("\n  Body Length: ");
        text.append(decimal(self.response.body_length as u64).as_str());
        text.append(" bytes\n  Duration: ");
        text.append(decimal(self.duration_ms).as_str());
        text.append("ms\n\nRESPONSE BODY:\n");
        text.append(self.response.body.as_str());
        text.append("\n========================");
        text
    }

    /// The text that shows a set of headers: one indented line per header,
    /// or a note where there is none.
    pub fn format_headers(&self, headers: &StringMap<String>) -> (text: String)
        ensures
            text@ == headers_text(headers.listing()),
    {
        if headers.is_empty() {
            return String::from_str("    (no headers)");
        }
        let n: usize = headers.len();
        let mut text = String::new();
        let mut i: usize = 0;
        assert(headers.listing().take(0) =~= Seq::empty());
        while i < n
            invariant
                n == headers.listing().len(),
                i <= n,
                text@ == header_lines(headers.listing().take(i as int)),
            decreases n - i,
        {
            let ghost done = headers.listing().take(i as int);
            let ghost next = headers.listing().take(i + 1);
            proof {
                assert(next.drop_last() =~= done);
                assert(next.last() == headers.listing()[i as int]);
                if i == 0 {
                    assert(text@ =~= Seq::<char>::empty());
                }
            }
            if i > 0 {
                text.append("\n");
            }
            text.append("    ");
            text.append(headers.key_at(i).as_str());
            text.append(": ");
            text.append(headers.value_at(i).as_str());
            proof {
                let entry = headers.listing()[i as int];
                if i == 0 {
                    assert(text@ =~= header_line(entry));
                } else {
                    assert(text@ =~= header_lines(done) + "\n"@ + header_line(entry));
                }
            }
            i += 1;
        }
        assert(headers.listing().take(n as int) =~= headers.listing());
        text
    }
}

/// Gathers the parts of an exchange while it is under way, and times it.
pub struct HttpTransactionBuilder {
    method: String,
    url: String,
    request_headers: StringMap<String>,
    request_body: Option<String>,
    start_time: std::time::Instant,
}

/// What a builder has gathered so far, as the contracts see it; the
/// clock is not part of it.
pub struct HttpTransactionBuilderView {
    pub method: Seq<char>,
    pub url: Seq<char>,
    pub request_headers: Seq<(Seq<char>, Seq<char>)>,
    pub request_body: Option<Seq<char>>,
}

impl View for HttpTransactionBuilder {
    type V = HttpTransactionBuilderView;

    closed spec fn view(&self) -> HttpTransactionBuilderView {
        HttpTransactionBuilderView {
            method: self.method@,
            url: self.url@,
            request_headers: self.request_headers.listing(),
            request_body: match self.request_body {
                Some(text) => Some(text@),
                None => None,
            },
        }
    }
}

/// The byte length of a text in UTF-8.
pub open spec fn byte_length(text: Seq<char>) -> nat {
    vstd::utf8::encode_utf8(text).len()
}

impl HttpTransactionBuilder {
    /// Starts the record of a request with the given method and URL, and
    /// starts the clock.
    pub fn new(method: &str, url: &str) -> (builder: Self)
        ensures
            builder@ == (HttpTransactionBuilderView {
                method: method@,
                url: url@,
                request_headers: Seq::empty(),
                request_body: None,
            }),
    {
        HttpTransactionBuilder {
            method: String::from_str(method),
            url: String::from_str(url),
            request_headers: StringMap::new(),
            request_body: None,
            start_time: instant_now(),
        }
    }

    /// Replaces the request headers by those of a header map.
    pub fn request_headers(self, headers: &::http::HeaderMap<::http::HeaderValue>) -> (builder: Self)
        ensures
            builder@ == (HttpTransactionBuilderView {
                request_headers: collected(header_pairs(*headers)),
                ..self@
            }),
    {
        let mut builder = self;
        builder.request_headers = headers_to_hashmap(headers);
        builder
    }

    /// Replaces the request body.
    pub fn request_body(self, body: Option<String>) -> (builder: Self)
        ensures
            builder@ == (HttpTransactionBuilderView {
                request_body: match body {
                    Some(text) => Some(text@),
                    None => None,
                },
                ..self@
            }),
    {
        let mut builder = self;
        builder.request_body = body;
        builder
    }

    /// Completes the record with the response and with the time that the
    /// exchange took.
    pub fn finish_with_duration(
        self,
        status: u16,
        headers: StringMap<String>,
        body: String,
        duration_ms: u64,
    ) -> (transaction: HttpTransaction)
        ensures
            transaction@ == (HttpTransactionView {
                request: HttpRequestInfoView {
                    method: self@.method,
                    url: self@.url,
                    headers: self@.request_headers,
                    body: self@.request_body,
                },
                response: HttpResponseInfoView {
                    status,
                    headers: headers.listing(),
                    body: body@,
                    body_length: byte_length(body@) as usize,
                },
                duration_ms,
            }),
            transaction.response.body_length == byte_length(body@),
    {
        let body_length: usize = body.as_str().as_bytes().len();
        HttpTransaction {
            request: HttpRequestInfo {
                method: self.method,
                url: self.url,
                headers: self.request_headers,
                body: self.request_body,
            },
            response: HttpResponseInfo { status, headers, body_length, body },
            duration_ms,
        }
    }

    /// Completes the record with the parts of the response, and stops the
    /// clock: the duration is the time since the builder was made, in
    /// whole milliseconds.
    pub fn finish_with_parts(
        self,
        status: ::http::StatusCode,
        headers: ::http::HeaderMap<::http::HeaderValue>,
        body: String,
    ) -> (transaction: HttpTransaction)
        ensures
            transaction@ == (HttpTransactionView {
                request: HttpRequestInfoView {
                    method: self@.method,
                    url: self@.url,
                    headers: self@.request_headers,
                    body: self@.request_body,
                },
                response: HttpResponseInfoView {
                    status: status_number(status),
                    headers: collected(header_pairs(headers)),
                    body: body@,
                    body_length: byte_length(body@) as usize,
                },
                duration_ms: transaction.duration_ms,
            }),
            transaction.response.body_length == byte_length(body@),
    {
        let duration: u64 = elapsed_millis(&self.start_time);
        let number: u16 = status_as_u16(&status);
        let response_headers = headers_to_hashmap(&headers);
        self.finish_with_duration(number, response_headers, body, duration)
    }
}

} // verus!
