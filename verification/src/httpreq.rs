//! Requests described by a configuration: what the configuration holds,
//! and what is decided from it before anything is sent.

use vstd::prelude::*;
use vstd::string::StringExecFns;
use crate::http::{HttpTransactionBuilder, HttpTransactionBuilderView};
use crate::table::StringMap;
use crate::text::{text_eq, to_uppercase, uppercase_of};

verus! {

/// `url::Url`, taken as it is: the verifier sees nothing inside it.
#[verifier::external_type_specification]
#[verifier::external_body]
pub struct ExUrl(url::Url);

/// `url::ParseError`, taken as it is.
#[verifier::external_type_specification]
#[verifier::external_body]
pub struct ExParseError(url::ParseError);

/// The serialization of the URL that `Url::parse` makes of a text, or
/// `None` where the text is no absolute URL.
pub uninterp spec fn parsed_url_text(input: Seq<char>) -> Option<Seq<char>>;

/// The serialization that a URL holds.
pub uninterp spec fn url_text(url: url::Url) -> Seq<char>;

/// Parses an absolute URL.
///
/// Trusted: calls `Url::parse`; the contract gives the outcome the name
/// `parsed_url_text` and says that a URL that comes back holds the
/// serialization so named.
#[verifier::external_body]
fn parse_url(input: &str) -> (parsed: Result<url::Url, url::ParseError>)
    ensures
        match parsed {
            Ok(url) => parsed_url_text(input@) == Some(url_text(url)),
            Err(_) => parsed_url_text(input@) is None,
        },
{
    url::Url::parse(input)
}

/// The serialization of a URL.
///
/// Trusted: calls `Url::as_str`, which hands out the serialization that
/// the URL holds.
#[verifier::external_body]
fn url_as_str(url: &url::Url) -> (text: &str)
    ensures
        text@ == url_text(*url),
{
    url.as_str()
}

/// Where to send a request, and how.
#[derive(Debug)]
pub struct RequestSection {
    pub url: String,
    pub method: String,
}

/// The body of a configured request.
#[derive(Debug)]
pub enum BodySection {
    Text { text: String },
    Form(StringMap<String>),
    Plain(String),
}

/// A configured request.
#[derive(Debug)]
pub struct HttpRequestConfig {
    pub request: RequestSection,
    pub headers: StringMap<String>,
    pub body: Option<BodySection>,
}

/// The method of a request for which none is configured.
pub fn default_method() -> (method: String)
    ensures
        method@ == "GET"@,
{
    String::from_str("GET")
}

/// The methods that a request can be sent with.
#[derive(Clone, Copy, Debug, PartialEq, Eq, Structural)]
pub enum HttpMethod {
    Get,
    Post,
    Put,
    Delete,
    Patch,
    Head,
}

/// Why a configured request is not sent.
#[derive(Debug)]
pub enum HttpReqError {
    /// The configured URL is no absolute URL.
    Url(url::ParseError),
    /// The configured method, here in upper case, is none of the
    /// supported ones.
    UnsupportedMethod(String),
}

/// The method that an upper-case name stands for.
pub open spec fn method_named(upper: Seq<char>) -> Option<HttpMethod> {
    if upper == "GET"@ {
        Some(HttpMethod::Get)
    } else if upper == "POST"@ {
        Some(HttpMethod::Post)
    } else if upper == "PUT"@ {
        Some(HttpMethod::Put)
    } else if upper == "DELETE"@ {
        Some(HttpMethod::Delete)
    } else if upper == "PATCH"@ {
        Some(HttpMethod::Patch)
    } else if upper == "HEAD"@ {
        Some(HttpMethod::Head)
    } else {
        None
    }
}

/// The method that an upper-case name stands for, or the error that
/// reports the name.
pub fn method_from_upper(upper: &str) -> (method: Result<HttpMethod, HttpReqError>)
    ensures
        match method {
            Ok(m) => method_named(upper@) == Some(m),
            Err(HttpReqError::UnsupportedMethod(name)) => method_named(upper@) is None && name@
                == upper@,
            Err(_) => false,
        },
{
    if text_eq(upper, "GET") {
        Ok(HttpMethod::Get)
    } else if text_eq(upper, "POST") {
        Ok(HttpMethod::Post)
    } else if text_eq(upper, "PUT") {
        Ok(HttpMethod::Put)
    } else if text_eq(upper, "DELETE") {
        Ok(HttpMethod::Delete)
    } else if text_eq(upper, "PATCH") {
        Ok(HttpMethod::Patch)
    } else if text_eq(upper, "HEAD") {
        Ok(HttpMethod::Head)
    } else {
        Err(HttpReqError::UnsupportedMethod(String::from_str(upper)))
    }
}

/// The method that a configured name stands for, whatever its case.
pub fn parse_method(name: &str) -> (method: Result<HttpMethod, HttpReqError>)
    ensures
        match method {
            Ok(m) => method_named(uppercase_of(name@)) == Some(m),
            Err(HttpReqError::UnsupportedMethod(upper)) => method_named(uppercase_of(name@))
                is None && upper@ == uppercase_of(name@),
            Err(_) => false,
        },
{
    let upper = to_uppercase(name);
    method_from_upper(upper.as_str())
}

/// What a request is sent with as its body.
#[derive(Debug)]
pub enum RequestBody {
    /// No body.
    Absent,
    /// The text as it is.
    Raw(String),
    /// The fields as a URL-encoded form.
    Form(StringMap<String>),
}

/// A request body as the contracts see it.
pub enum RequestBodyView {
    Absent,
    Raw(Seq<char>),
    Form(Seq<(Seq<char>, Seq<char>)>),
}

impl View for RequestBody {
    type V = RequestBodyView;

    open spec fn view(&self) -> RequestBodyView {
        match self {
            RequestBody::Absent => RequestBodyView::Absent,
            RequestBody::Raw(text) => RequestBodyView::Raw(text@),
            RequestBody::Form(fields) => RequestBodyView::Form(fields.listing()),
        }
    }
}

/// The body that a configured body is sent as.
pub open spec fn planned_body(body: Option<BodySection>) -> RequestBodyView {
    match body {
        None => RequestBodyView::Absent,
        Some(BodySection::Text { text }) => RequestBodyView::Raw(text@),
        Some(BodySection::Form(fields)) => RequestBodyView::Form(fields.listing()),
        Some(BodySection::Plain(text)) => RequestBodyView::Raw(text@),
    }
}

/// The body that a configured body is sent as.
pub fn plan_body(body: Option<BodySection>) -> (planned: RequestBody)
    ensures
        planned@ == planned_body(body),
{
    match body {
        None => RequestBody::Absent,
        Some(BodySection::Text { text }) => RequestBody::Raw(text),
        Some(BodySection::Form(fields)) => RequestBody::Form(fields),
        Some(BodySection::Plain(text)) => RequestBody::Raw(text),
    }
}

/// A request that is ready to be sent.
#[derive(Debug)]
pub struct RequestPlan {
    pub method: HttpMethod,
    /// The method as it was configured; the record of the exchange shows
    /// it so.
    pub method_name: String,
    pub url: url::Url,
    pub headers: StringMap<String>,
    pub body: RequestBody,
}

impl RequestPlan {
    /// Starts the record of the exchange that the plan leads to, with the
    /// method as configured and the URL as parsed, and starts its clock.
    pub fn start_transaction(&self) -> (builder: HttpTransactionBuilder)
        ensures
            builder@ == (HttpTransactionBuilderView {
                method: self.method_name@,
                url: url_text(self.url),
                request_headers: Seq::empty(),
                request_body: None,
            }),
    {
        HttpTransactionBuilder::new(self.method_name.as_str(), url_as_str(&self.url))
    }
}

/// Decides how a configured request is sent: the URL is parsed first,
/// then the method is looked up; the first of the two that fails gives
/// the error.
pub fn plan_request(config: HttpRequestConfig) -> (plan: Result<RequestPlan, HttpReqError>)
    ensures
        match plan {
            Ok(p) => {
                &&& parsed_url_text(config.request.url@) == Some(url_text(p.url))
                &&& method_named(uppercase_of(config.request.method@)) == Some(p.method)
                &&& p.method_name@ == config.request.method@
                &&& p.headers.listing() == config.headers.listing()
                &&& p.body@ == planned_body(config.body)
            },
            Err(HttpReqError::Url(_)) => parsed_url_text(config.request.url@) is None,
            Err(HttpReqError::UnsupportedMethod(upper)) => {
                &&& parsed_url_text(config.request.url@) is Some
                &&& method_named(uppercase_of(config.request.method@)) is None
                &&& upper@ == uppercase_of(config.request.method@)
            },
        },
{
    let url = match parse_url(config.request.url.as_str()) {
        Ok(url) => url,
        Err(error) => {
            return Err(HttpReqError::Url(error));
        },
    };
    let method = match parse_method(config.request.method.as_str()) {
        Ok(method) => method,
        Err(error) => {
            return Err(error);
        },
    };
    Ok(
        RequestPlan {
            method,
            method_name: config.request.method,
            url,
            headers: config.headers,
            body: plan_body(config.body),
        },
    )
}

} // verus!
