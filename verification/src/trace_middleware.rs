//! The tracing middleware: the span that stands for one request, and the
//! status that the span ends with.

use vstd::prelude::*;

verus! {

/// The factory of the tracing middleware.
#[derive(Clone, Copy, Debug)]
pub struct Trace;

/// The tracing middleware around the service that comes after it.
#[derive(Debug)]
pub struct TraceMiddleware<S> {
    service: S,
}

/// The status that a span ends with.
#[derive(Debug, PartialEq, Eq)]
pub enum SpanStatus {
    /// The request was served.
    Passed,
    /// The request failed; the text says how.
    Error(String),
}

/// How the service that comes after the middleware answered: with a status
/// code, or with an error and its text.
pub type Served = Result<u16, String>;

impl Trace {
    /// The middleware around `service`.
    pub fn new_transform<S>(&self, service: S) -> (middleware: TraceMiddleware<S>)
        ensures
            middleware.inner() == service,
    {
        TraceMiddleware { service }
    }
}

impl<S> TraceMiddleware<S> {
    /// The service that comes after the middleware.
    pub closed spec fn inner(&self) -> S {
        self.service
    }

    /// The service that comes after the middleware.
    pub fn service(&self) -> (service: &S)
        ensures
            *service == self.inner(),
    {
        &self.service
    }
}

/// A status code that reports a client error or a server error.
pub open spec fn is_error_status(code: u16) -> bool {
    400 <= code < 600
}

/// The text that an HTTP status of this code prints as: the code, a space
/// and the reason that is canonical for it.
pub uninterp spec fn status_text(code: u16) -> Seq<char>;

/// Calls `actix_web::http::StatusCode::from_u16`, which takes every code
/// from 100 to 999, and prints the status with its `Display` impl. Not
/// proved: that the text is `status_text(code)`, that is, that it depends on
/// the code alone.
#[verifier::external_body]
fn print_status(code: u16) -> (text: String)
    requires
        100 <= code < 1000,
    ensures
        text@ == status_text(code),
{
    match actix_web::http::StatusCode::from_u16(code) {
        Ok(status) => status.to_string(),
        Err(_) => String::new(),
    }
}

/// The name of the span of a request: its method, a space and its path.
pub fn span_name(method: &str, path: &str) -> (name: String)
    ensures
        name@ == method@ + " "@ + path@,
{
    let mut name = String::from_str(method);
    name.append(" ");
    name.append(path);
    name
}

/// The status of a span from the status code of the answer and the text
/// that the status prints as: an error with that text for a client error or
/// a server error, passed for any other code.
pub fn span_status(code: u16, text: String) -> (status: SpanStatus)
    ensures
        status == if is_error_status(code) {
            SpanStatus::Error(text)
        } else {
            SpanStatus::Passed
        },
{
    if 400 <= code && code < 600 {
        SpanStatus::Error(text)
    } else {
        SpanStatus::Passed
    }
}

/// Ends the span of a request. The span is an error, with the text of the
/// status, when the answer is a client error or a server error; it is an
/// error, with the text of the error, when the service failed; else it
/// has passed.
pub fn trace_middleware(served: Served) -> (status: SpanStatus)
    ensures
        match served {
            Ok(code) => if is_error_status(code) {
                status matches SpanStatus::Error(text) && text@ == status_text(code)
            } else {
                status is Passed
            },
            Err(text) => status == SpanStatus::Error(text),
        },
{
    match served {
        Ok(code) => {
            if 400 <= code && code < 600 {
                span_status(code, print_status(code))
            } else {
                SpanStatus::Passed
            }
        },
        Err(text) => SpanStatus::Error(text),
    }
}

} // verus!
