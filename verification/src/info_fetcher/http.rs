//! Talking to a backend over HTTP.
use crate::text::{trim, trimmed};
use vstd::prelude::*;

verus! {

/// Overall deadline for a single outbound HTTP request, in seconds.
///
/// Backends can issue several requests per lookup, so this bounds each one, not the lookup as a
/// whole.
pub const REQUEST_TIMEOUT_SECONDS: u64 = 60;

/// Deadline for establishing the connection of an outbound request, in seconds.
pub const CONNECT_TIMEOUT_SECONDS: u64 = 15;

/// A builder of HTTP clients, of the crate `reqwest`. Of what is inside, only the two deadlines
/// below are spoken of.
#[verifier::external_type_specification]
#[verifier::external_body]
pub struct ExClientBuilder(reqwest::ClientBuilder);

/// The overall deadline for a request that a builder is set to, in seconds.
pub uninterp spec fn request_timeout(builder: reqwest::ClientBuilder) -> Option<u64>;

/// The deadline for establishing a connection that a builder is set to, in seconds.
pub uninterp spec fn connect_timeout(builder: reqwest::ClientBuilder) -> Option<u64>;

/// `reqwest::ClientBuilder::new`: the builder is set to no deadline.
pub assume_specification[ reqwest::ClientBuilder::new ]() -> (builder: reqwest::ClientBuilder)
    ensures
        request_timeout(builder) is None,
        connect_timeout(builder) is None,
;

/// `reqwest::ClientBuilder::timeout`: the overall deadline is set to that many seconds, and the
/// deadline for connections stays as it is.
#[verifier::external_body]
fn with_request_timeout(builder: reqwest::ClientBuilder, seconds: u64) -> (result:
    reqwest::ClientBuilder)
    ensures
        request_timeout(result) == Some(seconds),
        connect_timeout(result) == connect_timeout(builder),
{
    builder.timeout(std::time::Duration::from_secs(seconds))
}

/// `reqwest::ClientBuilder::connect_timeout`: the deadline for connections is set to that many
/// seconds, and the overall deadline stays as it is.
#[verifier::external_body]
fn with_connect_timeout(builder: reqwest::ClientBuilder, seconds: u64) -> (result:
    reqwest::ClientBuilder)
    ensures
        connect_timeout(result) == Some(seconds),
        request_timeout(result) == request_timeout(builder),
{
    builder.connect_timeout(std::time::Duration::from_secs(seconds))
}

/// A client builder preconfigured with our outbound timeouts.
pub fn client_builder() -> (builder: reqwest::ClientBuilder)
    ensures
        request_timeout(builder) == Some(REQUEST_TIMEOUT_SECONDS),
        connect_timeout(builder) == Some(CONNECT_TIMEOUT_SECONDS),
{
    let builder = with_request_timeout(reqwest::ClientBuilder::new(), REQUEST_TIMEOUT_SECONDS);
    with_connect_timeout(builder, CONNECT_TIMEOUT_SECONDS)
}

/// The status code of an answer to a request that is not authenticated.
pub const UNAUTHORIZED: u16 = 401;

/// Why a request failed.
#[derive(Clone, Debug, PartialEq, Eq)]
pub enum Error {
    /// The request could not be executed.
    HttpRequest { source: String },
    /// The response is not the JSON that was asked for.
    ParseJson { source: String },
    /// The backend answered with an error.
    HttpErrorResponse { status: u16, url: String, text: String },
    /// The backend answered with an error that cannot be read.
    HttpErrorResponseUndecodableText { status: u16, url: String, encoding_error: String },
}

/// The contents of an [`Error`].
#[verifier::ext_equal]
pub enum ErrorView {
    HttpRequest { source: Seq<char> },
    ParseJson { source: Seq<char> },
    HttpErrorResponse { status: u16, url: Seq<char>, text: Seq<char> },
    HttpErrorResponseUndecodableText { status: u16, url: Seq<char>, encoding_error: Seq<char> },
}

impl DeepView for Error {
    type V = ErrorView;

    open spec fn deep_view(&self) -> ErrorView {
        match self {
            Error::HttpRequest { source } => ErrorView::HttpRequest { source: source@ },
            Error::ParseJson { source } => ErrorView::ParseJson { source: source@ },
            Error::HttpErrorResponse { status, url, text } => ErrorView::HttpErrorResponse {
                status: *status,
                url: url@,
                text: text@,
            },
            Error::HttpErrorResponseUndecodableText { status, url, encoding_error } => {
                ErrorView::HttpErrorResponseUndecodableText {
                    status: *status,
                    url: url@,
                    encoding_error: encoding_error@,
                }
            },
        }
    }
}

impl ErrorView {
    /// The status code that the backend answered with.
    pub open spec fn status(self) -> Option<u16> {
        match self {
            ErrorView::HttpErrorResponse { status, .. } => Some(status),
            ErrorView::HttpErrorResponseUndecodableText { status, .. } => Some(status),
            ErrorView::HttpRequest { .. } => None,
            ErrorView::ParseJson { .. } => None,
        }
    }
}

impl Error {
    /// The status code the backend answered with, or `None` if the failure happened before there was
    /// a response to read a status off.
    pub fn status(&self) -> (status: Option<u16>)
        ensures
            status == self.deep_view().status(),
    {
        match self {
            Error::HttpErrorResponse { status, .. } => Some(*status),
            Error::HttpErrorResponseUndecodableText { status, .. } => Some(*status),
            Error::HttpRequest { .. } => None,
            Error::ParseJson { .. } => None,
        }
    }
}

/// Whether one of the errors that a failure consists of is a `401 Unauthorized` answer from a
/// backend.
///
/// `errors` are those of this module that are found on the way from the failure to its root cause.
/// All of them matter because backends wrap an [`Error`] in their own error types, so the 401 is never
/// the outermost error by the time a caller gets to decide whether to re-authenticate.
pub fn is_unauthorized(errors: &Vec<Error>) -> (unauthorized: bool)
    ensures
        unauthorized == exists|i: int|
            0 <= i < errors.len() && (#[trigger] errors[i]).deep_view().status() == Some(
                UNAUTHORIZED,
            ),
{
    let mut i: usize = 0;
    while i < errors.len()
        invariant
            i <= errors.len(),
            forall|j: int|
                0 <= j < i ==> (#[trigger] errors[j]).deep_view().status() != Some(UNAUTHORIZED),
        decreases errors.len() - i,
    {
        if let Some(status) = errors[i].status() {
            if status == UNAUTHORIZED {
                return true;
            }
        }
        i += 1;
    }
    false
}

/// Whether a status code stands for an error of the client or of the server.
pub open spec fn is_error_status(status: u16) -> bool {
    400 <= status <= 599
}

/// The error that an answer stands for, if its status is one of an error. What surrounds its text
/// does not matter.
pub open spec fn status_error(status: u16, url: Seq<char>, body: Result<Seq<char>, Seq<char>>) -> Option<
    ErrorView,
> {
    if is_error_status(status) {
        Some(
            match body {
                Ok(text) => ErrorView::HttpErrorResponse { status, url, text: trimmed(text) },
                Err(encoding_error) => ErrorView::HttpErrorResponseUndecodableText {
                    status,
                    url,
                    encoding_error,
                },
            },
        )
    } else {
        None
    }
}

/// The contents of a body: its text, or why it cannot be read.
pub open spec fn body_view(body: Result<String, String>) -> Result<Seq<char>, Seq<char>> {
    match body {
        Ok(text) => Ok(text@),
        Err(error) => Err(error@),
    }
}

/// If there is an HTTP client or server error, takes the body (if possible) as the context of the
/// error. The body is handed back otherwise.
pub fn error_for_status(status: u16, url: &str, body: Result<String, String>) -> (result: Result<
    Result<String, String>,
    Error,
>)
    ensures
        match status_error(status, url@, body_view(body)) {
            Some(expected) => result matches Err(error) && error.deep_view() == expected,
            None => result == Ok::<_, Error>(body),
        },
{
    if status < 400 || status > 599 {
        return Ok(body);
    }
    match body {
        Ok(text) => Err(
            Error::HttpErrorResponse { status, url: url.to_owned(), text: trim(text.as_str()) },
        ),
        Err(encoding_error) => Err(
            Error::HttpErrorResponseUndecodableText { status, url: url.to_owned(), encoding_error },
        ),
    }
}

/// An answer of a backend.
pub struct Response {
    pub status: u16,
    pub url: String,
    /// The text of the body, or why it cannot be read.
    pub body: Result<String, String>,
}

/// What comes of a request: the JSON text that the backend answered with, or an error.
pub open spec fn received_json(sent: Result<Response, String>) -> Result<Seq<char>, ErrorView> {
    match sent {
        Err(source) => Err(ErrorView::HttpRequest { source: source@ }),
        Ok(response) => match status_error(
            response.status,
            response.url@,
            body_view(response.body),
        ) {
            Some(error) => Err(error),
            None => match response.body {
                Ok(text) => Ok(text@),
                Err(source) => Err(ErrorView::HttpRequest { source: source@ }),
            },
        },
    }
}

/// Takes the JSON text out of the answer to a request, where there is one and it is no error.
pub fn receive_json(sent: Result<Response, String>) -> (result: Result<String, Error>)
    ensures
        match received_json(sent) {
            Ok(expected) => result matches Ok(text) && text@ == expected,
            Err(expected) => result matches Err(error) && error.deep_view() == expected,
        },
{
    let response = match sent {
        Ok(response) => response,
        Err(source) => return Err(Error::HttpRequest { source }),
    };
    match error_for_status(response.status, response.url.as_str(), response.body) {
        Err(error) => Err(error),
        Ok(Ok(text)) => Ok(text),
        Ok(Err(source)) => Err(Error::HttpRequest { source }),
    }
}

/// What comes of a request for JSON, given what came of parsing the text that was received, with the
/// reason where it could not be parsed.
pub fn send_json_request<T>(received: Result<Result<T, String>, Error>) -> (result: Result<T, Error>)
    ensures
        match received {
            Err(error) => result == Err::<T, _>(error),
            Ok(Ok(value)) => result == Ok::<_, Error>(value),
            Ok(Err(reason)) => result matches Err(error) && error.deep_view()
                == (ErrorView::ParseJson { source: reason@ }),
        },
{
    match received {
        Err(error) => Err(error),
        Ok(Ok(value)) => Ok(value),
        Ok(Err(source)) => Err(Error::ParseJson { source }),
    }
}

/// Answers with a status from 400 to 599 are errors, and no others. The error tells the status, the URL
/// and the text of the answer, without white space around it, or why there is no text.
pub proof fn lemma_status_error(status: u16, url: Seq<char>, body: Result<Seq<char>, Seq<char>>)
    ensures
        ({
            let error = status_error(status, url, body);
            &&& error is Some <==> 400 <= status < 600
            &&& 400 <= status < 600 && body is Ok ==> error == Some(
                ErrorView::HttpErrorResponse { status, url, text: trimmed(body->Ok_0) },
            )
            &&& 400 <= status < 600 && body is Err ==> error == Some(
                ErrorView::HttpErrorResponseUndecodableText {
                    status,
                    url,
                    encoding_error: body->Err_0,
                },
            )
            &&& error is Some ==> error->0.status() == Some(status)
        }),
{
}

/// A request brings back the text of an answer that is no error. A request that could not be sent, or
/// whose answer could not be read, has no status.
pub proof fn lemma_received_json(sent: Result<Response, String>)
    ensures
        ({
            let received = received_json(sent);
            &&& sent is Err ==> received == Err::<Seq<char>, _>(
                ErrorView::HttpRequest { source: (sent->Err_0)@ },
            )
            &&& sent is Ok && 400 <= (sent->Ok_0).status < 600 ==> received is Err
                && (received->Err_0).status() == Some((sent->Ok_0).status)
            &&& sent is Ok && !(400 <= (sent->Ok_0).status < 600) && (sent->Ok_0).body is Ok
                ==> received == Ok::<_, ErrorView>(((sent->Ok_0).body->Ok_0)@)
            &&& sent is Ok && !(400 <= (sent->Ok_0).status < 600) && (sent->Ok_0).body is Err
                ==> received == Err::<Seq<char>, _>(
                ErrorView::HttpRequest { source: ((sent->Ok_0).body->Err_0)@ },
            )
        }),
{
}

/// Connecting may take a quarter of a minute, and a whole request a minute.
pub proof fn lemma_timeouts()
    ensures
        CONNECT_TIMEOUT_SECONDS == 15,
        REQUEST_TIMEOUT_SECONDS == 60,
        CONNECT_TIMEOUT_SECONDS < REQUEST_TIMEOUT_SECONDS,
        UNAUTHORIZED == 401,
{
}

} // verus!
