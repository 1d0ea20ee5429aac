//! The error kinds of the client, and how a rejected response is classified.

use crate::text::{decimal, decimal_string};
use vstd::prelude::*;
use vstd::std_specs::convert::FromSpecImpl;

verus! {

/// `reqwest::Error`, the transport's failure value. Opaque: it is carried, never read.
#[verifier::external_type_specification]
#[verifier::external_body]
pub struct ExTransportError(reqwest::Error);

/// `serde_json::Error`, the decoder's failure value. Opaque: it is carried, never read.
#[verifier::external_type_specification]
#[verifier::external_body]
pub struct ExDecodeError(serde_json::Error);

/// Errors that can occur when talking to the query service. The kinds are
/// mutually exclusive.
#[derive(Debug)]
pub enum DuneError {
    /// The transport failed: no response was received.
    Request(reqwest::Error),
    /// The service answered with an error message not otherwise classified.
    Api { message: String },
    /// The response body did not match the expected shape.
    Parse(serde_json::Error),
    /// The credential was rejected.
    InvalidApiKey,
    /// The execution reached `Failed`; carries the service's message.
    ExecutionFailed { message: String },
    /// The caller's deadline passed while tracking; carries the elapsed seconds.
    Timeout { seconds: u64 },
    /// The execution reached `Cancelled`.
    Cancelled,
}

/// The mathematical value of a [`DuneError`]: the same kinds, with texts as
/// character sequences.
pub enum ErrorView {
    Request(reqwest::Error),
    Api { message: Seq<char> },
    Parse(serde_json::Error),
    InvalidApiKey,
    ExecutionFailed { message: Seq<char> },
    Timeout { seconds: u64 },
    Cancelled,
}

impl View for DuneError {
    type V = ErrorView;

    open spec fn view(&self) -> ErrorView {
        match *self {
            DuneError::Request(e) => ErrorView::Request(e),
            DuneError::Api { message } => ErrorView::Api { message: message@ },
            DuneError::Parse(e) => ErrorView::Parse(e),
            DuneError::InvalidApiKey => ErrorView::InvalidApiKey,
            DuneError::ExecutionFailed { message } => ErrorView::ExecutionFailed {
                message: message@,
            },
            DuneError::Timeout { seconds } => ErrorView::Timeout { seconds },
            DuneError::Cancelled => ErrorView::Cancelled,
        }
    }
}

impl From<reqwest::Error> for DuneError {
    fn from(e: reqwest::Error) -> (r: DuneError) {
        DuneError::Request(e)
    }
}

impl FromSpecImpl<reqwest::Error> for DuneError {
    open spec fn obeys_from_spec() -> bool {
        true
    }

    open spec fn from_spec(e: reqwest::Error) -> DuneError {
        DuneError::Request(e)
    }
}

impl From<serde_json::Error> for DuneError {
    fn from(e: serde_json::Error) -> (r: DuneError) {
        DuneError::Parse(e)
    }
}

impl FromSpecImpl<serde_json::Error> for DuneError {
    open spec fn obeys_from_spec() -> bool {
        true
    }

    open spec fn from_spec(e: serde_json::Error) -> DuneError {
        DuneError::Parse(e)
    }
}

/// Result type of the client operations.
pub type Result<T> = std::result::Result<T, DuneError>;

/// The status code with which the service rejects a credential.
pub const STATUS_UNAUTHORIZED: u16 = 401;

/// The error that stands for a response the service sent with a status other
/// than success: a rejected credential is told apart from every other
/// rejection, which keeps the service's message.
pub open spec fn rejection_of(status: u16, message: Seq<char>) -> ErrorView {
    if status == STATUS_UNAUTHORIZED {
        ErrorView::InvalidApiKey
    } else {
        ErrorView::Api { message }
    }
}

/// `text` begins with `prefix`.
pub open spec fn starts_with(text: Seq<char>, prefix: Seq<char>) -> bool {
    prefix.len() <= text.len() && text.subrange(0, prefix.len() as int) == prefix
}

impl ErrorView {
    /// `text` is a diagnostic of this error. For the two kinds that carry an
    /// outside failure value, the text after the fixed opening is that
    /// value's own wording and is left open.
    pub open spec fn described_by(self, text: Seq<char>) -> bool {
        match self {
            ErrorView::Request(_) => starts_with(text, "HTTP request failed: "@),
            ErrorView::Api { message } => text == "API error: "@ + message,
            ErrorView::Parse(_) => starts_with(text, "Failed to parse response: "@),
            ErrorView::InvalidApiKey => text == "Invalid or missing API key"@,
            ErrorView::ExecutionFailed { message } => text == "Query execution failed: "@
                + message,
            ErrorView::Timeout { seconds } => text == "Query execution timed out after "@
                + decimal(seconds as nat) + " seconds"@,
            ErrorView::Cancelled => text == "Query execution was cancelled"@,
        }
    }
}

impl DuneError {
    /// Classifies a response that the service sent with a status other than
    /// success.
    pub fn rejection(status: u16, message: String) -> (e: DuneError)
        ensures
            e@ == rejection_of(status, message@),
    {
        if status == STATUS_UNAUTHORIZED {
            DuneError::InvalidApiKey
        } else {
            DuneError::Api { message }
        }
    }

    /// The diagnostic text of the error.
    pub fn message(&self) -> (text: String)
        ensures
            self@.described_by(text@),
    {
        match self {
            DuneError::Request(e) => {
                let mut text = "HTTP request failed: ".to_owned();
                let detail = e.to_string();
                text.append(detail.as_str());
                assert(text@.subrange(0, "HTTP request failed: "@.len() as int)
                    =~= "HTTP request failed: "@);
                text
            },
            DuneError::Api { message } => {
                let mut text = "API error: ".to_owned();
                text.append(message.as_str());
                text
            },
            DuneError::Parse(e) => {
                let mut text = "Failed to parse response: ".to_owned();
                let detail = e.to_string();
                text.append(detail.as_str());
                assert(text@.subrange(0, "Failed to parse response: "@.len() as int)
                    =~= "Failed to parse response: "@);
                text
            },
            DuneError::InvalidApiKey => "Invalid or missing API key".to_owned(),
            DuneError::ExecutionFailed { message } => {
                let mut text = "Query execution failed: ".to_owned();
                text.append(message.as_str());
                text
            },
            DuneError::Timeout { seconds } => {
                let mut text = "Query execution timed out after ".to_owned();
                let numeral = decimal_string(*seconds);
                text.append(numeral.as_str());
                text.append(" seconds");
                text
            },
            DuneError::Cancelled => "Query execution was cancelled".to_owned(),
        }
    }
}

} // verus!
