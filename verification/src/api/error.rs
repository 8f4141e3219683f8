//! What can go wrong in an operation, as one closed set.

use crate::text::{decimal, push_decimal};
use vstd::prelude::*;

verus! {

/// The failure of an operation. Every variant carries the text that the user
/// is shown; an `Api` failure keeps the server's status and answer verbatim.
#[derive(Debug, PartialEq, Eq)]
pub enum ApiError {
    /// No answer arrived, or no client could be built.
    Client(String),
    /// The ticket endpoint turned the credentials down.
    Auth(String),
    /// An answer arrived but did not hold the expected document.
    Parse(String),
    /// An endpoint answered with a status that is no success.
    Api { status: u16, message: String },
    /// The machine is not there, or cannot be reached.
    VMNotFound(String),
    /// A task ended with an exit indicator other than `OK`.
    TaskFailed(String),
    /// The display configuration could not be had, or the viewer not started.
    Spice(String),
    /// The display configuration could not be written to disk.
    Io(String),
}

/// A failure as plain values.
pub ghost enum ErrorView {
    Client(Seq<char>),
    Auth(Seq<char>),
    Parse(Seq<char>),
    Api { status: u16, message: Seq<char> },
    VMNotFound(Seq<char>),
    TaskFailed(Seq<char>),
    Spice(Seq<char>),
    Io(Seq<char>),
}

impl ErrorView {
    /// The line that presents the failure to the user.
    pub open spec fn message(self) -> Seq<char> {
        match self {
            ErrorView::Client(detail) => "HTTP client error: "@ + detail,
            ErrorView::Auth(detail) => "Authentication failed: "@ + detail,
            ErrorView::Parse(detail) => "JSON parse error: "@ + detail,
            ErrorView::Api { status, message } => "API error ("@ + decimal(status as nat) + "): "@
                + message,
            ErrorView::VMNotFound(detail) => "VM not found: "@ + detail,
            ErrorView::TaskFailed(detail) => "Task failed: "@ + detail,
            ErrorView::Spice(detail) => "SPICE error: "@ + detail,
            ErrorView::Io(detail) => "IO error: "@ + detail,
        }
    }
}

impl View for ApiError {
    type V = ErrorView;

    open spec fn view(&self) -> ErrorView {
        match self {
            ApiError::Client(detail) => ErrorView::Client(detail@),
            ApiError::Auth(detail) => ErrorView::Auth(detail@),
            ApiError::Parse(detail) => ErrorView::Parse(detail@),
            ApiError::Api { status, message } => ErrorView::Api {
                status: *status,
                message: message@,
            },
            ApiError::VMNotFound(detail) => ErrorView::VMNotFound(detail@),
            ApiError::TaskFailed(detail) => ErrorView::TaskFailed(detail@),
            ApiError::Spice(detail) => ErrorView::Spice(detail@),
            ApiError::Io(detail) => ErrorView::Io(detail@),
        }
    }
}

impl DeepView for ApiError {
    type V = ErrorView;

    open spec fn deep_view(&self) -> ErrorView {
        self@
    }
}

impl Clone for ApiError {
    fn clone(&self) -> (copy: Self)
        ensures
            copy == *self,
    {
        match self {
            ApiError::Client(detail) => ApiError::Client(detail.clone()),
            ApiError::Auth(detail) => ApiError::Auth(detail.clone()),
            ApiError::Parse(detail) => ApiError::Parse(detail.clone()),
            ApiError::Api { status, message } => ApiError::Api {
                status: *status,
                message: message.clone(),
            },
            ApiError::VMNotFound(detail) => ApiError::VMNotFound(detail.clone()),
            ApiError::TaskFailed(detail) => ApiError::TaskFailed(detail.clone()),
            ApiError::Spice(detail) => ApiError::Spice(detail.clone()),
            ApiError::Io(detail) => ApiError::Io(detail.clone()),
        }
    }
}

fn prefixed(prefix: &str, detail: &str) -> (line: String)
    ensures
        line@ == prefix@ + detail@,
{
    let mut line = String::from_str(prefix);
    line.append(detail);
    line
}

impl ApiError {
    /// The line that presents the failure to the user.
    pub fn message(&self) -> (line: String)
        ensures
            line@ == self@.message(),
    {
        match self {
            ApiError::Client(detail) => prefixed("HTTP client error: ", detail.as_str()),
            ApiError::Auth(detail) => prefixed("Authentication failed: ", detail.as_str()),
            ApiError::Parse(detail) => prefixed("JSON parse error: ", detail.as_str()),
            ApiError::Api { status, message } => {
                let mut line = String::from_str("API error (");
                push_decimal(&mut line, *status as u64);
                line.append("): ");
                line.append(message.as_str());
                line
            },
            ApiError::VMNotFound(detail) => prefixed("VM not found: ", detail.as_str()),
            ApiError::TaskFailed(detail) => prefixed("Task failed: ", detail.as_str()),
            ApiError::Spice(detail) => prefixed("SPICE error: ", detail.as_str()),
            ApiError::Io(detail) => prefixed("IO error: ", detail.as_str()),
        }
    }
}

} // verus!
