use vstd::prelude::*;
use vstd::string::StringExecFns;

verus! {

/// The closed set of failures of the service.
#[derive(Debug, PartialEq, Eq)]
pub enum AppError {
    /// The storage failed; the text is the raw cause, kept for the log.
    Database(String),
    /// No resource matches.
    NotFound(String),
    /// The input is malformed.
    InvalidInput(String),
    /// Another failure inside the service.
    Internal(String),
}

/// Mathematical model of an [`AppError`].
pub enum AppErrorView {
    Database(Seq<char>),
    NotFound(Seq<char>),
    InvalidInput(Seq<char>),
    Internal(Seq<char>),
}

impl View for AppError {
    type V = AppErrorView;

    open spec fn view(&self) -> AppErrorView {
        match self {
            AppError::Database(m) => AppErrorView::Database(m@),
            AppError::NotFound(m) => AppErrorView::NotFound(m@),
            AppError::InvalidInput(m) => AppErrorView::InvalidInput(m@),
            AppError::Internal(m) => AppErrorView::Internal(m@),
        }
    }
}

/// Status and message that the transport sends for a failure.
#[derive(Debug, PartialEq, Eq)]
pub struct ErrorReply {
    pub status: u16,
    pub error: String,
}

/// The message that stands for every storage failure towards the caller.
pub open spec fn masked_text() -> Seq<char> {
    "Internal Server Error"@
}

/// The transport status of a failure: 400 for malformed input, 404 for an
/// absent resource, 500 for everything inside the service.
pub open spec fn status_of(e: AppErrorView) -> u16 {
    match e {
        AppErrorView::Database(_) => 500,
        AppErrorView::NotFound(_) => 404,
        AppErrorView::InvalidInput(_) => 400,
        AppErrorView::Internal(_) => 500,
    }
}

/// The message sent to the caller: the failure's own text, except that the
/// raw cause of a storage failure is never sent.
pub open spec fn reply_text(e: AppErrorView) -> Seq<char> {
    match e {
        AppErrorView::Database(_) => masked_text(),
        AppErrorView::NotFound(m) => m,
        AppErrorView::InvalidInput(m) => m,
        AppErrorView::Internal(m) => m,
    }
}

/// The text of a failure for the log: a prefix that names the kind, then the
/// failure's own text (for a storage failure, the raw cause).
pub open spec fn log_text(e: AppErrorView) -> Seq<char> {
    match e {
        AppErrorView::Database(m) => "Database error: "@ + m,
        AppErrorView::NotFound(m) => "Not found: "@ + m,
        AppErrorView::InvalidInput(m) => "Invalid input: "@ + m,
        AppErrorView::Internal(m) => "Internal server error: "@ + m,
    }
}

impl AppError {
    /// The status and the message that the transport sends for the failure.
    pub fn into_response(self) -> (r: ErrorReply)
        ensures
            r.status == status_of(self@),
            r.error@ == reply_text(self@),
    {
        match self {
            AppError::Database(_) => ErrorReply {
                status: 500,
                error: String::from_str("Internal Server Error"),
            },
            AppError::NotFound(message) => ErrorReply { status: 404, error: message },
            AppError::InvalidInput(message) => ErrorReply { status: 400, error: message },
            AppError::Internal(message) => ErrorReply { status: 500, error: message },
        }
    }

    /// The failure as one line of text, raw cause included.
    pub fn to_text(&self) -> (r: String)
        ensures
            r@ == log_text(self@),
    {
        match self {
            AppError::Database(m) => String::from_str("Database error: ").concat(m.as_str()),
            AppError::NotFound(m) => String::from_str("Not found: ").concat(m.as_str()),
            AppError::InvalidInput(m) => String::from_str("Invalid input: ").concat(m.as_str()),
            AppError::Internal(m) => String::from_str("Internal server error: ").concat(
                m.as_str(),
            ),
        }
    }
}

} // verus!
