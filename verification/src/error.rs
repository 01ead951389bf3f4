//! What can go wrong with a request, and how each failure is reported.

use crate::text::{decimal, u32_to_string};
use vstd::prelude::*;
use vstd::string::StringExecFns;

verus! {

/// A failed request.
#[derive(Debug, Clone)]
pub enum ApiError {
    /// No system has the name that was asked for.
    SystemNotFound(String),
    /// A parameter of the request was not acceptable.
    InvalidInput(String),
    /// The catalogue store failed. The text is for the log, not for the caller.
    DatabaseError(String),
    /// Something else failed. The text is for the log, not for the caller.
    InternalError(String),
}

/// A failed request as plain values.
pub enum ApiErrorView {
    SystemNotFound(Seq<char>),
    InvalidInput(Seq<char>),
    DatabaseError(Seq<char>),
    InternalError(Seq<char>),
}

impl View for ApiError {
    type V = ApiErrorView;

    open spec fn view(&self) -> ApiErrorView {
        match self {
            ApiError::SystemNotFound(name) => ApiErrorView::SystemNotFound(name@),
            ApiError::InvalidInput(text) => ApiErrorView::InvalidInput(text@),
            ApiError::DatabaseError(text) => ApiErrorView::DatabaseError(text@),
            ApiError::InternalError(text) => ApiErrorView::InternalError(text@),
        }
    }
}

/// What the caller is told about a failure: the status code, a short tag and
/// a sentence.
#[derive(Debug, Clone)]
pub struct ErrorReport {
    pub status: u16,
    pub error: String,
    pub message: String,
}

/// The status code for a failure.
pub open spec fn status_of(e: ApiErrorView) -> u16 {
    match e {
        ApiErrorView::SystemNotFound(_) => 404,
        ApiErrorView::InvalidInput(_) => 400,
        ApiErrorView::DatabaseError(_) => 500,
        ApiErrorView::InternalError(_) => 500,
    }
}

/// The tag for a failure.
pub open spec fn tag_of(e: ApiErrorView) -> Seq<char> {
    match e {
        ApiErrorView::SystemNotFound(_) => "system_not_found"@,
        ApiErrorView::InvalidInput(_) => "invalid_input"@,
        ApiErrorView::DatabaseError(_) => "database_error"@,
        ApiErrorView::InternalError(_) => "internal_error"@,
    }
}

/// The sentence for a failure. Failures of the store and internal failures
/// give nothing away.
pub open spec fn message_of(e: ApiErrorView) -> Seq<char> {
    match e {
        ApiErrorView::SystemNotFound(name) => "System '"@ + name + "' was not found"@,
        ApiErrorView::InvalidInput(text) => text,
        ApiErrorView::DatabaseError(_) => "A database error occurred"@,
        ApiErrorView::InternalError(_) => "An internal server error occurred"@,
    }
}

/// The line that describes a failure in a log.
pub open spec fn description_of(e: ApiErrorView) -> Seq<char> {
    match e {
        ApiErrorView::SystemNotFound(name) => "System not found: "@ + name,
        ApiErrorView::InvalidInput(text) => "Invalid input: "@ + text,
        ApiErrorView::DatabaseError(text) => "Database error: "@ + text,
        ApiErrorView::InternalError(text) => "Internal error: "@ + text,
    }
}

/// The text of the failure that a name is indexed without a record.
pub open spec fn missing_record_text(id: u32) -> Seq<char> {
    "System "@ + decimal(id as nat) + " exists in name index but not in data"@
}

impl ApiError {
    /// What the caller is told.
    pub fn into_response(&self) -> (report: ErrorReport)
        ensures
            report.status == status_of(self@),
            report.error@ == tag_of(self@),
            report.message@ == message_of(self@),
    {
        match self {
            ApiError::SystemNotFound(name) => {
                let mut message = String::from_str("System '");
                message.append(name.as_str());
                message.append("' was not found");
                ErrorReport { status: 404, error: String::from_str("system_not_found"), message }
            },
            ApiError::InvalidInput(text) => ErrorReport {
                status: 400,
                error: String::from_str("invalid_input"),
                message: text.clone(),
            },
            ApiError::DatabaseError(_) => ErrorReport {
                status: 500,
                error: String::from_str("database_error"),
                message: String::from_str("A database error occurred"),
            },
            ApiError::InternalError(_) => ErrorReport {
                status: 500,
                error: String::from_str("internal_error"),
                message: String::from_str("An internal server error occurred"),
            },
        }
    }

    /// The line for the log.
    pub fn to_text(&self) -> (line: String)
        ensures
            line@ == description_of(self@),
    {
        match self {
            ApiError::SystemNotFound(name) => String::from_str("System not found: ").concat(
                name.as_str(),
            ),
            ApiError::InvalidInput(text) => String::from_str("Invalid input: ").concat(
                text.as_str(),
            ),
            ApiError::DatabaseError(text) => String::from_str("Database error: ").concat(
                text.as_str(),
            ),
            ApiError::InternalError(text) => String::from_str("Internal error: ").concat(
                text.as_str(),
            ),
        }
    }

    /// The failure that a name is indexed but its record is missing.
    pub fn missing_record(id: u32) -> (e: ApiError)
        ensures
            e@ == ApiErrorView::InternalError(missing_record_text(id)),
    {
        let mut text = String::from_str("System ");
        let number = u32_to_string(id);
        text.append(number.as_str());
        text.append(" exists in name index but not in data");
        ApiError::InternalError(text)
    }
}

} // verus!
