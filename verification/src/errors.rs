//! The error taxonomy: a closed set of kinds, each with a fixed status and a
//! fixed public message, and a detail that says what happened.
//!
//! The detail is written into the response body as it is. It may hold
//! internal information; a deployment that must not disclose it replaces the
//! detail before the error is rendered.

use vstd::prelude::*;
use crate::json::{json_object_text, json_response_view, object_response, JsonScalar, JsonValue};
use crate::response::{Response, ResponseView};
use crate::text::concat2;

verus! {

/// The kinds of error.
#[derive(Debug, Clone, Copy, PartialEq, Eq, Structural)]
pub enum ErrorKind {
    Database,
    Auth,
    Validation,
    NotFound,
    Internal,
    DeviceComm,
    FileOperation,
    Json,
    Config,
}

/// An error with its detail.
#[derive(Debug, Clone, PartialEq, Eq)]
pub enum AppError {
    Database(String),
    Auth(String),
    Validation(String),
    NotFound(String),
    Internal(String),
    DeviceComm(String),
    FileOperation(String),
    Json(String),
    Config(String),
}

/// An error as values: its kind and its detail.
pub struct AppErrorView {
    pub kind: ErrorKind,
    pub detail: Seq<char>,
}

impl View for AppError {
    type V = AppErrorView;

    open spec fn view(&self) -> AppErrorView {
        match self {
            AppError::Database(detail) => AppErrorView { kind: ErrorKind::Database, detail: detail@ },
            AppError::Auth(detail) => AppErrorView { kind: ErrorKind::Auth, detail: detail@ },
            AppError::Validation(detail) => AppErrorView {
                kind: ErrorKind::Validation,
                detail: detail@,
            },
            AppError::NotFound(detail) => AppErrorView { kind: ErrorKind::NotFound, detail: detail@ },
            AppError::Internal(detail) => AppErrorView { kind: ErrorKind::Internal, detail: detail@ },
            AppError::DeviceComm(detail) => AppErrorView {
                kind: ErrorKind::DeviceComm,
                detail: detail@,
            },
            AppError::FileOperation(detail) => AppErrorView {
                kind: ErrorKind::FileOperation,
                detail: detail@,
            },
            AppError::Json(detail) => AppErrorView { kind: ErrorKind::Json, detail: detail@ },
            AppError::Config(detail) => AppErrorView { kind: ErrorKind::Config, detail: detail@ },
        }
    }
}

/// The response status of a kind.
pub open spec fn status_of(kind: ErrorKind) -> u16 {
    match kind {
        ErrorKind::Database => 500,
        ErrorKind::Auth => 401,
        ErrorKind::Validation => 400,
        ErrorKind::NotFound => 404,
        ErrorKind::Internal => 500,
        ErrorKind::DeviceComm => 503,
        ErrorKind::FileOperation => 500,
        ErrorKind::Json => 400,
        ErrorKind::Config => 500,
    }
}

/// The public message of a kind.
pub open spec fn public_message_of(kind: ErrorKind) -> Seq<char> {
    match kind {
        ErrorKind::Database => "Database error"@,
        ErrorKind::Auth => "Authentication failed"@,
        ErrorKind::Validation => "Validation error"@,
        ErrorKind::NotFound => "Resource not found"@,
        ErrorKind::Internal => "Internal server error"@,
        ErrorKind::DeviceComm => "Device unavailable"@,
        ErrorKind::FileOperation => "File operation failed"@,
        ErrorKind::Json => "Invalid JSON"@,
        ErrorKind::Config => "Configuration error"@,
    }
}

/// What a description of an error of this kind starts with.
pub open spec fn heading_of(kind: ErrorKind) -> Seq<char> {
    match kind {
        ErrorKind::Database => "Database error: "@,
        ErrorKind::Auth => "Authentication failed: "@,
        ErrorKind::Validation => "Validation error: "@,
        ErrorKind::NotFound => "Resource not found: "@,
        ErrorKind::Internal => "Internal server error: "@,
        ErrorKind::DeviceComm => "Device communication error: "@,
        ErrorKind::FileOperation => "File operation error: "@,
        ErrorKind::Json => "JSON parsing error: "@,
        ErrorKind::Config => "Configuration error: "@,
    }
}

/// The description of an error: the heading of its kind, then its detail.
pub open spec fn description_of(error: AppErrorView) -> Seq<char> {
    heading_of(error.kind) + error.detail
}

/// The fields of an error's body: the public message, the description as
/// diagnostic detail, and the status as a number.
pub open spec fn body_fields_of(error: AppErrorView) -> Seq<(Seq<char>, JsonScalar)> {
    seq![
        ("error"@, JsonScalar::Text(public_message_of(error.kind))),
        ("details"@, JsonScalar::Text(description_of(error))),
        ("status"@, JsonScalar::Number(status_of(error.kind) as u64)),
    ]
}

/// The response of an error: the status of its kind and its body as JSON.
pub open spec fn response_of(error: AppErrorView) -> ResponseView {
    json_response_view(status_of(error.kind), json_object_text(body_fields_of(error)))
}

impl ErrorKind {
    /// The response status.
    pub fn status(self) -> (code: u16)
        ensures
            code == status_of(self),
    {
        match self {
            ErrorKind::Database => 500,
            ErrorKind::Auth => 401,
            ErrorKind::Validation => 400,
            ErrorKind::NotFound => 404,
            ErrorKind::Internal => 500,
            ErrorKind::DeviceComm => 503,
            ErrorKind::FileOperation => 500,
            ErrorKind::Json => 400,
            ErrorKind::Config => 500,
        }
    }

    /// The public message.
    pub fn public_message(self) -> (message: &'static str)
        ensures
            message@ == public_message_of(self),
    {
        match self {
            ErrorKind::Database => "Database error",
            ErrorKind::Auth => "Authentication failed",
            ErrorKind::Validation => "Validation error",
            ErrorKind::NotFound => "Resource not found",
            ErrorKind::Internal => "Internal server error",
            ErrorKind::DeviceComm => "Device unavailable",
            ErrorKind::FileOperation => "File operation failed",
            ErrorKind::Json => "Invalid JSON",
            ErrorKind::Config => "Configuration error",
        }
    }

    /// What a description of an error of this kind starts with.
    pub fn heading(self) -> (heading: &'static str)
        ensures
            heading@ == heading_of(self),
    {
        match self {
            ErrorKind::Database => "Database error: ",
            ErrorKind::Auth => "Authentication failed: ",
            ErrorKind::Validation => "Validation error: ",
            ErrorKind::NotFound => "Resource not found: ",
            ErrorKind::Internal => "Internal server error: ",
            ErrorKind::DeviceComm => "Device communication error: ",
            ErrorKind::FileOperation => "File operation error: ",
            ErrorKind::Json => "JSON parsing error: ",
            ErrorKind::Config => "Configuration error: ",
        }
    }
}

impl AppError {
    /// An error of the given kind.
    pub fn new(kind: ErrorKind, detail: String) -> (error: AppError)
        ensures
            error@ == (AppErrorView { kind, detail: detail@ }),
    {
        match kind {
            ErrorKind::Database => AppError::Database(detail),
            ErrorKind::Auth => AppError::Auth(detail),
            ErrorKind::Validation => AppError::Validation(detail),
            ErrorKind::NotFound => AppError::NotFound(detail),
            ErrorKind::Internal => AppError::Internal(detail),
            ErrorKind::DeviceComm => AppError::DeviceComm(detail),
            ErrorKind::FileOperation => AppError::FileOperation(detail),
            ErrorKind::Json => AppError::Json(detail),
            ErrorKind::Config => AppError::Config(detail),
        }
    }

    /// The kind.
    pub fn kind(&self) -> (kind: ErrorKind)
        ensures
            kind == self@.kind,
    {
        match self {
            AppError::Database(_) => ErrorKind::Database,
            AppError::Auth(_) => ErrorKind::Auth,
            AppError::Validation(_) => ErrorKind::Validation,
            AppError::NotFound(_) => ErrorKind::NotFound,
            AppError::Internal(_) => ErrorKind::Internal,
            AppError::DeviceComm(_) => ErrorKind::DeviceComm,
            AppError::FileOperation(_) => ErrorKind::FileOperation,
            AppError::Json(_) => ErrorKind::Json,
            AppError::Config(_) => ErrorKind::Config,
        }
    }

    /// The detail.
    pub fn detail(&self) -> (detail: &str)
        ensures
            detail@ == self@.detail,
    {
        match self {
            AppError::Database(detail) => detail.as_str(),
            AppError::Auth(detail) => detail.as_str(),
            AppError::Validation(detail) => detail.as_str(),
            AppError::NotFound(detail) => detail.as_str(),
            AppError::Internal(detail) => detail.as_str(),
            AppError::DeviceComm(detail) => detail.as_str(),
            AppError::FileOperation(detail) => detail.as_str(),
            AppError::Json(detail) => detail.as_str(),
            AppError::Config(detail) => detail.as_str(),
        }
    }

    /// The description: the heading of the kind, then the detail.
    pub fn to_string(&self) -> (text: String)
        ensures
            text@ == description_of(self@),
    {
        concat2(self.kind().heading(), self.detail())
    }

    /// The fields of the body, in the order `error`, `details`, `status`.
    pub fn body_fields(&self) -> (fields: Vec<(String, JsonValue)>)
        ensures
            fields.deep_view() == body_fields_of(self@),
    {
        let kind = self.kind();
        let mut fields: Vec<(String, JsonValue)> = Vec::new();
        fields.push(("error".to_owned(), JsonValue::Text(kind.public_message().to_owned())));
        fields.push(("details".to_owned(), JsonValue::Text(self.to_string())));
        fields.push(("status".to_owned(), JsonValue::Number(kind.status() as u64)));
        proof {
            assert(fields.deep_view() =~= body_fields_of(self@));
        }
        fields
    }

    /// Renders the error: the status of its kind, and a JSON body that holds
    /// the public message, the description and the status.
    pub fn into_response(&self) -> (response: Response)
        ensures
            response@ == response_of(self@),
    {
        let fields = self.body_fields();
        object_response(self.kind().status(), &fields)
    }
}

/// Every kind has one of the statuses 400, 401, 404, 500 and 503, and a
/// public message that is not empty: no error leaves without both.
pub proof fn lemma_every_kind_is_mapped(kind: ErrorKind)
    ensures
        status_of(kind) == 400 || status_of(kind) == 401 || status_of(kind) == 404 || status_of(
            kind,
        ) == 500 || status_of(kind) == 503,
        public_message_of(kind).len() > 0,
        response_of(AppErrorView { kind, detail: Seq::empty() }).status == status_of(kind),
{
    reveal_strlit("Database error");
    reveal_strlit("Authentication failed");
    reveal_strlit("Validation error");
    reveal_strlit("Resource not found");
    reveal_strlit("Internal server error");
    reveal_strlit("Device unavailable");
    reveal_strlit("File operation failed");
    reveal_strlit("Invalid JSON");
    reveal_strlit("Configuration error");
}

} // verus!
