//! The error taxonomy of the service: field validation, missing records,
//! business-rule violations, and everything unexpected.

use vstd::prelude::*;

verus! {

/// The body every failure returns: one message and nothing more.
#[derive(Debug)]
pub struct ErrorResponse {
    message: String,
}

impl View for ErrorResponse {
    type V = Seq<char>;

    closed spec fn view(&self) -> Seq<char> {
        self.message@
    }
}

impl ErrorResponse {
    pub fn new(message: String) -> (r: ErrorResponse)
        ensures
            r@ == message@,
    {
        ErrorResponse { message }
    }

    pub fn message(&self) -> (m: &str)
        ensures
            m@ == self@,
    {
        self.message.as_str()
    }
}

/// The mathematical value of an [`AppError`]: its class and its message.
pub enum AppErrorV {
    Validation(Seq<char>),
    NotFound(Seq<char>),
    BadRequest(Seq<char>),
    Internal,
}

/// A failure of a service or store operation.
#[derive(Debug)]
pub enum AppError {
    /// A field of the request is malformed or out of range.
    ValidationError(String),
    /// A referenced record does not exist.
    NotFound(String),
    /// A business rule rejects the request.
    BadRequest(String),
    /// Anything unexpected; no detail is exposed.
    InternalServer,
}

impl View for AppError {
    type V = AppErrorV;

    open spec fn view(&self) -> AppErrorV {
        match self {
            AppError::ValidationError(m) => AppErrorV::Validation(m@),
            AppError::NotFound(m) => AppErrorV::NotFound(m@),
            AppError::BadRequest(m) => AppErrorV::BadRequest(m@),
            AppError::InternalServer => AppErrorV::Internal,
        }
    }
}

/// The HTTP status each error class maps to.
pub open spec fn spec_status_code(e: AppErrorV) -> u16 {
    match e {
        AppErrorV::Validation(_) => 422,
        AppErrorV::NotFound(_) => 404,
        AppErrorV::BadRequest(_) => 400,
        AppErrorV::Internal => 500,
    }
}

/// The message each error carries to the caller.
pub open spec fn spec_error_message(e: AppErrorV) -> Seq<char> {
    match e {
        AppErrorV::Validation(m) => m,
        AppErrorV::NotFound(m) => m,
        AppErrorV::BadRequest(m) => m,
        AppErrorV::Internal => "An internal error occurred"@,
    }
}

impl AppError {
    pub fn status_code(&self) -> (c: u16)
        ensures
            c == spec_status_code(self@),
    {
        match self {
            AppError::ValidationError(_) => 422,
            AppError::NotFound(_) => 404,
            AppError::BadRequest(_) => 400,
            AppError::InternalServer => 500,
        }
    }

    /// The user-visible message of this error.
    pub fn message(&self) -> (m: String)
        ensures
            m@ == spec_error_message(self@),
    {
        match self {
            AppError::ValidationError(m) => m.clone(),
            AppError::NotFound(m) => m.clone(),
            AppError::BadRequest(m) => m.clone(),
            AppError::InternalServer => String::from_str("An internal error occurred"),
        }
    }

    /// The response body this error answers with.
    pub fn to_error_response(&self) -> (r: ErrorResponse)
        ensures
            r@ == spec_error_message(self@),
    {
        ErrorResponse::new(self.message())
    }
}

} // verus!
