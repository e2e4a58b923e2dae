//! The application error type, with the HTTP status and error kind that each
//! variant is answered with, and the message that is shown for it.
use vstd::prelude::*;
use crate::text::{join2, owned};

verus! {

/// An error of the application; each variant carries a message.
#[derive(Debug)]
pub enum AppError {
    InternalError(String),
    NotFound(String),
    BadRequest(String),
    Unauthorized(String),
    Forbidden(String),
    Conflict(String),
    DatabaseError(String),
    GitError(String),
    QueueError(String),
    ValidationError(String),
    TooManyRequests(String),
}

/// The message carried by an error.
pub open spec fn error_detail(e: AppError) -> Seq<char> {
    match e {
        AppError::InternalError(m) => m@,
        AppError::NotFound(m) => m@,
        AppError::BadRequest(m) => m@,
        AppError::Unauthorized(m) => m@,
        AppError::Forbidden(m) => m@,
        AppError::Conflict(m) => m@,
        AppError::DatabaseError(m) => m@,
        AppError::GitError(m) => m@,
        AppError::QueueError(m) => m@,
        AppError::ValidationError(m) => m@,
        AppError::TooManyRequests(m) => m@,
    }
}

/// The HTTP status an error is answered with.
pub open spec fn status_of(e: AppError) -> u16 {
    match e {
        AppError::InternalError(_) => 500,
        AppError::NotFound(_) => 404,
        AppError::BadRequest(_) => 400,
        AppError::Unauthorized(_) => 401,
        AppError::Forbidden(_) => 403,
        AppError::Conflict(_) => 409,
        AppError::DatabaseError(_) => 500,
        AppError::GitError(_) => 500,
        AppError::QueueError(_) => 500,
        AppError::ValidationError(_) => 400,
        AppError::TooManyRequests(_) => 429,
    }
}

/// The error kind written in the `error` field of the response body.
pub open spec fn kind_of(e: AppError) -> Seq<char> {
    match e {
        AppError::InternalError(_) => "internal_error"@,
        AppError::NotFound(_) => "not_found"@,
        AppError::BadRequest(_) => "bad_request"@,
        AppError::Unauthorized(_) => "unauthorized"@,
        AppError::Forbidden(_) => "forbidden"@,
        AppError::Conflict(_) => "conflict"@,
        AppError::DatabaseError(_) => "database_error"@,
        AppError::GitError(_) => "git_error"@,
        AppError::QueueError(_) => "queue_error"@,
        AppError::ValidationError(_) => "validation_error"@,
        AppError::TooManyRequests(_) => "rate_limit_exceeded"@,
    }
}

/// The words that open the displayed message of an error.
pub open spec fn label_of(e: AppError) -> Seq<char> {
    match e {
        AppError::InternalError(_) => "Internal error: "@,
        AppError::NotFound(_) => "Not found: "@,
        AppError::BadRequest(_) => "Bad request: "@,
        AppError::Unauthorized(_) => "Unauthorized: "@,
        AppError::Forbidden(_) => "Forbidden: "@,
        AppError::Conflict(_) => "Conflict: "@,
        AppError::DatabaseError(_) => "Database error: "@,
        AppError::GitError(_) => "Git error: "@,
        AppError::QueueError(_) => "Queue error: "@,
        AppError::ValidationError(_) => "Validation error: "@,
        AppError::TooManyRequests(_) => "Too many requests: "@,
    }
}

impl AppError {
    /// An internal error with the given message.
    pub fn internal(msg: &str) -> (e: AppError)
        ensures
            e matches AppError::InternalError(m) && m@ == msg@,
    {
        AppError::InternalError(owned(msg))
    }

    /// A not-found error with the given message.
    pub fn not_found(msg: &str) -> (e: AppError)
        ensures
            e matches AppError::NotFound(m) && m@ == msg@,
    {
        AppError::NotFound(owned(msg))
    }

    /// A bad-request error with the given message.
    pub fn bad_request(msg: &str) -> (e: AppError)
        ensures
            e matches AppError::BadRequest(m) && m@ == msg@,
    {
        AppError::BadRequest(owned(msg))
    }

    /// An unauthorized error with the given message.
    pub fn unauthorized(msg: &str) -> (e: AppError)
        ensures
            e matches AppError::Unauthorized(m) && m@ == msg@,
    {
        AppError::Unauthorized(owned(msg))
    }

    /// A forbidden error with the given message.
    pub fn forbidden(msg: &str) -> (e: AppError)
        ensures
            e matches AppError::Forbidden(m) && m@ == msg@,
    {
        AppError::Forbidden(owned(msg))
    }

    /// A conflict error with the given message.
    pub fn conflict(msg: &str) -> (e: AppError)
        ensures
            e matches AppError::Conflict(m) && m@ == msg@,
    {
        AppError::Conflict(owned(msg))
    }

    /// The HTTP status code this error is answered with.
    pub fn status_code(&self) -> (s: u16)
        ensures
            s == status_of(*self),
    {
        match self {
            AppError::InternalError(_) => 500,
            AppError::NotFound(_) => 404,
            AppError::BadRequest(_) => 400,
            AppError::Unauthorized(_) => 401,
            AppError::Forbidden(_) => 403,
            AppError::Conflict(_) => 409,
            AppError::DatabaseError(_) => 500,
            AppError::GitError(_) => 500,
            AppError::QueueError(_) => 500,
            AppError::ValidationError(_) => 400,
            AppError::TooManyRequests(_) => 429,
        }
    }

    /// The error kind written in the `error` field of the response body.
    pub fn error_type(&self) -> (k: &'static str)
        ensures
            k@ == kind_of(*self),
    {
        match self {
            AppError::InternalError(_) => "internal_error",
            AppError::NotFound(_) => "not_found",
            AppError::BadRequest(_) => "bad_request",
            AppError::Unauthorized(_) => "unauthorized",
            AppError::Forbidden(_) => "forbidden",
            AppError::Conflict(_) => "conflict",
            AppError::DatabaseError(_) => "database_error",
            AppError::GitError(_) => "git_error",
            AppError::QueueError(_) => "queue_error",
            AppError::ValidationError(_) => "validation_error",
            AppError::TooManyRequests(_) => "rate_limit_exceeded",
        }
    }

    /// The message shown for this error: its label, then its detail.
    pub fn message(&self) -> (m: String)
        ensures
            m@ == label_of(*self) + error_detail(*self),
    {
        match self {
            AppError::InternalError(d) => join2("Internal error: ", d.as_str()),
            AppError::NotFound(d) => join2("Not found: ", d.as_str()),
            AppError::BadRequest(d) => join2("Bad request: ", d.as_str()),
            AppError::Unauthorized(d) => join2("Unauthorized: ", d.as_str()),
            AppError::Forbidden(d) => join2("Forbidden: ", d.as_str()),
            AppError::Conflict(d) => join2("Conflict: ", d.as_str()),
            AppError::DatabaseError(d) => join2("Database error: ", d.as_str()),
            AppError::GitError(d) => join2("Git error: ", d.as_str()),
            AppError::QueueError(d) => join2("Queue error: ", d.as_str()),
            AppError::ValidationError(d) => join2("Validation error: ", d.as_str()),
            AppError::TooManyRequests(d) => join2("Too many requests: ", d.as_str()),
        }
    }
}

} // verus!
