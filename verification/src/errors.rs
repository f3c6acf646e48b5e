//! The gateway's error taxonomy: one kind per failure class, each with a
//! fixed HTTP status.

use vstd::prelude::*;

verus! {

/// The class of a gateway failure.
#[derive(Debug, Clone, Copy, PartialEq, Eq, Structural)]
pub enum ErrorKind {
    BadRequest,
    Unauthorized,
    Forbidden,
    NotFound,
    Conflict,
    RateLimited,
    ServiceUnavailable,
    DeserializeError,
    EncryptionError,
    InvalidArgument,
    IoErr,
    ScriptError,
    Unknown,
}

/// The HTTP status that renders an error kind.
pub open spec fn spec_status_of(kind: ErrorKind) -> u16 {
    match kind {
        ErrorKind::BadRequest => 400,
        ErrorKind::Unauthorized => 401,
        ErrorKind::Forbidden => 403,
        ErrorKind::NotFound => 404,
        ErrorKind::Conflict => 409,
        ErrorKind::RateLimited => 429,
        ErrorKind::ServiceUnavailable => 503,
        ErrorKind::DeserializeError => 422,
        ErrorKind::EncryptionError => 500,
        ErrorKind::InvalidArgument => 400,
        ErrorKind::IoErr => 500,
        ErrorKind::ScriptError => 500,
        ErrorKind::Unknown => 500,
    }
}

/// An error as the gateway surfaces it: a kind and a description.
#[derive(Debug, Clone)]
pub struct PicaError {
    pub kind: ErrorKind,
    pub message: String,
}

impl PicaError {
    pub fn new(kind: ErrorKind, message: &str) -> (r: PicaError)
        ensures
            r.kind == kind,
            r.message@ == message@,
    {
        PicaError { kind, message: message.to_owned() }
    }

    pub fn bad_request(message: &str) -> (r: PicaError)
        ensures
            r.kind == ErrorKind::BadRequest,
            r.message@ == message@,
    {
        PicaError::new(ErrorKind::BadRequest, message)
    }

    pub fn unauthorized(message: &str) -> (r: PicaError)
        ensures
            r.kind == ErrorKind::Unauthorized,
            r.message@ == message@,
    {
        PicaError::new(ErrorKind::Unauthorized, message)
    }

    pub fn not_found(message: &str) -> (r: PicaError)
        ensures
            r.kind == ErrorKind::NotFound,
            r.message@ == message@,
    {
        PicaError::new(ErrorKind::NotFound, message)
    }

    pub fn rate_limited(message: &str) -> (r: PicaError)
        ensures
            r.kind == ErrorKind::RateLimited,
            r.message@ == message@,
    {
        PicaError::new(ErrorKind::RateLimited, message)
    }

    pub fn service_unavailable(message: &str) -> (r: PicaError)
        ensures
            r.kind == ErrorKind::ServiceUnavailable,
            r.message@ == message@,
    {
        PicaError::new(ErrorKind::ServiceUnavailable, message)
    }

    pub fn invalid_argument(message: &str) -> (r: PicaError)
        ensures
            r.kind == ErrorKind::InvalidArgument,
            r.message@ == message@,
    {
        PicaError::new(ErrorKind::InvalidArgument, message)
    }

    pub fn deserialize_error(message: &str) -> (r: PicaError)
        ensures
            r.kind == ErrorKind::DeserializeError,
            r.message@ == message@,
    {
        PicaError::new(ErrorKind::DeserializeError, message)
    }

    pub fn encryption_error(message: &str) -> (r: PicaError)
        ensures
            r.kind == ErrorKind::EncryptionError,
            r.message@ == message@,
    {
        PicaError::new(ErrorKind::EncryptionError, message)
    }

    pub fn script_error(message: &str) -> (r: PicaError)
        ensures
            r.kind == ErrorKind::ScriptError,
            r.message@ == message@,
    {
        PicaError::new(ErrorKind::ScriptError, message)
    }

    pub fn io_err(message: &str) -> (r: PicaError)
        ensures
            r.kind == ErrorKind::IoErr,
            r.message@ == message@,
    {
        PicaError::new(ErrorKind::IoErr, message)
    }

    /// The HTTP status this error renders as.
    pub fn status_code(&self) -> (r: u16)
        ensures
            r == spec_status_of(self.kind),
    {
        match self.kind {
            ErrorKind::BadRequest => 400,
            ErrorKind::Unauthorized => 401,
            ErrorKind::Forbidden => 403,
            ErrorKind::NotFound => 404,
            ErrorKind::Conflict => 409,
            ErrorKind::RateLimited => 429,
            ErrorKind::ServiceUnavailable => 503,
            ErrorKind::DeserializeError => 422,
            ErrorKind::EncryptionError => 500,
            ErrorKind::InvalidArgument => 400,
            ErrorKind::IoErr => 500,
            ErrorKind::ScriptError => 500,
            ErrorKind::Unknown => 500,
        }
    }

    /// The error's description, for rendering.
    pub fn message_text(&self) -> (r: &str)
        ensures
            r@ == self.message@,
    {
        self.message.as_str()
    }
}

} // verus!
