//! Error frames sent to a peer, and the error body of the HTTP side.
use vstd::prelude::*;

use crate::clock::unix_timestamp;

verus! {

/// Kind of a routing or protocol error reported to the originating peer.
#[derive(Debug, Clone, Copy, PartialEq, Eq, Structural)]
pub enum ErrorCode {
    InvalidPayload,
    SenderAlreadyConnected,
    SenderDisconnected,
    RecipientDisconnected,
    ActiveConnectionNotFound,
    RecipientMismatch,
    UnsupportedWsMessageType,
    UnsupportedWsMessageTextType,
}

/// An error frame: `success` is false, `code` says what went wrong.
#[derive(Debug, Clone, PartialEq, Eq)]
pub struct ErrorMessage {
    pub success: bool,
    pub code: ErrorCode,
    pub message: String,
    pub details: Option<String>,
    pub timestamp: i64,
}

impl ErrorMessage {
    /// An error of kind `code` with message `msg`, stamped with the current time.
    pub fn new(code: ErrorCode, msg: &str) -> (r: Self)
        ensures
            !r.success,
            r.code == code,
            r.message@ == msg@,
            r.details is None,
    {
        ErrorMessage {
            success: false,
            code,
            message: msg.to_owned(),
            details: None,
            timestamp: unix_timestamp(),
        }
    }

    /// The same error carrying `details`.
    pub fn with_details(self, details: &str) -> (r: Self)
        ensures
            r.success == self.success,
            r.code == self.code,
            r.message == self.message,
            r.timestamp == self.timestamp,
            r.details matches Some(d) && d@ == details@,
    {
        ErrorMessage { details: Some(details.to_owned()), ..self }
    }
}

/// The error part of an HTTP error body.
#[derive(Debug, Clone, PartialEq, Eq)]
pub struct Errors {
    pub message: String,
    pub code: u16,
    pub timestamp: i64,
    pub details: Option<String>,
}

/// An HTTP error body: `success` is false and `errors` says why.
#[derive(Debug, Clone, PartialEq, Eq)]
pub struct AppError {
    pub success: bool,
    pub errors: Errors,
}

impl Default for AppError {
    /// A 500 error with an empty message, stamped with the current time.
    fn default() -> (r: Self)
        ensures
            !r.success,
            r.errors.code == 500,
            r.errors.message@ == Seq::<char>::empty(),
            r.errors.details is None,
    {
        AppError {
            success: false,
            errors: Errors {
                message: String::new(),
                code: 500,
                timestamp: unix_timestamp(),
                details: None,
            },
        }
    }
}

impl AppError {
    /// The same error with message `message`.
    pub fn with_message(self, message: String) -> (r: Self)
        ensures
            r.success == self.success,
            r.errors.message == message,
            r.errors.code == self.errors.code,
            r.errors.timestamp == self.errors.timestamp,
            r.errors.details == self.errors.details,
    {
        AppError { errors: Errors { message, ..self.errors }, ..self }
    }

    /// The same error with HTTP status `code`.
    pub fn with_code(self, code: u16) -> (r: Self)
        ensures
            r.success == self.success,
            r.errors.message == self.errors.message,
            r.errors.code == code,
            r.errors.timestamp == self.errors.timestamp,
            r.errors.details == self.errors.details,
    {
        AppError { errors: Errors { code, ..self.errors }, ..self }
    }

    /// The same error carrying `details`.
    pub fn with_details(self, details: String) -> (r: Self)
        ensures
            r.success == self.success,
            r.errors.message == self.errors.message,
            r.errors.code == self.errors.code,
            r.errors.timestamp == self.errors.timestamp,
            r.errors.details == Some(details),
    {
        AppError { errors: Errors { details: Some(details), ..self.errors }, ..self }
    }
}

} // verus!
