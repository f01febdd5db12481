//! Errors of the TUS client and upload manager.
use vstd::prelude::*;
use crate::text::{decimal, push_decimal, push_str};

verus! {

/// The failures of a TUS upload. Errors that come from the HTTP client or the
/// file system are carried as their message.
#[derive(Clone, Debug, PartialEq, Eq)]
pub enum TusError {
    HttpError(String),
    IoError(String),
    ServerError { status_code: u16, message: String },
    UploadIncomplete { expected: u64, actual: u64 },
    ParamError(String),
    InvalidHeaderValue(String),
    InvalidHeaderName(String),
    Cancelled,
    InternalError(String),
}

/// The value of an error: its variant, with the texts as sequences.
pub enum TusFault {
    HttpError(Seq<char>),
    IoError(Seq<char>),
    ServerError { status_code: u16, message: Seq<char> },
    UploadIncomplete { expected: u64, actual: u64 },
    ParamError(Seq<char>),
    InvalidHeaderValue(Seq<char>),
    InvalidHeaderName(Seq<char>),
    Cancelled,
    InternalError(Seq<char>),
}

impl View for TusError {
    type V = TusFault;

    open spec fn view(&self) -> TusFault {
        match self {
            TusError::HttpError(m) => TusFault::HttpError(m@),
            TusError::IoError(m) => TusFault::IoError(m@),
            TusError::ServerError { status_code, message } => TusFault::ServerError {
                status_code: *status_code,
                message: message@,
            },
            TusError::UploadIncomplete { expected, actual } => TusFault::UploadIncomplete {
                expected: *expected,
                actual: *actual,
            },
            TusError::ParamError(m) => TusFault::ParamError(m@),
            TusError::InvalidHeaderValue(m) => TusFault::InvalidHeaderValue(m@),
            TusError::InvalidHeaderName(m) => TusFault::InvalidHeaderName(m@),
            TusError::Cancelled => TusFault::Cancelled,
            TusError::InternalError(m) => TusFault::InternalError(m@),
        }
    }
}

/// The text that the error displays.
pub open spec fn tus_error_message(e: TusError) -> Seq<char> {
    match e {
        TusError::HttpError(m) => "HTTP Request error: "@ + m@,
        TusError::IoError(m) => "IO error: "@ + m@,
        TusError::ServerError { status_code, message } => "Server error: status code "@ + decimal(
            status_code as nat,
        ) + ", message: "@ + message@,
        TusError::UploadIncomplete { expected, actual } => "Upload incomplete expected: "@
            + decimal(expected as nat) + ", actual: "@ + decimal(actual as nat),
        TusError::ParamError(m) => "Param error: "@ + m@,
        TusError::InvalidHeaderValue(m) => "Invalid header value: "@ + m@,
        TusError::InvalidHeaderName(m) => "Invalid header name: "@ + m@,
        TusError::Cancelled => "Upload was cancelled"@,
        TusError::InternalError(m) => "Internal error: "@ + m@,
    }
}

impl TusError {
    pub fn server_error(status_code: u16, message: String) -> (r: TusError)
        ensures
            r == (TusError::ServerError { status_code, message }),
    {
        TusError::ServerError { status_code, message }
    }

    pub fn internal_error(message: String) -> (r: TusError)
        ensures
            r == TusError::InternalError(message),
    {
        TusError::InternalError(message)
    }

    /// The error's message, as `to_string` shows it.
    pub fn message(&self) -> (r: String)
        ensures
            r@ == tus_error_message(*self),
    {
        let mut s = String::new();
        match self {
            TusError::HttpError(m) => {
                push_str(&mut s, "HTTP Request error: ");
                push_str(&mut s, m.as_str());
            },
            TusError::IoError(m) => {
                push_str(&mut s, "IO error: ");
                push_str(&mut s, m.as_str());
            },
            TusError::ServerError { status_code, message } => {
                push_str(&mut s, "Server error: status code ");
                push_decimal(&mut s, *status_code as u64);
                push_str(&mut s, ", message: ");
                push_str(&mut s, message.as_str());
            },
            TusError::UploadIncomplete { expected, actual } => {
                push_str(&mut s, "Upload incomplete expected: ");
                push_decimal(&mut s, *expected);
                push_str(&mut s, ", actual: ");
                push_decimal(&mut s, *actual);
            },
            TusError::ParamError(m) => {
                push_str(&mut s, "Param error: ");
                push_str(&mut s, m.as_str());
            },
            TusError::InvalidHeaderValue(m) => {
                push_str(&mut s, "Invalid header value: ");
                push_str(&mut s, m.as_str());
            },
            TusError::InvalidHeaderName(m) => {
                push_str(&mut s, "Invalid header name: ");
                push_str(&mut s, m.as_str());
            },
            TusError::Cancelled => {
                push_str(&mut s, "Upload was cancelled");
            },
            TusError::InternalError(m) => {
                push_str(&mut s, "Internal error: ");
                push_str(&mut s, m.as_str());
            },
        }
        assert(s@ =~= tus_error_message(*self));
        s
    }
}

} // verus!
