//! Settings, options, errors and session record of the TUS upload protocol.
use vstd::prelude::*;
use crate::text::{decimal, push_decimal, push_str};

verus! {

/// Settings of the TUS upload protocol. Durations are in milliseconds.
#[derive(Clone, Debug)]
pub struct TusConfig {
    pub endpoint: String,
    pub chunk_size: usize,
    pub timeout_ms: u64,
    pub max_retries: u8,
    pub retry_delay_ms: u64,
    pub tus_version: String,
    pub use_creation_extension: bool,
    pub headers: Vec<(String, String)>,
}

impl Default for TusConfig {
    /// 5 MiB chunks, a 30 s timeout, 3 retries 1 s apart, protocol 1.0.0 with
    /// the creation extension, no endpoint and no extra headers.
    fn default() -> (r: TusConfig)
        ensures
            r.endpoint@.len() == 0,
            r.chunk_size == 5 * 1024 * 1024,
            r.timeout_ms == 30_000,
            r.max_retries == 3,
            r.retry_delay_ms == 1000,
            r.tus_version@ == "1.0.0"@,
            r.use_creation_extension,
            r.headers@.len() == 0,
    {
        let mut tus_version = String::new();
        push_str(&mut tus_version, "1.0.0");
        TusConfig {
            endpoint: String::new(),
            chunk_size: 5 * 1024 * 1024,
            timeout_ms: 30_000,
            max_retries: 3,
            retry_delay_ms: 1000,
            tus_version,
            use_creation_extension: true,
            headers: Vec::new(),
        }
    }
}

/// Options of one upload.
#[derive(Clone, Debug)]
pub struct TusUploadOptions {
    /// Metadata of the upload, name and value.
    pub metadata: Vec<(String, String)>,
    /// Delete the upload on the server when the transfer is cancelled.
    pub delete_on_termination: bool,
    /// When the upload expires, in seconds.
    pub upload_expires_in: Option<u64>,
}

impl Default for TusUploadOptions {
    fn default() -> (r: TusUploadOptions)
        ensures
            r.metadata@.len() == 0,
            !r.delete_on_termination,
            r.upload_expires_in is None,
    {
        TusUploadOptions { metadata: Vec::new(), delete_on_termination: false, upload_expires_in: None }
    }
}

/// The failures of the TUS upload protocol.
#[derive(Clone, Debug, PartialEq, Eq)]
pub enum TusError {
    ProtocolError(String),
    ServerError { status: u16, message: String },
    UploadIncomplete { expected: u64, actual: u64 },
    InvalidOffset { expected: u64, actual: u64 },
}

/// The text that the error displays.
pub open spec fn tus_error_text(e: TusError) -> Seq<char> {
    match e {
        TusError::ProtocolError(m) => "TUS protocol error: "@ + m@,
        TusError::ServerError { status, message } => "TUS server error ("@ + decimal(status as nat)
            + "): "@ + message@,
        TusError::UploadIncomplete { expected, actual } => "Upload incomplete: expected "@ + decimal(
            expected as nat,
        ) + " bytes, got "@ + decimal(actual as nat),
        TusError::InvalidOffset { expected, actual } => "Invalid offset: expected "@ + decimal(
            expected as nat,
        ) + ", got "@ + decimal(actual as nat),
    }
}

impl TusError {
    /// The error's message, as `to_string` shows it.
    pub fn message(&self) -> (r: String)
        ensures
            r@ == tus_error_text(*self),
    {
        let mut s = String::new();
        match self {
            TusError::ProtocolError(m) => {
                push_str(&mut s, "TUS protocol error: ");
                push_str(&mut s, m.as_str());
            },
            TusError::ServerError { status, message } => {
                push_str(&mut s, "TUS server error (");
                push_decimal(&mut s, *status as u64);
                push_str(&mut s, "): ");
                push_str(&mut s, message.as_str());
            },
            TusError::UploadIncomplete { expected, actual } => {
                push_str(&mut s, "Upload incomplete: expected ");
                push_decimal(&mut s, *expected);
                push_str(&mut s, " bytes, got ");
                push_decimal(&mut s, *actual);
            },
            TusError::InvalidOffset { expected, actual } => {
                push_str(&mut s, "Invalid offset: expected ");
                push_decimal(&mut s, *expected);
                push_str(&mut s, ", got ");
                push_decimal(&mut s, *actual);
            },
        }
        assert(s@ =~= tus_error_text(*self));
        s
    }
}

/// What is known of an upload session on the server.
#[derive(Clone, Debug)]
pub struct TusMetadata {
    pub upload_url: String,
    pub upload_offset: u64,
    /// The size of the file.
    pub upload_length: u64,
    pub metadata: Vec<(String, String)>,
    pub extensions: Vec<String>,
    pub upload_expires: Option<String>,
}

} // verus!
