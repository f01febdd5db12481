//! Errors of transfers.
use vstd::prelude::*;
use crate::text::{decimal, push_decimal, push_str};

verus! {

/// The failures of a transfer. Errors that come from the HTTP client, the file
/// system, JSON or URL parsing are carried as their message.
#[derive(Clone, Debug, PartialEq, Eq)]
pub enum TransferError {
    Io(String),
    Network(String),
    Http(String),
    ManagerShutdown,
    Protocol { protocol: String, message: String },
    Serialization(String),
    URL(String),
    Other(String),
    Timeout,
    ServerError { status: u16, message: String },
    RetryLimitExceeded,
}

/// The value of an error: its variant, with the texts as sequences.
pub enum TransferFault {
    Io(Seq<char>),
    Network(Seq<char>),
    Http(Seq<char>),
    ManagerShutdown,
    Protocol { protocol: Seq<char>, message: Seq<char> },
    Serialization(Seq<char>),
    URL(Seq<char>),
    Other(Seq<char>),
    Timeout,
    ServerError { status: u16, message: Seq<char> },
    RetryLimitExceeded,
}

impl View for TransferError {
    type V = TransferFault;

    open spec fn view(&self) -> TransferFault {
        match self {
            TransferError::Io(m) => TransferFault::Io(m@),
            TransferError::Network(m) => TransferFault::Network(m@),
            TransferError::Http(m) => TransferFault::Http(m@),
            TransferError::ManagerShutdown => TransferFault::ManagerShutdown,
            TransferError::Protocol { protocol, message } => TransferFault::Protocol {
                protocol: protocol@,
                message: message@,
            },
            TransferError::Serialization(m) => TransferFault::Serialization(m@),
            TransferError::URL(m) => TransferFault::URL(m@),
            TransferError::Other(m) => TransferFault::Other(m@),
            TransferError::Timeout => TransferFault::Timeout,
            TransferError::ServerError { status, message } => TransferFault::ServerError {
                status: *status,
                message: message@,
            },
            TransferError::RetryLimitExceeded => TransferFault::RetryLimitExceeded,
        }
    }
}

/// An error that the TUS protocol reports.
pub open spec fn tus_fault(message: Seq<char>) -> TransferFault {
    TransferFault::Protocol { protocol: "TUS"@, message }
}

/// The value of a result that carries a text or a number.
pub open spec fn text_outcome(r: Result<String, TransferError>) -> Result<Seq<char>, TransferFault> {
    match r {
        Ok(s) => Ok(s@),
        Err(e) => Err(e@),
    }
}

pub open spec fn number_outcome(r: Result<u64, TransferError>) -> Result<u64, TransferFault> {
    match r {
        Ok(n) => Ok(n),
        Err(e) => Err(e@),
    }
}

/// The text that the error displays.
pub open spec fn transfer_error_message(e: TransferError) -> Seq<char> {
    match e {
        TransferError::Io(m) => "IO error: "@ + m@,
        TransferError::Network(m) => "Network error: "@ + m@,
        TransferError::Http(m) => "Http error: "@ + m@,
        TransferError::ManagerShutdown => "Manager is shutdown"@,
        TransferError::Protocol { protocol, message } => "Protocol error: "@ + protocol@ + " - "@
            + message@,
        TransferError::Serialization(m) => "Serialization error: "@ + m@,
        TransferError::URL(m) => "URL parse error: "@ + m@,
        TransferError::Other(m) => "Other error: "@ + m@,
        TransferError::Timeout => "Timeout"@,
        TransferError::ServerError { status, message } => "Server error ("@ + decimal(status as nat)
            + "): "@ + message@,
        TransferError::RetryLimitExceeded => "Retry limit exceeded"@,
    }
}

impl TransferError {
    /// An error reported by the named protocol.
    pub fn protocol_specific(protocol: String, message: String) -> (r: TransferError)
        ensures
            r == (TransferError::Protocol { protocol, message }),
    {
        TransferError::Protocol { protocol, message }
    }

    /// An error of the TUS protocol with the given message.
    pub fn tus(message: String) -> (r: TransferError)
        ensures
            r@ == tus_fault(message@),
    {
        let mut p = String::new();
        push_str(&mut p, "TUS");
        TransferError::Protocol { protocol: p, message }
    }

    /// An error answer of the server.
    pub fn server_error(status: u16, message: String) -> (r: TransferError)
        ensures
            r == (TransferError::ServerError { status, message }),
    {
        TransferError::ServerError { status, message }
    }

    /// The error's message, as `to_string` shows it.
    pub fn message(&self) -> (r: String)
        ensures
            r@ == transfer_error_message(*self),
    {
        let mut s = String::new();
        match self {
            TransferError::Io(m) => {
                push_str(&mut s, "IO error: ");
                push_str(&mut s, m.as_str());
            },
            TransferError::Network(m) => {
                push_str(&mut s, "Network error: ");
                push_str(&mut s, m.as_str());
            },
            TransferError::Http(m) => {
                push_str(&mut s, "Http error: ");
                push_str(&mut s, m.as_str());
            },
            TransferError::ManagerShutdown => {
                push_str(&mut s, "Manager is shutdown");
            },
            TransferError::Protocol { protocol, message } => {
                push_str(&mut s, "Protocol error: ");
                push_str(&mut s, protocol.as_str());
                push_str(&mut s, " - ");
                push_str(&mut s, message.as_str());
            },
            TransferError::Serialization(m) => {
                push_str(&mut s, "Serialization error: ");
                push_str(&mut s, m.as_str());
            },
            TransferError::URL(m) => {
                push_str(&mut s, "URL parse error: ");
                push_str(&mut s, m.as_str());
            },
            TransferError::Other(m) => {
                push_str(&mut s, "Other error: ");
                push_str(&mut s, m.as_str());
            },
            TransferError::Timeout => {
                push_str(&mut s, "Timeout");
            },
            TransferError::ServerError { status, message } => {
                push_str(&mut s, "Server error (");
                push_decimal(&mut s, *status as u64);
                push_str(&mut s, "): ");
                push_str(&mut s, message.as_str());
            },
            TransferError::RetryLimitExceeded => {
                push_str(&mut s, "Retry limit exceeded");
            },
        }
        assert(s@ =~= transfer_error_message(*self));
        s
    }
}

} // verus!
