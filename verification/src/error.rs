//! The ways in which listing, opening and exchanging can fail.

use vstd::prelude::*;

verus! {

/// A failure, as the caller is told of it. None of them is retried beyond
/// the retry budget of the exchange that met it.
#[derive(Debug, PartialEq, Eq)]
pub enum SerialError {
    /// The system could not be asked for its serial devices.
    ListPortsError(String),
    /// The device named first could not be opened, for the reason named second.
    OpenPortError(String, String),
    /// The request was not written in full.
    WriteError(String),
    /// The last of this many read attempts met an I/O error.
    ReadError(usize, String),
    /// The read attempts were used up and the reply never ended.
    NoResponse,
}

/// A failure as contracts speak of it.
pub enum Failure {
    ListPorts { cause: Seq<char> },
    OpenPort { identifier: Seq<char>, cause: Seq<char> },
    Write { cause: Seq<char> },
    Read { attempts: nat, cause: Seq<char> },
    NoResponse,
}

impl View for SerialError {
    type V = Failure;

    open spec fn view(&self) -> Failure {
        match self {
            SerialError::ListPortsError(cause) => Failure::ListPorts { cause: cause@ },
            SerialError::OpenPortError(identifier, cause) => Failure::OpenPort {
                identifier: identifier@,
                cause: cause@,
            },
            SerialError::WriteError(cause) => Failure::Write { cause: cause@ },
            SerialError::ReadError(attempts, cause) => Failure::Read {
                attempts: *attempts as nat,
                cause: cause@,
            },
            SerialError::NoResponse => Failure::NoResponse,
        }
    }
}

/// An exchange that failed: why, and the text that had arrived by then.
#[derive(Debug, PartialEq, Eq)]
pub struct ExchangeFailure {
    /// Why the exchange gave up.
    pub error: SerialError,
    /// What had been received. It does not end in the terminator.
    pub partial: String,
}

} // verus!
