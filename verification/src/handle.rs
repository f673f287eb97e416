//! The transport handle: one open channel to one endpoint.

use vstd::prelude::*;
use crate::error::{Failure, SerialError};

verus! {

/// An open channel to one endpoint, as the library knows it: which endpoint
/// it is and at what speed it was opened. The channel itself is the
/// caller's. A handle has one owner; closing it consumes it, so a closed
/// handle cannot be used.
#[derive(Debug, PartialEq, Eq)]
pub struct TransportHandle {
    identifier: String,
    speed: u32,
}

impl TransportHandle {
    /// The endpoint that the handle is open to.
    pub closed spec fn spec_identifier(&self) -> Seq<char> {
        self.identifier@
    }

    /// The speed that the handle was opened at.
    pub closed spec fn spec_speed(&self) -> u32 {
        self.speed
    }

    /// The endpoint that the handle is open to.
    pub fn identifier(&self) -> (identifier: &str)
        ensures
            identifier@ == self.spec_identifier(),
    {
        self.identifier.as_str()
    }

    /// The speed that the handle was opened at.
    pub fn speed(&self) -> (speed: u32)
        ensures
            speed == self.spec_speed(),
    {
        self.speed
    }

    /// Closes the handle and names the endpoint that is free again. The
    /// handle is consumed: nothing can use it after this.
    pub fn close(self) -> (released: String)
        ensures
            released@ == self.spec_identifier(),
    {
        self.identifier
    }
}

/// The result of opening `identifier` at `speed`, given what the device
/// said: a handle if it opened, and otherwise a failure that names the
/// endpoint and the device's reason, whatever the reason is: not present,
/// held by another owner, not permitted, or a speed that it does not take.
/// Opening is not tried again.
pub fn open_transport(identifier: &str, speed: u32, opened: Result<(), String>) -> (result: Result<
    TransportHandle,
    SerialError,
>)
    ensures
        match opened {
            Ok(_) => result is Ok && result->Ok_0.spec_identifier() == identifier@
                && result->Ok_0.spec_speed() == speed,
            Err(cause) => result is Err && result->Err_0@ == (Failure::OpenPort {
                identifier: identifier@,
                cause: cause@,
            }),
        },
{
    match opened {
        Ok(_) => Ok(TransportHandle { identifier: identifier.to_owned(), speed }),
        Err(cause) => Err(SerialError::OpenPortError(identifier.to_owned(), cause)),
    }
}

} // verus!
