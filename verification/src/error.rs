use vstd::prelude::*;

verus! {

/// Everything that can go wrong while talking to the printer.
///
/// Transport faults are reported by the caller that performs the I/O;
/// protocol faults come from the verified session logic itself.
#[derive(Debug, Clone, Copy, PartialEq, Eq, Structural)]
pub enum LprError {
    /// The transport could not be established.
    ConnectError,
    /// A blocking read exceeded the configured bound.
    Timeout,
    /// Any other transport read or write fault.
    IoError,
    /// The server answered a frame with a non-zero acknowledgment byte,
    /// carried here for diagnostics.
    ProtocolAckError(u8),
    /// The two-byte status request was not fully written in one call.
    IncompleteWrite,
}

impl LprError {
    /// A short description of the error, for user-facing reporting.
    pub fn message(&self) -> (r: &'static str)
        ensures
            r@ == message_seq(*self),
    {
        match self {
            LprError::ConnectError => "cannot establish the transport",
            LprError::Timeout => "a read exceeded the configured bound",
            LprError::IoError => "transport read or write fault",
            LprError::ProtocolAckError(_) => "server returned a non-zero acknowledgment byte",
            LprError::IncompleteWrite => "status request not fully written in one call",
        }
    }
}

/// The description `message` returns for each error.
pub open spec fn message_seq(e: LprError) -> Seq<char> {
    match e {
        LprError::ConnectError => "cannot establish the transport"@,
        LprError::Timeout => "a read exceeded the configured bound"@,
        LprError::IoError => "transport read or write fault"@,
        LprError::ProtocolAckError(_) => "server returned a non-zero acknowledgment byte"@,
        LprError::IncompleteWrite => "status request not fully written in one call"@,
    }
}

} // verus!
