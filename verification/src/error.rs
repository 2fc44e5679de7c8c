//! The errors of the protocol layer.

use vstd::prelude::*;

verus! {

/// Why a read or a write did not yield a message.
#[derive(Clone, Copy, Debug, PartialEq, Eq, Structural)]
pub enum ProtocolError {
    /// A read returned fewer bytes than a header has; `length` is what it returned.
    MalformedFragment { length: usize },
    /// The flags of a header are none of the four defined combinations.
    UnsupportedFlags { flags: u32 },
    /// The terminal fragment declared another length than was received.
    LengthMismatch { declared: u32, received: usize },
    /// The transport reported a status that is neither success nor "pending".
    TransportFailure { code: i32 },
}

/// The status code of a failure that has no code of its own: `E_FAIL`.
pub const UNSPECIFIED_FAILURE: i32 = -2147467259;

impl ProtocolError {
    /// The status code that stands for this error.
    pub open spec fn status(self) -> i32 {
        match self {
            ProtocolError::TransportFailure { code } => code,
            _ => UNSPECIFIED_FAILURE,
        }
    }

    /// The status code that stands for this error: the code that the
    /// transport reported, and the unspecified failure for a fragment or a
    /// message that is not as it should be.
    pub fn code(&self) -> (r: i32)
        ensures
            r == self.status(),
    {
        match self {
            ProtocolError::TransportFailure { code } => *code,
            _ => UNSPECIFIED_FAILURE,
        }
    }
}

} // verus!
