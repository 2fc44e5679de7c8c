//! What a blocking caller does with an operation that may complete later.
//!
//! A read or a write is submitted to the channel and reports at once: the
//! bytes transferred, "still pending", or a failure. A pending operation is
//! waited for and then reports the bytes transferred or a failure. The
//! functions here take such reports as plain values and say what comes
//! next; the caller submits and waits.

use crate::error::ProtocolError;
use vstd::prelude::*;

verus! {

/// The Win32 error code of an overlapped operation that has not finished.
pub const ERROR_IO_PENDING: u32 = 997;

/// The status code under which a submission reports "still pending".
pub const IO_PENDING_STATUS: i32 = -2147023899;

/// The `HRESULT` that stands for a Win32 error code: zero and codes with the
/// top bit set keep their 32 bits; any other code keeps its low 16 bits
/// under the severity bit and the Win32 facility, `0x8007_0000`.
pub open spec fn hresult_of_win32(error: u32) -> i32 {
    if error == 0 {
        0i32
    } else if error >= 0x8000_0000 {
        (error - 0x1_0000_0000) as i32
    } else {
        (error % 0x1_0000 + 0x8007_0000 - 0x1_0000_0000) as i32
    }
}

/// `windows_core::HRESULT::from_win32`, with the number inside the result
/// taken out. The contract restates the three cases of that function:
/// a code that is not positive as a signed number is returned bit for bit,
/// any other has its low 16 bits or-ed with `0x8007_0000`.
#[verifier::external_body]
fn hresult_from_win32(error: u32) -> (r: i32)
    ensures
        r == hresult_of_win32(error),
{
    windows_core::HRESULT::from_win32(error).0
}

/// The status code under which a submission reports "still pending".
pub fn pending_status() -> (r: i32)
    ensures
        r == IO_PENDING_STATUS,
        r == hresult_of_win32(ERROR_IO_PENDING),
{
    hresult_from_win32(ERROR_IO_PENDING)
}

/// What the caller of a transfer does next.
#[derive(Clone, Copy, Debug, PartialEq, Eq, Structural)]
pub enum TransferStep {
    /// The operation is complete; the number of bytes transferred.
    Done(u32),
    /// The operation is pending: block until it finishes, then take its result.
    Wait,
    /// The operation failed; nothing is retried.
    Failed(ProtocolError),
}

/// The step after a submission that reported `outcome`: the bytes
/// transferred, or a status code.
pub open spec fn step_after_submit(outcome: Result<u32, i32>) -> TransferStep {
    match outcome {
        Ok(transferred) => TransferStep::Done(transferred),
        Err(code) => if code == IO_PENDING_STATUS {
            TransferStep::Wait
        } else {
            TransferStep::Failed(ProtocolError::TransportFailure { code })
        },
    }
}

/// The result of a transfer whose wait reported `outcome`.
pub open spec fn result_after_wait(outcome: Result<u32, i32>) -> Result<u32, ProtocolError> {
    match outcome {
        Ok(transferred) => Ok(transferred),
        Err(code) => Err(ProtocolError::TransportFailure { code }),
    }
}

/// Says what follows a submission. Immediate completion ends the transfer
/// with its byte count, "pending" asks for the wait, and any other status
/// is a transport failure that carries the status code.
pub fn after_submit(outcome: Result<u32, i32>) -> (r: TransferStep)
    ensures
        r == step_after_submit(outcome),
{
    match outcome {
        Ok(transferred) => TransferStep::Done(transferred),
        Err(code) => {
            if code == pending_status() {
                TransferStep::Wait
            } else {
                TransferStep::Failed(ProtocolError::TransportFailure { code })
            }
        },
    }
}

/// Says how a transfer ends once its wait has returned: with the byte count
/// retrieved, or with a transport failure that carries the status code.
pub fn after_wait(outcome: Result<u32, i32>) -> (r: Result<u32, ProtocolError>)
    ensures
        r == result_after_wait(outcome),
{
    match outcome {
        Ok(transferred) => Ok(transferred),
        Err(code) => Err(ProtocolError::TransportFailure { code }),
    }
}

/// Where the one operation of a direction stands.
#[derive(Clone, Copy, Debug, PartialEq, Eq, Structural)]
pub enum OperationPhase {
    /// No operation is in flight; the context is free.
    Idle,
    /// An operation has been claimed and is being submitted.
    Submitting,
    /// The operation was submitted and has not finished.
    Pending,
}

/// The state of one direction of a channel, read or write. At most one
/// operation is in flight on it: a new one starts only from `Idle`, and the
/// context returns to `Idle` only when the operation has completed or
/// failed, at once or after the wait.
pub struct OperationContext {
    phase: OperationPhase,
}

impl View for OperationContext {
    type V = OperationPhase;

    closed spec fn view(&self) -> OperationPhase {
        self.phase
    }
}

impl OperationContext {
    /// A context with no operation in flight.
    pub fn new() -> (r: Self)
        ensures
            r@ == OperationPhase::Idle,
    {
        OperationContext { phase: OperationPhase::Idle }
    }

    /// Where the operation of this direction stands.
    pub fn phase(&self) -> (r: OperationPhase)
        ensures
            r == self@,
    {
        self.phase
    }

    /// Whether a new operation may start.
    pub fn is_idle(&self) -> (r: bool)
        ensures
            r == (self@ == OperationPhase::Idle),
    {
        match self.phase {
            OperationPhase::Idle => true,
            _ => false,
        }
    }

    /// Claims the context for one operation, which the caller now submits.
    pub fn begin(&mut self)
        requires
            old(self)@ == OperationPhase::Idle,
        ensures
            final(self)@ == OperationPhase::Submitting,
    {
        self.phase = OperationPhase::Submitting;
    }

    /// Takes what the submission reported. The context is free again unless
    /// the operation is pending.
    pub fn submitted(&mut self, outcome: Result<u32, i32>) -> (r: TransferStep)
        requires
            old(self)@ == OperationPhase::Submitting,
        ensures
            r == step_after_submit(outcome),
            final(self)@ == if r == TransferStep::Wait {
                OperationPhase::Pending
            } else {
                OperationPhase::Idle
            },
    {
        let step = after_submit(outcome);
        match step {
            TransferStep::Wait => {
                self.phase = OperationPhase::Pending;
            },
            _ => {
                self.phase = OperationPhase::Idle;
            },
        }
        step
    }

    /// Takes what the wait reported, and frees the context.
    pub fn completed(&mut self, outcome: Result<u32, i32>) -> (r: Result<u32, ProtocolError>)
        requires
            old(self)@ == OperationPhase::Pending,
        ensures
            r == result_after_wait(outcome),
            final(self)@ == OperationPhase::Idle,
    {
        self.phase = OperationPhase::Idle;
        after_wait(outcome)
    }
}

} // verus!
