//! The test-scripting side of the fake kernel: expected syscalls, the
//! append-only syscall log, and the harness-fatal conditions.
//!
//! Expected syscalls are consumed in FIFO order.  A call that does not match
//! the front expectation — wrong kind, or wrong identifying fields — is a
//! harness-fatal condition naming both the expected and the actual value,
//! never an error code returned to the caller.

use vstd::prelude::*;
use crate::abi::ErrorCode;

verus! {

/// The kinds of syscall the fake kernel handles.
#[derive(Clone, Copy, Debug, PartialEq, Eq, Structural)]
pub enum SyscallKind {
    AllowRo,
    AllowRw,
    Subscribe,
}

/// A scripted expectation for one upcoming syscall: its kind, its
/// identifying fields, and an optional injected error that replaces the
/// call's normal outcome.
#[derive(Clone, Copy, Debug, PartialEq, Eq)]
pub enum ExpectedSyscall {
    AllowRo { driver_number: u32, buffer_number: u32, return_error: Option<ErrorCode> },
    AllowRw { driver_number: u32, buffer_number: u32, return_error: Option<ErrorCode> },
    Subscribe { driver_number: u32, subscribe_number: u32, skip_with_error: Option<ErrorCode> },
}

/// The kind of call an expectation anticipates.
pub open spec fn kind_of(e: ExpectedSyscall) -> SyscallKind {
    match e {
        ExpectedSyscall::AllowRo { .. } => SyscallKind::AllowRo,
        ExpectedSyscall::AllowRw { .. } => SyscallKind::AllowRw,
        ExpectedSyscall::Subscribe { .. } => SyscallKind::Subscribe,
    }
}

/// Reads the kind of call an expectation anticipates.
pub fn expected_kind(e: &ExpectedSyscall) -> (k: SyscallKind)
    ensures
        k == kind_of(*e),
{
    match e {
        ExpectedSyscall::AllowRo { .. } => SyscallKind::AllowRo,
        ExpectedSyscall::AllowRw { .. } => SyscallKind::AllowRw,
        ExpectedSyscall::Subscribe { .. } => SyscallKind::Subscribe,
    }
}

/// One record of the append-only syscall log: every call and its identifying
/// fields, written before expectation matching and never removed.
#[derive(Clone, Copy, Debug, PartialEq, Eq)]
pub enum SyscallLogEntry {
    AllowRo { driver_number: u32, buffer_number: u32, len: usize },
    AllowRw { driver_number: u32, buffer_number: u32, len: usize },
    Subscribe { driver_number: u32, subscribe_number: u32 },
}

/// A harness-fatal condition: the test script or the harness setup is wrong.
/// These name both the expected and the actual value, and are kept apart
/// from the error codes a real kernel can return, so a test-authoring bug
/// can never be mistaken for a kernel error.
#[derive(Clone, Copy, Debug, PartialEq, Eq)]
pub enum FatalError {
    /// A driver number too large for a 32-bit identifier register.
    TooLargeDriverNumber { value: usize },
    /// A buffer number too large for a 32-bit identifier register.
    TooLargeBufferNumber { value: usize },
    /// A subscribe number too large for a 32-bit identifier register.
    TooLargeSubscribeNumber { value: usize },
    /// The front expectation anticipated a different kind of syscall.
    WrongCallKind { expected_kind: SyscallKind, actual_kind: SyscallKind },
    /// The front expectation anticipated a different driver number.
    WrongDriverNumber { expected: u32, actual: u32 },
    /// The front expectation anticipated a different buffer number.
    WrongBufferNumber { expected: u32, actual: u32 },
    /// The front expectation anticipated a different subscribe number.
    WrongSubscribeNumber { expected: u32, actual: u32 },
    /// An Allow call supplied a buffer overlapping an outstanding grant of
    /// the same access mode.
    GrantOverlap { address: usize, len: usize },
}

} // verus!
