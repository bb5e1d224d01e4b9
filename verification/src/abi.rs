//! The register-level calling convention: return-variant tags, error codes
//! and the fixed four-register return vector of a syscall.

use vstd::prelude::*;

verus! {

/// Return-variant tag of a failure carrying two register values.
pub const FAILURE_2_U32: usize = 2;

/// Return-variant tag of a success carrying two register values.
pub const SUCCESS_2_U32: usize = 130;

/// The four register-sized values a syscall hands back.  The first register
/// carries the return-variant tag; the meaning of the rest depends on it.
#[derive(Clone, Copy, Debug, PartialEq, Eq)]
pub struct Registers {
    pub r0: usize,
    pub r1: usize,
    pub r2: usize,
    pub r3: usize,
}

/// Protocol-level error codes a kernel can hand back to the caller.
#[derive(Clone, Copy, Debug, PartialEq, Eq)]
pub enum ErrorCode {
    Fail,
    Busy,
    Already,
    Off,
    Reserve,
    Invalid,
    Size,
    Cancel,
    NoMem,
    NoSupport,
    NoDevice,
}

/// The numeric value of an error code inside a failure return register.
pub open spec fn error_code_value(e: ErrorCode) -> u32 {
    match e {
        ErrorCode::Fail => 1,
        ErrorCode::Busy => 2,
        ErrorCode::Already => 3,
        ErrorCode::Off => 4,
        ErrorCode::Reserve => 5,
        ErrorCode::Invalid => 6,
        ErrorCode::Size => 7,
        ErrorCode::Cancel => 8,
        ErrorCode::NoMem => 9,
        ErrorCode::NoSupport => 10,
        ErrorCode::NoDevice => 11,
    }
}

/// Encodes an error code as the numeric value the calling convention uses.
pub fn error_code_to_u32(e: ErrorCode) -> (n: u32)
    ensures
        n == error_code_value(e),
{
    match e {
        ErrorCode::Fail => 1,
        ErrorCode::Busy => 2,
        ErrorCode::Already => 3,
        ErrorCode::Off => 4,
        ErrorCode::Reserve => 5,
        ErrorCode::Invalid => 6,
        ErrorCode::Size => 7,
        ErrorCode::Cancel => 8,
        ErrorCode::NoMem => 9,
        ErrorCode::NoSupport => 10,
        ErrorCode::NoDevice => 11,
    }
}

/// The registers of a two-value failure return: the failure tag, the error
/// code, and two values echoed back to the caller.
pub open spec fn failure2(e: ErrorCode, r2: usize, r3: usize) -> Registers {
    Registers { r0: FAILURE_2_U32, r1: error_code_value(e) as usize, r2, r3 }
}

/// Builds a two-value failure return.
pub fn make_failure2(e: ErrorCode, r2: usize, r3: usize) -> (r: Registers)
    ensures
        r == failure2(e, r2, r3),
{
    Registers { r0: FAILURE_2_U32, r1: error_code_to_u32(e) as usize, r2, r3 }
}

/// Whether a register value fits the 32-bit range identifiers must fit.
pub open spec fn fits_u32(v: usize) -> bool {
    v <= u32::MAX
}

/// Checks that a register value fits the 32-bit identifier range.
pub fn check_fits_u32(v: usize) -> (r: bool)
    ensures
        r == fits_u32(v),
{
    v <= u32::MAX as usize
}

} // verus!
