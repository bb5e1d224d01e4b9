//! The driver capability interface: what the fake kernel asks of a concrete
//! driver under test, and two simple drivers for exercising the harness.
//!
//! A driver's allow handler receives the freshly granted buffer and returns
//! a buffer to hand back to the caller — either the same one or, like a real
//! swapping driver, the buffer it was holding from an earlier Allow call —
//! or an error code alongside the buffer to hand back.

use vstd::prelude::*;
use crate::abi::ErrorCode;
use crate::grants::{RoGrant, RwGrant};

verus! {

/// The capability set a concrete driver exposes to the fake kernel.  Any
/// driver — LED, timer, radio — plugs in through this interface.
pub trait SyscallDriver {
    /// Handles a Read-Only Allow: takes the granted buffer and returns the
    /// buffer to hand back to the caller, or an error code with it.
    fn allow_readonly(&mut self, buffer_number: u32, buffer: RoGrant) -> Result<
        RoGrant,
        (RoGrant, ErrorCode),
    >;

    /// Handles a Read-Write Allow.
    fn allow_readwrite(&mut self, buffer_number: u32, buffer: RwGrant) -> Result<
        RwGrant,
        (RwGrant, ErrorCode),
    >;
}

/// A driver that hands every granted buffer straight back, optionally
/// failing each Allow with a configured error code.
pub struct PassthroughDriver {
    pub allow_error: Option<ErrorCode>,
}

impl PassthroughDriver {
    /// A passthrough driver whose Allow calls all succeed.
    pub fn new() -> (d: PassthroughDriver)
        ensures
            d.allow_error is None,
    {
        PassthroughDriver { allow_error: None }
    }

    /// A passthrough driver whose Allow calls all fail with `e`.
    pub fn failing(e: ErrorCode) -> (d: PassthroughDriver)
        ensures
            d.allow_error == Some(e),
    {
        PassthroughDriver { allow_error: Some(e) }
    }
}

impl SyscallDriver for PassthroughDriver {
    fn allow_readonly(&mut self, _buffer_number: u32, buffer: RoGrant) -> Result<
        RoGrant,
        (RoGrant, ErrorCode),
    > {
        match self.allow_error {
            None => Ok(buffer),
            Some(e) => Err((buffer, e)),
        }
    }

    fn allow_readwrite(&mut self, _buffer_number: u32, buffer: RwGrant) -> Result<
        RwGrant,
        (RwGrant, ErrorCode),
    > {
        match self.allow_error {
            None => Ok(buffer),
            Some(e) => Err((buffer, e)),
        }
    }
}

/// A driver that keeps each granted buffer and hands back the one it held
/// before, the way a real swapping driver shares buffers with its caller.
/// It starts out holding empty buffers.
pub struct SwapDriver {
    pub held_ro: RoGrant,
    pub held_rw: RwGrant,
}

impl SwapDriver {
    /// A swap driver holding empty buffers.
    pub fn new() -> (d: SwapDriver)
        ensures
            d.held_ro == (RoGrant { address: 0, len: 0 }),
            d.held_rw == (RwGrant { address: 0, len: 0 }),
    {
        SwapDriver {
            held_ro: RoGrant { address: 0, len: 0 },
            held_rw: RwGrant { address: 0, len: 0 },
        }
    }
}

impl SyscallDriver for SwapDriver {
    fn allow_readonly(&mut self, _buffer_number: u32, buffer: RoGrant) -> Result<
        RoGrant,
        (RoGrant, ErrorCode),
    > {
        let prev = self.held_ro;
        self.held_ro = buffer;
        Ok(prev)
    }

    fn allow_readwrite(&mut self, _buffer_number: u32, buffer: RwGrant) -> Result<
        RwGrant,
        (RwGrant, ErrorCode),
    > {
        let prev = self.held_rw;
        self.held_rw = buffer;
        Ok(prev)
    }
}

} // verus!
