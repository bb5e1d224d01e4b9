//! A software-only fake of an embedded kernel's syscall interface.
//!
//! Driver client code issues low-level syscalls (allow a buffer, subscribe an
//! upcall) against a register-level calling convention.  This crate stands in
//! for the kernel underneath such code during unit tests: it decodes the same
//! calling convention, keeps the kernel-side state (registered drivers,
//! outstanding buffer grants, pending upcalls, an append-only syscall log),
//! matches every call against a scripted queue of expected syscalls, and
//! encodes the return registers exactly as a real kernel would.
//!
//! Protocol errors (`NoDevice`, `NoMem`, `Invalid`, ...) travel back through
//! the same register encoding a real kernel uses.  Conditions that mean the
//! test itself is broken (an oversized identifier, overlapping buffer grants,
//! a call that does not match the scripted expectation) are reported as a
//! distinct [`expectations::FatalError`] value so they can never be mistaken
//! for an ordinary kernel error.

pub mod abi;
pub mod drivers;
pub mod expectations;
pub mod grants;
pub mod kernel;
pub mod syscalls;
pub mod upcalls;
