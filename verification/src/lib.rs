//! A staged execution pipeline that offloads a keyed block-cipher transform
//! to a hardware accelerator: select a compute-capable device, stage bytes
//! between the host-visible and device-local memory domains with explicit
//! barriers, inject the key through a fixed-layout parameter block, and
//! replay a pre-recorded command sequence once per chunk of the payload.
//!
//! The cipher's round function itself is an opaque, externally supplied
//! kernel artifact; this library verifies everything around it: device
//! selection, the parameter-block wire layout, the recorded command order,
//! the memory-region staging, and the chunked streaming protocol.

use vstd::prelude::*;

pub mod cipher_type;
pub mod commands;
pub mod key_manager;
pub mod params;
pub mod regions;
pub mod selector;
pub mod stream;
pub mod worker;

verus! {

/// Every failure the pipeline can surface. None of these are retried
/// internally; each aborts the in-progress job and is handed to the caller.
#[derive(Debug, Clone, Copy, PartialEq, Eq, Structural)]
pub enum CipherError {
    /// No enumerated device offers a queue class capable of compute dispatch.
    NoSuitableDevice,
    /// The device has no memory type satisfying the requested domain.
    AllocationFailure,
    /// The kernel artifact is missing or incompatible.
    KernelLoadFailure,
    /// The supplied key's length differs from the variant's declared key size.
    KeyLengthMismatch,
    /// The variant identifier names no registered cipher.
    UnknownCipherVariant,
    /// The recorded command sequence could not be submitted to the queue.
    SubmissionFailure,
    /// A replay did not complete before its timeout elapsed.
    ExecutionTimeout,
    /// The device reported an error while executing a replay.
    ExecutionFailure,
}

} // verus!
