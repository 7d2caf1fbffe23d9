//! Error taxonomy for the emulator core.
//!
//! Memory-access failures come in two tiers: *soft* kinds mean "this device
//! does not own this address" (or the operation does not apply to it) and are
//! absorbed inside the bus composition layer; every other kind is *fatal* and
//! aborts the aggregate operation, annotated with the originating device's
//! position.

use vstd::prelude::*;

verus! {

/// A memory-access failure reported by a device or by a bus.
///
/// The first seven kinds are the soft ones (see [`is_soft`]); `HardwareFault`
/// is a device-level fatal fault, and the last two are produced by a bus:
/// `DeviceFault` wraps a fatal error with the 1-based position of the device
/// that raised it, and `AllDevicesFaulted` reports that a probing read
/// exhausted every device, naming how many were tried.
#[derive(Debug)]
pub enum MemErr {
    TooSmall { at: usize, min: usize },
    TooBig { at: usize, max: usize },
    NotImplemented,
    NotApplicable { at: usize },
    InvalidAddr { at: usize },
    ReadOnly { at: usize },
    NoData { at: usize },
    HardwareFault { at: usize },
    DeviceFault { pos: usize, cause: Box<MemErr> },
    AllDevicesFaulted { tried: usize },
}

/// The fixed soft set: these kinds mean "not mine" and never fail a bus
/// operation; anything else is fatal.
pub open spec fn is_soft(e: MemErr) -> bool {
    match e {
        MemErr::TooSmall { .. } => true,
        MemErr::TooBig { .. } => true,
        MemErr::NotImplemented => true,
        MemErr::NotApplicable { .. } => true,
        MemErr::InvalidAddr { .. } => true,
        MemErr::ReadOnly { .. } => true,
        MemErr::NoData { .. } => true,
        MemErr::HardwareFault { .. } => false,
        MemErr::DeviceFault { .. } => false,
        MemErr::AllDevicesFaulted { .. } => false,
    }
}

/// The engine operation that was running when a memory fault surfaced,
/// carried as context so a failing step can be diagnosed without a
/// debugger.
#[derive(Clone, Copy, Debug, PartialEq, Eq, Structural)]
pub enum MemOp {
    Fetch,
    Load32,
    Store32,
    Load16,
    Store16,
    LoadByte,
    StoreByte,
    StackPush,
    StackPop,
}

/// CPU-level error returned by `step()` and `start()`.
///
/// `Mem` carries a fatal memory fault through unchanged, together with
/// the engine operation that was running when it surfaced; `Decode`
/// names the opcode that matched no decode case; `DivisionByZero` is
/// what the extended divide and modulo operations return on a zero
/// divisor: the operands are popped, then the step fails without
/// pushing a result.
#[derive(Debug)]
pub enum Error {
    CPUNotRunning,
    Mem { during: MemOp, cause: MemErr },
    Decode { op: u8 },
    DivisionByZero,
}

} // verus!
