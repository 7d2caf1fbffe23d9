//! Common CPU-side definitions: execution states, the CPU capability, and
//! big-endian byte packing helpers shared by the engine and the devices.

use vstd::prelude::*;

use crate::errors::Error;

verus! {

/// Execution state of a CPU.
///
/// `Stopped` is the initial state and the terminal state on a decode
/// fault; `Running` is the only state in which `step()` proceeds;
/// `Sleeping` is entered by the breakpoint opcode; `Waiting` is reserved
/// for collaborators that drive blocking I/O and is never produced by the
/// engine itself.
#[derive(Clone, Copy, PartialEq, Eq, Structural, Debug)]
pub enum CPUState {
    Running,
    Waiting,
    Sleeping,
    Stopped,
}

/// The CPU capability: one opcode per `step()` call, a state query, and a
/// start transition. Behaviour is pinned to spec-level transition
/// functions of the implementation's abstract state.
pub trait CPU: View + Sized {
    /// Abstract state after one step.
    spec fn step_next(pre: Self::V) -> Self::V;

    /// Result of one step.
    spec fn step_res(pre: Self::V) -> Result<(), Error>;

    /// The execution-state tag reported by `state()`.
    spec fn state_spec(pre: Self::V) -> CPUState;

    /// Abstract state after `start()`.
    spec fn start_next(pre: Self::V) -> Self::V;

    /// Result of `start()`.
    spec fn start_res(pre: Self::V) -> Result<(), Error>;

    /// Run a single instruction.
    fn step(&mut self) -> (r: Result<(), Error>)
        ensures
            final(self)@ == Self::step_next(old(self)@),
            r == Self::step_res(old(self)@),
    ;

    /// Get the current execution state.
    fn state(&self) -> (r: CPUState)
        ensures
            r == Self::state_spec(self@),
    ;

    /// Start execution.
    fn start(&mut self) -> (r: Result<(), Error>)
        ensures
            final(self)@ == Self::start_next(old(self)@),
            r == Self::start_res(old(self)@),
    ;
}

/// Most significant byte of a big-endian 32-bit word.
pub open spec fn be0(v: u32) -> u8 {
    ((v >> 24) & 0xFF) as u8
}

/// Second byte of a big-endian 32-bit word.
pub open spec fn be1(v: u32) -> u8 {
    ((v >> 16) & 0xFF) as u8
}

/// Third byte of a big-endian 32-bit word.
pub open spec fn be2(v: u32) -> u8 {
    ((v >> 8) & 0xFF) as u8
}

/// Least significant byte of a big-endian 32-bit word.
pub open spec fn be3(v: u32) -> u8 {
    (v & 0xFF) as u8
}

/// The 32-bit word formed by four bytes in big-endian order.
pub open spec fn comb32_of(b0: u8, b1: u8, b2: u8, b3: u8) -> u32 {
    ((b0 as u32) * 0x1000000 + (b1 as u32) * 0x10000 + (b2 as u32) * 0x100 + (b3 as u32)) as u32
}

/// High byte of a 16-bit half-word.
pub open spec fn hi8(v: u16) -> u8 {
    ((v >> 8) & 0xFF) as u8
}

/// Low byte of a 16-bit half-word.
pub open spec fn lo8(v: u16) -> u8 {
    (v & 0xFF) as u8
}

/// The 16-bit half-word formed by two bytes in big-endian order.
pub open spec fn comb16_of(b0: u8, b1: u8) -> u16 {
    ((b0 as u16) * 0x100 + (b1 as u16)) as u16
}

/// Splitting a word into big-endian bytes and recombining them is the
/// identity.
pub proof fn lemma_comb32_of_bytes(v: u32)
    ensures
        comb32_of(be0(v), be1(v), be2(v), be3(v)) == v,
{
    assert(comb32_of(be0(v), be1(v), be2(v), be3(v)) == v) by (bit_vector);
}

/// Recombining four bytes big-endian and splitting again yields the same
/// bytes.
pub proof fn lemma_bytes_of_comb32(b0: u8, b1: u8, b2: u8, b3: u8)
    ensures
        be0(comb32_of(b0, b1, b2, b3)) == b0,
        be1(comb32_of(b0, b1, b2, b3)) == b1,
        be2(comb32_of(b0, b1, b2, b3)) == b2,
        be3(comb32_of(b0, b1, b2, b3)) == b3,
{
    assert(be0(comb32_of(b0, b1, b2, b3)) == b0) by (bit_vector);
    assert(be1(comb32_of(b0, b1, b2, b3)) == b1) by (bit_vector);
    assert(be2(comb32_of(b0, b1, b2, b3)) == b2) by (bit_vector);
    assert(be3(comb32_of(b0, b1, b2, b3)) == b3) by (bit_vector);
}

/// Splitting a half-word into big-endian bytes and recombining them is the
/// identity.
pub proof fn lemma_comb16_of_bytes(v: u16)
    ensures
        comb16_of(hi8(v), lo8(v)) == v,
{
    assert(comb16_of(hi8(v), lo8(v)) == v) by (bit_vector);
}

/// Disassemble a 32-bit word into its big-endian bytes.
pub fn dis32_be(val: u32) -> (r: [u8; 4])
    ensures
        r@.len() == 4,
        r@[0] == be0(val),
        r@[1] == be1(val),
        r@[2] == be2(val),
        r@[3] == be3(val),
{
    [
        ((val >> 24) & 0xFF) as u8,
        ((val >> 16) & 0xFF) as u8,
        ((val >> 8) & 0xFF) as u8,
        (val & 0xFF) as u8,
    ]
}

/// Disassemble a 16-bit half-word into its big-endian bytes.
pub fn dis16_be(val: u16) -> (r: [u8; 2])
    ensures
        r@.len() == 2,
        r@[0] == hi8(val),
        r@[1] == lo8(val),
{
    [((val >> 8) & 0xFF) as u8, (val & 0xFF) as u8]
}

/// Combine four bytes into a big-endian 32-bit word.
pub fn comb32_be(vals: [u8; 4]) -> (r: u32)
    ensures
        r == comb32_of(vals@[0], vals@[1], vals@[2], vals@[3]),
{
    (vals[0] as u32) * 0x1000000 + (vals[1] as u32) * 0x10000 + (vals[2] as u32) * 0x100 + (
    vals[3] as u32)
}

/// Combine two bytes into a big-endian 16-bit half-word.
pub fn comb16_be(vals: [u8; 2]) -> (r: u16)
    ensures
        r == comb16_of(vals@[0], vals@[1]),
{
    (vals[0] as u16) * 0x100 + (vals[1] as u16)
}

} // verus!
