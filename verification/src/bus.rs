//! The minimal bus-device capability: per-cycle tick and one-time init.
//!
//! Every memory-mapped entity (RAM, a peripheral, or a whole bus) carries
//! this on top of its memory accessors. The behaviour of an implementation
//! is modelled on its view: each exec method is pinned to a spec-level
//! transition function of the abstract state `Self::V`.

use vstd::prelude::*;

use crate::errors::MemErr;

verus! {

/// Minimal contract of anything that sits on a bus.
///
/// `tick` forwards one clock cycle with no error channel; `init` performs
/// one-time initialisation and may fail. Both are specified as deterministic
/// transitions of the device's abstract state (its view): `tick_next` and
/// `init_next` give the state after the call, `init_res` its result.
pub trait BusDevice: View + Sized {
    /// Abstract state after one clock tick.
    spec fn tick_next(pre: Self::V) -> Self::V;

    /// Abstract state after initialisation.
    spec fn init_next(pre: Self::V) -> Self::V;

    /// Result of initialisation.
    spec fn init_res(pre: Self::V) -> Result<(), MemErr>;

    /// Do whatever happens in one clock cycle.
    fn tick(&mut self)
        ensures
            final(self)@ == Self::tick_next(old(self)@),
    ;

    /// Initialize the device once, before execution starts.
    fn init(&mut self) -> (r: Result<(), MemErr>)
        ensures
            final(self)@ == Self::init_next(old(self)@),
            r == Self::init_res(old(self)@),
    ;
}

} // verus!
