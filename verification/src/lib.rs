//! rose
//! Emulator library: a small stack-based 32-bit soft CPU and the
//! memory-bus composition layer it executes against.

pub mod bus;
pub mod cpu;
pub mod errors;
pub mod memorybus;
pub mod null;
pub mod platform;
pub mod ram;
pub mod sio;
pub mod zpu;
