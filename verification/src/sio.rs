//! Rudimentary serial-port device with the ZPU's UART register layout.
//!
//! The device decodes an 8-byte register window at a base address and
//! keeps two byte queues: everything the CPU writes to the transmit
//! register goes to an output queue that a driver outside the core
//! drains to the real terminal between steps, and the driver feeds
//! input into a receive queue the same way. A read of the receive
//! register consumes the byte it yields, as a hardware receive
//! register does. The one place the queues fall short of a live
//! terminal: a read with nothing pending cannot block, so it yields 0
//! with the data-ready flag clear, and the receive status register
//! reports whether a byte is pending rather than a constant "ready".

use vstd::prelude::*;

use crate::bus::BusDevice;
use crate::errors::MemErr;
use crate::memorybus::{MemoryBusDevice, MemoryBusDevice32be};

verus! {

/// Abstract state of a serial port: its base address, the bytes written
/// by the CPU that the driver has not drained yet (`tx`, oldest first),
/// and the bytes fed by the driver that the CPU has not read yet
/// (`rx`, oldest first).
pub struct SioState {
    pub base: usize,
    pub tx: Seq<u8>,
    pub rx: Seq<u8>,
}

/// The highest address of the 8-byte register window at `base`, clipped
/// to the address space.
pub open spec fn sio_max(base: usize) -> usize {
    if base + 7 <= usize::MAX {
        (base + 7) as usize
    } else {
        usize::MAX
    }
}

/// The receive queue after one byte has been taken; taking from an
/// empty queue changes nothing.
pub open spec fn rx_taken(rx: Seq<u8>) -> Seq<u8> {
    if rx.len() > 0 {
        rx.remove(0)
    } else {
        rx
    }
}

/// Basic terminal I/O, mostly for the ZPU.
///
/// Register window, relative to `base`: bytes 0 to 3 are the write side
/// (byte 3 is the transmit register, byte 2 reads as 1, "ready to
/// send"), bytes 4 to 7 are the read side (byte 7 is the receive
/// register, whose read consumes the pending byte; byte 6 is the
/// receive status, 1 while a byte is pending). The word accessors use
/// the ZPU UART convention: a 32-bit read at `base` yields 0x100
/// (transmitter idle), a 32-bit write at `base` transmits the low
/// byte, and a 32-bit read at `base + 4` consumes and yields the
/// pending byte ORed with 0x100 — or 0 when none is pending. Writes to
/// the read side answer a soft invalid-address error.
pub struct SIOTerm {
    base: usize,
    tx: Vec<u8>,
    rx: Vec<u8>,
}

impl View for SIOTerm {
    type V = SioState;

    closed spec fn view(&self) -> SioState {
        SioState { base: self.base, tx: self.tx@, rx: self.rx@ }
    }
}

impl SIOTerm {
    /// A serial port with the ZPU register layout at `base`, with empty
    /// queues.
    pub fn new_zpu(base: usize) -> (r: SIOTerm)
        ensures
            r@ == (SioState { base, tx: Seq::<u8>::empty(), rx: Seq::<u8>::empty() }),
    {
        SIOTerm { base, tx: Vec::new(), rx: Vec::new() }
    }

    /// Hand the driver everything the CPU has transmitted, oldest first,
    /// leaving the output queue empty.
    pub fn take_output(&mut self) -> (out: Vec<u8>)
        ensures
            out@ == old(self)@.tx,
            final(self)@ == (SioState { tx: Seq::<u8>::empty(), ..old(self)@ }),
    {
        let mut out: Vec<u8> = Vec::new();
        core::mem::swap(&mut out, &mut self.tx);
        out
    }

    /// Queue one byte of input for the CPU to consume by reading the
    /// receive register.
    pub fn push_input(&mut self, b: u8)
        ensures
            final(self)@ == (SioState { rx: old(self)@.rx.push(b), ..old(self)@ }),
    {
        self.rx.push(b);
    }

    /// How many input bytes the CPU has not read yet.
    pub fn input_pending(&self) -> (n: usize)
        ensures
            n == self@.rx.len(),
    {
        self.rx.len()
    }
}

impl BusDevice for SIOTerm {
    open spec fn tick_next(pre: SioState) -> SioState {
        pre
    }

    open spec fn init_next(pre: SioState) -> SioState {
        pre
    }

    open spec fn init_res(pre: SioState) -> Result<(), MemErr> {
        Ok(())
    }

    fn tick(&mut self) {
    }

    fn init(&mut self) -> (r: Result<(), MemErr>) {
        Ok(())
    }
}

impl MemoryBusDevice for SIOTerm {
    open spec fn size_spec(pre: SioState) -> usize {
        sio_max(pre.base)
    }

    open spec fn get_spec(pre: SioState, addr: usize) -> Result<u8, MemErr> {
        if addr == pre.base + 7 {
            // receive register: the oldest pending byte, 0 when none
            Ok(
                if pre.rx.len() > 0 {
                    pre.rx[0]
                } else {
                    0u8
                },
            )
        } else if addr == pre.base + 2 {
            Ok(1u8)  // ready to send
        } else if addr == pre.base + 6 {
            // receive status: is a byte pending?
            Ok(
                if pre.rx.len() > 0 {
                    1u8
                } else {
                    0u8
                },
            )
        } else if pre.base <= addr && addr <= pre.base + 7 {
            Ok(0u8)
        } else if addr < pre.base {
            Err(MemErr::TooSmall { at: addr, min: pre.base })
        } else {
            Err(MemErr::TooBig { at: addr, max: sio_max(pre.base) })
        }
    }

    open spec fn get_next(pre: SioState, addr: usize) -> SioState {
        if addr == pre.base + 7 {
            SioState { rx: rx_taken(pre.rx), ..pre }
        } else {
            pre
        }
    }

    open spec fn set_next(pre: SioState, addr: usize, val: u8) -> SioState {
        if addr == pre.base + 3 {
            SioState { tx: pre.tx.push(val), ..pre }
        } else {
            pre
        }
    }

    open spec fn set_res(pre: SioState, addr: usize, val: u8) -> Result<(), MemErr> {
        if pre.base <= addr && addr <= pre.base + 3 {
            Ok(())
        } else if addr < pre.base {
            Err(MemErr::TooSmall { at: addr, min: pre.base })
        } else if addr > pre.base + 7 {
            Err(MemErr::TooBig { at: addr, max: sio_max(pre.base) })
        } else {
            Err(MemErr::InvalidAddr { at: addr })  // the read side rejects writes
        }
    }

    open spec fn delete_next(pre: SioState, from: usize, to: usize) -> SioState {
        pre
    }

    open spec fn delete_res(pre: SioState, from: usize, to: usize) -> Result<(), MemErr> {
        Err(MemErr::NotImplemented)
    }

    open spec fn flush_next(pre: SioState) -> SioState {
        pre
    }

    open spec fn flush_res(pre: SioState) -> Result<(), MemErr> {
        Err(MemErr::NotImplemented)
    }

    fn get_size(&self) -> (r: usize) {
        if self.base <= usize::MAX - 7 {
            self.base + 7
        } else {
            usize::MAX
        }
    }

    fn get(&mut self, addr: usize) -> (r: Result<u8, MemErr>) {
        if addr < self.base {
            return Err(MemErr::TooSmall { at: addr, min: self.base });
        }
        let off = addr - self.base;
        if off == 7 {
            if self.rx.len() > 0 {
                let b = self.rx.remove(0);
                Ok(b)
            } else {
                Ok(0)
            }
        } else if off == 2 {
            Ok(1)
        } else if off == 6 {
            if self.rx.len() > 0 {
                Ok(1)
            } else {
                Ok(0)
            }
        } else if off <= 7 {
            Ok(0)
        } else {
            Err(
                MemErr::TooBig {
                    at: addr,
                    max: if self.base <= usize::MAX - 7 {
                        self.base + 7
                    } else {
                        usize::MAX
                    },
                },
            )
        }
    }

    fn set(&mut self, addr: usize, val: u8) -> (r: Result<(), MemErr>) {
        if addr < self.base {
            return Err(MemErr::TooSmall { at: addr, min: self.base });
        }
        let off = addr - self.base;
        if off == 3 {
            self.tx.push(val);
            return Ok(());
        }
        if off <= 3 {
            Ok(())
        } else if off > 7 {
            Err(
                MemErr::TooBig {
                    at: addr,
                    max: if self.base <= usize::MAX - 7 {
                        self.base + 7
                    } else {
                        usize::MAX
                    },
                },
            )
        } else {
            Err(MemErr::InvalidAddr { at: addr })
        }
    }

    fn delete(&mut self, from: usize, to: usize) -> (r: Result<(), MemErr>) {
        Err(MemErr::NotImplemented)
    }

    fn flush(&mut self) -> (r: Result<(), MemErr>) {
        Err(MemErr::NotImplemented)
    }
}

impl MemoryBusDevice32be for SIOTerm {
    open spec fn get32be_spec(pre: SioState, addr: usize) -> Result<u32, MemErr> {
        if addr == pre.base {
            Ok(0x100u32)  // transmitter idle
        } else if addr == pre.base + 4 {
            // pending byte with the data-ready flag, or 0 for none
            Ok(
                if pre.rx.len() > 0 {
                    (pre.rx[0] as u32) | 0x100
                } else {
                    0u32
                },
            )
        } else if addr < pre.base {
            Err(MemErr::TooSmall { at: addr, min: pre.base })
        } else if addr > pre.base + 7 {
            Err(MemErr::TooBig { at: addr, max: sio_max(pre.base) })
        } else {
            Err(MemErr::InvalidAddr { at: addr })
        }
    }

    open spec fn get32be_next(pre: SioState, addr: usize) -> SioState {
        if addr == pre.base + 4 {
            SioState { rx: rx_taken(pre.rx), ..pre }
        } else {
            pre
        }
    }

    open spec fn set32be_next(pre: SioState, addr: usize, val: u32) -> SioState {
        if addr == pre.base {
            SioState { tx: pre.tx.push((val & 0xFF) as u8), ..pre }
        } else {
            pre
        }
    }

    open spec fn set32be_res(pre: SioState, addr: usize, val: u32) -> Result<(), MemErr> {
        if pre.base <= addr && addr <= pre.base + 3 {
            Ok(())
        } else if addr < pre.base {
            Err(MemErr::TooSmall { at: addr, min: pre.base })
        } else if addr > pre.base + 7 {
            Err(MemErr::TooBig { at: addr, max: sio_max(pre.base) })
        } else {
            Err(MemErr::InvalidAddr { at: addr })
        }
    }

    fn get32be(&mut self, addr: usize) -> (r: Result<u32, MemErr>) {
        if addr < self.base {
            return Err(MemErr::TooSmall { at: addr, min: self.base });
        }
        let off = addr - self.base;
        if off == 0 {
            Ok(0x100)
        } else if off == 4 {
            if self.rx.len() > 0 {
                let b = self.rx.remove(0);
                Ok((b as u32) | 0x100)
            } else {
                Ok(0)
            }
        } else if off > 7 {
            Err(
                MemErr::TooBig {
                    at: addr,
                    max: if self.base <= usize::MAX - 7 {
                        self.base + 7
                    } else {
                        usize::MAX
                    },
                },
            )
        } else {
            Err(MemErr::InvalidAddr { at: addr })
        }
    }

    fn set32be(&mut self, addr: usize, val: u32) -> (r: Result<(), MemErr>) {
        if addr < self.base {
            return Err(MemErr::TooSmall { at: addr, min: self.base });
        }
        let off = addr - self.base;
        if off == 0 {
            self.tx.push((val & 0xFF) as u8);
            return Ok(());
        }
        if off <= 3 {
            Ok(())
        } else if off > 7 {
            Err(
                MemErr::TooBig {
                    at: addr,
                    max: if self.base <= usize::MAX - 7 {
                        self.base + 7
                    } else {
                        usize::MAX
                    },
                },
            )
        } else {
            Err(MemErr::InvalidAddr { at: addr })
        }
    }
}

} // verus!
