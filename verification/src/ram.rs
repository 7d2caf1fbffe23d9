//! RAM-backed device: a flat, zero-initialised byte array of fixed size.
//! It answers every address below its size and reports address-too-big —
//! a soft error on a bus — for everything above, so it composes with
//! peripherals that shadow other address ranges.

use vstd::prelude::*;

use crate::bus::BusDevice;
use crate::cpu::{be0, be1, be2, be3, comb32_of};
use crate::errors::MemErr;
use crate::memorybus::{MemoryBusDevice, MemoryBusDevice32be, MemoryBusDevice32le};

verus! {

/// A byte-addressable RAM of fixed size; its abstract state is the
/// sequence of its bytes.
pub struct RamBlock {
    data: Vec<u8>,
}

impl View for RamBlock {
    type V = Seq<u8>;

    closed spec fn view(&self) -> Seq<u8> {
        self.data@
    }
}

impl RamBlock {
    /// A RAM of `size` bytes, all zero.
    pub fn new(size: usize) -> (r: RamBlock)
        ensures
            r@ == Seq::new(size as nat, |i: int| 0u8),
    {
        let mut data: Vec<u8> = Vec::new();
        let mut i: usize = 0;
        while i < size
            invariant
                i <= size,
                data@ == Seq::new(i as nat, |j: int| 0u8),
            decreases size - i,
        {
            data.push(0);
            proof {
                assert(data@ =~= Seq::new((i + 1) as nat, |j: int| 0u8));
            }
            i = i + 1;
        }
        RamBlock { data }
    }
}

impl BusDevice for RamBlock {
    open spec fn tick_next(pre: Seq<u8>) -> Seq<u8> {
        pre
    }

    open spec fn init_next(pre: Seq<u8>) -> Seq<u8> {
        pre
    }

    open spec fn init_res(pre: Seq<u8>) -> Result<(), MemErr> {
        Ok(())
    }

    fn tick(&mut self) {
    }

    fn init(&mut self) -> (r: Result<(), MemErr>) {
        Ok(())
    }
}

impl MemoryBusDevice for RamBlock {
    open spec fn size_spec(pre: Seq<u8>) -> usize {
        pre.len() as usize
    }

    open spec fn get_spec(pre: Seq<u8>, addr: usize) -> Result<u8, MemErr> {
        if addr < pre.len() {
            Ok(pre[addr as int])
        } else {
            Err(MemErr::TooBig { at: addr, max: pre.len() as usize })
        }
    }

    open spec fn get_next(pre: Seq<u8>, addr: usize) -> Seq<u8> {
        pre
    }

    open spec fn set_next(pre: Seq<u8>, addr: usize, val: u8) -> Seq<u8> {
        if addr < pre.len() {
            pre.update(addr as int, val)
        } else {
            pre
        }
    }

    open spec fn set_res(pre: Seq<u8>, addr: usize, val: u8) -> Result<(), MemErr> {
        if addr < pre.len() {
            Ok(())
        } else {
            Err(MemErr::TooBig { at: addr, max: pre.len() as usize })
        }
    }

    open spec fn delete_next(pre: Seq<u8>, from: usize, to: usize) -> Seq<u8> {
        Seq::new(
            pre.len(),
            |j: int|
                if from <= j && j < to {
                    0u8
                } else {
                    pre[j]
                },
        )
    }

    open spec fn delete_res(pre: Seq<u8>, from: usize, to: usize) -> Result<(), MemErr> {
        Ok(())
    }

    open spec fn flush_next(pre: Seq<u8>) -> Seq<u8> {
        pre
    }

    open spec fn flush_res(pre: Seq<u8>) -> Result<(), MemErr> {
        Ok(())
    }

    fn get_size(&self) -> (r: usize) {
        self.data.len()
    }

    fn get(&mut self, addr: usize) -> (r: Result<u8, MemErr>) {
        if addr < self.data.len() {
            Ok(self.data[addr])
        } else {
            Err(MemErr::TooBig { at: addr, max: self.data.len() })
        }
    }

    fn set(&mut self, addr: usize, val: u8) -> (r: Result<(), MemErr>) {
        if addr < self.data.len() {
            self.data[addr] = val;
            Ok(())
        } else {
            Err(MemErr::TooBig { at: addr, max: self.data.len() })
        }
    }

    /// Bulk delete zeroes every byte in `[from, to)` that the RAM holds.
    fn delete(&mut self, from: usize, to: usize) -> (r: Result<(), MemErr>) {
        let len = self.data.len();
        let hi = if to < len {
            to
        } else {
            len
        };
        if from < hi {
            let mut i: usize = from;
            while i < hi
                invariant
                    from <= i <= hi,
                    hi <= self.data@.len(),
                    self.data@.len() == old(self).data@.len(),
                    self.data@ == Seq::new(
                        old(self).data@.len(),
                        |j: int|
                            if from <= j && j < i {
                                0u8
                            } else {
                                old(self).data@[j]
                            },
                    ),
                decreases hi - i,
            {
                let ghost pre = self.data@;
                self.data[i] = 0;
                proof {
                    assert(self.data@ =~= Seq::new(
                        old(self).data@.len(),
                        |j: int|
                            if from <= j && j < i + 1 {
                                0u8
                            } else {
                                old(self).data@[j]
                            },
                    ));
                }
                i = i + 1;
            }
            proof {
                assert(self.data@ =~= Self::delete_next(old(self).data@, from, to));
            }
        } else {
            proof {
                assert(self.data@ =~= Self::delete_next(old(self).data@, from, to));
            }
        }
        Ok(())
    }

    fn flush(&mut self) -> (r: Result<(), MemErr>) {
        Ok(())
    }
}

impl MemoryBusDevice32be for RamBlock {
    open spec fn get32be_spec(pre: Seq<u8>, addr: usize) -> Result<u32, MemErr> {
        if addr + 4 <= pre.len() {
            Ok(
                comb32_of(
                    pre[addr as int],
                    pre[addr as int + 1],
                    pre[addr as int + 2],
                    pre[addr as int + 3],
                ),
            )
        } else {
            Err(MemErr::TooBig { at: addr, max: pre.len() as usize })
        }
    }

    open spec fn get32be_next(pre: Seq<u8>, addr: usize) -> Seq<u8> {
        pre
    }

    open spec fn set32be_next(pre: Seq<u8>, addr: usize, val: u32) -> Seq<u8> {
        if addr + 4 <= pre.len() {
            pre.update(addr as int, be0(val)).update(addr as int + 1, be1(val)).update(
                addr as int + 2,
                be2(val),
            ).update(addr as int + 3, be3(val))
        } else {
            pre
        }
    }

    open spec fn set32be_res(pre: Seq<u8>, addr: usize, val: u32) -> Result<(), MemErr> {
        if addr + 4 <= pre.len() {
            Ok(())
        } else {
            Err(MemErr::TooBig { at: addr, max: pre.len() as usize })
        }
    }

    fn get32be(&mut self, addr: usize) -> (r: Result<u32, MemErr>) {
        let len = self.data.len();
        if len >= 4 && addr <= len - 4 {
            let b0 = self.data[addr];
            let b1 = self.data[addr + 1];
            let b2 = self.data[addr + 2];
            let b3 = self.data[addr + 3];
            Ok((b0 as u32) * 0x1000000 + (b1 as u32) * 0x10000 + (b2 as u32) * 0x100 + (b3 as u32))
        } else {
            Err(MemErr::TooBig { at: addr, max: len })
        }
    }

    fn set32be(&mut self, addr: usize, val: u32) -> (r: Result<(), MemErr>) {
        let len = self.data.len();
        if len >= 4 && addr <= len - 4 {
            self.data[addr] = ((val >> 24) & 0xFF) as u8;
            self.data[addr + 1] = ((val >> 16) & 0xFF) as u8;
            self.data[addr + 2] = ((val >> 8) & 0xFF) as u8;
            self.data[addr + 3] = (val & 0xFF) as u8;
            Ok(())
        } else {
            Err(MemErr::TooBig { at: addr, max: len })
        }
    }
}

impl MemoryBusDevice32le for RamBlock {
    open spec fn get32le_spec(pre: Seq<u8>, addr: usize) -> Result<u32, MemErr> {
        if addr + 4 <= pre.len() {
            Ok(
                comb32_of(
                    pre[addr as int + 3],
                    pre[addr as int + 2],
                    pre[addr as int + 1],
                    pre[addr as int],
                ),
            )
        } else {
            Err(MemErr::TooBig { at: addr, max: pre.len() as usize })
        }
    }

    open spec fn get32le_next(pre: Seq<u8>, addr: usize) -> Seq<u8> {
        pre
    }

    open spec fn set32le_next(pre: Seq<u8>, addr: usize, val: u32) -> Seq<u8> {
        if addr + 4 <= pre.len() {
            pre.update(addr as int, be3(val)).update(addr as int + 1, be2(val)).update(
                addr as int + 2,
                be1(val),
            ).update(addr as int + 3, be0(val))
        } else {
            pre
        }
    }

    open spec fn set32le_res(pre: Seq<u8>, addr: usize, val: u32) -> Result<(), MemErr> {
        if addr + 4 <= pre.len() {
            Ok(())
        } else {
            Err(MemErr::TooBig { at: addr, max: pre.len() as usize })
        }
    }

    fn get32le(&mut self, addr: usize) -> (r: Result<u32, MemErr>) {
        let len = self.data.len();
        if len >= 4 && addr <= len - 4 {
            let b0 = self.data[addr];
            let b1 = self.data[addr + 1];
            let b2 = self.data[addr + 2];
            let b3 = self.data[addr + 3];
            Ok((b3 as u32) * 0x1000000 + (b2 as u32) * 0x10000 + (b1 as u32) * 0x100 + (b0 as u32))
        } else {
            Err(MemErr::TooBig { at: addr, max: len })
        }
    }

    fn set32le(&mut self, addr: usize, val: u32) -> (r: Result<(), MemErr>) {
        let len = self.data.len();
        if len >= 4 && addr <= len - 4 {
            self.data[addr] = (val & 0xFF) as u8;
            self.data[addr + 1] = ((val >> 8) & 0xFF) as u8;
            self.data[addr + 2] = ((val >> 16) & 0xFF) as u8;
            self.data[addr + 3] = ((val >> 24) & 0xFF) as u8;
            Ok(())
        } else {
            Err(MemErr::TooBig { at: addr, max: len })
        }
    }
}

} // verus!
