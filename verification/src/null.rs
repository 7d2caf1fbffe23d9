//! Null block: a byte sink/source that consumes every write and reads as
//! zero at every address, forever. Useful as a catch-all device at the end
//! of a bus.

use vstd::prelude::*;

use crate::bus::BusDevice;
use crate::errors::MemErr;
use crate::memorybus::{MemoryBusDevice, MemoryBusDevice32be, MemoryBusDevice32le};

verus! {

/// A stateless device that owns the whole address space: every read
/// returns zero and every write succeeds and is discarded.
pub struct NullBlock {}

impl View for NullBlock {
    type V = ();

    open spec fn view(&self) -> () {
        ()
    }
}

impl BusDevice for NullBlock {
    open spec fn tick_next(pre: ()) -> () {
        ()
    }

    open spec fn init_next(pre: ()) -> () {
        ()
    }

    open spec fn init_res(pre: ()) -> Result<(), MemErr> {
        Ok(())
    }

    fn tick(&mut self) {
    }

    fn init(&mut self) -> (r: Result<(), MemErr>) {
        Ok(())
    }
}

impl MemoryBusDevice for NullBlock {
    open spec fn size_spec(pre: ()) -> usize {
        usize::MAX
    }

    open spec fn get_spec(pre: (), addr: usize) -> Result<u8, MemErr> {
        Ok(0u8)
    }

    open spec fn get_next(pre: (), addr: usize) -> () {
        ()
    }

    open spec fn set_next(pre: (), addr: usize, val: u8) -> () {
        ()
    }

    open spec fn set_res(pre: (), addr: usize, val: u8) -> Result<(), MemErr> {
        Ok(())
    }

    open spec fn delete_next(pre: (), from: usize, to: usize) -> () {
        ()
    }

    open spec fn delete_res(pre: (), from: usize, to: usize) -> Result<(), MemErr> {
        Ok(())
    }

    open spec fn flush_next(pre: ()) -> () {
        ()
    }

    open spec fn flush_res(pre: ()) -> Result<(), MemErr> {
        Ok(())
    }

    fn get_size(&self) -> (r: usize) {
        usize::MAX
    }

    fn get(&mut self, addr: usize) -> (r: Result<u8, MemErr>) {
        Ok(0)
    }

    fn set(&mut self, addr: usize, val: u8) -> (r: Result<(), MemErr>) {
        Ok(())
    }

    fn delete(&mut self, from: usize, to: usize) -> (r: Result<(), MemErr>) {
        Ok(())
    }

    fn flush(&mut self) -> (r: Result<(), MemErr>) {
        Ok(())
    }
}

impl MemoryBusDevice32be for NullBlock {
    open spec fn get32be_spec(pre: (), addr: usize) -> Result<u32, MemErr> {
        Ok(0u32)
    }

    open spec fn get32be_next(pre: (), addr: usize) -> () {
        ()
    }

    open spec fn set32be_next(pre: (), addr: usize, val: u32) -> () {
        ()
    }

    open spec fn set32be_res(pre: (), addr: usize, val: u32) -> Result<(), MemErr> {
        Ok(())
    }

    fn get32be(&mut self, addr: usize) -> (r: Result<u32, MemErr>) {
        Ok(0)
    }

    fn set32be(&mut self, addr: usize, val: u32) -> (r: Result<(), MemErr>) {
        Ok(())
    }
}

impl MemoryBusDevice32le for NullBlock {
    open spec fn get32le_spec(pre: (), addr: usize) -> Result<u32, MemErr> {
        Ok(0u32)
    }

    open spec fn get32le_next(pre: (), addr: usize) -> () {
        ()
    }

    open spec fn set32le_next(pre: (), addr: usize, val: u32) -> () {
        ()
    }

    open spec fn set32le_res(pre: (), addr: usize, val: u32) -> Result<(), MemErr> {
        Ok(())
    }

    fn get32le(&mut self, addr: usize) -> (r: Result<u32, MemErr>) {
        Ok(0)
    }

    fn set32le(&mut self, addr: usize, val: u32) -> (r: Result<(), MemErr>) {
        Ok(())
    }
}

} // verus!
