//! The reference platform's device mix: a serial port and a RAM block
//! composed on one big-endian bus. A bus is homogeneous in its device
//! type, so the mix is expressed as one enum that forwards the whole
//! capability to whichever device it holds.

use vstd::prelude::*;

use crate::bus::BusDevice;
use crate::errors::MemErr;
use crate::memorybus::{MemoryBusDevice, MemoryBusDevice32be};
use crate::ram::RamBlock;
use crate::sio::{SIOTerm, SioState};

verus! {

/// Abstract state of a platform device: whichever device it is, that
/// device's abstract state.
pub enum PlatformState {
    Ram(Seq<u8>),
    Sio(SioState),
}

/// One device of the reference platform: a RAM block or a serial port.
pub enum PlatformDevice {
    Ram(RamBlock),
    Sio(SIOTerm),
}

impl View for PlatformDevice {
    type V = PlatformState;

    open spec fn view(&self) -> PlatformState {
        match self {
            PlatformDevice::Ram(d) => PlatformState::Ram(d@),
            PlatformDevice::Sio(d) => PlatformState::Sio(d@),
        }
    }
}

impl BusDevice for PlatformDevice {
    open spec fn tick_next(pre: PlatformState) -> PlatformState {
        match pre {
            PlatformState::Ram(m) => PlatformState::Ram(<RamBlock as BusDevice>::tick_next(m)),
            PlatformState::Sio(s) => PlatformState::Sio(<SIOTerm as BusDevice>::tick_next(s)),
        }
    }

    open spec fn init_next(pre: PlatformState) -> PlatformState {
        match pre {
            PlatformState::Ram(m) => PlatformState::Ram(<RamBlock as BusDevice>::init_next(m)),
            PlatformState::Sio(s) => PlatformState::Sio(<SIOTerm as BusDevice>::init_next(s)),
        }
    }

    open spec fn init_res(pre: PlatformState) -> Result<(), MemErr> {
        match pre {
            PlatformState::Ram(m) => <RamBlock as BusDevice>::init_res(m),
            PlatformState::Sio(s) => <SIOTerm as BusDevice>::init_res(s),
        }
    }

    fn tick(&mut self) {
        match self {
            PlatformDevice::Ram(d) => d.tick(),
            PlatformDevice::Sio(d) => d.tick(),
        }
    }

    fn init(&mut self) -> (r: Result<(), MemErr>) {
        match self {
            PlatformDevice::Ram(d) => d.init(),
            PlatformDevice::Sio(d) => d.init(),
        }
    }
}

impl MemoryBusDevice for PlatformDevice {
    open spec fn size_spec(pre: PlatformState) -> usize {
        match pre {
            PlatformState::Ram(m) => <RamBlock as MemoryBusDevice>::size_spec(m),
            PlatformState::Sio(s) => <SIOTerm as MemoryBusDevice>::size_spec(s),
        }
    }

    open spec fn get_spec(pre: PlatformState, addr: usize) -> Result<u8, MemErr> {
        match pre {
            PlatformState::Ram(m) => <RamBlock as MemoryBusDevice>::get_spec(m, addr),
            PlatformState::Sio(s) => <SIOTerm as MemoryBusDevice>::get_spec(s, addr),
        }
    }

    open spec fn get_next(pre: PlatformState, addr: usize) -> PlatformState {
        match pre {
            PlatformState::Ram(m) => PlatformState::Ram(
                <RamBlock as MemoryBusDevice>::get_next(m, addr),
            ),
            PlatformState::Sio(s) => PlatformState::Sio(
                <SIOTerm as MemoryBusDevice>::get_next(s, addr),
            ),
        }
    }

    open spec fn set_next(pre: PlatformState, addr: usize, val: u8) -> PlatformState {
        match pre {
            PlatformState::Ram(m) => PlatformState::Ram(
                <RamBlock as MemoryBusDevice>::set_next(m, addr, val),
            ),
            PlatformState::Sio(s) => PlatformState::Sio(
                <SIOTerm as MemoryBusDevice>::set_next(s, addr, val),
            ),
        }
    }

    open spec fn set_res(pre: PlatformState, addr: usize, val: u8) -> Result<(), MemErr> {
        match pre {
            PlatformState::Ram(m) => <RamBlock as MemoryBusDevice>::set_res(m, addr, val),
            PlatformState::Sio(s) => <SIOTerm as MemoryBusDevice>::set_res(s, addr, val),
        }
    }

    open spec fn delete_next(pre: PlatformState, from: usize, to: usize) -> PlatformState {
        match pre {
            PlatformState::Ram(m) => PlatformState::Ram(
                <RamBlock as MemoryBusDevice>::delete_next(m, from, to),
            ),
            PlatformState::Sio(s) => PlatformState::Sio(
                <SIOTerm as MemoryBusDevice>::delete_next(s, from, to),
            ),
        }
    }

    open spec fn delete_res(pre: PlatformState, from: usize, to: usize) -> Result<(), MemErr> {
        match pre {
            PlatformState::Ram(m) => <RamBlock as MemoryBusDevice>::delete_res(m, from, to),
            PlatformState::Sio(s) => <SIOTerm as MemoryBusDevice>::delete_res(s, from, to),
        }
    }

    open spec fn flush_next(pre: PlatformState) -> PlatformState {
        match pre {
            PlatformState::Ram(m) => PlatformState::Ram(
                <RamBlock as MemoryBusDevice>::flush_next(m),
            ),
            PlatformState::Sio(s) => PlatformState::Sio(
                <SIOTerm as MemoryBusDevice>::flush_next(s),
            ),
        }
    }

    open spec fn flush_res(pre: PlatformState) -> Result<(), MemErr> {
        match pre {
            PlatformState::Ram(m) => <RamBlock as MemoryBusDevice>::flush_res(m),
            PlatformState::Sio(s) => <SIOTerm as MemoryBusDevice>::flush_res(s),
        }
    }

    fn get_size(&self) -> (r: usize) {
        match self {
            PlatformDevice::Ram(d) => d.get_size(),
            PlatformDevice::Sio(d) => d.get_size(),
        }
    }

    fn get(&mut self, addr: usize) -> (r: Result<u8, MemErr>) {
        match self {
            PlatformDevice::Ram(d) => d.get(addr),
            PlatformDevice::Sio(d) => d.get(addr),
        }
    }

    fn set(&mut self, addr: usize, val: u8) -> (r: Result<(), MemErr>) {
        match self {
            PlatformDevice::Ram(d) => d.set(addr, val),
            PlatformDevice::Sio(d) => d.set(addr, val),
        }
    }

    fn delete(&mut self, from: usize, to: usize) -> (r: Result<(), MemErr>) {
        match self {
            PlatformDevice::Ram(d) => d.delete(from, to),
            PlatformDevice::Sio(d) => d.delete(from, to),
        }
    }

    fn flush(&mut self) -> (r: Result<(), MemErr>) {
        match self {
            PlatformDevice::Ram(d) => d.flush(),
            PlatformDevice::Sio(d) => d.flush(),
        }
    }
}

impl MemoryBusDevice32be for PlatformDevice {
    open spec fn get32be_spec(pre: PlatformState, addr: usize) -> Result<u32, MemErr> {
        match pre {
            PlatformState::Ram(m) => <RamBlock as MemoryBusDevice32be>::get32be_spec(m, addr),
            PlatformState::Sio(s) => <SIOTerm as MemoryBusDevice32be>::get32be_spec(s, addr),
        }
    }

    open spec fn get32be_next(pre: PlatformState, addr: usize) -> PlatformState {
        match pre {
            PlatformState::Ram(m) => PlatformState::Ram(
                <RamBlock as MemoryBusDevice32be>::get32be_next(m, addr),
            ),
            PlatformState::Sio(s) => PlatformState::Sio(
                <SIOTerm as MemoryBusDevice32be>::get32be_next(s, addr),
            ),
        }
    }

    open spec fn set32be_next(pre: PlatformState, addr: usize, val: u32) -> PlatformState {
        match pre {
            PlatformState::Ram(m) => PlatformState::Ram(
                <RamBlock as MemoryBusDevice32be>::set32be_next(m, addr, val),
            ),
            PlatformState::Sio(s) => PlatformState::Sio(
                <SIOTerm as MemoryBusDevice32be>::set32be_next(s, addr, val),
            ),
        }
    }

    open spec fn set32be_res(pre: PlatformState, addr: usize, val: u32) -> Result<(), MemErr> {
        match pre {
            PlatformState::Ram(m) => <RamBlock as MemoryBusDevice32be>::set32be_res(m, addr, val),
            PlatformState::Sio(s) => <SIOTerm as MemoryBusDevice32be>::set32be_res(s, addr, val),
        }
    }

    fn get32be(&mut self, addr: usize) -> (r: Result<u32, MemErr>) {
        match self {
            PlatformDevice::Ram(d) => d.get32be(addr),
            PlatformDevice::Sio(d) => d.get32be(addr),
        }
    }

    fn set32be(&mut self, addr: usize, val: u32) -> (r: Result<(), MemErr>) {
        match self {
            PlatformDevice::Ram(d) => d.set32be(addr, val),
            PlatformDevice::Sio(d) => d.set32be(addr, val),
        }
    }
}

} // verus!
