//! The serial-port device's register decode and output queue, and the
//! platform mix of a serial port and a RAM on one bus.

use rose::cpu::CPU;
use rose::errors::MemErr;
use rose::memorybus::{MemoryBus32be, MemoryBusDevice, MemoryBusDevice32be};
use rose::platform::PlatformDevice;
use rose::ram::RamBlock;
use rose::sio::SIOTerm;
use rose::zpu::ZPU;

#[test]
fn transmit_register_queues_bytes_in_order() {
    let mut s = SIOTerm::new_zpu(0x100);
    assert!(s.take_output().is_empty());
    s.set(0x103, b'h').unwrap();
    s.set(0x103, b'i').unwrap();
    assert_eq!(s.take_output(), vec![b'h', b'i']);
    assert!(s.take_output().is_empty());
}

#[test]
fn word_write_at_base_transmits_low_byte() {
    let mut s = SIOTerm::new_zpu(0x100);
    s.set32be(0x100, 0x12345641).unwrap();
    assert_eq!(s.take_output(), vec![0x41]);
}

#[test]
fn status_registers_track_the_queues() {
    let mut s = SIOTerm::new_zpu(0x100);
    assert_eq!(s.get(0x102).unwrap(), 1);  // always ready to send
    assert_eq!(s.get(0x106).unwrap(), 0);  // nothing pending yet
    assert_eq!(s.get(0x107).unwrap(), 0);
    assert_eq!(s.get(0x100).unwrap(), 0);
    assert_eq!(s.get32be(0x100).unwrap(), 0x100);
    assert_eq!(s.get32be(0x104).unwrap(), 0);
    assert_eq!(s.get_size(), 0x107);
}

#[test]
fn input_is_consumed_by_reading() {
    let mut s = SIOTerm::new_zpu(0x100);
    s.push_input(b'x');
    s.push_input(b'y');
    assert_eq!(s.input_pending(), 2);
    // a status read consumes nothing
    assert_eq!(s.get(0x106).unwrap(), 1);
    assert_eq!(s.get(0x106).unwrap(), 1);
    assert_eq!(s.input_pending(), 2);
    // the byte read consumes one byte
    assert_eq!(s.get(0x107).unwrap(), b'x');
    assert_eq!(s.input_pending(), 1);
    // the word read consumes too, flagging data-ready
    assert_eq!(s.get32be(0x104).unwrap(), 0x100 | b'y' as u32);
    assert_eq!(s.input_pending(), 0);
    // with the queue empty: status 0, reads yield 0 / not-ready
    assert_eq!(s.get(0x106).unwrap(), 0);
    assert_eq!(s.get(0x107).unwrap(), 0);
    assert_eq!(s.get32be(0x104).unwrap(), 0);
}

#[test]
fn out_of_window_accesses_answer_soft_errors() {
    let mut s = SIOTerm::new_zpu(0x100);
    assert!(matches!(s.get(0xFF), Err(MemErr::TooSmall { at: 0xFF, min: 0x100 })));
    assert!(matches!(s.get(0x108), Err(MemErr::TooBig { at: 0x108, max: 0x107 })));
    assert!(matches!(s.set(0x105, 1), Err(MemErr::InvalidAddr { at: 0x105 })));
    // the read-side registers reject writes
    assert!(matches!(s.set(0x107, 0), Err(MemErr::InvalidAddr { at: 0x107 })));
    assert!(matches!(s.set32be(0x104, 0), Err(MemErr::InvalidAddr { at: 0x104 })));
    assert!(matches!(s.get32be(0x102), Err(MemErr::InvalidAddr { at: 0x102 })));
    assert!(matches!(s.delete(0, 4), Err(MemErr::NotImplemented)));
    assert!(matches!(s.flush(), Err(MemErr::NotImplemented)));
}

#[test]
fn machine_writes_a_byte_out_through_the_bus() {
    // program: build 0x41 by chaining two immediates, break the chain,
    // build the serial port's base address 0x100, then STORE: the
    // broadcast write lands in the port's transmit queue while the RAM
    // answers softly.
    let program = [0x80u8, 0xC1, 0x0B, 0x82, 0x80, 0x0C];
    let mut ram = RamBlock::new(0x80);
    let mut i: usize = 0;
    for b in program {
        ram.set(i, b).unwrap();
        i += 1;
    }
    let sio = SIOTerm::new_zpu(0x100);
    let devices = vec![PlatformDevice::Sio(sio), PlatformDevice::Ram(ram)];
    let mut bus = MemoryBus32be::new(devices);
    assert!(rose::bus::BusDevice::init(&mut bus).is_ok());
    let mut cpu = ZPU::new(bus, true);
    cpu.sp = 0x80;
    cpu.start().unwrap();
    for _ in 0..6 {
        cpu.step().unwrap();
    }
    assert_eq!(cpu.sp, 0x80);
    assert_eq!(cpu.mem.device_count(), 2);
    match cpu.mem.device_at(0) {
        PlatformDevice::Sio(s) => {
            assert_eq!(s.take_output(), vec![0x41]);
        },
        _ => panic!("the serial port is the first device"),
    }
}

#[test]
fn machine_consumes_input_through_the_bus() {
    // program: build 0x104 (the receive word register) and LOAD it —
    // the pending byte arrives with the data-ready flag and the read
    // consumes it — then STORE that word at RAM address 0x40.
    let program = [0x82u8, 0x84, 0x08, 0x80, 0xC0, 0x0C];
    let mut ram = RamBlock::new(0x80);
    let mut i: usize = 0;
    for b in program {
        ram.set(i, b).unwrap();
        i += 1;
    }
    let mut sio = SIOTerm::new_zpu(0x100);
    sio.push_input(b'z');
    let devices = vec![PlatformDevice::Sio(sio), PlatformDevice::Ram(ram)];
    let mut cpu = ZPU::new(MemoryBus32be::new(devices), true);
    cpu.sp = 0x80;
    cpu.start().unwrap();
    for _ in 0..6 {
        cpu.step().unwrap();
    }
    assert_eq!(cpu.sp, 0x80);
    assert_eq!(cpu.get32(0x40).unwrap(), 0x100 | b'z' as u32);
    match cpu.mem.device_at(0) {
        PlatformDevice::Sio(s) => {
            assert_eq!(s.input_pending(), 0);
        },
        _ => panic!("the serial port is the first device"),
    }
}
