//! Bus composition behaviour: probe order, exhaustion, broadcast writes,
//! error classification, size aggregation, and nesting.

use rose::errors::MemErr;
use rose::memorybus::{
    ehandlefatal, MemoryBus32be, MemoryBus32le, MemoryBusDevice, MemoryBusDevice32be,
    MemoryBusDevice32le,
};
use rose::null::NullBlock;
use rose::ram::RamBlock;
use rose::bus::BusDevice;

#[test]
fn probe_order_first_owner_wins() {
    // Only the third device owns address 50: the first two answer soft
    // errors and the probe continues to the owner.
    let mut big = RamBlock::new(100);
    big.set(50, 7).unwrap();
    let devs = vec![RamBlock::new(2), RamBlock::new(2), big];
    let mut bus = MemoryBus32be::new(devs);
    assert_eq!(bus.get(50).unwrap(), 7);
}

#[test]
fn probe_stops_at_first_success() {
    // Two devices own address 1; the first one in registration order wins.
    let mut a = RamBlock::new(4);
    a.set(1, 11).unwrap();
    let mut b = RamBlock::new(4);
    b.set(1, 22).unwrap();
    let mut bus = MemoryBus32be::new(vec![a, b]);
    assert_eq!(bus.get(1).unwrap(), 11);
}

#[test]
fn all_soft_exhaustion() {
    let devs = vec![RamBlock::new(2), RamBlock::new(2), RamBlock::new(2)];
    let mut bus = MemoryBus32be::new(devs);
    let r = bus.get(50);
    assert!(matches!(r, Err(MemErr::AllDevicesFaulted { tried: 3 })));
}

#[test]
fn broadcast_write_reaches_owner_through_soft_errors() {
    // Three devices, only the middle one owns address 50; the write must
    // succeed and land there even though devices 1 and 3 answer softly.
    let devs = vec![RamBlock::new(4), RamBlock::new(100), RamBlock::new(4)];
    let mut bus = MemoryBus32be::new(devs);
    bus.set(50, 9).unwrap();
    assert_eq!(bus.get(50).unwrap(), 9);
}

#[test]
fn broadcast_write_reaches_every_owner() {
    // Both devices own address 2: a read is satisfied by the first, but
    // the broadcast write must have reached the second as well, which we
    // observe by probing past the first device with a larger address
    // after shrinking the front device out of range.
    let a = RamBlock::new(4);
    let b = RamBlock::new(8);
    let mut bus = MemoryBus32be::new(vec![a, b]);
    bus.set(2, 5).unwrap();
    // address 6 only exists on the second device, so the write at 2 went
    // there too; read it back through a fresh bus ordering.
    bus.set(6, 13).unwrap();
    assert_eq!(bus.get(6).unwrap(), 13);
    assert_eq!(bus.get(2).unwrap(), 5);
}

#[test]
fn get_size_is_max_of_devices() {
    let devs = vec![RamBlock::new(16), RamBlock::new(64), RamBlock::new(32)];
    let bus = MemoryBus32be::new(devs);
    assert_eq!(bus.get_size(), 64);
}

#[test]
fn nested_bus_wraps_inner_fault_with_position() {
    // The inner bus exhausts its only device (a fatal error), so the
    // outer bus sees a fatal error from its device at position 1 and
    // wraps it.
    let inner = MemoryBus32be::new(vec![RamBlock::new(4)]);
    let mut outer = MemoryBus32be::new(vec![inner]);
    let r = outer.get(10);
    match r {
        Err(MemErr::DeviceFault { pos, cause }) => {
            assert_eq!(pos, 1);
            assert!(matches!(*cause, MemErr::AllDevicesFaulted { tried: 1 }));
        },
        other => panic!("expected a wrapped fault, got {:?}", other),
    }
}

#[test]
fn ehandlefatal_swallows_each_soft_kind() {
    assert!(ehandlefatal(MemErr::TooSmall { at: 1, min: 2 }, 1).is_ok());
    assert!(ehandlefatal(MemErr::TooBig { at: 9, max: 4 }, 1).is_ok());
    assert!(ehandlefatal(MemErr::NotImplemented, 1).is_ok());
    assert!(ehandlefatal(MemErr::NotApplicable { at: 0 }, 1).is_ok());
    assert!(ehandlefatal(MemErr::InvalidAddr { at: 3 }, 1).is_ok());
    assert!(ehandlefatal(MemErr::ReadOnly { at: 3 }, 1).is_ok());
    assert!(ehandlefatal(MemErr::NoData { at: 3 }, 1).is_ok());
}

#[test]
fn ehandlefatal_wraps_fatal_kinds_with_position() {
    let r = ehandlefatal(MemErr::HardwareFault { at: 7 }, 4);
    match r {
        Err(MemErr::DeviceFault { pos, cause }) => {
            assert_eq!(pos, 4);
            assert!(matches!(*cause, MemErr::HardwareFault { at: 7 }));
        },
        other => panic!("expected a wrapped fault, got {:?}", other),
    }
}

#[test]
fn word_accessors_probe_and_broadcast() {
    let devs = vec![RamBlock::new(4), RamBlock::new(64)];
    let mut bus = MemoryBus32be::new(devs);
    bus.set32be(8, 0xDEADBEEF).unwrap();
    assert_eq!(bus.get32be(8).unwrap(), 0xDEADBEEF);
    // the word lives on the second device, byte-addressable through the
    // same bus, big end first
    assert_eq!(bus.get(8).unwrap(), 0xDE);
    assert_eq!(bus.get(11).unwrap(), 0xEF);
}

#[test]
fn little_endian_bus_mirrors_byte_order() {
    let devs = vec![RamBlock::new(64)];
    let mut bus = MemoryBus32le::new(devs);
    bus.set32le(0, 0x01020304).unwrap();
    assert_eq!(bus.get32le(0).unwrap(), 0x01020304);
    assert_eq!(bus.get(0).unwrap(), 0x04);
    assert_eq!(bus.get(3).unwrap(), 0x01);
}

#[test]
fn delete_zeroes_range_and_flush_is_soft() {
    let mut bus = MemoryBus32be::new(vec![RamBlock::new(16)]);
    bus.set(3, 42).unwrap();
    bus.set(5, 43).unwrap();
    bus.delete(4, 8).unwrap();
    assert_eq!(bus.get(3).unwrap(), 42);
    assert_eq!(bus.get(5).unwrap(), 0);
    bus.flush().unwrap();
    bus.tick();
    let mut bus2 = bus;
    assert!(bus2.init().is_ok());
}

#[test]
fn null_block_consumes_everything() {
    let mut n = NullBlock {};
    assert_eq!(n.get_size(), usize::MAX);
    assert_eq!(n.get(12345).unwrap(), 0);
    n.set(12345, 99).unwrap();
    assert_eq!(n.get(12345).unwrap(), 0);
    assert_eq!(n.get32be(16).unwrap(), 0);
    n.set32be(16, 77).unwrap();
    assert_eq!(n.get32le(16).unwrap(), 0);
    n.set32le(16, 77).unwrap();
}
