//! Memory-bus composition: N heterogeneous devices presented as one
//! addressable device, with probing reads, broadcast writes and two-tier
//! error classification.
//!
//! Each device independently decides whether an address belongs to it: a
//! soft error (see [`crate::errors::is_soft`]) means "not mine" and never
//! fails the aggregate operation, while a fatal error aborts it, wrapped
//! with the 1-based position of the faulting device. A bus satisfies the
//! device capability itself, so buses can be nested.

use vstd::prelude::*;

use crate::bus::BusDevice;
use crate::errors::{is_soft, MemErr};

verus! {

/// Byte-level memory-device capability: byte get/set over an address, size
/// query, bulk delete, and flush. Behaviour is pinned to spec-level
/// functions of the device's abstract state (its view): for each mutating
/// method `m`, `m_next` gives the state after the call and `m_res` its
/// result.
pub trait MemoryBusDevice: BusDevice {
    /// Reported size (the highest address bound the device answers for).
    spec fn size_spec(pre: Self::V) -> usize;

    /// Result of a byte read at `addr`.
    spec fn get_spec(pre: Self::V, addr: usize) -> Result<u8, MemErr>;

    /// Abstract state after a byte read (a peripheral's read may
    /// consume what it yields).
    spec fn get_next(pre: Self::V, addr: usize) -> Self::V;

    /// Abstract state after a byte write.
    spec fn set_next(pre: Self::V, addr: usize, val: u8) -> Self::V;

    /// Result of a byte write.
    spec fn set_res(pre: Self::V, addr: usize, val: u8) -> Result<(), MemErr>;

    /// Abstract state after a bulk delete of `[from, to)`.
    spec fn delete_next(pre: Self::V, from: usize, to: usize) -> Self::V;

    /// Result of a bulk delete.
    spec fn delete_res(pre: Self::V, from: usize, to: usize) -> Result<(), MemErr>;

    /// Abstract state after a flush.
    spec fn flush_next(pre: Self::V) -> Self::V;

    /// Result of a flush.
    spec fn flush_res(pre: Self::V) -> Result<(), MemErr>;

    fn get_size(&self) -> (r: usize)
        ensures
            r == Self::size_spec(self@),
    ;

    fn get(&mut self, addr: usize) -> (r: Result<u8, MemErr>)
        ensures
            final(self)@ == Self::get_next(old(self)@, addr),
            r == Self::get_spec(old(self)@, addr),
    ;

    fn set(&mut self, addr: usize, val: u8) -> (r: Result<(), MemErr>)
        ensures
            final(self)@ == Self::set_next(old(self)@, addr, val),
            r == Self::set_res(old(self)@, addr, val),
    ;

    fn delete(&mut self, from: usize, to: usize) -> (r: Result<(), MemErr>)
        ensures
            final(self)@ == Self::delete_next(old(self)@, from, to),
            r == Self::delete_res(old(self)@, from, to),
    ;

    fn flush(&mut self) -> (r: Result<(), MemErr>)
        ensures
            final(self)@ == Self::flush_next(old(self)@),
            r == Self::flush_res(old(self)@),
    ;
}

/// Big-endian word capability on top of the byte-level one: native 32-bit
/// accessors, preferred by the CPU over four byte accesses.
pub trait MemoryBusDevice32be: MemoryBusDevice {
    /// Result of a big-endian 32-bit read at `addr`.
    spec fn get32be_spec(pre: Self::V, addr: usize) -> Result<u32, MemErr>;

    /// Abstract state after a big-endian 32-bit read.
    spec fn get32be_next(pre: Self::V, addr: usize) -> Self::V;

    /// Abstract state after a big-endian 32-bit write.
    spec fn set32be_next(pre: Self::V, addr: usize, val: u32) -> Self::V;

    /// Result of a big-endian 32-bit write.
    spec fn set32be_res(pre: Self::V, addr: usize, val: u32) -> Result<(), MemErr>;

    fn get32be(&mut self, addr: usize) -> (r: Result<u32, MemErr>)
        ensures
            final(self)@ == Self::get32be_next(old(self)@, addr),
            r == Self::get32be_spec(old(self)@, addr),
    ;

    fn set32be(&mut self, addr: usize, val: u32) -> (r: Result<(), MemErr>)
        ensures
            final(self)@ == Self::set32be_next(old(self)@, addr, val),
            r == Self::set32be_res(old(self)@, addr, val),
    ;
}

/// Little-endian word capability, mirroring [`MemoryBusDevice32be`].
pub trait MemoryBusDevice32le: MemoryBusDevice {
    /// Result of a little-endian 32-bit read at `addr`.
    spec fn get32le_spec(pre: Self::V, addr: usize) -> Result<u32, MemErr>;

    /// Abstract state after a little-endian 32-bit read.
    spec fn get32le_next(pre: Self::V, addr: usize) -> Self::V;

    /// Abstract state after a little-endian 32-bit write.
    spec fn set32le_next(pre: Self::V, addr: usize, val: u32) -> Self::V;

    /// Result of a little-endian 32-bit write.
    spec fn set32le_res(pre: Self::V, addr: usize, val: u32) -> Result<(), MemErr>;

    fn get32le(&mut self, addr: usize) -> (r: Result<u32, MemErr>)
        ensures
            final(self)@ == Self::get32le_next(old(self)@, addr),
            r == Self::get32le_spec(old(self)@, addr),
    ;

    fn set32le(&mut self, addr: usize, val: u32) -> (r: Result<(), MemErr>)
        ensures
            final(self)@ == Self::set32le_next(old(self)@, addr, val),
            r == Self::set32le_res(old(self)@, addr, val),
    ;
}

/// The views of a sequence of devices, in order.
pub open spec fn views_of<D: View>(devs: Seq<D>) -> Seq<D::V> {
    Seq::new(devs.len(), |i: int| devs[i]@)
}

/// What the bus answers when a device at 1-based position `pos` reports
/// `err`: soft errors are swallowed, fatal ones are wrapped with the
/// position.
pub open spec fn classify(err: MemErr, pos: usize) -> Result<(), MemErr> {
    if is_soft(err) {
        Ok(())
    } else {
        Err(MemErr::DeviceFault { pos, cause: Box::new(err) })
    }
}

/// Soft/fatal triage used by every bus operation: a soft error from the
/// device at 1-based position `pos` is swallowed, anything else aborts the
/// aggregate operation annotated with the position.
pub fn ehandlefatal(err: MemErr, pos: usize) -> (r: Result<(), MemErr>)
    ensures
        r == classify(err, pos),
{
    match err {
        MemErr::TooSmall { .. } => Ok(()),
        MemErr::TooBig { .. } => Ok(()),
        MemErr::NotImplemented => Ok(()),
        MemErr::NotApplicable { .. } => Ok(()),
        MemErr::InvalidAddr { .. } => Ok(()),
        MemErr::ReadOnly { .. } => Ok(()),
        MemErr::NoData { .. } => Ok(()),
        _ => Err(MemErr::DeviceFault { pos, cause: Box::new(err) }),
    }
}

/// Probing read over device views starting at index `i`: the first success
/// wins, soft errors fall through to the next device, a fatal error aborts
/// with the device's position, and exhaustion is itself a fatal error
/// naming how many devices were tried.
pub open spec fn probe_get_from<D: MemoryBusDevice>(devs: Seq<D::V>, addr: usize, i: int) -> Result<
    u8,
    MemErr,
>
    decreases devs.len() - i,
{
    if i < 0 || i >= devs.len() {
        Err(MemErr::AllDevicesFaulted { tried: devs.len() as usize })
    } else {
        let devs2 = devs.update(i, D::get_next(devs[i], addr));
        match D::get_spec(devs[i], addr) {
            Ok(v) => Ok(v),
            Err(e) => if is_soft(e) {
                probe_get_from::<D>(devs2, addr, i + 1)
            } else {
                Err(MemErr::DeviceFault { pos: (i + 1) as usize, cause: Box::new(e) })
            },
        }
    }
}

/// Device views after a probing read starting at index `i`: each probed
/// device undergoes its own read transition (a peripheral's read may
/// consume), and the probe stops at the first success or fatal error.
pub open spec fn probe_get_next<D: MemoryBusDevice>(devs: Seq<D::V>, addr: usize, i: int) -> Seq<
    D::V,
>
    decreases devs.len() - i,
{
    if i < 0 || i >= devs.len() {
        devs
    } else {
        let devs2 = devs.update(i, D::get_next(devs[i], addr));
        match D::get_spec(devs[i], addr) {
            Ok(_) => devs2,
            Err(e) => if is_soft(e) {
                probe_get_next::<D>(devs2, addr, i + 1)
            } else {
                devs2
            },
        }
    }
}

/// Device views after a broadcast byte write starting at index `i`: every
/// device sees the write, in order, until the first fatal error.
pub open spec fn bcast_set_next<D: MemoryBusDevice>(
    devs: Seq<D::V>,
    addr: usize,
    val: u8,
    i: int,
) -> Seq<D::V>
    decreases devs.len() - i,
{
    if i < 0 || i >= devs.len() {
        devs
    } else {
        let devs2 = devs.update(i, D::set_next(devs[i], addr, val));
        match D::set_res(devs[i], addr, val) {
            Ok(_) => bcast_set_next::<D>(devs2, addr, val, i + 1),
            Err(e) => if is_soft(e) {
                bcast_set_next::<D>(devs2, addr, val, i + 1)
            } else {
                devs2
            },
        }
    }
}

/// Result of a broadcast byte write starting at index `i`: soft errors are
/// swallowed per device, the first fatal error aborts with the device's
/// position.
pub open spec fn bcast_set_res<D: MemoryBusDevice>(
    devs: Seq<D::V>,
    addr: usize,
    val: u8,
    i: int,
) -> Result<(), MemErr>
    decreases devs.len() - i,
{
    if i < 0 || i >= devs.len() {
        Ok(())
    } else {
        let devs2 = devs.update(i, D::set_next(devs[i], addr, val));
        match D::set_res(devs[i], addr, val) {
            Ok(_) => bcast_set_res::<D>(devs2, addr, val, i + 1),
            Err(e) => if is_soft(e) {
                bcast_set_res::<D>(devs2, addr, val, i + 1)
            } else {
                Err(MemErr::DeviceFault { pos: (i + 1) as usize, cause: Box::new(e) })
            },
        }
    }
}

/// Device views after a broadcast bulk delete starting at index `i`.
pub open spec fn bcast_delete_next<D: MemoryBusDevice>(
    devs: Seq<D::V>,
    from: usize,
    to: usize,
    i: int,
) -> Seq<D::V>
    decreases devs.len() - i,
{
    if i < 0 || i >= devs.len() {
        devs
    } else {
        let devs2 = devs.update(i, D::delete_next(devs[i], from, to));
        match D::delete_res(devs[i], from, to) {
            Ok(_) => bcast_delete_next::<D>(devs2, from, to, i + 1),
            Err(e) => if is_soft(e) {
                bcast_delete_next::<D>(devs2, from, to, i + 1)
            } else {
                devs2
            },
        }
    }
}

/// Result of a broadcast bulk delete starting at index `i`.
pub open spec fn bcast_delete_res<D: MemoryBusDevice>(
    devs: Seq<D::V>,
    from: usize,
    to: usize,
    i: int,
) -> Result<(), MemErr>
    decreases devs.len() - i,
{
    if i < 0 || i >= devs.len() {
        Ok(())
    } else {
        let devs2 = devs.update(i, D::delete_next(devs[i], from, to));
        match D::delete_res(devs[i], from, to) {
            Ok(_) => bcast_delete_res::<D>(devs2, from, to, i + 1),
            Err(e) => if is_soft(e) {
                bcast_delete_res::<D>(devs2, from, to, i + 1)
            } else {
                Err(MemErr::DeviceFault { pos: (i + 1) as usize, cause: Box::new(e) })
            },
        }
    }
}

/// Device views after a broadcast flush starting at index `i`. Flush uses
/// the general soft classification (which already counts not-implemented
/// and not-applicable as soft).
pub open spec fn bcast_flush_next<D: MemoryBusDevice>(devs: Seq<D::V>, i: int) -> Seq<D::V>
    decreases devs.len() - i,
{
    if i < 0 || i >= devs.len() {
        devs
    } else {
        let devs2 = devs.update(i, D::flush_next(devs[i]));
        match D::flush_res(devs[i]) {
            Ok(_) => bcast_flush_next::<D>(devs2, i + 1),
            Err(e) => if is_soft(e) {
                bcast_flush_next::<D>(devs2, i + 1)
            } else {
                devs2
            },
        }
    }
}

/// Result of a broadcast flush starting at index `i`.
pub open spec fn bcast_flush_res<D: MemoryBusDevice>(devs: Seq<D::V>, i: int) -> Result<
    (),
    MemErr,
>
    decreases devs.len() - i,
{
    if i < 0 || i >= devs.len() {
        Ok(())
    } else {
        let devs2 = devs.update(i, D::flush_next(devs[i]));
        match D::flush_res(devs[i]) {
            Ok(_) => bcast_flush_res::<D>(devs2, i + 1),
            Err(e) => if is_soft(e) {
                bcast_flush_res::<D>(devs2, i + 1)
            } else {
                Err(MemErr::DeviceFault { pos: (i + 1) as usize, cause: Box::new(e) })
            },
        }
    }
}

/// Device views after forwarding one tick to every device, in order.
pub open spec fn tick_all_next<D: BusDevice>(devs: Seq<D::V>, i: int) -> Seq<D::V>
    decreases devs.len() - i,
{
    if i < 0 || i >= devs.len() {
        devs
    } else {
        tick_all_next::<D>(devs.update(i, D::tick_next(devs[i])), i + 1)
    }
}

/// Device views after sequential initialisation starting at index `i`:
/// the first failing device aborts the pass.
pub open spec fn init_all_next<D: BusDevice>(devs: Seq<D::V>, i: int) -> Seq<D::V>
    decreases devs.len() - i,
{
    if i < 0 || i >= devs.len() {
        devs
    } else {
        let devs2 = devs.update(i, D::init_next(devs[i]));
        match D::init_res(devs[i]) {
            Ok(_) => init_all_next::<D>(devs2, i + 1),
            Err(_) => devs2,
        }
    }
}

/// Result of sequential initialisation starting at index `i`: the first
/// error propagates with the failing device's 1-based position as context.
pub open spec fn init_all_res<D: BusDevice>(devs: Seq<D::V>, i: int) -> Result<(), MemErr>
    decreases devs.len() - i,
{
    if i < 0 || i >= devs.len() {
        Ok(())
    } else {
        let devs2 = devs.update(i, D::init_next(devs[i]));
        match D::init_res(devs[i]) {
            Ok(_) => init_all_res::<D>(devs2, i + 1),
            Err(e) => Err(MemErr::DeviceFault { pos: (i + 1) as usize, cause: Box::new(e) }),
        }
    }
}

/// Probing big-endian 32-bit read, mirroring [`probe_get_from`].
pub open spec fn probe_get32be_from<D: MemoryBusDevice32be>(
    devs: Seq<D::V>,
    addr: usize,
    i: int,
) -> Result<u32, MemErr>
    decreases devs.len() - i,
{
    if i < 0 || i >= devs.len() {
        Err(MemErr::AllDevicesFaulted { tried: devs.len() as usize })
    } else {
        let devs2 = devs.update(i, D::get32be_next(devs[i], addr));
        match D::get32be_spec(devs[i], addr) {
            Ok(v) => Ok(v),
            Err(e) => if is_soft(e) {
                probe_get32be_from::<D>(devs2, addr, i + 1)
            } else {
                Err(MemErr::DeviceFault { pos: (i + 1) as usize, cause: Box::new(e) })
            },
        }
    }
}

/// Device views after a probing big-endian 32-bit read, mirroring
/// [`probe_get_next`].
pub open spec fn probe_get32be_next<D: MemoryBusDevice32be>(
    devs: Seq<D::V>,
    addr: usize,
    i: int,
) -> Seq<D::V>
    decreases devs.len() - i,
{
    if i < 0 || i >= devs.len() {
        devs
    } else {
        let devs2 = devs.update(i, D::get32be_next(devs[i], addr));
        match D::get32be_spec(devs[i], addr) {
            Ok(_) => devs2,
            Err(e) => if is_soft(e) {
                probe_get32be_next::<D>(devs2, addr, i + 1)
            } else {
                devs2
            },
        }
    }
}

/// Device views after a broadcast big-endian 32-bit write, mirroring
/// [`bcast_set_next`].
pub open spec fn bcast_set32be_next<D: MemoryBusDevice32be>(
    devs: Seq<D::V>,
    addr: usize,
    val: u32,
    i: int,
) -> Seq<D::V>
    decreases devs.len() - i,
{
    if i < 0 || i >= devs.len() {
        devs
    } else {
        let devs2 = devs.update(i, D::set32be_next(devs[i], addr, val));
        match D::set32be_res(devs[i], addr, val) {
            Ok(_) => bcast_set32be_next::<D>(devs2, addr, val, i + 1),
            Err(e) => if is_soft(e) {
                bcast_set32be_next::<D>(devs2, addr, val, i + 1)
            } else {
                devs2
            },
        }
    }
}

/// Result of a broadcast big-endian 32-bit write, mirroring
/// [`bcast_set_res`].
pub open spec fn bcast_set32be_res<D: MemoryBusDevice32be>(
    devs: Seq<D::V>,
    addr: usize,
    val: u32,
    i: int,
) -> Result<(), MemErr>
    decreases devs.len() - i,
{
    if i < 0 || i >= devs.len() {
        Ok(())
    } else {
        let devs2 = devs.update(i, D::set32be_next(devs[i], addr, val));
        match D::set32be_res(devs[i], addr, val) {
            Ok(_) => bcast_set32be_res::<D>(devs2, addr, val, i + 1),
            Err(e) => if is_soft(e) {
                bcast_set32be_res::<D>(devs2, addr, val, i + 1)
            } else {
                Err(MemErr::DeviceFault { pos: (i + 1) as usize, cause: Box::new(e) })
            },
        }
    }
}

/// Probing little-endian 32-bit read, mirroring [`probe_get_from`].
pub open spec fn probe_get32le_from<D: MemoryBusDevice32le>(
    devs: Seq<D::V>,
    addr: usize,
    i: int,
) -> Result<u32, MemErr>
    decreases devs.len() - i,
{
    if i < 0 || i >= devs.len() {
        Err(MemErr::AllDevicesFaulted { tried: devs.len() as usize })
    } else {
        let devs2 = devs.update(i, D::get32le_next(devs[i], addr));
        match D::get32le_spec(devs[i], addr) {
            Ok(v) => Ok(v),
            Err(e) => if is_soft(e) {
                probe_get32le_from::<D>(devs2, addr, i + 1)
            } else {
                Err(MemErr::DeviceFault { pos: (i + 1) as usize, cause: Box::new(e) })
            },
        }
    }
}

/// Device views after a probing little-endian 32-bit read, mirroring
/// [`probe_get_next`].
pub open spec fn probe_get32le_next<D: MemoryBusDevice32le>(
    devs: Seq<D::V>,
    addr: usize,
    i: int,
) -> Seq<D::V>
    decreases devs.len() - i,
{
    if i < 0 || i >= devs.len() {
        devs
    } else {
        let devs2 = devs.update(i, D::get32le_next(devs[i], addr));
        match D::get32le_spec(devs[i], addr) {
            Ok(_) => devs2,
            Err(e) => if is_soft(e) {
                probe_get32le_next::<D>(devs2, addr, i + 1)
            } else {
                devs2
            },
        }
    }
}

/// Device views after a broadcast little-endian 32-bit write.
pub open spec fn bcast_set32le_next<D: MemoryBusDevice32le>(
    devs: Seq<D::V>,
    addr: usize,
    val: u32,
    i: int,
) -> Seq<D::V>
    decreases devs.len() - i,
{
    if i < 0 || i >= devs.len() {
        devs
    } else {
        let devs2 = devs.update(i, D::set32le_next(devs[i], addr, val));
        match D::set32le_res(devs[i], addr, val) {
            Ok(_) => bcast_set32le_next::<D>(devs2, addr, val, i + 1),
            Err(e) => if is_soft(e) {
                bcast_set32le_next::<D>(devs2, addr, val, i + 1)
            } else {
                devs2
            },
        }
    }
}

/// Result of a broadcast little-endian 32-bit write.
pub open spec fn bcast_set32le_res<D: MemoryBusDevice32le>(
    devs: Seq<D::V>,
    addr: usize,
    val: u32,
    i: int,
) -> Result<(), MemErr>
    decreases devs.len() - i,
{
    if i < 0 || i >= devs.len() {
        Ok(())
    } else {
        let devs2 = devs.update(i, D::set32le_next(devs[i], addr, val));
        match D::set32le_res(devs[i], addr, val) {
            Ok(_) => bcast_set32le_res::<D>(devs2, addr, val, i + 1),
            Err(e) => if is_soft(e) {
                bcast_set32le_res::<D>(devs2, addr, val, i + 1)
            } else {
                Err(MemErr::DeviceFault { pos: (i + 1) as usize, cause: Box::new(e) })
            },
        }
    }
}

/// Maximum of the devices' reported sizes from index `i` on (the address
/// space's apparent upper bound).
pub open spec fn max_size_from<D: MemoryBusDevice>(devs: Seq<D::V>, i: int) -> usize
    decreases devs.len() - i,
{
    if i < 0 || i >= devs.len() {
        0
    } else {
        let rest = max_size_from::<D>(devs, i + 1);
        let s = D::size_spec(devs[i]);
        if s >= rest {
            s
        } else {
            rest
        }
    }
}

fn bus_get<D: MemoryBusDevice>(devs: &mut Vec<D>, addr: usize) -> (r: Result<u8, MemErr>)
    ensures
        views_of(final(devs)@) == probe_get_next::<D>(views_of(old(devs)@), addr, 0),
        r == probe_get_from::<D>(views_of(old(devs)@), addr, 0),
{
    let ghost orig: Seq<D::V> = views_of(devs@);
    let n = devs.len();
    let mut i: usize = 0;
    while i < n
        invariant
            i <= n,
            n == devs@.len(),
            orig == views_of(old(devs)@),
            probe_get_next::<D>(orig, addr, 0) == probe_get_next::<D>(
                views_of(devs@),
                addr,
                i as int,
            ),
            probe_get_from::<D>(orig, addr, 0) == probe_get_from::<D>(
                views_of(devs@),
                addr,
                i as int,
            ),
        decreases n - i,
    {
        let ghost pre: Seq<D::V> = views_of(devs@);
        let d = &mut devs[i];
        let res = d.get(addr);
        proof {
            assert(views_of(devs@) =~= pre.update(i as int, D::get_next(pre[i as int], addr)));
        }
        match res {
            Ok(v) => {
                proof {
                    assert(probe_get_next::<D>(pre, addr, i as int) == views_of(devs@));
                }
                return Ok(v);
            },
            Err(e) => {
                let r2 = ehandlefatal(e, i + 1);
                match r2 {
                    Ok(_) => {},
                    Err(f) => {
                        proof {
                            assert(probe_get_next::<D>(pre, addr, i as int) == views_of(devs@));
                            assert(probe_get_from::<D>(pre, addr, i as int) == Err::<u8, MemErr>(
                                f,
                            ));
                        }
                        return Err(f);
                    },
                }
            },
        }
        i = i + 1;
    }
    Err(MemErr::AllDevicesFaulted { tried: n })
}

fn bus_set<D: MemoryBusDevice>(devs: &mut Vec<D>, addr: usize, val: u8) -> (r: Result<
    (),
    MemErr,
>)
    ensures
        views_of(final(devs)@) == bcast_set_next::<D>(views_of(old(devs)@), addr, val, 0),
        r == bcast_set_res::<D>(views_of(old(devs)@), addr, val, 0),
{
    let ghost orig: Seq<D::V> = views_of(devs@);
    let n = devs.len();
    let mut i: usize = 0;
    while i < n
        invariant
            i <= n,
            n == devs@.len(),
            orig == views_of(old(devs)@),
            bcast_set_next::<D>(orig, addr, val, 0) == bcast_set_next::<D>(
                views_of(devs@),
                addr,
                val,
                i as int,
            ),
            bcast_set_res::<D>(orig, addr, val, 0) == bcast_set_res::<D>(
                views_of(devs@),
                addr,
                val,
                i as int,
            ),
        decreases n - i,
    {
        let ghost pre: Seq<D::V> = views_of(devs@);
        let d = &mut devs[i];
        let res = d.set(addr, val);
        proof {
            assert(views_of(devs@) =~= pre.update(i as int, D::set_next(pre[i as int], addr, val)));
        }
        match res {
            Ok(_) => {},
            Err(e) => {
                let r2 = ehandlefatal(e, i + 1);
                match r2 {
                    Ok(_) => {},
                    Err(f) => {
                        proof {
                            assert(bcast_set_next::<D>(pre, addr, val, i as int) == views_of(
                                devs@,
                            ));
                            assert(bcast_set_res::<D>(pre, addr, val, i as int) == Err::<
                                (),
                                MemErr,
                            >(f));
                        }
                        return Err(f);
                    },
                }
            },
        }
        i = i + 1;
    }
    Ok(())
}

fn bus_delete<D: MemoryBusDevice>(devs: &mut Vec<D>, from: usize, to: usize) -> (r: Result<
    (),
    MemErr,
>)
    ensures
        views_of(final(devs)@) == bcast_delete_next::<D>(views_of(old(devs)@), from, to, 0),
        r == bcast_delete_res::<D>(views_of(old(devs)@), from, to, 0),
{
    let ghost orig: Seq<D::V> = views_of(devs@);
    let n = devs.len();
    let mut i: usize = 0;
    while i < n
        invariant
            i <= n,
            n == devs@.len(),
            orig == views_of(old(devs)@),
            bcast_delete_next::<D>(orig, from, to, 0) == bcast_delete_next::<D>(
                views_of(devs@),
                from,
                to,
                i as int,
            ),
            bcast_delete_res::<D>(orig, from, to, 0) == bcast_delete_res::<D>(
                views_of(devs@),
                from,
                to,
                i as int,
            ),
        decreases n - i,
    {
        let ghost pre: Seq<D::V> = views_of(devs@);
        let d = &mut devs[i];
        let res = d.delete(from, to);
        proof {
            assert(views_of(devs@) =~= pre.update(
                i as int,
                D::delete_next(pre[i as int], from, to),
            ));
        }
        match res {
            Ok(_) => {},
            Err(e) => {
                let r2 = ehandlefatal(e, i + 1);
                match r2 {
                    Ok(_) => {},
                    Err(f) => {
                        proof {
                            assert(bcast_delete_next::<D>(pre, from, to, i as int) == views_of(
                                devs@,
                            ));
                            assert(bcast_delete_res::<D>(pre, from, to, i as int) == Err::<
                                (),
                                MemErr,
                            >(f));
                        }
                        return Err(f);
                    },
                }
            },
        }
        i = i + 1;
    }
    Ok(())
}

fn bus_flush<D: MemoryBusDevice>(devs: &mut Vec<D>) -> (r: Result<(), MemErr>)
    ensures
        views_of(final(devs)@) == bcast_flush_next::<D>(views_of(old(devs)@), 0),
        r == bcast_flush_res::<D>(views_of(old(devs)@), 0),
{
    let ghost orig: Seq<D::V> = views_of(devs@);
    let n = devs.len();
    let mut i: usize = 0;
    while i < n
        invariant
            i <= n,
            n == devs@.len(),
            orig == views_of(old(devs)@),
            bcast_flush_next::<D>(orig, 0) == bcast_flush_next::<D>(views_of(devs@), i as int),
            bcast_flush_res::<D>(orig, 0) == bcast_flush_res::<D>(views_of(devs@), i as int),
        decreases n - i,
    {
        let ghost pre: Seq<D::V> = views_of(devs@);
        let d = &mut devs[i];
        let res = d.flush();
        proof {
            assert(views_of(devs@) =~= pre.update(i as int, D::flush_next(pre[i as int])));
        }
        match res {
            Ok(_) => {},
            Err(e) => {
                let r2 = ehandlefatal(e, i + 1);
                match r2 {
                    Ok(_) => {},
                    Err(f) => {
                        proof {
                            assert(bcast_flush_next::<D>(pre, i as int) == views_of(devs@));
                            assert(bcast_flush_res::<D>(pre, i as int) == Err::<(), MemErr>(f));
                        }
                        return Err(f);
                    },
                }
            },
        }
        i = i + 1;
    }
    Ok(())
}

fn bus_tick<D: BusDevice>(devs: &mut Vec<D>)
    ensures
        views_of(final(devs)@) == tick_all_next::<D>(views_of(old(devs)@), 0),
{
    let ghost orig: Seq<D::V> = views_of(devs@);
    let n = devs.len();
    let mut i: usize = 0;
    while i < n
        invariant
            i <= n,
            n == devs@.len(),
            orig == views_of(old(devs)@),
            tick_all_next::<D>(orig, 0) == tick_all_next::<D>(views_of(devs@), i as int),
        decreases n - i,
    {
        let ghost pre: Seq<D::V> = views_of(devs@);
        let d = &mut devs[i];
        d.tick();
        proof {
            assert(views_of(devs@) =~= pre.update(i as int, D::tick_next(pre[i as int])));
        }
        i = i + 1;
    }
}

fn bus_init<D: BusDevice>(devs: &mut Vec<D>) -> (r: Result<(), MemErr>)
    ensures
        views_of(final(devs)@) == init_all_next::<D>(views_of(old(devs)@), 0),
        r == init_all_res::<D>(views_of(old(devs)@), 0),
{
    let ghost orig: Seq<D::V> = views_of(devs@);
    let n = devs.len();
    let mut i: usize = 0;
    while i < n
        invariant
            i <= n,
            n == devs@.len(),
            orig == views_of(old(devs)@),
            init_all_next::<D>(orig, 0) == init_all_next::<D>(views_of(devs@), i as int),
            init_all_res::<D>(orig, 0) == init_all_res::<D>(views_of(devs@), i as int),
        decreases n - i,
    {
        let ghost pre: Seq<D::V> = views_of(devs@);
        let d = &mut devs[i];
        let res = d.init();
        proof {
            assert(views_of(devs@) =~= pre.update(i as int, D::init_next(pre[i as int])));
        }
        match res {
            Ok(_) => {},
            Err(e) => {
                proof {
                    assert(init_all_next::<D>(pre, i as int) == views_of(devs@));
                }
                return Err(MemErr::DeviceFault { pos: i + 1, cause: Box::new(e) });
            },
        }
        i = i + 1;
    }
    Ok(())
}

fn bus_size<D: MemoryBusDevice>(devs: &Vec<D>) -> (r: usize)
    ensures
        r == max_size_from::<D>(views_of(devs@), 0),
{
    let n = devs.len();
    let mut acc: usize = 0;
    let mut i: usize = 0;
    while i < n
        invariant
            i <= n,
            n == devs@.len(),
            max_size_from::<D>(views_of(devs@), 0) == (if acc >= max_size_from::<D>(
                views_of(devs@),
                i as int,
            ) {
                acc
            } else {
                max_size_from::<D>(views_of(devs@), i as int)
            }),
        decreases n - i,
    {
        let s = devs[i].get_size();
        if s > acc {
            acc = s;
        }
        i = i + 1;
    }
    acc
}

fn bus_get32be<D: MemoryBusDevice32be>(devs: &mut Vec<D>, addr: usize) -> (r: Result<
    u32,
    MemErr,
>)
    ensures
        views_of(final(devs)@) == probe_get32be_next::<D>(views_of(old(devs)@), addr, 0),
        r == probe_get32be_from::<D>(views_of(old(devs)@), addr, 0),
{
    let ghost orig: Seq<D::V> = views_of(devs@);
    let n = devs.len();
    let mut i: usize = 0;
    while i < n
        invariant
            i <= n,
            n == devs@.len(),
            orig == views_of(old(devs)@),
            probe_get32be_next::<D>(orig, addr, 0) == probe_get32be_next::<D>(
                views_of(devs@),
                addr,
                i as int,
            ),
            probe_get32be_from::<D>(orig, addr, 0) == probe_get32be_from::<D>(
                views_of(devs@),
                addr,
                i as int,
            ),
        decreases n - i,
    {
        let ghost pre: Seq<D::V> = views_of(devs@);
        let d = &mut devs[i];
        let res = d.get32be(addr);
        proof {
            assert(views_of(devs@) =~= pre.update(
                i as int,
                D::get32be_next(pre[i as int], addr),
            ));
        }
        match res {
            Ok(v) => {
                proof {
                    assert(probe_get32be_next::<D>(pre, addr, i as int) == views_of(devs@));
                }
                return Ok(v);
            },
            Err(e) => {
                let r2 = ehandlefatal(e, i + 1);
                match r2 {
                    Ok(_) => {},
                    Err(f) => {
                        proof {
                            assert(probe_get32be_next::<D>(pre, addr, i as int) == views_of(
                                devs@,
                            ));
                            assert(probe_get32be_from::<D>(pre, addr, i as int) == Err::<
                                u32,
                                MemErr,
                            >(f));
                        }
                        return Err(f);
                    },
                }
            },
        }
        i = i + 1;
    }
    Err(MemErr::AllDevicesFaulted { tried: n })
}

fn bus_set32be<D: MemoryBusDevice32be>(devs: &mut Vec<D>, addr: usize, val: u32) -> (r: Result<
    (),
    MemErr,
>)
    ensures
        views_of(final(devs)@) == bcast_set32be_next::<D>(views_of(old(devs)@), addr, val, 0),
        r == bcast_set32be_res::<D>(views_of(old(devs)@), addr, val, 0),
{
    let ghost orig: Seq<D::V> = views_of(devs@);
    let n = devs.len();
    let mut i: usize = 0;
    while i < n
        invariant
            i <= n,
            n == devs@.len(),
            orig == views_of(old(devs)@),
            bcast_set32be_next::<D>(orig, addr, val, 0) == bcast_set32be_next::<D>(
                views_of(devs@),
                addr,
                val,
                i as int,
            ),
            bcast_set32be_res::<D>(orig, addr, val, 0) == bcast_set32be_res::<D>(
                views_of(devs@),
                addr,
                val,
                i as int,
            ),
        decreases n - i,
    {
        let ghost pre: Seq<D::V> = views_of(devs@);
        let d = &mut devs[i];
        let res = d.set32be(addr, val);
        proof {
            assert(views_of(devs@) =~= pre.update(
                i as int,
                D::set32be_next(pre[i as int], addr, val),
            ));
        }
        match res {
            Ok(_) => {},
            Err(e) => {
                let r2 = ehandlefatal(e, i + 1);
                match r2 {
                    Ok(_) => {},
                    Err(f) => {
                        proof {
                            assert(bcast_set32be_next::<D>(pre, addr, val, i as int) == views_of(
                                devs@,
                            ));
                            assert(bcast_set32be_res::<D>(pre, addr, val, i as int) == Err::<
                                (),
                                MemErr,
                            >(f));
                        }
                        return Err(f);
                    },
                }
            },
        }
        i = i + 1;
    }
    Ok(())
}

fn bus_get32le<D: MemoryBusDevice32le>(devs: &mut Vec<D>, addr: usize) -> (r: Result<
    u32,
    MemErr,
>)
    ensures
        views_of(final(devs)@) == probe_get32le_next::<D>(views_of(old(devs)@), addr, 0),
        r == probe_get32le_from::<D>(views_of(old(devs)@), addr, 0),
{
    let ghost orig: Seq<D::V> = views_of(devs@);
    let n = devs.len();
    let mut i: usize = 0;
    while i < n
        invariant
            i <= n,
            n == devs@.len(),
            orig == views_of(old(devs)@),
            probe_get32le_next::<D>(orig, addr, 0) == probe_get32le_next::<D>(
                views_of(devs@),
                addr,
                i as int,
            ),
            probe_get32le_from::<D>(orig, addr, 0) == probe_get32le_from::<D>(
                views_of(devs@),
                addr,
                i as int,
            ),
        decreases n - i,
    {
        let ghost pre: Seq<D::V> = views_of(devs@);
        let d = &mut devs[i];
        let res = d.get32le(addr);
        proof {
            assert(views_of(devs@) =~= pre.update(
                i as int,
                D::get32le_next(pre[i as int], addr),
            ));
        }
        match res {
            Ok(v) => {
                proof {
                    assert(probe_get32le_next::<D>(pre, addr, i as int) == views_of(devs@));
                }
                return Ok(v);
            },
            Err(e) => {
                let r2 = ehandlefatal(e, i + 1);
                match r2 {
                    Ok(_) => {},
                    Err(f) => {
                        proof {
                            assert(probe_get32le_next::<D>(pre, addr, i as int) == views_of(
                                devs@,
                            ));
                            assert(probe_get32le_from::<D>(pre, addr, i as int) == Err::<
                                u32,
                                MemErr,
                            >(f));
                        }
                        return Err(f);
                    },
                }
            },
        }
        i = i + 1;
    }
    Err(MemErr::AllDevicesFaulted { tried: n })
}

fn bus_set32le<D: MemoryBusDevice32le>(devs: &mut Vec<D>, addr: usize, val: u32) -> (r: Result<
    (),
    MemErr,
>)
    ensures
        views_of(final(devs)@) == bcast_set32le_next::<D>(views_of(old(devs)@), addr, val, 0),
        r == bcast_set32le_res::<D>(views_of(old(devs)@), addr, val, 0),
{
    let ghost orig: Seq<D::V> = views_of(devs@);
    let n = devs.len();
    let mut i: usize = 0;
    while i < n
        invariant
            i <= n,
            n == devs@.len(),
            orig == views_of(old(devs)@),
            bcast_set32le_next::<D>(orig, addr, val, 0) == bcast_set32le_next::<D>(
                views_of(devs@),
                addr,
                val,
                i as int,
            ),
            bcast_set32le_res::<D>(orig, addr, val, 0) == bcast_set32le_res::<D>(
                views_of(devs@),
                addr,
                val,
                i as int,
            ),
        decreases n - i,
    {
        let ghost pre: Seq<D::V> = views_of(devs@);
        let d = &mut devs[i];
        let res = d.set32le(addr, val);
        proof {
            assert(views_of(devs@) =~= pre.update(
                i as int,
                D::set32le_next(pre[i as int], addr, val),
            ));
        }
        match res {
            Ok(_) => {},
            Err(e) => {
                let r2 = ehandlefatal(e, i + 1);
                match r2 {
                    Ok(_) => {},
                    Err(f) => {
                        proof {
                            assert(bcast_set32le_next::<D>(pre, addr, val, i as int) == views_of(
                                devs@,
                            ));
                            assert(bcast_set32le_res::<D>(pre, addr, val, i as int) == Err::<
                                (),
                                MemErr,
                            >(f));
                        }
                        return Err(f);
                    },
                }
            },
        }
        i = i + 1;
    }
    Ok(())
}

/// A big-endian 32-bit memory bus: an ordered, exclusively owned collection
/// of devices, itself satisfying the device capability (so buses nest).
/// Its abstract state is the sequence of its devices' abstract states, in
/// registration order; the order never changes after construction.
pub struct MemoryBus32be<D: MemoryBusDevice32be> {
    devices: Vec<D>,
}

impl<D: MemoryBusDevice32be> View for MemoryBus32be<D> {
    type V = Seq<D::V>;

    closed spec fn view(&self) -> Seq<D::V> {
        views_of(self.devices@)
    }
}

impl<D: MemoryBusDevice32be> MemoryBus32be<D> {
    /// Build a bus over already-constructed devices; order is significant
    /// (reads probe in this order) and fixed for the bus's lifetime.
    pub fn new(devs: Vec<D>) -> (r: MemoryBus32be<D>)
        ensures
            r@ == views_of(devs@),
    {
        MemoryBus32be { devices: devs }
    }

    /// How many devices the bus holds.
    pub fn device_count(&self) -> (n: usize)
        ensures
            n == self@.len(),
    {
        self.devices.len()
    }

    /// Mutable access to the device at position `i` of the registration
    /// order, for a driver that services device queues between steps;
    /// the collection itself (order and count) cannot change through it.
    pub fn device_at(&mut self, i: usize) -> (d: &mut D)
        requires
            i < old(self)@.len(),
        ensures
            d@ == old(self)@[i as int],
            final(self)@ == old(self)@.update(i as int, final(d)@),
    {
        let d = &mut self.devices[i];
        proof {
            assert(views_of(old(self).devices@.update(i as int, *final(d))) =~= views_of(
                old(self).devices@,
            ).update(i as int, final(d)@));
        }
        d
    }
}

impl<D: MemoryBusDevice32be> BusDevice for MemoryBus32be<D> {
    open spec fn tick_next(pre: Seq<D::V>) -> Seq<D::V> {
        tick_all_next::<D>(pre, 0)
    }

    open spec fn init_next(pre: Seq<D::V>) -> Seq<D::V> {
        init_all_next::<D>(pre, 0)
    }

    open spec fn init_res(pre: Seq<D::V>) -> Result<(), MemErr> {
        init_all_res::<D>(pre, 0)
    }

    fn tick(&mut self) {
        bus_tick(&mut self.devices);
    }

    fn init(&mut self) -> (r: Result<(), MemErr>) {
        bus_init(&mut self.devices)
    }
}

impl<D: MemoryBusDevice32be> MemoryBusDevice for MemoryBus32be<D> {
    open spec fn size_spec(pre: Seq<D::V>) -> usize {
        max_size_from::<D>(pre, 0)
    }

    open spec fn get_spec(pre: Seq<D::V>, addr: usize) -> Result<u8, MemErr> {
        probe_get_from::<D>(pre, addr, 0)
    }

    open spec fn get_next(pre: Seq<D::V>, addr: usize) -> Seq<D::V> {
        probe_get_next::<D>(pre, addr, 0)
    }

    open spec fn set_next(pre: Seq<D::V>, addr: usize, val: u8) -> Seq<D::V> {
        bcast_set_next::<D>(pre, addr, val, 0)
    }

    open spec fn set_res(pre: Seq<D::V>, addr: usize, val: u8) -> Result<(), MemErr> {
        bcast_set_res::<D>(pre, addr, val, 0)
    }

    open spec fn delete_next(pre: Seq<D::V>, from: usize, to: usize) -> Seq<D::V> {
        bcast_delete_next::<D>(pre, from, to, 0)
    }

    open spec fn delete_res(pre: Seq<D::V>, from: usize, to: usize) -> Result<(), MemErr> {
        bcast_delete_res::<D>(pre, from, to, 0)
    }

    open spec fn flush_next(pre: Seq<D::V>) -> Seq<D::V> {
        bcast_flush_next::<D>(pre, 0)
    }

    open spec fn flush_res(pre: Seq<D::V>) -> Result<(), MemErr> {
        bcast_flush_res::<D>(pre, 0)
    }

    fn get_size(&self) -> (r: usize) {
        bus_size(&self.devices)
    }

    fn get(&mut self, addr: usize) -> (r: Result<u8, MemErr>) {
        bus_get(&mut self.devices, addr)
    }

    fn set(&mut self, addr: usize, val: u8) -> (r: Result<(), MemErr>) {
        bus_set(&mut self.devices, addr, val)
    }

    fn delete(&mut self, from: usize, to: usize) -> (r: Result<(), MemErr>) {
        bus_delete(&mut self.devices, from, to)
    }

    fn flush(&mut self) -> (r: Result<(), MemErr>) {
        bus_flush(&mut self.devices)
    }
}

impl<D: MemoryBusDevice32be> MemoryBusDevice32be for MemoryBus32be<D> {
    open spec fn get32be_spec(pre: Seq<D::V>, addr: usize) -> Result<u32, MemErr> {
        probe_get32be_from::<D>(pre, addr, 0)
    }

    open spec fn get32be_next(pre: Seq<D::V>, addr: usize) -> Seq<D::V> {
        probe_get32be_next::<D>(pre, addr, 0)
    }

    open spec fn set32be_next(pre: Seq<D::V>, addr: usize, val: u32) -> Seq<D::V> {
        bcast_set32be_next::<D>(pre, addr, val, 0)
    }

    open spec fn set32be_res(pre: Seq<D::V>, addr: usize, val: u32) -> Result<(), MemErr> {
        bcast_set32be_res::<D>(pre, addr, val, 0)
    }

    fn get32be(&mut self, addr: usize) -> (r: Result<u32, MemErr>) {
        bus_get32be(&mut self.devices, addr)
    }

    fn set32be(&mut self, addr: usize, val: u32) -> (r: Result<(), MemErr>) {
        bus_set32be(&mut self.devices, addr, val)
    }
}

/// A little-endian 32-bit memory bus, mirroring [`MemoryBus32be`].
pub struct MemoryBus32le<D: MemoryBusDevice32le> {
    devices: Vec<D>,
}

impl<D: MemoryBusDevice32le> View for MemoryBus32le<D> {
    type V = Seq<D::V>;

    closed spec fn view(&self) -> Seq<D::V> {
        views_of(self.devices@)
    }
}

impl<D: MemoryBusDevice32le> MemoryBus32le<D> {
    /// Build a bus over already-constructed devices; order is significant
    /// (reads probe in this order) and fixed for the bus's lifetime.
    pub fn new(devs: Vec<D>) -> (r: MemoryBus32le<D>)
        ensures
            r@ == views_of(devs@),
    {
        MemoryBus32le { devices: devs }
    }
}

impl<D: MemoryBusDevice32le> BusDevice for MemoryBus32le<D> {
    open spec fn tick_next(pre: Seq<D::V>) -> Seq<D::V> {
        tick_all_next::<D>(pre, 0)
    }

    open spec fn init_next(pre: Seq<D::V>) -> Seq<D::V> {
        init_all_next::<D>(pre, 0)
    }

    open spec fn init_res(pre: Seq<D::V>) -> Result<(), MemErr> {
        init_all_res::<D>(pre, 0)
    }

    fn tick(&mut self) {
        bus_tick(&mut self.devices);
    }

    fn init(&mut self) -> (r: Result<(), MemErr>) {
        bus_init(&mut self.devices)
    }
}

impl<D: MemoryBusDevice32le> MemoryBusDevice for MemoryBus32le<D> {
    open spec fn size_spec(pre: Seq<D::V>) -> usize {
        max_size_from::<D>(pre, 0)
    }

    open spec fn get_spec(pre: Seq<D::V>, addr: usize) -> Result<u8, MemErr> {
        probe_get_from::<D>(pre, addr, 0)
    }

    open spec fn get_next(pre: Seq<D::V>, addr: usize) -> Seq<D::V> {
        probe_get_next::<D>(pre, addr, 0)
    }

    open spec fn set_next(pre: Seq<D::V>, addr: usize, val: u8) -> Seq<D::V> {
        bcast_set_next::<D>(pre, addr, val, 0)
    }

    open spec fn set_res(pre: Seq<D::V>, addr: usize, val: u8) -> Result<(), MemErr> {
        bcast_set_res::<D>(pre, addr, val, 0)
    }

    open spec fn delete_next(pre: Seq<D::V>, from: usize, to: usize) -> Seq<D::V> {
        bcast_delete_next::<D>(pre, from, to, 0)
    }

    open spec fn delete_res(pre: Seq<D::V>, from: usize, to: usize) -> Result<(), MemErr> {
        bcast_delete_res::<D>(pre, from, to, 0)
    }

    open spec fn flush_next(pre: Seq<D::V>) -> Seq<D::V> {
        bcast_flush_next::<D>(pre, 0)
    }

    open spec fn flush_res(pre: Seq<D::V>) -> Result<(), MemErr> {
        bcast_flush_res::<D>(pre, 0)
    }

    fn get_size(&self) -> (r: usize) {
        bus_size(&self.devices)
    }

    fn get(&mut self, addr: usize) -> (r: Result<u8, MemErr>) {
        bus_get(&mut self.devices, addr)
    }

    fn set(&mut self, addr: usize, val: u8) -> (r: Result<(), MemErr>) {
        bus_set(&mut self.devices, addr, val)
    }

    fn delete(&mut self, from: usize, to: usize) -> (r: Result<(), MemErr>) {
        bus_delete(&mut self.devices, from, to)
    }

    fn flush(&mut self) -> (r: Result<(), MemErr>) {
        bus_flush(&mut self.devices)
    }
}

impl<D: MemoryBusDevice32le> MemoryBusDevice32le for MemoryBus32le<D> {
    open spec fn get32le_spec(pre: Seq<D::V>, addr: usize) -> Result<u32, MemErr> {
        probe_get32le_from::<D>(pre, addr, 0)
    }

    open spec fn get32le_next(pre: Seq<D::V>, addr: usize) -> Seq<D::V> {
        probe_get32le_next::<D>(pre, addr, 0)
    }

    open spec fn set32le_next(pre: Seq<D::V>, addr: usize, val: u32) -> Seq<D::V> {
        bcast_set32le_next::<D>(pre, addr, val, 0)
    }

    open spec fn set32le_res(pre: Seq<D::V>, addr: usize, val: u32) -> Result<(), MemErr> {
        bcast_set32le_res::<D>(pre, addr, val, 0)
    }

    fn get32le(&mut self, addr: usize) -> (r: Result<u32, MemErr>) {
        bus_get32le(&mut self.devices, addr)
    }

    fn set32le(&mut self, addr: usize, val: u32) -> (r: Result<(), MemErr>) {
        bus_set32le(&mut self.devices, addr, val)
    }
}

proof fn lemma_probe_order_from<D: MemoryBusDevice>(
    devs: Seq<D::V>,
    addr: usize,
    k: int,
    v: u8,
    j: int,
)
    requires
        0 <= j <= k < devs.len(),
        forall|i: int|
            j <= i < k ==> ((#[trigger] D::get_spec(devs[i], addr)) matches Err(e)
                && is_soft(e)),
        D::get_spec(devs[k], addr) == Ok::<u8, MemErr>(v),
    ensures
        probe_get_from::<D>(devs, addr, j) == Ok::<u8, MemErr>(v),
    decreases k - j,
{
    if j < k {
        let devs2 = devs.update(j, D::get_next(devs[j], addr));
        assert forall|i: int|
            j + 1 <= i < k implies ((#[trigger] D::get_spec(devs2[i], addr)) matches Err(e)
            && is_soft(e)) by {
            assert(devs2[i] == devs[i]);
            assert((D::get_spec(devs[i], addr)) matches Err(e) && is_soft(e));
        }
        assert(devs2[k] == devs[k]);
        lemma_probe_order_from::<D>(devs2, addr, k, v, j + 1);
    }
}

/// Probe-order law: on a bus where every device before position `k`
/// answers a soft error for `addr` and the device at `k` answers `v`, a
/// read of `addr` returns `v` — the probe walks the first `k` devices and
/// stops at the first success, regardless of what stands after it.
pub proof fn lemma_probe_order<D: MemoryBusDevice>(devs: Seq<D::V>, addr: usize, k: int, v: u8)
    requires
        0 <= k < devs.len(),
        forall|i: int|
            0 <= i < k ==> ((#[trigger] D::get_spec(devs[i], addr)) matches Err(e)
                && is_soft(e)),
        D::get_spec(devs[k], addr) == Ok::<u8, MemErr>(v),
    ensures
        probe_get_from::<D>(devs, addr, 0) == Ok::<u8, MemErr>(v),
{
    lemma_probe_order_from::<D>(devs, addr, k, v, 0);
}

proof fn lemma_all_soft_exhaustion_from<D: MemoryBusDevice>(devs: Seq<D::V>, addr: usize, j: int)
    requires
        0 <= j <= devs.len(),
        forall|i: int|
            j <= i < devs.len() ==> ((#[trigger] D::get_spec(devs[i], addr)) matches Err(e)
                && is_soft(e)),
    ensures
        probe_get_from::<D>(devs, addr, j) == Err::<u8, MemErr>(
            MemErr::AllDevicesFaulted { tried: devs.len() as usize },
        ),
    decreases devs.len() - j,
{
    if j < devs.len() {
        let devs2 = devs.update(j, D::get_next(devs[j], addr));
        assert forall|i: int|
            j + 1 <= i < devs2.len() implies ((#[trigger] D::get_spec(devs2[i], addr)) matches Err(
            e,
        ) && is_soft(e)) by {
            assert(devs2[i] == devs[i]);
            assert((D::get_spec(devs[i], addr)) matches Err(e) && is_soft(e));
        }
        lemma_all_soft_exhaustion_from::<D>(devs2, addr, j + 1);
    }
}

/// All-soft exhaustion law: if every device answers a soft error for
/// `addr`, a read of `addr` probes each device once and fails with a fatal
/// error naming the number of devices tried.
pub proof fn lemma_all_soft_exhaustion<D: MemoryBusDevice>(devs: Seq<D::V>, addr: usize)
    requires
        forall|i: int|
            0 <= i < devs.len() ==> ((#[trigger] D::get_spec(devs[i], addr)) matches Err(e)
                && is_soft(e)),
    ensures
        probe_get_from::<D>(devs, addr, 0) == Err::<u8, MemErr>(
            MemErr::AllDevicesFaulted { tried: devs.len() as usize },
        ),
{
    lemma_all_soft_exhaustion_from::<D>(devs, addr, 0);
}

proof fn lemma_broadcast_write_from<D: MemoryBusDevice>(
    devs: Seq<D::V>,
    addr: usize,
    val: u8,
    i: int,
)
    requires
        0 <= i <= devs.len(),
        forall|j: int|
            i <= j < devs.len() ==> ((#[trigger] D::set_res(devs[j], addr, val)) matches Ok(_) || (
            D::set_res(devs[j], addr, val) matches Err(e)
                && is_soft(e))),
    ensures
        bcast_set_res::<D>(devs, addr, val, i) == Ok::<(), MemErr>(()),
        bcast_set_next::<D>(devs, addr, val, i).len() == devs.len(),
        forall|j: int| 0 <= j < i ==> bcast_set_next::<D>(devs, addr, val, i)[j] == devs[j],
        forall|j: int|
            i <= j < devs.len() ==> bcast_set_next::<D>(devs, addr, val, i)[j] == D::set_next(
                devs[j],
                addr,
                val,
            ),
    decreases devs.len() - i,
{
    if i < devs.len() {
        let devs2 = devs.update(i, D::set_next(devs[i], addr, val));
        assert forall|j: int|
            i + 1 <= j < devs2.len() implies ((#[trigger] D::set_res(devs2[j], addr, val)) matches
        Ok(_) || (D::set_res(devs2[j], addr, val) matches Err(e) && is_soft(e))) by {
            assert(devs2[j] == devs[j]);
            assert((D::set_res(devs[j], addr, val)) matches Ok(_) || (D::set_res(
                devs[j],
                addr,
                val,
            ) matches Err(e)
                && is_soft(e)));
        }
        lemma_broadcast_write_from::<D>(devs2, addr, val, i + 1);
        assert((D::set_res(devs[i], addr, val)) matches Ok(_) || ((D::set_res(
            devs[i],
            addr,
            val,
        )) matches Err(e)
            && is_soft(e)));
        assert(bcast_set_next::<D>(devs, addr, val, i) == bcast_set_next::<D>(
            devs2,
            addr,
            val,
            i + 1,
        ));
        assert forall|j: int| 0 <= j < i implies bcast_set_next::<D>(devs, addr, val, i)[j]
            == devs[j] by {
            assert(bcast_set_next::<D>(devs2, addr, val, i + 1)[j] == devs2[j]);
            assert(devs2[j] == devs[j]);
        }
        assert forall|j: int| i <= j < devs.len() implies bcast_set_next::<D>(devs, addr, val, i)[j]
            == D::set_next(devs[j], addr, val) by {
            if j == i {
                assert(bcast_set_next::<D>(devs2, addr, val, i + 1)[j] == devs2[j]);
            } else {
                assert(bcast_set_next::<D>(devs2, addr, val, i + 1)[j] == D::set_next(
                    devs2[j],
                    addr,
                    val,
                ));
                assert(devs2[j] == devs[j]);
            }
        }
    }
}

/// Broadcast-write law: a write is handed to every device regardless of
/// whether an earlier one handled it; when no device faults fatally the
/// aggregate write succeeds and each device ends in the state its own
/// write-transition gives it (devices that answered a soft "not mine" are
/// free to leave their state unchanged in that transition).
pub proof fn lemma_broadcast_write<D: MemoryBusDevice>(devs: Seq<D::V>, addr: usize, val: u8)
    requires
        forall|j: int|
            0 <= j < devs.len() ==> ((#[trigger] D::set_res(devs[j], addr, val)) matches Ok(_) || (
            D::set_res(devs[j], addr, val) matches Err(e)
                && is_soft(e))),
    ensures
        bcast_set_res::<D>(devs, addr, val, 0) == Ok::<(), MemErr>(()),
        bcast_set_next::<D>(devs, addr, val, 0).len() == devs.len(),
        forall|j: int|
            0 <= j < devs.len() ==> bcast_set_next::<D>(devs, addr, val, 0)[j] == D::set_next(
                devs[j],
                addr,
                val,
            ),
{
    lemma_broadcast_write_from::<D>(devs, addr, val, 0);
}

} // verus!
