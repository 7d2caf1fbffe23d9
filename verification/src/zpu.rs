//! The ZPU engine: a stack-based, big-endian, 32-bit CPU executing one
//! opcode per `step()` against an exclusively owned memory device.
//!
//! Every step is specified by a spec-level interpreter over the CPU's
//! abstract state ([`ZpuState`]); the executable engine is proved to
//! produce exactly the interpreter's state and result. All `pc`/`sp`
//! arithmetic wraps modulo 2^32, and every address derived from `sp` is
//! 4-byte aligned by masking its low two bits before use.

use vstd::prelude::*;

use crate::cpu::{comb16_of, comb32_of, hi8, lo8, CPUState, CPU};
use crate::errors::{Error, MemErr, MemOp};
use crate::memorybus::MemoryBusDevice32be;
use crate::ram::RamBlock;

verus! {

/// Abstract state of a ZPU: the register file, the execution-state tag,
/// the immediate-chaining flag, the hardware-emulation switch, and the
/// abstract state of the owned memory.
pub struct ZpuState<MV> {
    pub sp: u32,
    pub pc: u32,
    pub last_im: bool,
    pub state: CPUState,
    pub mem: MV,
    pub hwemus: bool,
}

/// The ZPU engine. It exclusively owns its memory (usually a
/// [`crate::memorybus::MemoryBus32be`]); `sp` and `pc` are public so an
/// external loader can seed them before `start()`.
pub struct ZPU<M: MemoryBusDevice32be> {
    pub sp: u32,
    pub pc: u32,
    last_im: bool,
    state: CPUState,
    pub mem: M,
    hwemus: bool,
}

impl<M: MemoryBusDevice32be> View for ZPU<M> {
    type V = ZpuState<M::V>;

    closed spec fn view(&self) -> ZpuState<M::V> {
        ZpuState {
            sp: self.sp,
            pc: self.pc,
            last_im: self.last_im,
            state: self.state,
            mem: self.mem@,
            hwemus: self.hwemus,
        }
    }
}

/// Addition wrapping modulo 2^32.
pub open spec fn wadd32(a: u32, b: u32) -> u32 {
    ((a + b) % 0x1_0000_0000) as u32
}

/// Subtraction wrapping modulo 2^32.
pub open spec fn wsub32(a: u32, b: u32) -> u32 {
    ((a + 0x1_0000_0000 - b) % 0x1_0000_0000) as u32
}

/// Multiplication wrapping modulo 2^32.
pub open spec fn wmul32(a: u32, b: u32) -> u32 {
    ((a * b) % 0x1_0000_0000) as u32
}

/// Clear the low two bits of an address, forcing 4-byte alignment.
pub open spec fn align4(a: u32) -> u32 {
    a & 0xFFFF_FFFC
}

/// The signed value of a 32-bit word read as two's complement.
pub open spec fn s32(v: u32) -> int {
    if v >= 0x8000_0000 {
        v - 0x1_0000_0000
    } else {
        v as int
    }
}

/// The 32-bit word whose two's-complement value is `-s32(v)` (wrapping,
/// so the most negative word negates to itself).
pub open spec fn wneg32(v: u32) -> u32 {
    ((0x1_0000_0000 - v) % 0x1_0000_0000) as u32
}

fn wadd(a: u32, b: u32) -> (r: u32)
    ensures
        r == wadd32(a, b),
{
    let s: u64 = (a as u64) + (b as u64);
    if s >= 0x1_0000_0000 {
        (s - 0x1_0000_0000) as u32
    } else {
        s as u32
    }
}

fn wsub(a: u32, b: u32) -> (r: u32)
    ensures
        r == wsub32(a, b),
{
    if a >= b {
        a - b
    } else {
        (0xFFFF_FFFFu32 - b) + a + 1
    }
}

fn wneg(v: u32) -> (r: u32)
    ensures
        r == wneg32(v),
{
    if v == 0 {
        0
    } else {
        (0xFFFF_FFFFu32 - v) + 1
    }
}

/// Reverse the bits of one byte (parallel swap of odd/even bits, pairs,
/// then nibbles).
pub open spec fn flipb_spec(b: u8) -> u8 {
    let v0 = b as u32;
    let v1 = ((v0 >> 1) & 0x55555555) | ((v0 & 0x55555555) << 1);
    let v2 = ((v1 >> 2) & 0x33333333) | ((v1 & 0x33333333) << 2);
    ((((v2 >> 4) & 0x0F0F0F0F) | ((v2 & 0x0F0F0F0F) << 4)) & 0xFF) as u8
}

/// Reverse the bits of one byte.
pub fn flipb(b: u8) -> (r: u8)
    ensures
        r == flipb_spec(b),
{
    let v0: u32 = b as u32;
    let v1: u32 = ((v0 >> 1) & 0x55555555) | ((v0 & 0x55555555) << 1);
    let v2: u32 = ((v1 >> 2) & 0x33333333) | ((v1 & 0x33333333) << 2);
    ((((v2 >> 4) & 0x0F0F0F0F) | ((v2 & 0x0F0F0F0F) << 4)) & 0xFF) as u8
}

/// Reverse the bits of a 32-bit word: reverse the byte order, then
/// reverse the bits inside each byte.
pub open spec fn flip32_spec(v: u32) -> u32 {
    comb32_of(
        flipb_spec(crate::cpu::be3(v)),
        flipb_spec(crate::cpu::be2(v)),
        flipb_spec(crate::cpu::be1(v)),
        flipb_spec(crate::cpu::be0(v)),
    )
}

/// Reverse the bits of a 32-bit word (the FLIP opcode's algorithm; the
/// parallel per-byte reversal is the canonical choice here).
pub fn flip32(val: u32) -> (r: u32)
    ensures
        r == flip32_spec(val),
{
    let f3 = flipb((val & 0xFF) as u8);
    let f2 = flipb(((val >> 8) & 0xFF) as u8);
    let f1 = flipb(((val >> 16) & 0xFF) as u8);
    let f0 = flipb(((val >> 24) & 0xFF) as u8);
    (f3 as u32) * 0x1000000 + (f2 as u32) * 0x10000 + (f1 as u32) * 0x100 + (f0 as u32)
}

/// Bit reversal swaps the extremal bits: the law that pins `flipb` down.
pub proof fn lemma_flipb_reverses(b: u8)
    ensures
        forall|i: u32| i < 8 ==> #[trigger] ((flipb_spec(b) >> i) & 1) == (b >> ((7 - i) as u32))
            & 1,
{
    assert(forall|i: u32|
        i < 8 ==> #[trigger] ((flipb_spec(b) >> i) & 1) == (b >> ((7 - i) as u32)) & 1)
        by (bit_vector);
}

/// Reinterpret a 32-bit word as a signed integer (two's complement).
pub fn u2i32(v: u32) -> (r: i32)
    ensures
        r == s32(v),
{
    if v >= 0x8000_0000 {
        -((0xFFFF_FFFFu32 - v) as i32) - 1
    } else {
        v as i32
    }
}

/// 1 for true, 0 for false.
pub open spec fn bool2u32_spec(v: bool) -> u32 {
    if v {
        1u32
    } else {
        0u32
    }
}

/// 1 for true, 0 for false.
pub fn bool2u32(v: bool) -> (r: u32)
    ensures
        r == bool2u32_spec(v),
{
    if v {
        1
    } else {
        0
    }
}

/// Logical shifter with a signed count: positive shifts left, negative
/// shifts right by the magnitude, and a magnitude of 32 or more yields
/// zero.
pub open spec fn gshift32_spec(val: u32, shift: int) -> u32 {
    if shift == 0 {
        val
    } else if shift >= 32 || shift <= -32 {
        0
    } else if shift > 0 {
        val << (shift as u32)
    } else {
        val >> ((-shift) as u32)
    }
}

/// Logical shifter with a signed count (left when positive, right when
/// negative, zero once the magnitude reaches 32).
pub fn gshift32(val: u32, shift: i32) -> (r: u32)
    ensures
        r == gshift32_spec(val, shift as int),
{
    if shift == 0 {
        return val;
    }
    if shift >= 32 || shift <= -32 {
        return 0;
    }
    if shift > 0 {
        return val << (shift as u32);
    }
    val >> ((-shift) as u32)
}

/// Arithmetic variant of [`gshift32_spec`]: an arithmetic right shift
/// (negative count) of a word whose sign bit is set fills the bits
/// vacated at the top with ones (the all-ones pattern shifted the same
/// way, complemented, ORed into the shifted result). Zero and left
/// shifts are the plain logical shift.
pub open spec fn agshift32_spec(val: u32, shift: int) -> u32 {
    let tmp = gshift32_spec(val, shift);
    if shift < 0 && val & 0x8000_0000 != 0 {
        (gshift32_spec(0xFFFF_FFFFu32, shift) ^ 0xFFFF_FFFF) | tmp
    } else {
        tmp
    }
}

/// Arithmetic shifter with a signed count, sign-extending on right
/// shifts of a negative operand; left shifts are logical.
pub fn agshift32(val: u32, shift: i32) -> (r: u32)
    ensures
        r == agshift32_spec(val, shift as int),
{
    let tmp = gshift32(val, shift);
    if shift < 0 && val & 0x8000_0000 != 0 {
        return (gshift32(0xFFFF_FFFF, shift) ^ 0xFFFF_FFFF) | tmp;
    }
    tmp
}

/// Result of reading a 32-bit word through the memory's native accessor.
pub open spec fn zget32<M: MemoryBusDevice32be>(z: ZpuState<M::V>, addr: u32) -> Result<
    u32,
    Error,
> {
    match M::get32be_spec(z.mem, addr as usize) {
        Ok(v) => Ok(v),
        Err(e) => Err(Error::Mem { during: MemOp::Load32, cause: e }),
    }
}

/// State after reading a 32-bit word (a peripheral's read may consume).
pub open spec fn zget32_next<M: MemoryBusDevice32be>(z: ZpuState<M::V>, addr: u32) -> ZpuState<
    M::V,
> {
    ZpuState { mem: M::get32be_next(z.mem, addr as usize), ..z }
}

/// State after writing a 32-bit word through the memory's native
/// accessor.
pub open spec fn zset32_next<M: MemoryBusDevice32be>(
    z: ZpuState<M::V>,
    addr: u32,
    val: u32,
) -> ZpuState<M::V> {
    ZpuState { mem: M::set32be_next(z.mem, addr as usize, val), ..z }
}

/// Result of writing a 32-bit word through the memory's native accessor.
pub open spec fn zset32_res<M: MemoryBusDevice32be>(
    z: ZpuState<M::V>,
    addr: u32,
    val: u32,
) -> Result<(), Error> {
    match M::set32be_res(z.mem, addr as usize, val) {
        Ok(_) => Ok(()),
        Err(e) => Err(Error::Mem { during: MemOp::Store32, cause: e }),
    }
}

/// Result of reading a 16-bit half-word as two ordered byte reads
/// (addresses wrap modulo 2^32; the second read sees whatever the first
/// one did to the device).
pub open spec fn zget16<M: MemoryBusDevice32be>(z: ZpuState<M::V>, addr: u32) -> Result<
    u16,
    Error,
> {
    match M::get_spec(z.mem, addr as usize) {
        Err(e) => Err(Error::Mem { during: MemOp::Load16, cause: e }),
        Ok(b0) => {
            let m1 = M::get_next(z.mem, addr as usize);
            match M::get_spec(m1, wadd32(addr, 1) as usize) {
                Err(e) => Err(Error::Mem { during: MemOp::Load16, cause: e }),
                Ok(b1) => Ok(comb16_of(b0, b1)),
            }
        },
    }
}

/// State after reading a 16-bit half-word: the first byte read always
/// happens, the second only if the first succeeded.
pub open spec fn zget16_next<M: MemoryBusDevice32be>(z: ZpuState<M::V>, addr: u32) -> ZpuState<
    M::V,
> {
    let m1 = M::get_next(z.mem, addr as usize);
    match M::get_spec(z.mem, addr as usize) {
        Err(_) => ZpuState { mem: m1, ..z },
        Ok(_) => ZpuState { mem: M::get_next(m1, wadd32(addr, 1) as usize), ..z },
    }
}

/// State after writing a 16-bit half-word as two ordered byte writes; the
/// second write happens only if the first one succeeded.
pub open spec fn zset16_next<M: MemoryBusDevice32be>(
    z: ZpuState<M::V>,
    addr: u32,
    val: u16,
) -> ZpuState<M::V> {
    let m1 = M::set_next(z.mem, addr as usize, hi8(val));
    match M::set_res(z.mem, addr as usize, hi8(val)) {
        Err(_) => ZpuState { mem: m1, ..z },
        Ok(_) => ZpuState { mem: M::set_next(m1, wadd32(addr, 1) as usize, lo8(val)), ..z },
    }
}

/// Result of writing a 16-bit half-word as two ordered byte writes.
pub open spec fn zset16_res<M: MemoryBusDevice32be>(
    z: ZpuState<M::V>,
    addr: u32,
    val: u16,
) -> Result<(), Error> {
    match M::set_res(z.mem, addr as usize, hi8(val)) {
        Err(e) => Err(Error::Mem { during: MemOp::Store16, cause: e }),
        Ok(_) => {
            let m1 = M::set_next(z.mem, addr as usize, hi8(val));
            match M::set_res(m1, wadd32(addr, 1) as usize, lo8(val)) {
                Err(e) => Err(Error::Mem { during: MemOp::Store16, cause: e }),
                Ok(_) => Ok(()),
            }
        },
    }
}

/// State after a stack push: `sp` moves down by 4 only if the word store
/// at the new address succeeded (the memory keeps whatever the failed
/// store did to it).
pub open spec fn push_next<M: MemoryBusDevice32be>(z: ZpuState<M::V>, val: u32) -> ZpuState<
    M::V,
> {
    let nsp = wsub32(z.sp, 4);
    match M::set32be_res(z.mem, nsp as usize, val) {
        Ok(_) => ZpuState { sp: nsp, mem: M::set32be_next(z.mem, nsp as usize, val), ..z },
        Err(_) => ZpuState { mem: M::set32be_next(z.mem, nsp as usize, val), ..z },
    }
}

/// Result of a stack push.
pub open spec fn push_res<M: MemoryBusDevice32be>(z: ZpuState<M::V>, val: u32) -> Result<
    (),
    Error,
> {
    match M::set32be_res(z.mem, wsub32(z.sp, 4) as usize, val) {
        Ok(_) => Ok(()),
        Err(e) => Err(Error::Mem { during: MemOp::StackPush, cause: e }),
    }
}

/// State after a stack pop: the word load at `sp` always happens (and
/// may change a peripheral); on success `sp` moves up by 4 and is
/// forced 4-byte aligned.
pub open spec fn pop_next<M: MemoryBusDevice32be>(z: ZpuState<M::V>) -> ZpuState<M::V> {
    let m1 = M::get32be_next(z.mem, z.sp as usize);
    match M::get32be_spec(z.mem, z.sp as usize) {
        Ok(_) => ZpuState { sp: align4(wadd32(z.sp, 4)), mem: m1, ..z },
        Err(_) => ZpuState { mem: m1, ..z },
    }
}

/// Result of a stack pop: the word at `sp`.
pub open spec fn pop_res<M: MemoryBusDevice32be>(z: ZpuState<M::V>) -> Result<u32, Error> {
    match M::get32be_spec(z.mem, z.sp as usize) {
        Ok(v) => Ok(v),
        Err(e) => Err(Error::Mem { during: MemOp::StackPop, cause: e }),
    }
}

impl<M: MemoryBusDevice32be> ZPU<M> {
    /// A fresh engine owning `mem`: registers zeroed, state `Stopped`,
    /// immediate-chaining flag clear. `emus` selects whether EMULATE
    /// opcodes are attempted natively or always trapped to software.
    pub fn new(mem: M, emus: bool) -> (r: ZPU<M>)
        ensures
            r@ == (ZpuState {
                sp: 0u32,
                pc: 0u32,
                last_im: false,
                state: CPUState::Stopped,
                mem: mem@,
                hwemus: emus,
            }),
    {
        ZPU { pc: 0, sp: 0, last_im: false, state: CPUState::Stopped, mem, hwemus: emus }
    }

    /// Set a 32-bit word in memory, big endian.
    pub fn set32(&mut self, addr: u32, val: u32) -> (r: Result<(), Error>)
        ensures
            final(self)@ == zset32_next::<M>(old(self)@, addr, val),
            r == zset32_res::<M>(old(self)@, addr, val),
    {
        match self.mem.set32be(addr as usize, val) {
            Ok(_) => Ok(()),
            Err(e) => Err(Error::Mem { during: MemOp::Store32, cause: e }),
        }
    }

    /// Get a 32-bit word from memory, big endian.
    pub fn get32(&mut self, addr: u32) -> (r: Result<u32, Error>)
        ensures
            final(self)@ == zget32_next::<M>(old(self)@, addr),
            r == zget32::<M>(old(self)@, addr),
    {
        match self.mem.get32be(addr as usize) {
            Ok(v) => Ok(v),
            Err(e) => Err(Error::Mem { during: MemOp::Load32, cause: e }),
        }
    }

    /// Set a 16-bit half-word in memory as two big-endian byte writes.
    pub fn set16(&mut self, addr: u32, val: u16) -> (r: Result<(), Error>)
        ensures
            final(self)@ == zset16_next::<M>(old(self)@, addr, val),
            r == zset16_res::<M>(old(self)@, addr, val),
    {
        let b0 = ((val >> 8) & 0xFF) as u8;
        let b1 = (val & 0xFF) as u8;
        match self.mem.set(addr as usize, b0) {
            Ok(_) => {},
            Err(e) => {
                return Err(Error::Mem { during: MemOp::Store16, cause: e });
            },
        }
        let addr2 = wadd(addr, 1);
        match self.mem.set(addr2 as usize, b1) {
            Ok(_) => Ok(()),
            Err(e) => Err(Error::Mem { during: MemOp::Store16, cause: e }),
        }
    }

    /// Get a 16-bit half-word from memory as two big-endian byte reads.
    pub fn get16(&mut self, addr: u32) -> (r: Result<u16, Error>)
        ensures
            final(self)@ == zget16_next::<M>(old(self)@, addr),
            r == zget16::<M>(old(self)@, addr),
    {
        let b0 = match self.mem.get(addr as usize) {
            Ok(b) => b,
            Err(e) => {
                return Err(Error::Mem { during: MemOp::Load16, cause: e });
            },
        };
        let addr2 = wadd(addr, 1);
        let b1 = match self.mem.get(addr2 as usize) {
            Ok(b) => b,
            Err(e) => {
                return Err(Error::Mem { during: MemOp::Load16, cause: e });
            },
        };
        Ok((b0 as u16) * 0x100 + (b1 as u16))
    }

    /// Stack push: decrement `sp` by 4, then word-store `val` at the new
    /// `sp`.
    pub fn v_push(&mut self, val: u32) -> (r: Result<(), Error>)
        ensures
            final(self)@ == push_next::<M>(old(self)@, val),
            r == push_res::<M>(old(self)@, val),
    {
        let newsp = wsub(self.sp, 4);
        match self.mem.set32be(newsp as usize, val) {
            Ok(_) => {
                self.sp = newsp;
                Ok(())
            },
            Err(e) => Err(Error::Mem { during: MemOp::StackPush, cause: e }),
        }
    }

    /// Stack pop: word-load at `sp`, then increment `sp` by 4 and force
    /// 4-byte alignment.
    pub fn v_pop(&mut self) -> (r: Result<u32, Error>)
        ensures
            final(self)@ == pop_next::<M>(old(self)@),
            r == pop_res::<M>(old(self)@),
    {
        match self.mem.get32be(self.sp as usize) {
            Ok(v) => {
                self.sp = wadd(self.sp, 4) & 0xFFFF_FFFC;
                Ok(v)
            },
            Err(e) => Err(Error::Mem { during: MemOp::StackPop, cause: e }),
        }
    }

    /// The exact-match half of the decode table: one of the thirteen
    /// fixed opcodes, executed on a state whose immediate flag is
    /// already cleared.
    #[verifier::rlimit(100)]
    fn step_table(&mut self, op: u8, lim: bool) -> (r: Result<(), Error>)
        requires
            op == 0x00 || op == 0x02 || (0x04 <= op && op <= 0x0D),
        ensures
            final(self)@ == step_op::<M>(old(self)@, op, lim).0,
            r == step_op::<M>(old(self)@, op, lim).1,
    {
        let sp = self.sp;
        if op == 0x00 {
            // BREAKPOINT
            self.pc = wadd(self.pc, 1);
            self.state = CPUState::Sleeping;
            return Ok(());
        }
        if op == 0x02 {
            // PUSHSP
            self.v_push(sp)?;
            self.pc = wadd(self.pc, 1);
            return Ok(());
        }
        if op == 0x04 {
            // POPPC
            let v = self.v_pop()?;
            self.pc = v;
            return Ok(());
        }
        if op == 0x05 {
            // ADD
            let a = self.v_pop()?;
            let b = self.v_pop()?;
            self.v_push(wadd(a, b))?;
            self.pc = wadd(self.pc, 1);
            return Ok(());
        }
        if op == 0x06 {
            // AND
            let a = self.v_pop()?;
            let b = self.v_pop()?;
            self.v_push(a & b)?;
            self.pc = wadd(self.pc, 1);
            return Ok(());
        }
        if op == 0x07 {
            // OR
            let a = self.v_pop()?;
            let b = self.v_pop()?;
            self.v_push(a | b)?;
            self.pc = wadd(self.pc, 1);
            return Ok(());
        }
        if op == 0x08 {
            // LOAD
            let a = self.get32(sp)?;
            let val = self.get32(a & 0xFFFF_FFFC)?;
            self.set32(sp, val)?;
            self.pc = wadd(self.pc, 1);
            return Ok(());
        }
        if op == 0x09 {
            // NOT
            let v = self.v_pop()?;
            self.v_push(!v)?;
            self.pc = wadd(self.pc, 1);
            return Ok(());
        }
        if op == 0x0A {
            // FLIP
            let val = self.get32(sp)?;
            self.set32(sp, flip32(val))?;
            self.pc = wadd(self.pc, 1);
            return Ok(());
        }
        if op == 0x0B {
            // NOP
            self.pc = wadd(self.pc, 1);
            return Ok(());
        }
        if op == 0x0C {
            // STORE
            let a = self.v_pop()?;
            let v = self.v_pop()?;
            self.set32(a & 0xFFFF_FFFC, v)?;
            self.pc = wadd(self.pc, 1);
            return Ok(());
        }
        // POPSP
        let v = self.v_pop()?;
        self.sp = v & 0xFFFF_FFFC;
        self.pc = wadd(self.pc, 1);
        Ok(())
    }

    /// The immediate-load opcode, on a state whose immediate flag is
    /// already cleared; `lim` is the flag's pre-step value.
    #[verifier::rlimit(100)]
    fn step_im(&mut self, op: u8, lim: bool) -> (r: Result<(), Error>)
        requires
            !(op == 0x00 || op == 0x02 || (0x04 <= op && op <= 0x0D)),
            op & 0x80 == 0x80,
        ensures
            final(self)@ == step_op::<M>(old(self)@, op, lim).0,
            r == step_op::<M>(old(self)@, op, lim).1,
    {
        self.last_im = true;
        self.pc = wadd(self.pc, 1);
        let i = op & 0x7F;
        if lim {
            let prev = self.v_pop()?;
            let val = ((prev & 0x1FFFFFFF) << 7) | (i as u32);
            self.v_push(val)?;
            return Ok(());
        }
        if i & 0x40 != 0 {
            self.v_push((i as u32) | 0xFFFFFF80)?;
            return Ok(());
        }
        self.v_push(i as u32)?;
        Ok(())
    }

    /// The EMULATE family: the native extended operation when the
    /// hardware-emulation flag is set and the slot is implemented, the
    /// software trap otherwise.
    #[verifier::rlimit(100)]
    fn step_emulate(&mut self, op: u8, lim: bool) -> (r: Result<(), Error>)
        requires
            !(op == 0x00 || op == 0x02 || (0x04 <= op && op <= 0x0D)),
            op & 0x80 != 0x80,
            op & 0xE0 != 0x40,
            op & 0xE0 != 0x60,
            op & 0xE0 == 0x20,
        ensures
            final(self)@ == step_op::<M>(old(self)@, op, lim).0,
            r == step_op::<M>(old(self)@, op, lim).1,
    {
        let pc = self.pc;
        let eop = op & 0x1F;
        let found = if self.hwemus {
            zpu_emulates(self, eop)?
        } else {
            false
        };
        if !found {
            self.v_push(wadd(pc, 1))?;
            self.pc = (eop as u32) << 5;
        }
        Ok(())
    }

    /// The bit-field half of the decode table: immediate loads, the
    /// stack-relative families, EMULATE, and the decode fault.
    #[verifier::rlimit(100)]
    fn step_fields(&mut self, op: u8, lim: bool) -> (r: Result<(), Error>)
        requires
            !(op == 0x00 || op == 0x02 || (0x04 <= op && op <= 0x0D)),
        ensures
            final(self)@ == step_op::<M>(old(self)@, op, lim).0,
            r == step_op::<M>(old(self)@, op, lim).1,
    {
        let sp = self.sp;
        if op & 0x80 == 0x80 {
            return self.step_im(op, lim);
        }
        if op & 0xE0 == 0x40 {
            // STORESP
            let idx = (((op ^ 0x10) & 0x1F) as u32) << 2;
            let bsp = wadd(sp, idx) & 0xFFFF_FFFC;
            let val = self.v_pop()?;
            self.set32(bsp, val)?;
            self.pc = wadd(self.pc, 1);
            return Ok(());
        }
        if op & 0xE0 == 0x60 {
            // LOADSP
            let idx = (((op ^ 0x10) & 0x1F) as u32) << 2;
            let addr = wadd(sp, idx) & 0xFFFF_FFFC;
            let val = self.get32(addr)?;
            self.v_push(val)?;
            self.pc = wadd(self.pc, 1);
            return Ok(());
        }
        if op & 0xE0 == 0x20 {
            return self.step_emulate(op, lim);
        }
        if op & 0xF0 == 0x10 {
            // ADDSP
            let idx = ((op & 0x0F) as u32) << 2;
            let addr = wadd(sp, idx) & 0xFFFF_FFFC;
            let val = self.get32(addr)?;
            let pval = self.v_pop()?;
            self.v_push(wadd(val, pval))?;
            self.pc = wadd(self.pc, 1);
            return Ok(());
        }

        self.state = CPUState::Stopped;
        Err(Error::Decode { op })
    }
}

/// Absolute value.
pub open spec fn iabs(x: int) -> int {
    if x < 0 {
        -x
    } else {
        x
    }
}

/// Truncating signed division of two words (dividend `t`, divisor `n`,
/// which must not be zero), wrapping on the one overflow case: the most
/// negative word divided by minus one yields itself.
pub open spec fn sdiv32(t: u32, n: u32) -> u32 {
    let q = iabs(s32(t)) / iabs(s32(n));
    if (s32(t) < 0) != (s32(n) < 0) {
        wneg32(q as u32)
    } else {
        q as u32
    }
}

/// Remainder of truncating signed division (sign follows the dividend
/// `t`; the divisor `n` must not be zero).
pub open spec fn smod32(t: u32, n: u32) -> u32 {
    let m = iabs(s32(t)) % iabs(s32(n));
    if s32(t) < 0 {
        wneg32(m as u32)
    } else {
        m as u32
    }
}

/// Push `val`, then advance `pc` by one on success: the common tail of
/// the value-producing opcodes.
pub open spec fn push_adv<M: MemoryBusDevice32be>(z: ZpuState<M::V>, val: u32) -> (
    ZpuState<M::V>,
    Result<(), Error>,
) {
    match push_res::<M>(z, val) {
        Ok(_) => (ZpuState { pc: wadd32(z.pc, 1), ..push_next::<M>(z, val) }, Ok(())),
        Err(e) => (push_next::<M>(z, val), Err(e)),
    }
}

/// Pop the top of stack `t`, pop the next word `n`, push `f(t, n)`, and
/// advance `pc`: the shape of every two-operand opcode.
pub open spec fn binop2<M: MemoryBusDevice32be>(
    z: ZpuState<M::V>,
    f: spec_fn(u32, u32) -> u32,
) -> (ZpuState<M::V>, Result<(), Error>) {
    let z1 = pop_next::<M>(z);
    match pop_res::<M>(z) {
        Err(e) => (z1, Err(e)),
        Ok(t) => {
            let z2 = pop_next::<M>(z1);
            match pop_res::<M>(z1) {
                Err(e) => (z2, Err(e)),
                Ok(n) => push_adv::<M>(z2, f(t, n)),
            }
        },
    }
}

/// [`binop2`] with the extended-operation result type (`Ok(true)` marks
/// the slot implemented).
pub open spec fn binop2e<M: MemoryBusDevice32be>(
    z: ZpuState<M::V>,
    f: spec_fn(u32, u32) -> u32,
) -> (ZpuState<M::V>, Result<bool, Error>) {
    let zr = binop2::<M>(z, f);
    match zr.1 {
        Ok(_) => (zr.0, Ok(true)),
        Err(e) => (zr.0, Err(e)),
    }
}

/// The software trap taken for an EMULATE opcode that is not executed
/// natively: push the return address `pc + 1` and jump to the handler
/// resident at `index * 32`.
pub open spec fn emu_trap<M: MemoryBusDevice32be>(z: ZpuState<M::V>, eop: u8) -> (
    ZpuState<M::V>,
    Result<(), Error>,
) {
    let ra = wadd32(z.pc, 1);
    match push_res::<M>(z, ra) {
        Err(e) => (push_next::<M>(z, ra), Err(e)),
        Ok(_) => (ZpuState { pc: (eop as u32) << 5, ..push_next::<M>(z, ra) }, Ok(())),
    }
}

/// One extended (EMULATE) operation on state `z`, given the low five bits
/// of the opcode. `Ok(true)` means the slot is implemented and was
/// executed; `Ok(false)` means the slot is reserved/unimplemented and the
/// state is untouched, so the caller falls back to the software trap.
pub open spec fn emulate_op<M: MemoryBusDevice32be>(z: ZpuState<M::V>, op: u8) -> (
    ZpuState<M::V>,
    Result<bool, Error>,
)
{
    if op == 2 {
        // LOADH
        let za = zget32_next::<M>(z, z.sp);
        match zget32::<M>(z, z.sp) {
            Err(e) => (za, Err(e)),
            Ok(a) => {
                let zh = zget16_next::<M>(za, a);
                match zget16::<M>(za, a) {
                    Err(e) => (zh, Err(e)),
                    Ok(h) => match zset32_res::<M>(zh, z.sp, h as u32) {
                        Err(e) => (zset32_next::<M>(zh, z.sp, h as u32), Err(e)),
                        Ok(_) => (
                            ZpuState {
                                pc: wadd32(z.pc, 1),
                                ..zset32_next::<M>(zh, z.sp, h as u32)
                            },
                            Ok(true),
                        ),
                    },
                }
            },
        }
    } else if op == 3 {
        // STOREH
        let z1 = pop_next::<M>(z);
        match pop_res::<M>(z) {
            Err(e) => (z1, Err(e)),
            Ok(a) => {
                let z2 = pop_next::<M>(z1);
                match pop_res::<M>(z1) {
                    Err(e) => (z2, Err(e)),
                    Ok(v) => {
                        let h = (v & 0xFFFF) as u16;
                        match zset16_res::<M>(z2, a, h) {
                            Err(e) => (zset16_next::<M>(z2, a, h), Err(e)),
                            Ok(_) => (
                                ZpuState { pc: wadd32(z.pc, 1), ..zset16_next::<M>(z2, a, h) },
                                Ok(true),
                            ),
                        }
                    },
                }
            },
        }
    } else if op == 4 {
        // LESSTHAN (signed)
        binop2e::<M>(z, |t: u32, n: u32| bool2u32_spec(s32(t) < s32(n)))
    } else if op == 5 {
        // LESSTHANEQUAL (signed)
        binop2e::<M>(z, |t: u32, n: u32| bool2u32_spec(s32(t) <= s32(n)))
    } else if op == 6 {
        // ULESSTHAN
        binop2e::<M>(z, |t: u32, n: u32| bool2u32_spec(t < n))
    } else if op == 7 {
        // ULESSTHANEQUAL
        binop2e::<M>(z, |t: u32, n: u32| bool2u32_spec(t <= n))
    } else if op == 8 {
        // SWAP the top two stack words in place
        let za = zget32_next::<M>(z, z.sp);
        match zget32::<M>(z, z.sp) {
            Err(e) => (za, Err(e)),
            Ok(tos) => {
                let nosp = align4(wadd32(z.sp, 4));
                let zb = zget32_next::<M>(za, nosp);
                match zget32::<M>(za, nosp) {
                    Err(e) => (zb, Err(e)),
                    Ok(nos) => match zset32_res::<M>(zb, z.sp, nos) {
                        Err(e) => (zset32_next::<M>(zb, z.sp, nos), Err(e)),
                        Ok(_) => {
                            let zc = zset32_next::<M>(zb, z.sp, nos);
                            match zset32_res::<M>(zc, nosp, tos) {
                                Err(e) => (zset32_next::<M>(zc, nosp, tos), Err(e)),
                                Ok(_) => (
                                    ZpuState {
                                        pc: wadd32(z.pc, 1),
                                        ..zset32_next::<M>(zc, nosp, tos)
                                    },
                                    Ok(true),
                                ),
                            }
                        },
                    },
                }
            },
        }
    } else if op == 9 {
        // SLOWMULT (wrapping)
        binop2e::<M>(z, |t: u32, n: u32| wmul32(t, n))
    } else if op == 10 {
        // LSHIFTRIGHT: logical shift of NOS by the negated signed TOS
        binop2e::<M>(z, |t: u32, n: u32| gshift32_spec(n, -s32(t)))
    } else if op == 11 {
        // ASHIFTLEFT
        binop2e::<M>(z, |t: u32, n: u32| agshift32_spec(n, s32(t)))
    } else if op == 12 {
        // ASHIFTRIGHT
        binop2e::<M>(z, |t: u32, n: u32| agshift32_spec(n, -s32(t)))
    } else if op == 14 {
        // EQ
        binop2e::<M>(z, |t: u32, n: u32| bool2u32_spec(t == n))
    } else if op == 15 {
        // NEQ
        binop2e::<M>(z, |t: u32, n: u32| bool2u32_spec(t != n))
    } else if op == 16 {
        // NEG the top of stack in place (wrapping two's complement)
        let za = zget32_next::<M>(z, z.sp);
        match zget32::<M>(z, z.sp) {
            Err(e) => (za, Err(e)),
            Ok(tos) => match zset32_res::<M>(za, z.sp, wneg32(tos)) {
                Err(e) => (zset32_next::<M>(za, z.sp, wneg32(tos)), Err(e)),
                Ok(_) => (
                    ZpuState { pc: wadd32(z.pc, 1), ..zset32_next::<M>(za, z.sp, wneg32(tos)) },
                    Ok(true),
                ),
            },
        }
    } else if op == 17 {
        // SUB: NOS minus TOS (the canonical operand order chosen here)
        binop2e::<M>(z, |t: u32, n: u32| wsub32(n, t))
    } else if op == 18 {
        // XOR
        binop2e::<M>(z, |t: u32, n: u32| t ^ n)
    } else if op == 19 {
        // LOADB
        let za = zget32_next::<M>(z, z.sp);
        match zget32::<M>(z, z.sp) {
            Err(e) => (za, Err(e)),
            Ok(a) => {
                let zb = ZpuState { mem: M::get_next(za.mem, a as usize), ..za };
                match M::get_spec(za.mem, a as usize) {
                    Err(e) => (zb, Err(Error::Mem { during: MemOp::LoadByte, cause: e })),
                    Ok(b) => match zset32_res::<M>(zb, z.sp, b as u32) {
                        Err(e) => (zset32_next::<M>(zb, z.sp, b as u32), Err(e)),
                        Ok(_) => (
                            ZpuState {
                                pc: wadd32(z.pc, 1),
                                ..zset32_next::<M>(zb, z.sp, b as u32)
                            },
                            Ok(true),
                        ),
                    },
                }
            },
        }
    } else if op == 20 {
        // STOREB
        let z1 = pop_next::<M>(z);
        match pop_res::<M>(z) {
            Err(e) => (z1, Err(e)),
            Ok(a) => {
                let z2 = pop_next::<M>(z1);
                match pop_res::<M>(z1) {
                    Err(e) => (z2, Err(e)),
                    Ok(v) => {
                        let b = (v & 0xFF) as u8;
                        match M::set_res(z2.mem, a as usize, b) {
                            Err(e) => (
                                ZpuState { mem: M::set_next(z2.mem, a as usize, b), ..z2 },
                                Err(Error::Mem { during: MemOp::StoreByte, cause: e }),
                            ),
                            Ok(_) => (
                                ZpuState {
                                    mem: M::set_next(z2.mem, a as usize, b),
                                    pc: wadd32(z.pc, 1),
                                    ..z2
                                },
                                Ok(true),
                            ),
                        }
                    },
                }
            },
        }
    } else if op == 21 {
        // DIV (truncating signed; a zero divisor fails the step after the
        // operands are popped)
        let z1 = pop_next::<M>(z);
        match pop_res::<M>(z) {
            Err(e) => (z1, Err(e)),
            Ok(t) => {
                let z2 = pop_next::<M>(z1);
                match pop_res::<M>(z1) {
                    Err(e) => (z2, Err(e)),
                    Ok(n) => {
                        if n == 0 {
                            (z2, Err(Error::DivisionByZero))
                        } else {
                            match push_res::<M>(z2, sdiv32(t, n)) {
                                Err(e) => (push_next::<M>(z2, sdiv32(t, n)), Err(e)),
                                Ok(_) => (
                                    ZpuState {
                                        pc: wadd32(z.pc, 1),
                                        ..push_next::<M>(z2, sdiv32(t, n))
                                    },
                                    Ok(true),
                                ),
                            }
                        }
                    },
                }
            },
        }
    } else if op == 22 {
        // MOD (sign follows the dividend; a zero divisor fails the step)
        let z1 = pop_next::<M>(z);
        match pop_res::<M>(z) {
            Err(e) => (z1, Err(e)),
            Ok(t) => {
                let z2 = pop_next::<M>(z1);
                match pop_res::<M>(z1) {
                    Err(e) => (z2, Err(e)),
                    Ok(n) => {
                        if n == 0 {
                            (z2, Err(Error::DivisionByZero))
                        } else {
                            match push_res::<M>(z2, smod32(t, n)) {
                                Err(e) => (push_next::<M>(z2, smod32(t, n)), Err(e)),
                                Ok(_) => (
                                    ZpuState {
                                        pc: wadd32(z.pc, 1),
                                        ..push_next::<M>(z2, smod32(t, n))
                                    },
                                    Ok(true),
                                ),
                            }
                        }
                    },
                }
            },
        }
    } else if op == 23 {
        // EQBRANCH: pop displacement, pop condition, branch if zero
        let z1 = pop_next::<M>(z);
        match pop_res::<M>(z) {
            Err(e) => (z1, Err(e)),
            Ok(d) => {
                let z2 = pop_next::<M>(z1);
                match pop_res::<M>(z1) {
                    Err(e) => (z2, Err(e)),
                    Ok(v) => {
                        if v == 0 {
                            (ZpuState { pc: wadd32(z.pc, d), ..z2 }, Ok(true))
                        } else {
                            (ZpuState { pc: wadd32(z.pc, 1), ..z2 }, Ok(true))
                        }
                    },
                }
            },
        }
    } else if op == 24 {
        // NEQBRANCH: pop displacement, pop condition, branch if nonzero
        let z1 = pop_next::<M>(z);
        match pop_res::<M>(z) {
            Err(e) => (z1, Err(e)),
            Ok(d) => {
                let z2 = pop_next::<M>(z1);
                match pop_res::<M>(z1) {
                    Err(e) => (z2, Err(e)),
                    Ok(v) => {
                        if v != 0 {
                            (ZpuState { pc: wadd32(z.pc, d), ..z2 }, Ok(true))
                        } else {
                            (ZpuState { pc: wadd32(z.pc, 1), ..z2 }, Ok(true))
                        }
                    },
                }
            },
        }
    } else if op == 25 {
        // POPPCREL: unconditional jump relative to the pre-fetch pc
        let z1 = pop_next::<M>(z);
        match pop_res::<M>(z) {
            Err(e) => (z1, Err(e)),
            Ok(t) => (ZpuState { pc: wadd32(z.pc, t), ..z1 }, Ok(true)),
        }
    } else if op == 29 {
        // PUSHSPADD: replace TOS with sp plus four times TOS, aligned
        let za = zget32_next::<M>(z, z.sp);
        match zget32::<M>(z, z.sp) {
            Err(e) => (za, Err(e)),
            Ok(tos) => {
                let nv = align4(wadd32((tos << 2), z.sp));
                match zset32_res::<M>(za, z.sp, nv) {
                    Err(e) => (zset32_next::<M>(za, z.sp, nv), Err(e)),
                    Ok(_) => (
                        ZpuState { pc: wadd32(z.pc, 1), ..zset32_next::<M>(za, z.sp, nv) },
                        Ok(true),
                    ),
                }
            },
        }
    } else if op == 31 {
        // CALLPCREL: replace TOS with the return address, jump relative
        let za = zget32_next::<M>(z, z.sp);
        match zget32::<M>(z, z.sp) {
            Err(e) => (za, Err(e)),
            Ok(tos) => {
                let ra = wadd32(z.pc, 1);
                match zset32_res::<M>(za, z.sp, ra) {
                    Err(e) => (zset32_next::<M>(za, z.sp, ra), Err(e)),
                    Ok(_) => (
                        ZpuState { pc: wadd32(z.pc, tos), ..zset32_next::<M>(za, z.sp, ra) },
                        Ok(true),
                    ),
                }
            },
        }
    } else {
        // Reserved slots (CALL, CONFIG, PUSHPC, SYSCALL, HALFMULT, ...)
        // report "not found" and leave the state untouched.
        (z, Ok(false))
    }
}

/// One decoded step on state `z` (whose `last_im` is already cleared
/// and whose memory has undergone the fetch read), given the fetched
/// opcode `op` and the pre-step immediate flag `lim`. Decode priority:
/// exact table, immediate-load, the three top-bit families,
/// add-stack-relative, and otherwise a decode fault that forces
/// `Stopped`.
pub open spec fn step_op<M: MemoryBusDevice32be>(z: ZpuState<M::V>, op: u8, lim: bool) -> (
    ZpuState<M::V>,
    Result<(), Error>,
)
{
    if op == 0x00 {
        // BREAKPOINT
        (ZpuState { pc: wadd32(z.pc, 1), state: CPUState::Sleeping, ..z }, Ok(()))
    } else if op == 0x02 {
        // PUSHSP
        push_adv::<M>(z, z.sp)
    } else if op == 0x04 {
        // POPPC
        let z1 = pop_next::<M>(z);
        match pop_res::<M>(z) {
            Err(e) => (z1, Err(e)),
            Ok(v) => (ZpuState { pc: v, ..z1 }, Ok(())),
        }
    } else if op == 0x05 {
        // ADD
        binop2::<M>(z, |a: u32, b: u32| wadd32(a, b))
    } else if op == 0x06 {
        // AND
        binop2::<M>(z, |a: u32, b: u32| a & b)
    } else if op == 0x07 {
        // OR
        binop2::<M>(z, |a: u32, b: u32| a | b)
    } else if op == 0x08 {
        // LOAD indirect: aligned address from TOS, load word, replace TOS
        let za = zget32_next::<M>(z, z.sp);
        match zget32::<M>(z, z.sp) {
            Err(e) => (za, Err(e)),
            Ok(a) => {
                let zb = zget32_next::<M>(za, a & 0xFFFF_FFFC);
                match zget32::<M>(za, a & 0xFFFF_FFFC) {
                    Err(e) => (zb, Err(e)),
                    Ok(v) => match zset32_res::<M>(zb, z.sp, v) {
                        Err(e) => (zset32_next::<M>(zb, z.sp, v), Err(e)),
                        Ok(_) => (
                            ZpuState { pc: wadd32(z.pc, 1), ..zset32_next::<M>(zb, z.sp, v) },
                            Ok(()),
                        ),
                    },
                }
            },
        }
    } else if op == 0x09 {
        // NOT
        let z1 = pop_next::<M>(z);
        match pop_res::<M>(z) {
            Err(e) => (z1, Err(e)),
            Ok(v) => push_adv::<M>(z1, !v),
        }
    } else if op == 0x0A {
        // FLIP: bit-reverse the top of stack in place
        let za = zget32_next::<M>(z, z.sp);
        match zget32::<M>(z, z.sp) {
            Err(e) => (za, Err(e)),
            Ok(v) => match zset32_res::<M>(za, z.sp, flip32_spec(v)) {
                Err(e) => (zset32_next::<M>(za, z.sp, flip32_spec(v)), Err(e)),
                Ok(_) => (
                    ZpuState {
                        pc: wadd32(z.pc, 1),
                        ..zset32_next::<M>(za, z.sp, flip32_spec(v))
                    },
                    Ok(()),
                ),
            },
        }
    } else if op == 0x0B {
        // NOP
        (ZpuState { pc: wadd32(z.pc, 1), ..z }, Ok(()))
    } else if op == 0x0C {
        // STORE indirect: pop aligned address, pop value, store word
        let z1 = pop_next::<M>(z);
        match pop_res::<M>(z) {
            Err(e) => (z1, Err(e)),
            Ok(a) => {
                let z2 = pop_next::<M>(z1);
                match pop_res::<M>(z1) {
                    Err(e) => (z2, Err(e)),
                    Ok(v) => match zset32_res::<M>(z2, a & 0xFFFF_FFFC, v) {
                        Err(e) => (zset32_next::<M>(z2, a & 0xFFFF_FFFC, v), Err(e)),
                        Ok(_) => (
                            ZpuState {
                                pc: wadd32(z.pc, 1),
                                ..zset32_next::<M>(z2, a & 0xFFFF_FFFC, v)
                            },
                            Ok(()),
                        ),
                    },
                }
            },
        }
    } else if op == 0x0D {
        // POPSP (4-byte aligned)
        let z1 = pop_next::<M>(z);
        match pop_res::<M>(z) {
            Err(e) => (z1, Err(e)),
            Ok(v) => (ZpuState { sp: v & 0xFFFF_FFFC, pc: wadd32(z.pc, 1), ..z1 }, Ok(())),
        }
    } else if op & 0x80 == 0x80 {
        // IM: immediate load, possibly chaining with the previous one
        let i = op & 0x7F;
        let z0 = ZpuState { last_im: true, pc: wadd32(z.pc, 1), ..z };
        if lim {
            let z1 = pop_next::<M>(z0);
            match pop_res::<M>(z0) {
                Err(e) => (z1, Err(e)),
                Ok(prev) => {
                    let val = ((prev & 0x1FFFFFFF) << 7) | (i as u32);
                    (push_next::<M>(z1, val), push_res::<M>(z1, val))
                },
            }
        } else {
            let val = if i & 0x40 != 0 {
                (i as u32) | 0xFFFFFF80
            } else {
                i as u32
            };
            (push_next::<M>(z0, val), push_res::<M>(z0, val))
        }
    } else if op & 0xE0 == 0x40 {
        // STORESP: pop a value into a stack-relative slot
        let idx = (((op ^ 0x10) & 0x1F) as u32) << 2;
        let bsp = align4(wadd32(z.sp, idx));
        let z1 = pop_next::<M>(z);
        match pop_res::<M>(z) {
            Err(e) => (z1, Err(e)),
            Ok(v) => match zset32_res::<M>(z1, bsp, v) {
                Err(e) => (zset32_next::<M>(z1, bsp, v), Err(e)),
                Ok(_) => (
                    ZpuState { pc: wadd32(z.pc, 1), ..zset32_next::<M>(z1, bsp, v) },
                    Ok(()),
                ),
            },
        }
    } else if op & 0xE0 == 0x60 {
        // LOADSP: push the word at a stack-relative slot
        let idx = (((op ^ 0x10) & 0x1F) as u32) << 2;
        let addr = align4(wadd32(z.sp, idx));
        let za = zget32_next::<M>(z, addr);
        match zget32::<M>(z, addr) {
            Err(e) => (za, Err(e)),
            Ok(v) => push_adv::<M>(za, v),
        }
    } else if op & 0xE0 == 0x20 {
        // EMULATE: native extended operation or software trap
        let eop = op & 0x1F;
        if z.hwemus {
            let zr = emulate_op::<M>(z, eop);
            match zr.1 {
                Err(e) => (zr.0, Err(e)),
                Ok(true) => (zr.0, Ok(())),
                Ok(false) => emu_trap::<M>(zr.0, eop),
            }
        } else {
            emu_trap::<M>(z, eop)
        }
    } else if op & 0xF0 == 0x10 {
        // ADDSP: add a stack-relative word into the top of stack
        let idx = ((op & 0x0F) as u32) << 2;
        let addr = align4(wadd32(z.sp, idx));
        let za = zget32_next::<M>(z, addr);
        match zget32::<M>(z, addr) {
            Err(e) => (za, Err(e)),
            Ok(v) => {
                let z1 = pop_next::<M>(za);
                match pop_res::<M>(za) {
                    Err(e) => (z1, Err(e)),
                    Ok(p) => push_adv::<M>(z1, wadd32(v, p)),
                }
            },
        }
    } else {
        // Undefined opcode: decode fault, the engine halts
        (ZpuState { state: CPUState::Stopped, ..z }, Err(Error::Decode { op }))
    }
}

/// One full step: refuse to run unless `Running`, fetch the opcode at
/// `pc`, clear the immediate flag, and decode. A fetch fault fails the
/// step with the registers untouched; the memory still undergoes the
/// fetch read's transition (a RAM fetch changes nothing).
pub open spec fn step2<M: MemoryBusDevice32be>(z: ZpuState<M::V>) -> (
    ZpuState<M::V>,
    Result<(), Error>,
) {
    if !(z.state is Running) {
        (z, Err(Error::CPUNotRunning))
    } else {
        let zf = ZpuState { mem: M::get_next(z.mem, z.pc as usize), ..z };
        match M::get_spec(z.mem, z.pc as usize) {
            Err(e) => (zf, Err(Error::Mem { during: MemOp::Fetch, cause: e })),
            Ok(op) => step_op::<M>(ZpuState { last_im: false, ..zf }, op, z.last_im),
        }
    }
}

fn mag32(v: u32) -> (r: u32)
    ensures
        r == iabs(s32(v)),
{
    if v >= 0x8000_0000 {
        (0xFFFF_FFFFu32 - v) + 1
    } else {
        v
    }
}

fn div_words(t: u32, n: u32) -> (r: u32)
    requires
        n != 0,
    ensures
        r == sdiv32(t, n),
{
    let mt = mag32(t);
    let mn = mag32(n);
    let q = mt / mn;
    if (t >= 0x8000_0000) != (n >= 0x8000_0000) {
        wneg(q)
    } else {
        q
    }
}

fn mod_words(t: u32, n: u32) -> (r: u32)
    requires
        n != 0,
    ensures
        r == smod32(t, n),
{
    let mt = mag32(t);
    let mn = mag32(n);
    let m = mt % mn;
    if t >= 0x8000_0000 {
        wneg(m)
    } else {
        m
    }
}

/// Execute one extended (EMULATE) operation natively. Returns `Ok(false)`
/// — leaving the CPU untouched — when the slot is reserved, so the caller
/// traps to the software handler at the slot's fixed address instead.
#[verifier::rlimit(100)]
pub fn zpu_emulates<M: MemoryBusDevice32be>(zpu: &mut ZPU<M>, op: u8) -> (r: Result<bool, Error>)
    ensures
        final(zpu)@ == emulate_op::<M>(old(zpu)@, op).0,
        r == emulate_op::<M>(old(zpu)@, op).1,
{
    let sp = zpu.sp;
    let pc = zpu.pc;
    if op == 2 {
        // LOADH
        let addr = zpu.get32(sp)?;
        let val = zpu.get16(addr)?;
        zpu.set32(sp, val as u32)?;
        zpu.pc = wadd(zpu.pc, 1);
        return Ok(true);
    }
    if op == 3 {
        // STOREH
        let addr = zpu.v_pop()?;
        let val0 = zpu.v_pop()?;
        zpu.set16(addr, (val0 & 0xFFFF) as u16)?;
        zpu.pc = wadd(zpu.pc, 1);
        return Ok(true);
    }
    if op == 4 {
        // LESSTHAN
        let tos = zpu.v_pop()?;
        let nos = zpu.v_pop()?;
        zpu.v_push(bool2u32(u2i32(tos) < u2i32(nos)))?;
        zpu.pc = wadd(zpu.pc, 1);
        return Ok(true);
    }
    if op == 5 {
        // LESSTHANEQUAL
        let tos = zpu.v_pop()?;
        let nos = zpu.v_pop()?;
        zpu.v_push(bool2u32(u2i32(tos) <= u2i32(nos)))?;
        zpu.pc = wadd(zpu.pc, 1);
        return Ok(true);
    }
    if op == 6 {
        // ULESSTHAN
        let tos = zpu.v_pop()?;
        let nos = zpu.v_pop()?;
        zpu.v_push(bool2u32(tos < nos))?;
        zpu.pc = wadd(zpu.pc, 1);
        return Ok(true);
    }
    if op == 7 {
        // ULESSTHANEQUAL
        let tos = zpu.v_pop()?;
        let nos = zpu.v_pop()?;
        zpu.v_push(bool2u32(tos <= nos))?;
        zpu.pc = wadd(zpu.pc, 1);
        return Ok(true);
    }
    if op == 8 {
        // SWAP
        let tos = zpu.get32(sp)?;
        let nosp = wadd(sp, 4) & 0xFFFF_FFFC;
        let nos = zpu.get32(nosp)?;
        zpu.set32(sp, nos)?;
        zpu.set32(nosp, tos)?;
        zpu.pc = wadd(zpu.pc, 1);
        return Ok(true);
    }
    if op == 9 {
        // SLOWMULT
        let tos = zpu.v_pop()?;
        let nos = zpu.v_pop()?;
        proof {
            assert((tos as u64) * (nos as u64) <= 0xFFFF_FFFFu64 * 0xFFFF_FFFFu64)
                by (nonlinear_arith)
                requires
                    tos <= 0xFFFF_FFFFu32,
                    nos <= 0xFFFF_FFFFu32,
            ;
        }
        let p: u64 = (tos as u64) * (nos as u64);
        zpu.v_push((p % 0x1_0000_0000) as u32)?;
        zpu.pc = wadd(zpu.pc, 1);
        return Ok(true);
    }
    if op == 10 {
        // LSHIFTRIGHT
        let tos = zpu.v_pop()?;
        let nos = zpu.v_pop()?;
        let ti = u2i32(tos);
        let v = if ti == i32::MIN {
            0
        } else {
            gshift32(nos, -ti)
        };
        proof {
            assert(v == gshift32_spec(nos, -s32(tos)));
        }
        zpu.v_push(v)?;
        zpu.pc = wadd(zpu.pc, 1);
        return Ok(true);
    }
    if op == 11 {
        // ASHIFTLEFT
        let tos = zpu.v_pop()?;
        let nos = zpu.v_pop()?;
        zpu.v_push(agshift32(nos, u2i32(tos)))?;
        zpu.pc = wadd(zpu.pc, 1);
        return Ok(true);
    }
    if op == 12 {
        // ASHIFTRIGHT
        let tos = zpu.v_pop()?;
        let nos = zpu.v_pop()?;
        let ti = u2i32(tos);
        let v = if ti == i32::MIN {
            // negating the most negative count asks for a left shift of
            // 2^31 places, which the shifter sends to zero
            0
        } else {
            agshift32(nos, -ti)
        };
        proof {
            assert(v == agshift32_spec(nos, -s32(tos)));
        }
        zpu.v_push(v)?;
        zpu.pc = wadd(zpu.pc, 1);
        return Ok(true);
    }
    if op == 14 {
        // EQ
        let tos = zpu.v_pop()?;
        let nos = zpu.v_pop()?;
        zpu.v_push(bool2u32(tos == nos))?;
        zpu.pc = wadd(zpu.pc, 1);
        return Ok(true);
    }
    if op == 15 {
        // NEQ
        let tos = zpu.v_pop()?;
        let nos = zpu.v_pop()?;
        zpu.v_push(bool2u32(tos != nos))?;
        zpu.pc = wadd(zpu.pc, 1);
        return Ok(true);
    }
    if op == 16 {
        // NEG
        let tos = zpu.get32(sp)?;
        zpu.set32(sp, wneg(tos))?;
        zpu.pc = wadd(zpu.pc, 1);
        return Ok(true);
    }
    if op == 17 {
        // SUB
        let tos = zpu.v_pop()?;
        let nos = zpu.v_pop()?;
        zpu.v_push(wsub(nos, tos))?;
        zpu.pc = wadd(zpu.pc, 1);
        return Ok(true);
    }
    if op == 18 {
        // XOR
        let tos = zpu.v_pop()?;
        let nos = zpu.v_pop()?;
        zpu.v_push(tos ^ nos)?;
        zpu.pc = wadd(zpu.pc, 1);
        return Ok(true);
    }
    if op == 19 {
        // LOADB
        let addr = zpu.get32(sp)?;
        let val = match zpu.mem.get(addr as usize) {
            Ok(b) => b,
            Err(e) => {
                return Err(Error::Mem { during: MemOp::LoadByte, cause: e });
            },
        };
        zpu.set32(sp, val as u32)?;
        zpu.pc = wadd(zpu.pc, 1);
        return Ok(true);
    }
    if op == 20 {
        // STOREB
        let addr = zpu.v_pop()?;
        let val = zpu.v_pop()?;
        match zpu.mem.set(addr as usize, (val & 0xFF) as u8) {
            Ok(_) => {},
            Err(e) => {
                return Err(Error::Mem { during: MemOp::StoreByte, cause: e });
            },
        }
        zpu.pc = wadd(zpu.pc, 1);
        return Ok(true);
    }
    if op == 21 {
        // DIV
        let tos = zpu.v_pop()?;
        let nos = zpu.v_pop()?;
        if nos == 0 {
            return Err(Error::DivisionByZero);
        }
        zpu.v_push(div_words(tos, nos))?;
        zpu.pc = wadd(zpu.pc, 1);
        return Ok(true);
    }
    if op == 22 {
        // MOD
        let tos = zpu.v_pop()?;
        let nos = zpu.v_pop()?;
        if nos == 0 {
            return Err(Error::DivisionByZero);
        }
        zpu.v_push(mod_words(tos, nos))?;
        zpu.pc = wadd(zpu.pc, 1);
        return Ok(true);
    }
    if op == 23 {
        // EQBRANCH
        let d = zpu.v_pop()?;
        let branch = wadd(pc, d);
        let v = zpu.v_pop()?;
        if v == 0 {
            zpu.pc = branch;
            return Ok(true);
        }
        zpu.pc = wadd(zpu.pc, 1);
        return Ok(true);
    }
    if op == 24 {
        // NEQBRANCH
        let d = zpu.v_pop()?;
        let branch = wadd(pc, d);
        let v = zpu.v_pop()?;
        if v != 0 {
            zpu.pc = branch;
            return Ok(true);
        }
        zpu.pc = wadd(zpu.pc, 1);
        return Ok(true);
    }
    if op == 25 {
        // POPPCREL
        let tos = zpu.v_pop()?;
        zpu.pc = wadd(pc, tos);
        return Ok(true);
    }
    if op == 29 {
        // PUSHSPADD
        let tos = zpu.get32(sp)?;
        zpu.set32(sp, wadd(tos << 2, sp) & 0xFFFF_FFFC)?;
        zpu.pc = wadd(zpu.pc, 1);
        return Ok(true);
    }
    if op == 31 {
        // CALLPCREL
        let tos = zpu.get32(sp)?;
        let routinep = wadd(pc, tos);
        zpu.set32(sp, wadd(pc, 1))?;
        zpu.pc = routinep;
        return Ok(true);
    }
    Ok(false)
}

impl<M: MemoryBusDevice32be> CPU for ZPU<M> {
    open spec fn step_next(pre: ZpuState<M::V>) -> ZpuState<M::V> {
        step2::<M>(pre).0
    }

    open spec fn step_res(pre: ZpuState<M::V>) -> Result<(), Error> {
        step2::<M>(pre).1
    }

    open spec fn state_spec(pre: ZpuState<M::V>) -> CPUState {
        pre.state
    }

    open spec fn start_next(pre: ZpuState<M::V>) -> ZpuState<M::V> {
        ZpuState { state: CPUState::Running, ..pre }
    }

    open spec fn start_res(pre: ZpuState<M::V>) -> Result<(), Error> {
        Ok(())
    }

    /// Run one instruction, per the decode priority of [`step_op`].
    fn step(&mut self) -> (r: Result<(), Error>) {
        match self.state {
            CPUState::Running => {},
            _ => {
                return Err(Error::CPUNotRunning);
            },
        }
        let op = match self.mem.get(self.pc as usize) {
            Ok(b) => b,
            Err(e) => {
                return Err(Error::Mem { during: MemOp::Fetch, cause: e });
            },
        };
        let lim = self.last_im;
        self.last_im = false;
        proof {
            assert(step2::<M>(old(self)@) == step_op::<M>(self@, op, lim));
        }
        if op == 0x00 || op == 0x02 || (0x04 <= op && op <= 0x0D) {
            self.step_table(op, lim)
        } else {
            self.step_fields(op, lim)
        }
    }

    fn state(&self) -> (r: CPUState) {
        self.state
    }

    fn start(&mut self) -> (r: Result<(), Error>) {
        self.state = CPUState::Running;
        Ok(())
    }
}

/// Hardware-emulation-disabled law: with the flag off, any EMULATE opcode
/// takes the software trap — it pushes `pc + 1` and jumps to `index * 32`
/// — even for indices that the extended table implements. When the push
/// succeeds, the step succeeds with the new `pc` equal to the handler
/// address and the return address stored at the new top of stack.
pub proof fn lemma_emulate_disabled<M: MemoryBusDevice32be>(z: ZpuState<M::V>, op: u8)
    requires
        z.state is Running,
        !z.hwemus,
        M::get_spec(z.mem, z.pc as usize) == Ok::<u8, MemErr>(op),
        op & 0xE0 == 0x20,
    ensures
        ({
            let z0 = ZpuState { last_im: false, mem: M::get_next(z.mem, z.pc as usize), ..z };
            &&& step2::<M>(z) == emu_trap::<M>(z0, op & 0x1F)
            &&& (push_res::<M>(z0, wadd32(z.pc, 1)) is Ok ==> {
                let z2 = step2::<M>(z).0;
                &&& step2::<M>(z).1 is Ok
                &&& z2.pc == ((op & 0x1F) as u32) << 5
                &&& z2.sp == wsub32(z.sp, 4)
                &&& z2.mem == M::set32be_next(
                    z0.mem,
                    wsub32(z.sp, 4) as usize,
                    wadd32(z.pc, 1),
                )
                &&& z2.state == z.state
            })
        }),
{
    assert((op & 0xE0) == 0x20 ==> (op & 0x80) != 0x80 && op >= 0x20 && op < 0x40)
        by (bit_vector);
}

/// Decode-fault law: an opcode outside every decode case forces the state
/// to `Stopped` and fails the step naming the opcode; the registers are
/// untouched (the memory undergoes only the fetch read's transition,
/// which on a RAM changes nothing).
pub proof fn lemma_decode_fault_halts<M: MemoryBusDevice32be>(z: ZpuState<M::V>, op: u8)
    requires
        z.state is Running,
        M::get_spec(z.mem, z.pc as usize) == Ok::<u8, MemErr>(op),
        op == 0x01 || op == 0x03 || op == 0x0E || op == 0x0F,
    ensures
        step2::<M>(z).0 == (ZpuState {
            last_im: false,
            state: CPUState::Stopped,
            mem: M::get_next(z.mem, z.pc as usize),
            ..z
        }),
        step2::<M>(z).1 == Err::<(), Error>(Error::Decode { op }),
{
    assert((op == 0x01 || op == 0x03 || op == 0x0E || op == 0x0F) ==> (op & 0x80) != 0x80 && (op
        & 0xE0) != 0x40 && (op & 0xE0) != 0x60 && (op & 0xE0) != 0x20 && (op & 0xF0) != 0x10)
        by (bit_vector);
}

/// The halt is sticky: in any state but `Running` a step changes nothing
/// and fails with the CPU-not-running error — so the step after a decode
/// fault fails this way.
pub proof fn lemma_halt_sticky<M: MemoryBusDevice32be>(z: ZpuState<M::V>)
    requires
        !(z.state is Running),
    ensures
        step2::<M>(z) == (z, Err::<(), Error>(Error::CPUNotRunning)),
{
}


/// The CPU state after pushing each word of `vals`, in order, onto a
/// RAM-backed memory.
pub open spec fn push_all(z: ZpuState<Seq<u8>>, vals: Seq<u32>) -> ZpuState<Seq<u8>>
    decreases vals.len(),
{
    if vals.len() == 0 {
        z
    } else {
        push_all(push_next::<RamBlock>(z, vals[0]), vals.subrange(1, vals.len() as int))
    }
}

/// Whether each of the pushes of `vals` succeeds in turn.
pub open spec fn push_all_ok(z: ZpuState<Seq<u8>>, vals: Seq<u32>) -> bool
    decreases vals.len(),
{
    if vals.len() == 0 {
        true
    } else {
        push_res::<RamBlock>(z, vals[0]) is Ok && push_all_ok(
            push_next::<RamBlock>(z, vals[0]),
            vals.subrange(1, vals.len() as int),
        )
    }
}

/// The CPU state after `n` pops.
pub open spec fn pop_all_next(z: ZpuState<Seq<u8>>, n: nat) -> ZpuState<Seq<u8>>
    decreases n,
{
    if n == 0 {
        z
    } else {
        pop_all_next(pop_next::<RamBlock>(z), (n - 1) as nat)
    }
}

/// Whether `n` pops all succeed in turn.
pub open spec fn pop_all_ok(z: ZpuState<Seq<u8>>, n: nat) -> bool
    decreases n,
{
    if n == 0 {
        true
    } else {
        pop_res::<RamBlock>(z) is Ok && pop_all_ok(pop_next::<RamBlock>(z), (n - 1) as nat)
    }
}

/// The words yielded by `n` pops, in pop order (a failed pop yields a
/// zero placeholder; [`pop_all_ok`] rules that out).
pub open spec fn pop_all_vals(z: ZpuState<Seq<u8>>, n: nat) -> Seq<u32>
    decreases n,
{
    if n == 0 {
        Seq::empty()
    } else {
        let v = match pop_res::<RamBlock>(z) {
            Ok(v) => v,
            Err(_) => 0u32,
        };
        seq![v] + pop_all_vals(pop_next::<RamBlock>(z), (n - 1) as nat)
    }
}

proof fn lemma_align4_aligned(x: u32)
    requires
        x % 4 == 0,
    ensures
        align4(x) == x,
{
    assert(x % 4 == 0 ==> x & 0xFFFF_FFFC == x) by (bit_vector);
}

proof fn lemma_push_all(z: ZpuState<Seq<u8>>, vals: Seq<u32>)
    requires
        z.sp % 4 == 0,
        4 * vals.len() <= z.sp,
        push_all_ok(z, vals),
    ensures
        ({
            let zp = push_all(z, vals);
            &&& zp.sp == z.sp - 4 * vals.len()
            &&& zp.mem.len() == z.mem.len()
            &&& zp.pc == z.pc
            &&& zp.state == z.state
            &&& zp.last_im == z.last_im
            &&& zp.hwemus == z.hwemus
            &&& forall|j: int|
                0 <= j < z.mem.len() && !(z.sp - 4 * vals.len() <= j < z.sp)
                    ==> #[trigger] zp.mem[j] == z.mem[j]
            &&& forall|k: int|
                0 <= k < vals.len() ==> #[trigger] <RamBlock as MemoryBusDevice32be>::get32be_spec(
                    zp.mem,
                    (z.sp - 4 * (k + 1)) as usize,
                ) == Ok::<u32, MemErr>(vals[k])
        }),
    decreases vals.len(),
{
    if vals.len() > 0 {
        let v0 = vals[0];
        let nsp = wsub32(z.sp, 4);
        assert(nsp == z.sp - 4);
        let z1 = push_next::<RamBlock>(z, v0);
        assert(push_res::<RamBlock>(z, v0) is Ok);
        assert(<RamBlock as MemoryBusDevice32be>::set32be_res(z.mem, nsp as usize, v0) is Ok);
        assert(nsp + 4 <= z.mem.len());
        assert(z1.sp == nsp);
        assert(z1.mem == <RamBlock as MemoryBusDevice32be>::set32be_next(
            z.mem,
            nsp as usize,
            v0,
        ));
        assert(z1.mem.len() == z.mem.len());
        let rest = vals.subrange(1, vals.len() as int);
        lemma_push_all(z1, rest);
        let zp = push_all(z1, rest);
        assert(push_all(z, vals) == zp);
        crate::cpu::lemma_comb32_of_bytes(v0);
        assert forall|k: int|
            0 <= k < vals.len() implies #[trigger] <RamBlock as
        MemoryBusDevice32be>::get32be_spec(zp.mem, (z.sp - 4 * (k + 1)) as usize) == Ok::<
            u32,
            MemErr,
        >(vals[k]) by {
            if k == 0 {
                assert(zp.mem[nsp as int] == z1.mem[nsp as int]);
                assert(zp.mem[nsp as int + 1] == z1.mem[nsp as int + 1]);
                assert(zp.mem[nsp as int + 2] == z1.mem[nsp as int + 2]);
                assert(zp.mem[nsp as int + 3] == z1.mem[nsp as int + 3]);
                assert(z1.mem[nsp as int] == crate::cpu::be0(v0));
                assert(z1.mem[nsp as int + 1] == crate::cpu::be1(v0));
                assert(z1.mem[nsp as int + 2] == crate::cpu::be2(v0));
                assert(z1.mem[nsp as int + 3] == crate::cpu::be3(v0));
            } else {
                assert(<RamBlock as MemoryBusDevice32be>::get32be_spec(
                    zp.mem,
                    (z1.sp - 4 * ((k - 1) + 1)) as usize,
                ) == Ok::<u32, MemErr>(rest[k - 1]));
                assert(rest[k - 1] == vals[k]);
                assert(z1.sp - 4 * k == z.sp - 4 * (k + 1));
            }
        }
        assert forall|j: int|
            0 <= j < z.mem.len() && !(z.sp - 4 * vals.len() <= j < z.sp) implies #[trigger] zp.mem[j]
            == z.mem[j] by {
            assert(zp.mem[j] == z1.mem[j]);
            assert(z1.mem[j] == z.mem[j]);
        }
    }
}

/// When the stack region lies inside the RAM, every push is owed
/// success: the bounds alone guarantee each word store lands.
pub proof fn lemma_stack_pushes_succeed(z: ZpuState<Seq<u8>>, vals: Seq<u32>)
    requires
        z.sp % 4 == 0,
        4 * vals.len() <= z.sp,
        z.sp <= z.mem.len(),
    ensures
        push_all_ok(z, vals),
    decreases vals.len(),
{
    if vals.len() > 0 {
        let v0 = vals[0];
        let nsp = wsub32(z.sp, 4);
        assert(nsp == z.sp - 4);
        assert(<RamBlock as MemoryBusDevice32be>::set32be_res(z.mem, nsp as usize, v0) is Ok);
        let z1 = push_next::<RamBlock>(z, v0);
        assert(z1.sp == nsp);
        assert(z1.mem.len() == z.mem.len());
        lemma_stack_pushes_succeed(z1, vals.subrange(1, vals.len() as int));
    }
}

proof fn lemma_pop_all(z: ZpuState<Seq<u8>>, n: nat, vals: Seq<u32>)
    requires
        z.sp % 4 == 0,
        z.sp + 4 * n <= z.mem.len(),
        z.sp + 4 * n < 0x1_0000_0000,
        vals.len() == n,
        forall|k: int|
            0 <= k < n ==> #[trigger] <RamBlock as MemoryBusDevice32be>::get32be_spec(
                z.mem,
                (z.sp + 4 * k) as usize,
            ) == Ok::<u32, MemErr>(vals[k]),
    ensures
        pop_all_ok(z, n),
        pop_all_vals(z, n) == vals,
        pop_all_next(z, n) == (ZpuState { sp: (z.sp + 4 * n) as u32, ..z }),
    decreases n,
{
    if n == 0 {
        assert(pop_all_vals(z, 0) =~= vals);
        assert((ZpuState { sp: (z.sp + 0) as u32, ..z }) == z);
    } else {
        assert(<RamBlock as MemoryBusDevice32be>::get32be_spec(z.mem, (z.sp + 4 * 0) as usize)
            == Ok::<u32, MemErr>(vals[0]));
        assert(pop_res::<RamBlock>(z) == Ok::<u32, Error>(vals[0]));
        let z1 = pop_next::<RamBlock>(z);
        assert(wadd32(z.sp, 4) == z.sp + 4);
        lemma_align4_aligned((z.sp + 4) as u32);
        assert(z1 == (ZpuState { sp: (z.sp + 4) as u32, ..z }));
        let rest = vals.subrange(1, n as int);
        assert forall|k: int|
            0 <= k < (n - 1) implies #[trigger] <RamBlock as MemoryBusDevice32be>::get32be_spec(
            z1.mem,
            (z1.sp + 4 * k) as usize,
        ) == Ok::<u32, MemErr>(rest[k]) by {
            assert(<RamBlock as MemoryBusDevice32be>::get32be_spec(
                z.mem,
                (z.sp + 4 * (k + 1)) as usize,
            ) == Ok::<u32, MemErr>(vals[k + 1]));
            assert(rest[k] == vals[k + 1]);
        }
        lemma_pop_all(z1, (n - 1) as nat, rest);
        assert(pop_all_vals(z, n) == seq![vals[0]] + pop_all_vals(z1, (n - 1) as nat));
        assert(pop_all_vals(z, n) =~= vals);
        assert(pop_all_next(z, n) == pop_all_next(z1, (n - 1) as nat));
    }
}

/// Stack round-trip law (on a RAM-backed memory): for any sequence of
/// pushes that succeeded, followed by the same number of pops with no
/// other `sp`-mutating operation between them, every pop succeeds, the
/// pops return the pushed words in LIFO order, and the final `sp`
/// equals the initial `sp`; `pc`, the state tag and the flags are
/// untouched throughout. Beyond the pushes' success the hypotheses are
/// that `sp` starts 4-byte aligned (a pop re-aligns, so an unaligned
/// start would not come back to itself) and that the pushed words fit
/// below `sp` without wrapping past address zero (with wrap-around,
/// slots of far-enough-apart pushes could collide). When the stack
/// region lies inside the RAM, [`lemma_stack_pushes_succeed`] supplies
/// the success hypothesis.
pub proof fn lemma_stack_round_trip(z: ZpuState<Seq<u8>>, vals: Seq<u32>)
    requires
        z.sp % 4 == 0,
        4 * vals.len() <= z.sp,
        push_all_ok(z, vals),
    ensures
        ({
            let zp = push_all(z, vals);
            let za = pop_all_next(zp, vals.len());
            &&& pop_all_ok(zp, vals.len())
            &&& pop_all_vals(zp, vals.len()) == vals.reverse()
            &&& za.sp == z.sp
            &&& za.pc == z.pc
            &&& za.state == z.state
            &&& za.last_im == z.last_im
            &&& za.hwemus == z.hwemus
            &&& za.mem.len() == z.mem.len()
        }),
{
    lemma_push_all(z, vals);
    let zp = push_all(z, vals);
    let n = vals.len() as int;
    let rv = vals.reverse();
    assert(rv.len() == n);
    if n == 0 {
        assert(pop_all_vals(zp, 0) =~= rv);
    } else {
        // the first push landed, so the top of the stack region is in
        // the RAM and the pop side may walk back up
        assert(push_res::<RamBlock>(z, vals[0]) is Ok);
        assert(<RamBlock as MemoryBusDevice32be>::set32be_res(
            z.mem,
            wsub32(z.sp, 4) as usize,
            vals[0],
        ) is Ok);
        assert(z.sp <= z.mem.len());
        assert forall|k: int|
            0 <= k < n implies #[trigger] <RamBlock as MemoryBusDevice32be>::get32be_spec(
            zp.mem,
            (zp.sp + 4 * k) as usize,
        ) == Ok::<u32, MemErr>(rv[k]) by {
            assert(rv[k] == vals[n - 1 - k]);
            assert(zp.sp + 4 * k == z.sp - 4 * ((n - 1 - k) + 1));
            assert(<RamBlock as MemoryBusDevice32be>::get32be_spec(
                zp.mem,
                (z.sp - 4 * ((n - 1 - k) + 1)) as usize,
            ) == Ok::<u32, MemErr>(vals[n - 1 - k]));
        }
        lemma_pop_all(zp, vals.len(), rv);
    }
}

} // verus!
