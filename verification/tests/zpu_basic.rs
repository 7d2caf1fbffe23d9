//! The engine's basic opcode table, immediate loads, the stack-relative
//! families, decode faults, and the helper functions.

use rose::cpu::{comb16_be, comb32_be, dis16_be, dis32_be, CPUState, CPU};
use rose::errors::{Error, MemErr, MemOp};
use rose::ram::RamBlock;
use rose::zpu::{agshift32, bool2u32, flip32, flipb, gshift32, u2i32, zpu_emulates, ZPU};

fn cpu_with(program: &[u8], sp: u32) -> ZPU<RamBlock> {
    let mut ram = RamBlock::new(0x1000);
    let mut i: usize = 0;
    for b in program {
        rose::memorybus::MemoryBusDevice::set(&mut ram, i, *b).unwrap();
        i += 1;
    }
    let mut z = ZPU::new(ram, true);
    z.sp = sp;
    z.start().unwrap();
    z
}

fn top(z: &mut ZPU<RamBlock>) -> u32 {
    let sp = z.sp;
    z.get32(sp).unwrap()
}

#[test]
fn helpers_flip_bits() {
    assert_eq!(flipb(0x01), 0x80);
    assert_eq!(flipb(0x0F), 0xF0);
    assert_eq!(flipb(0xA5), 0xA5);
    assert_eq!(flip32(0x00000001), 0x80000000);
    assert_eq!(flip32(0x80000000), 0x00000001);
    assert_eq!(flip32(0x0000FFFF), 0xFFFF0000);
}

#[test]
fn helpers_signed_view() {
    assert_eq!(u2i32(5), 5);
    assert_eq!(u2i32(0xFFFFFFFF), -1);
    assert_eq!(u2i32(0x80000000), i32::MIN);
    assert_eq!(bool2u32(true), 1);
    assert_eq!(bool2u32(false), 0);
}

#[test]
fn helpers_shifters() {
    assert_eq!(gshift32(1, 4), 16);
    assert_eq!(gshift32(0x100, -4), 0x10);
    assert_eq!(gshift32(7, 0), 7);
    assert_eq!(gshift32(0xFFFFFFFF, 32), 0);
    assert_eq!(gshift32(0xFFFFFFFF, -32), 0);
    // arithmetic right shift of a negative word sign-extends
    assert_eq!(agshift32(0x80000000, -4), 0xF8000000);
    // a positive word shifts like the logical shifter
    assert_eq!(agshift32(0x100, -4), 0x10);
    // sign-extension is tied to right shifts: a left shift of a
    // negative word keeps the logical result
    assert_eq!(agshift32(0x80000000, 1), 0);
    // a right shift by 32 or more of a negative word is all ones
    assert_eq!(agshift32(0x80000000, -32), 0xFFFFFFFF);
}

#[test]
fn helpers_byte_packing() {
    let b = dis32_be(0x01020304);
    assert_eq!(b, [1, 2, 3, 4]);
    assert_eq!(comb32_be(b), 0x01020304);
    let h = dis16_be(0xA1B2);
    assert_eq!(h, [0xA1, 0xB2]);
    assert_eq!(comb16_be(h), 0xA1B2);
}

#[test]
fn new_cpu_is_stopped_and_step_refuses() {
    let mut z = ZPU::new(RamBlock::new(16), true);
    assert_eq!(z.state(), CPUState::Stopped);
    assert!(matches!(z.step(), Err(Error::CPUNotRunning)));
    z.start().unwrap();
    assert_eq!(z.state(), CPUState::Running);
}

#[test]
fn stack_round_trip_is_lifo() {
    let mut z = cpu_with(&[], 64);
    z.v_push(1).unwrap();
    z.v_push(2).unwrap();
    z.v_push(3).unwrap();
    assert_eq!(z.v_pop().unwrap(), 3);
    assert_eq!(z.v_pop().unwrap(), 2);
    assert_eq!(z.v_pop().unwrap(), 1);
    assert_eq!(z.sp, 64);
}

#[test]
fn breakpoint_sleeps() {
    let mut z = cpu_with(&[0x00], 64);
    z.step().unwrap();
    assert_eq!(z.state(), CPUState::Sleeping);
    assert_eq!(z.pc, 1);
    assert!(matches!(z.step(), Err(Error::CPUNotRunning)));
}

#[test]
fn pushsp_pushes_old_sp() {
    let mut z = cpu_with(&[0x02], 64);
    z.step().unwrap();
    assert_eq!(z.sp, 60);
    assert_eq!(top(&mut z), 64);
    assert_eq!(z.pc, 1);
}

#[test]
fn poppc_jumps() {
    let mut z = cpu_with(&[0x04], 64);
    z.v_push(0x40).unwrap();
    z.step().unwrap();
    assert_eq!(z.pc, 0x40);
    assert_eq!(z.sp, 64);
}

#[test]
fn add_and_or_not_combine_operands() {
    let mut z = cpu_with(&[0x05, 0x06, 0x07, 0x09], 64);
    z.v_push(7).unwrap();
    z.v_push(8).unwrap();
    z.step().unwrap();
    assert_eq!(top(&mut z), 15);
    z.v_push(0x0FF0).unwrap();
    z.step().unwrap();
    assert_eq!(top(&mut z), 15 & 0x0FF0);
    z.v_push(0xF000).unwrap();
    z.step().unwrap();
    assert_eq!(top(&mut z), (15 & 0x0FF0) | 0xF000);
    z.step().unwrap();
    assert_eq!(top(&mut z), !((15 & 0x0FF0) | 0xF000));
    assert_eq!(z.pc, 4);
}

#[test]
fn add_wraps_modulo_2_32() {
    let mut z = cpu_with(&[0x05], 64);
    z.v_push(0xFFFFFFFF).unwrap();
    z.v_push(2).unwrap();
    z.step().unwrap();
    assert_eq!(top(&mut z), 1);
}

#[test]
fn load_replaces_tos_with_word_at_aligned_address() {
    let mut z = cpu_with(&[0x08], 64);
    z.set32(8, 0xDEADBEEF).unwrap();
    z.v_push(10).unwrap();  // 10 & !3 == 8
    z.step().unwrap();
    assert_eq!(top(&mut z), 0xDEADBEEF);
}

#[test]
fn flip_reverses_tos_bits_in_place() {
    let mut z = cpu_with(&[0x0A], 64);
    z.v_push(1).unwrap();
    z.step().unwrap();
    assert_eq!(top(&mut z), 0x80000000);
    assert_eq!(z.sp, 60);
}

#[test]
fn nop_only_advances_pc() {
    let mut z = cpu_with(&[0x0B], 64);
    z.step().unwrap();
    assert_eq!(z.pc, 1);
    assert_eq!(z.sp, 64);
    assert_eq!(z.state(), CPUState::Running);
}

#[test]
fn store_writes_popped_value_at_popped_address() {
    let mut z = cpu_with(&[0x0C], 64);
    z.v_push(0x55).unwrap();
    z.v_push(41).unwrap();  // 41 & !3 == 40
    z.step().unwrap();
    assert_eq!(z.get32(40).unwrap(), 0x55);
    assert_eq!(z.sp, 64);
}

#[test]
fn popsp_sets_aligned_sp() {
    let mut z = cpu_with(&[0x0D], 64);
    z.v_push(0x23).unwrap();
    z.step().unwrap();
    assert_eq!(z.sp, 0x20);
    assert_eq!(z.pc, 1);
}

#[test]
fn immediate_positive_pushes_literal() {
    let mut z = cpu_with(&[0x81], 64);
    z.step().unwrap();
    assert_eq!(top(&mut z), 1);
}

#[test]
fn immediate_negative_sign_extends() {
    // bit 6 of the literal set: the word is sign-extended
    let mut z = cpu_with(&[0xC1], 64);
    z.step().unwrap();
    assert_eq!(top(&mut z), 0xFFFFFFC1);
}

#[test]
fn immediate_chaining_builds_wide_constant() {
    // first immediate pushes the sign-extended literal; the second,
    // arriving with the flag still set, folds it in: pop, mask to 29
    // bits, shift left by 7, or in the new literal
    let mut z = cpu_with(&[0xC1, 0x81], 64);
    z.step().unwrap();
    assert_eq!(top(&mut z), 0xFFFFFFC1);
    z.step().unwrap();
    assert_eq!(top(&mut z), ((0xFFFFFFC1u32 & 0x1FFFFFFF) << 7) | 0x01);
    assert_eq!(top(&mut z), 0xFFFFE081);
    assert_eq!(z.sp, 60);
    assert_eq!(z.pc, 2);
}

#[test]
fn non_immediate_breaks_the_chain() {
    // with a NOP between them, two immediates push two separate words
    let mut z = cpu_with(&[0x81, 0x0B, 0x82], 64);
    z.step().unwrap();
    z.step().unwrap();
    z.step().unwrap();
    assert_eq!(z.v_pop().unwrap(), 2);
    assert_eq!(z.v_pop().unwrap(), 1);
}

#[test]
fn storesp_stores_into_stack_relative_slot() {
    // op 0x51: index ((0x51 ^ 0x10) & 0x1F) << 2 == 4
    let mut z = cpu_with(&[0x51], 64);
    z.v_push(0xAA).unwrap();
    z.step().unwrap();
    // the slot was sp-at-decode + 4 == 64, and the pop restored sp there
    assert_eq!(z.sp, 64);
    assert_eq!(z.get32(64).unwrap(), 0xAA);
}

#[test]
fn loadsp_pushes_stack_relative_word() {
    // op 0x71: index 4, so it re-pushes the word one slot above sp
    let mut z = cpu_with(&[0x71], 64);
    z.v_push(0x1234).unwrap();
    z.v_push(0x5678).unwrap();
    z.step().unwrap();
    assert_eq!(top(&mut z), 0x1234);
    assert_eq!(z.sp, 52);
}

#[test]
fn addsp_adds_stack_relative_word_into_tos() {
    // op 0x11: index 1 * 4: the word one slot above the top
    let mut z = cpu_with(&[0x11], 64);
    z.v_push(100).unwrap();
    z.v_push(23).unwrap();
    z.step().unwrap();
    assert_eq!(top(&mut z), 123);
    assert_eq!(z.sp, 56);
}

#[test]
fn emulate_disabled_traps_to_software() {
    // flag off: even an implemented slot (10) pushes pc+1 and jumps
    let mut ram = RamBlock::new(0x1000);
    rose::memorybus::MemoryBusDevice::set(&mut ram, 0, 0x2A).unwrap();
    let mut z = ZPU::new(ram, false);
    z.sp = 64;
    z.start().unwrap();
    z.step().unwrap();
    assert_eq!(z.pc, 10 * 32);
    assert_eq!(z.sp, 60);
    assert_eq!(top(&mut z), 1);
}

#[test]
fn emulate_unimplemented_slot_traps_even_when_enabled() {
    // slot 13 (CALL) is reserved: with the flag on it still traps
    let mut z = cpu_with(&[0x2D], 64);
    z.step().unwrap();
    assert_eq!(z.pc, 13 * 32);
    assert_eq!(top(&mut z), 1);
}

#[test]
fn decode_fault_halts_and_is_sticky() {
    let mut z = cpu_with(&[0x01], 64);
    let r = z.step();
    assert!(matches!(r, Err(Error::Decode { op: 0x01 })));
    assert_eq!(z.state(), CPUState::Stopped);
    // the halt is sticky: the next step refuses to run
    assert!(matches!(z.step(), Err(Error::CPUNotRunning)));
    assert_eq!(z.state(), CPUState::Stopped);
}

#[test]
fn every_undefined_basic_opcode_faults() {
    for op in [0x01u8, 0x03, 0x0E, 0x0F] {
        let mut z = cpu_with(&[op], 64);
        assert!(matches!(z.step(), Err(Error::Decode { op: o }) if o == op));
        assert_eq!(z.state(), CPUState::Stopped);
    }
}

#[test]
fn fetch_fault_propagates_and_leaves_state_running() {
    let mut z = ZPU::new(RamBlock::new(0), true);
    z.start().unwrap();
    let r = z.step();
    assert!(matches!(
        r,
        Err(Error::Mem { during: MemOp::Fetch, cause: MemErr::TooBig { .. } })
    ));
    assert_eq!(z.state(), CPUState::Running);
}

#[test]
fn program_pushes_two_constants_and_adds() {
    // two immediates separated by a NOP so they do not chain, then ADD
    let mut z = cpu_with(&[0x81, 0x0B, 0x82, 0x05], 64);
    let sp0 = z.sp;
    let pc0 = z.pc;
    z.step().unwrap();
    z.step().unwrap();
    z.step().unwrap();
    z.step().unwrap();
    assert_eq!(top(&mut z), 3);
    assert_eq!(z.sp, sp0 - 4);
    assert_eq!(z.pc, pc0 + 4);
    assert_eq!(z.state(), CPUState::Running);
}

#[test]
fn emulates_called_directly_reports_reserved_slots() {
    let mut z = cpu_with(&[], 64);
    for op in [0u8, 1, 13, 26, 27, 28, 30, 99] {
        let pc = z.pc;
        let sp = z.sp;
        assert_eq!(zpu_emulates(&mut z, op).unwrap(), false);
        assert_eq!(z.pc, pc);
        assert_eq!(z.sp, sp);
    }
}
