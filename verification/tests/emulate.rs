//! The extended-operation (EMULATE) table, exercised natively through
//! `zpu_emulates` and through full steps.

use rose::cpu::CPU;
use rose::errors::Error;
use rose::memorybus::MemoryBusDevice;
use rose::ram::RamBlock;
use rose::zpu::{zpu_emulates, ZPU};

fn cpu(sp: u32) -> ZPU<RamBlock> {
    let mut z = ZPU::new(RamBlock::new(0x1000), true);
    z.sp = sp;
    z.start().unwrap();
    z
}

fn top(z: &mut ZPU<RamBlock>) -> u32 {
    let sp = z.sp;
    z.get32(sp).unwrap()
}

#[test]
fn loadh_reads_big_endian_half_word() {
    let mut z = cpu(64);
    z.mem.set(10, 0x12).unwrap();
    z.mem.set(11, 0x34).unwrap();
    z.v_push(10).unwrap();
    assert!(zpu_emulates(&mut z, 2).unwrap());
    assert_eq!(top(&mut z), 0x1234);
    assert_eq!(z.pc, 1);
}

#[test]
fn storeh_writes_big_endian_half_word() {
    let mut z = cpu(64);
    z.v_push(0xABCD).unwrap();
    z.v_push(10).unwrap();
    assert!(zpu_emulates(&mut z, 3).unwrap());
    assert_eq!(z.mem.get(10).unwrap(), 0xAB);
    assert_eq!(z.mem.get(11).unwrap(), 0xCD);
}

#[test]
fn signed_and_unsigned_comparisons_differ() {
    // tos = -1 (signed) but the largest word (unsigned); nos = 5
    let mut z = cpu(64);
    z.v_push(5).unwrap();
    z.v_push(0xFFFFFFFF).unwrap();
    assert!(zpu_emulates(&mut z, 4).unwrap());  // signed: -1 < 5
    assert_eq!(top(&mut z), 1);

    let mut z = cpu(64);
    z.v_push(5).unwrap();
    z.v_push(0xFFFFFFFF).unwrap();
    assert!(zpu_emulates(&mut z, 6).unwrap());  // unsigned: huge < 5 is false
    assert_eq!(top(&mut z), 0);
}

#[test]
fn comparisons_with_equal_operands() {
    for (op, expect) in [(5u8, 1u32), (7, 1), (4, 0), (6, 0), (14, 1), (15, 0)] {
        let mut z = cpu(64);
        z.v_push(9).unwrap();
        z.v_push(9).unwrap();
        assert!(zpu_emulates(&mut z, op).unwrap());
        assert_eq!(top(&mut z), expect, "slot {}", op);
    }
}

#[test]
fn swap_exchanges_top_two_words() {
    let mut z = cpu(64);
    z.v_push(0x1111).unwrap();
    z.v_push(0x2222).unwrap();
    assert!(zpu_emulates(&mut z, 8).unwrap());
    assert_eq!(z.v_pop().unwrap(), 0x1111);
    assert_eq!(z.v_pop().unwrap(), 0x2222);
}

#[test]
fn slowmult_multiplies_and_wraps() {
    let mut z = cpu(64);
    z.v_push(6).unwrap();
    z.v_push(7).unwrap();
    assert!(zpu_emulates(&mut z, 9).unwrap());
    assert_eq!(top(&mut z), 42);

    let mut z = cpu(64);
    z.v_push(0x10000).unwrap();
    z.v_push(0x10000).unwrap();
    assert!(zpu_emulates(&mut z, 9).unwrap());
    assert_eq!(top(&mut z), 0);
}

#[test]
fn lshiftright_shifts_nos_by_tos() {
    let mut z = cpu(64);
    z.v_push(0x100).unwrap();  // nos: the value
    z.v_push(4).unwrap();  // tos: the count
    assert!(zpu_emulates(&mut z, 10).unwrap());
    assert_eq!(top(&mut z), 0x10);
}

#[test]
fn ashiftleft_and_ashiftright() {
    let mut z = cpu(64);
    z.v_push(1).unwrap();
    z.v_push(4).unwrap();
    assert!(zpu_emulates(&mut z, 11).unwrap());
    assert_eq!(top(&mut z), 16);

    // arithmetic right shift of a negative word drags ones in
    let mut z = cpu(64);
    z.v_push(0x80000000).unwrap();
    z.v_push(4).unwrap();
    assert!(zpu_emulates(&mut z, 12).unwrap());
    assert_eq!(top(&mut z), 0xF8000000);

    // a left shift of a negative word stays logical: no low-bit fill
    let mut z = cpu(64);
    z.v_push(0x80000000).unwrap();
    z.v_push(1).unwrap();
    assert!(zpu_emulates(&mut z, 11).unwrap());
    assert_eq!(top(&mut z), 0);
}

#[test]
fn neg_is_wrapping_twos_complement() {
    let mut z = cpu(64);
    z.v_push(5).unwrap();
    assert!(zpu_emulates(&mut z, 16).unwrap());
    assert_eq!(top(&mut z), 0xFFFFFFFB);

    // the most negative word negates to itself
    let mut z = cpu(64);
    z.v_push(0x80000000).unwrap();
    assert!(zpu_emulates(&mut z, 16).unwrap());
    assert_eq!(top(&mut z), 0x80000000);
}

#[test]
fn sub_takes_nos_minus_tos() {
    let mut z = cpu(64);
    z.v_push(10).unwrap();  // nos
    z.v_push(3).unwrap();  // tos
    assert!(zpu_emulates(&mut z, 17).unwrap());
    assert_eq!(top(&mut z), 7);
}

#[test]
fn xor_combines_operands() {
    let mut z = cpu(64);
    z.v_push(0xFF00).unwrap();
    z.v_push(0x0FF0).unwrap();
    assert!(zpu_emulates(&mut z, 18).unwrap());
    assert_eq!(top(&mut z), 0xF0F0);
}

#[test]
fn loadb_and_storeb_move_single_bytes() {
    let mut z = cpu(64);
    z.mem.set(9, 0x7E).unwrap();
    z.v_push(9).unwrap();
    assert!(zpu_emulates(&mut z, 19).unwrap());
    assert_eq!(top(&mut z), 0x7E);

    let mut z = cpu(64);
    z.v_push(0x0143).unwrap();  // only the low byte is stored
    z.v_push(9).unwrap();
    assert!(zpu_emulates(&mut z, 20).unwrap());
    assert_eq!(z.mem.get(9).unwrap(), 0x43);
}

#[test]
fn div_truncates_toward_zero() {
    let mut z = cpu(64);
    z.v_push(3).unwrap();  // nos: divisor
    z.v_push(7).unwrap();  // tos: dividend
    assert!(zpu_emulates(&mut z, 21).unwrap());
    assert_eq!(top(&mut z), 2);

    // -7 / 3 truncates to -2
    let mut z = cpu(64);
    z.v_push(3).unwrap();
    z.v_push(7u32.wrapping_neg()).unwrap();
    assert!(zpu_emulates(&mut z, 21).unwrap());
    assert_eq!(top(&mut z), 2u32.wrapping_neg());
}

#[test]
fn div_by_zero_is_an_explicit_error() {
    let mut z = cpu(64);
    z.v_push(0).unwrap();
    z.v_push(7).unwrap();
    assert!(matches!(zpu_emulates(&mut z, 21), Err(Error::DivisionByZero)));
    let mut z = cpu(64);
    z.v_push(0).unwrap();
    z.v_push(7).unwrap();
    assert!(matches!(zpu_emulates(&mut z, 22), Err(Error::DivisionByZero)));
}

#[test]
fn mod_sign_follows_dividend() {
    let mut z = cpu(64);
    z.v_push(3).unwrap();
    z.v_push(7).unwrap();
    assert!(zpu_emulates(&mut z, 22).unwrap());
    assert_eq!(top(&mut z), 1);

    let mut z = cpu(64);
    z.v_push(3).unwrap();
    z.v_push(7u32.wrapping_neg()).unwrap();
    assert!(zpu_emulates(&mut z, 22).unwrap());
    assert_eq!(top(&mut z), 1u32.wrapping_neg());
}

#[test]
fn eqbranch_branches_only_on_zero() {
    let mut z = cpu(64);
    z.pc = 100;
    z.v_push(0).unwrap();  // condition
    z.v_push(20).unwrap();  // displacement
    assert!(zpu_emulates(&mut z, 23).unwrap());
    assert_eq!(z.pc, 120);

    let mut z = cpu(64);
    z.pc = 100;
    z.v_push(1).unwrap();
    z.v_push(20).unwrap();
    assert!(zpu_emulates(&mut z, 23).unwrap());
    assert_eq!(z.pc, 101);
}

#[test]
fn neqbranch_branches_only_on_nonzero() {
    let mut z = cpu(64);
    z.pc = 100;
    z.v_push(5).unwrap();
    z.v_push(20).unwrap();
    assert!(zpu_emulates(&mut z, 24).unwrap());
    assert_eq!(z.pc, 120);

    let mut z = cpu(64);
    z.pc = 100;
    z.v_push(0).unwrap();
    z.v_push(20).unwrap();
    assert!(zpu_emulates(&mut z, 24).unwrap());
    assert_eq!(z.pc, 101);
}

#[test]
fn poppcrel_jumps_relative() {
    let mut z = cpu(64);
    z.pc = 100;
    z.v_push(0xFFFFFFFC).unwrap();  // -4
    assert!(zpu_emulates(&mut z, 25).unwrap());
    assert_eq!(z.pc, 96);
}

#[test]
fn pushspadd_scales_and_adds_sp() {
    let mut z = cpu(64);
    z.v_push(2).unwrap();  // sp becomes 60, tos 2
    assert!(zpu_emulates(&mut z, 29).unwrap());
    // (2 << 2) + 60, aligned
    assert_eq!(top(&mut z), 68);
}

#[test]
fn callpcrel_pushes_return_address_and_jumps() {
    let mut z = cpu(64);
    z.pc = 100;
    z.v_push(40).unwrap();
    assert!(zpu_emulates(&mut z, 31).unwrap());
    assert_eq!(z.pc, 140);
    assert_eq!(top(&mut z), 101);
}
