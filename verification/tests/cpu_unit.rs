use risc_emulator::cpu::Cpu;
use risc_emulator::machine::{Machine, ROM_START};

fn reg(op: u32, a: u32, b: u32, c: u32, q: bool, u: bool, v: bool, imm16: u32) -> u32 {
    let mut ir = 0u32; // p=0
    if q {
        ir |= 0x4000_0000;
    }
    if u {
        ir |= 0x2000_0000;
    }
    if v {
        ir |= 0x1000_0000;
    }
    ir |= (a & 0xF) << 24;
    ir |= (b & 0xF) << 20;
    ir |= (op & 0xF) << 16;
    ir |= imm16 & 0xFFFF;
    ir |= c & 0xF;
    ir
}

fn mem(a: u32, b: u32, off20: i32, store: bool, byte: bool) -> u32 {
    let mut ir = 0x8000_0000u32; // p=1
    if store {
        ir |= 0x2000_0000; // u
    }
    if byte {
        ir |= 0x1000_0000; // v
    }
    ir |= (a & 0xF) << 24;
    ir |= (b & 0xF) << 20;
    let off = off20 & 0x000F_FFFF;
    ir |= off as u32;
    ir
}

fn br(cond: u32, t: bool, u_rel: bool, v_link: bool, c_reg: u32, off24_words: i32) -> u32 {
    let mut ir = 0xC000_0000u32; // p=1 q=1
    if t {
        ir |= 1 << 27;
    }
    ir |= (cond & 7) << 24;
    if u_rel {
        ir |= 0x2000_0000;
    }
    if v_link {
        ir |= 0x1000_0000;
    }
    if u_rel {
        let off = off24_words & 0x00FF_FFFF;
        ir |= off as u32;
    } else {
        ir |= c_reg & 0xF;
    }
    ir
}

const MOV: u32 = 0;
const IOR: u32 = 6;
const ADD: u32 = 8;
const SUB: u32 = 9;
const DIV: u32 = 11;

/// A minimal machine: `ram_words` words of RAM and a 512-word boot ROM
/// holding `prog`, with no framebuffer region.
fn test_machine(prog: &[u32], ram_words: u32) -> Machine {
    let mut rom = prog.to_vec();
    rom.resize(512, 0);
    let mem_size = ram_words * 4;
    Machine::new_for_tests(rom, mem_size, mem_size, 1, 0)
}

fn run_prog(m: &mut Machine, steps: usize) {
    m.cpu.pc = ROM_START;
    m.cpu.progress = 1_000;
    for _ in 0..steps {
        m.cpu.step(&mut m.bus).unwrap();
    }
}

#[test]
fn unit_add_and_flags() {
    // R1=1, R2=2, R0=R1+R2 => 3 (Z=false, N=false)
    let prog = [
        reg(MOV, 1, 0, 0, true, false, false, 1),
        reg(MOV, 2, 0, 0, true, false, false, 2),
        reg(ADD, 0, 1, 2, false, false, false, 0),
    ];

    let mut m = test_machine(&prog, 1024);
    run_prog(&mut m, prog.len());

    assert_eq!(m.cpu.r[0], 3);
    assert!(!m.cpu.z);
    assert!(!m.cpu.n);
    assert!(!m.cpu.c);
    assert!(!m.cpu.v);
}

#[test]
fn unit_store_then_load_word() {
    // Build 0x11223344 in R2 via: MOV hi<<16 + OR lo
    // R1=0x100
    // [R1] = R2
    // R0 = [R1]
    let prog = [
        reg(MOV, 1, 0, 0, true, false, false, 0x0100),
        reg(MOV, 2, 0, 0, true, true, false, 0x1122),
        reg(IOR, 2, 2, 0, true, false, false, 0x3344),
        mem(2, 1, 0, true, false),
        mem(0, 1, 0, false, false),
    ];

    let mut m = test_machine(&prog, 2048);
    run_prog(&mut m, prog.len());

    assert_eq!(m.cpu.r[0], 0x1122_3344);
    assert_eq!(m.bus.peek_word_le(0x0100).unwrap(), 0x1122_3344);
}

#[test]
fn unit_branch_relative_and_link() {
    // MOV R0, #0
    // branch always + link + rel +1 word => skip MOV #123
    // MOV R0, #123  (skipped)
    // MOV R0, #7    (taken)
    let prog = [
        reg(MOV, 0, 0, 0, true, false, false, 0),
        br(7, false, true, true, 0, 1),
        reg(MOV, 0, 0, 0, true, false, false, 123),
        reg(MOV, 0, 0, 0, true, false, false, 7),
    ];

    let mut m = test_machine(&prog, 1024);
    run_prog(&mut m, prog.len());

    assert_eq!(m.cpu.r[0], 7);
    // link register holds the address just past the branch
    assert_eq!(m.cpu.r[15], ROM_START + 8);
}

#[test]
fn add_wrap_sets_carry() {
    // R1 = 0xFFFF0000, R2 = 0x00010000; the sum wraps to 0 and sets C
    let prog = [
        reg(MOV, 1, 0, 0, true, true, false, 0xFFFF),
        reg(MOV, 2, 0, 0, true, true, false, 0x0001),
        reg(ADD, 0, 1, 2, false, false, false, 0),
    ];
    let mut m = test_machine(&prog, 1024);
    run_prog(&mut m, prog.len());
    assert_eq!(m.cpu.r[0], 0);
    assert!(m.cpu.c);
    assert!(m.cpu.z);
}

#[test]
fn add_positive_overflow_sets_v() {
    // R1 = 0x7FFF0000, R2 = 0x00010000; positive + positive gives negative
    let prog = [
        reg(MOV, 1, 0, 0, true, true, false, 0x7FFF),
        reg(MOV, 2, 0, 0, true, true, false, 0x0001),
        reg(ADD, 0, 1, 2, false, false, false, 0),
    ];
    let mut m = test_machine(&prog, 1024);
    run_prog(&mut m, prog.len());
    assert_eq!(m.cpu.r[0], 0x8000_0000);
    assert!(m.cpu.v);
    assert!(m.cpu.n);
    assert!(!m.cpu.c);
}

#[test]
fn sub_borrow_sets_carry() {
    // 1 - 2 borrows: C set, result 0xFFFFFFFF (negative)
    let prog = [
        reg(MOV, 1, 0, 0, true, false, false, 1),
        reg(MOV, 2, 0, 0, true, false, false, 2),
        reg(SUB, 0, 1, 2, false, false, false, 0),
    ];
    let mut m = test_machine(&prog, 1024);
    run_prog(&mut m, prog.len());
    assert_eq!(m.cpu.r[0], 0xFFFF_FFFF);
    assert!(m.cpu.c);
    assert!(m.cpu.n);
}

#[test]
fn div_unsigned_by_zero() {
    // DIVU by zero: quotient 0, remainder (H) = dividend
    let prog = [
        reg(MOV, 1, 0, 0, true, false, false, 77),
        reg(MOV, 2, 0, 0, true, false, false, 0),
        reg(DIV, 0, 1, 2, false, true, false, 0),
    ];
    let mut m = test_machine(&prog, 1024);
    run_prog(&mut m, prog.len());
    assert_eq!(m.cpu.r[0], 0);
    assert_eq!(m.cpu.h, 77);
}

#[test]
fn div_signed_euclidean_remainder() {
    // -7 / 2 with Euclidean semantics: quotient -4, remainder 1
    let prog = [
        reg(MOV, 1, 0, 0, true, false, true, 0xFFF9), // R1 = -7 (sign-extended)
        reg(MOV, 2, 0, 0, true, false, false, 2),
        reg(DIV, 0, 1, 2, false, false, false, 0),
    ];
    let mut m = test_machine(&prog, 1024);
    run_prog(&mut m, prog.len());
    assert_eq!(m.cpu.r[0], 0xFFFF_FFFC); // -4
    assert_eq!(m.cpu.h, 1);
}

#[test]
fn byte_store_load_every_alignment() {
    for k in 0..4i32 {
        let prog = [
            reg(MOV, 1, 0, 0, true, false, false, 0x0100),
            reg(MOV, 2, 0, 0, true, false, false, 0xAB),
            mem(2, 1, k, true, true),   // STB R2, [R1+k]
            mem(3, 1, k, false, true),  // LDB R3, [R1+k]
        ];
        let mut m = test_machine(&prog, 1024);
        run_prog(&mut m, prog.len());
        assert_eq!(m.cpu.r[3], 0xAB, "alignment {}", k);
        let w = m.bus.peek_word_le(0x0100).unwrap();
        assert_eq!((w >> (k * 8)) & 0xFF, 0xAB, "alignment {}", k);
    }
}

#[test]
fn branch_register_target_masked_on_fetch() {
    // Branch to an unaligned register target; the CPU masks the low two
    // bits on the next fetch.
    let target = ROM_START + 12 + 2; // unaligned address inside the ROM
    let prog = [
        reg(MOV, 1, 0, 0, true, true, false, (target >> 16) & 0xFFFF),
        reg(IOR, 1, 1, 0, true, false, false, target & 0xFFFF),
        br(7, false, false, false, 1, 0), // B R1
        reg(MOV, 0, 0, 0, true, false, false, 55), // at ROM_START+12: executed
    ];
    let mut m = test_machine(&prog, 1024);
    run_prog(&mut m, prog.len());
    assert_eq!(m.cpu.r[0], 55);
}

#[test]
fn mov_flags_readout() {
    // Set C via a wrap, then read the flags word: 0xD0 | flag bits
    let prog = [
        reg(MOV, 1, 0, 0, true, true, false, 0xFFFF),
        reg(MOV, 2, 0, 0, true, true, false, 0x0001),
        reg(ADD, 0, 1, 2, false, false, false, 0), // wraps: Z=1, C=1
        reg(MOV, 3, 0, 0, false, true, true, 0),   // MOV u=1 q=0 v=1: flags
    ];
    let mut m = test_machine(&prog, 1024);
    run_prog(&mut m, prog.len());
    // N=0 Z=1 C=1 V=0 -> bits 30 and 29 plus the constant 0xD0
    assert_eq!(m.cpu.r[3], 0xD0 | (1 << 30) | (1 << 29));
}

#[test]
fn fetch_out_of_range_is_bus_error() {
    let mut m = test_machine(&[], 1024);
    m.cpu.pc = 0x4000_0000; // neither RAM, ROM nor I/O
    m.cpu.progress = 10;
    assert!(m.cpu.step(&mut m.bus).is_err());
}

#[test]
fn alu_logic_and_shift_ops() {
    const LSL: u32 = 1;
    const ASR: u32 = 2;
    const ROR: u32 = 3;
    const AND: u32 = 4;
    const ANN: u32 = 5;
    const XOR: u32 = 7;
    let prog = [
        reg(MOV, 1, 0, 0, true, true, false, 0x8000),  // R1 = 0x80000000
        reg(MOV, 2, 0, 0, true, false, false, 4),      // R2 = 4
        reg(LSL, 3, 2, 0, true, false, false, 2),      // R3 = 4 << 2 = 16
        reg(ASR, 4, 1, 0, true, false, false, 31),     // R4 = sign-fill
        reg(ROR, 5, 1, 0, true, false, false, 4),      // R5 = rotate right 4
        reg(AND, 6, 1, 2, false, false, false, 0),     // R6 = 0
        reg(ANN, 7, 2, 1, false, false, false, 0),     // R7 = 4 & !0x80000000
        reg(XOR, 8, 1, 1, false, false, false, 0),     // R8 = 0, sets Z
    ];
    let mut m = test_machine(&prog, 1024);
    run_prog(&mut m, prog.len());
    assert_eq!(m.cpu.r[3], 16);
    assert_eq!(m.cpu.r[4], 0xFFFF_FFFF);
    assert_eq!(m.cpu.r[5], 0x0800_0000);
    assert_eq!(m.cpu.r[6], 0);
    assert_eq!(m.cpu.r[7], 4);
    assert_eq!(m.cpu.r[8], 0);
    assert!(m.cpu.z);
}

#[test]
fn mul_signed_and_unsigned_high_word() {
    const MUL: u32 = 10;
    let prog = [
        reg(MOV, 1, 0, 0, true, false, true, 0xFFFF), // R1 = -1
        reg(MOV, 2, 0, 0, true, false, false, 3),     // R2 = 3
        reg(MUL, 3, 1, 2, false, false, false, 0),    // signed: -3
        reg(MOV, 4, 0, 0, false, true, false, 0),     // R4 = H (sign bits)
        reg(MUL, 5, 1, 2, false, true, false, 0),     // unsigned: wraps
        reg(MOV, 6, 0, 0, false, true, false, 0),     // R6 = H
    ];
    let mut m = test_machine(&prog, 1024);
    run_prog(&mut m, prog.len());
    assert_eq!(m.cpu.r[3], 0xFFFF_FFFD); // -3
    assert_eq!(m.cpu.r[4], 0xFFFF_FFFF); // high word of signed -3
    assert_eq!(m.cpu.r[5], 0xFFFF_FFFD); // low word of 0xFFFFFFFF * 3
    assert_eq!(m.cpu.r[6], 2); // high word of 0x2_FFFF_FFFD
}

#[test]
fn cpu_default_is_zeroed() {
    let c = Cpu::default();
    assert_eq!(c.pc, 0);
    assert_eq!(c.r, [0u32; 16]);
    assert!(!c.z && !c.n && !c.c && !c.v);
}
