use risc_emulator::disasm::{disassemble_at, format_line, InstrKind};

fn reg(op: u32, a: u32, b: u32, c: u32, q: bool, u: bool, v: bool, imm16: u32) -> u32 {
    let mut ir = 0u32;
    if q {
        ir |= 0x4000_0000;
    }
    if u {
        ir |= 0x2000_0000;
    }
    if v {
        ir |= 0x1000_0000;
    }
    ir |= (a & 0xF) << 24;
    ir |= (b & 0xF) << 20;
    ir |= (op & 0xF) << 16;
    ir |= imm16 & 0xFFFF;
    ir |= c & 0xF;
    ir
}

#[test]
fn disasm_register_format() {
    // MOV R1, #1
    let ir = reg(0, 1, 0, 0, true, false, false, 1);
    let d = disassemble_at(0, ir);
    assert!(matches!(d.kind, InstrKind::Reg));
    assert!(d.branch_target.is_none());
    assert_eq!(d.text, "MOV  R1, 0x1");

    // ADD R0, R1, R2
    let ir = reg(8, 0, 1, 2, false, false, false, 0);
    let d = disassemble_at(0, ir);
    assert_eq!(d.text, "ADD  R0, R1, R2");

    // upper immediate
    let ir = reg(0, 2, 0, 0, true, true, false, 0x1122);
    let d = disassemble_at(0, ir);
    assert_eq!(d.text, "MOVH R2, 0x1122<<16");

    // sign-extended negative immediate
    let ir = reg(8, 0, 1, 0, true, false, true, 0xFFFF);
    let d = disassemble_at(0, ir);
    assert_eq!(d.text, "ADD  R0, R1, -0x1");
}

#[test]
fn disasm_memory_format() {
    // LDW R0, [R1]
    let ir = 0x8000_0000 | (0 << 24) | (1 << 20);
    let d = disassemble_at(0, ir);
    assert!(matches!(d.kind, InstrKind::Mem));
    assert_eq!(d.text, "LDW R0, [R1]");

    // STB R2, [R3+0x4]
    let ir = 0x8000_0000 | 0x2000_0000 | 0x1000_0000 | (2 << 24) | (3 << 20) | 4;
    let d = disassemble_at(0, ir);
    assert_eq!(d.text, "STB R2, [R3+0x4]");
}

#[test]
fn disasm_branch_format() {
    // B.L +1 (relative, link): target = 0 + 4 + 4
    let ir = 0xC000_0000 | (7 << 24) | 0x2000_0000 | 0x1000_0000 | 1;
    let d = disassemble_at(0, ir);
    assert!(matches!(d.kind, InstrKind::Branch));
    assert_eq!(d.branch_target, Some(8));
    assert_eq!(d.text, "B.L 0x1  ; -> 0x00000008");

    // BNZ R5 (register target): no static destination
    let ir = 0xC000_0000 | (1 << 27) | (1 << 24) | 5;
    let d = disassemble_at(0x100, ir);
    assert!(matches!(d.kind, InstrKind::Branch));
    assert!(d.branch_target.is_none());
    assert_eq!(d.text, "BNZ R5");

    // backward relative branch
    let ir = 0xC000_0000 | (7 << 24) | 0x2000_0000 | 0x00FF_FFFE; // -2 words
    let d = disassemble_at(0x100, ir);
    assert_eq!(d.branch_target, Some(0x100 + 4 - 8));
    assert_eq!(d.text, "B -0x2  ; -> 0x000000FC");
}

#[test]
fn disasm_format_line_layout() {
    let ir = reg(0, 1, 0, 0, true, false, false, 1);
    let line = format_line(0x0000_0010, ir);
    assert_eq!(line, format!("0x00000010:  0x{:08X}  MOV  R1, 0x1", ir));
}

#[test]
fn disasm_register_numbers_past_nine() {
    let ir = reg(8, 10, 11, 15, false, false, false, 0);
    let d = disassemble_at(0, ir);
    assert_eq!(d.text, "ADD  R10, R11, R15");
}
