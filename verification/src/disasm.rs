//! Read-only disassembly of instruction words for the debug surface:
//! a pure function from address and word to formatted text, an
//! instruction kind, and the branch target where one is statically known.
//! It has no effect on emulator state.
use vstd::prelude::*;
use vstd::string::StringExecFns;

use crate::cpu;
use crate::cpu::{sext20, sext24, PBIT, QBIT, UBIT, VBIT};

verus! {

broadcast use crate::bits::lemma_and_mask_bound;

/// Instruction format class.
#[derive(Debug, Clone, Copy)]
pub enum InstrKind {
    Reg,
    Mem,
    Branch,
    Unknown,
}

/// One disassembled instruction.
#[derive(Debug, Clone)]
pub struct DisasmLine {
    /// Byte address of the instruction.
    pub addr: u32,
    /// The instruction word.
    pub raw: u32,
    /// Formatted disassembly.
    pub text: String,
    pub kind: InstrKind,
    /// Branch destination, for relative branches.
    pub branch_target: Option<u32>,
}

/// Sign-extends the 20-bit offset field of a memory instruction.
pub fn sign_extend_20(x: u32) -> (r: i32)
    ensures
        r == sext20(x),
{
    let mut off = (x & 0x000F_FFFF) as i32;
    proof {
        let o = off;
        assert(0 <= o ^ 0x0008_0000i32 <= 0x000F_FFFF) by (bit_vector)
            requires
                0 <= o <= 0x000F_FFFFi32,
        ;
    }
    off = (off ^ 0x0008_0000) - 0x0008_0000;
    off
}

/// Sign-extends the 24-bit word offset of a relative branch.
pub fn sign_extend_24(x: u32) -> (r: i32)
    ensures
        r == sext24(x),
{
    let mut off = (x & 0x00FF_FFFF) as i32;
    proof {
        let o = off;
        assert(0 <= o ^ 0x0080_0000i32 <= 0x00FF_FFFF) by (bit_vector)
            requires
                0 <= o <= 0x00FF_FFFFi32,
        ;
    }
    off = (off ^ 0x0080_0000) - 0x0080_0000;
    off
}

/// The 16-bit immediate of a register instruction, sign-extended when
/// `v` is set.
pub fn imm16(ir: u32, v: bool) -> (r: i32)
    ensures
        !v ==> r == (ir & 0xFFFF) as i32,
        v ==> r == (0xFFFF_0000u32 | (ir & 0xFFFF)) as i32,
{
    let im = ir & 0xFFFF;
    if !v {
        im as i32
    } else {
        #[verifier::truncate] ((0xFFFF_0000u32 | im) as i32)
    }
}

/// The mnemonic of an ALU opcode.
pub fn op_name(op: u32) -> (r: &'static str)
    ensures
        r@.len() >= 3,
        op == cpu::MOV ==> r@ == "MOV"@,
        op == cpu::LSL ==> r@ == "LSL"@,
        op == cpu::ASR ==> r@ == "ASR"@,
        op == cpu::ROR ==> r@ == "ROR"@,
        op == cpu::AND ==> r@ == "AND"@,
        op == cpu::ANN ==> r@ == "ANN"@,
        op == cpu::IOR ==> r@ == "IOR"@,
        op == cpu::XOR ==> r@ == "XOR"@,
        op == cpu::ADD ==> r@ == "ADD"@,
        op == cpu::SUB ==> r@ == "SUB"@,
        op == cpu::MUL ==> r@ == "MUL"@,
        op == cpu::DIV ==> r@ == "DIV"@,
        op == cpu::FAD ==> r@ == "FAD"@,
        op == cpu::FSB ==> r@ == "FSB"@,
        op == cpu::FML ==> r@ == "FML"@,
        op == cpu::FDV ==> r@ == "FDV"@,
        op > 15 ==> r@ == "???"@,
{
    proof {
        reveal_strlit("MOV");
        reveal_strlit("LSL");
        reveal_strlit("ASR");
        reveal_strlit("ROR");
        reveal_strlit("AND");
        reveal_strlit("ANN");
        reveal_strlit("IOR");
        reveal_strlit("XOR");
        reveal_strlit("ADD");
        reveal_strlit("SUB");
        reveal_strlit("MUL");
        reveal_strlit("DIV");
        reveal_strlit("FAD");
        reveal_strlit("FSB");
        reveal_strlit("FML");
        reveal_strlit("FDV");
        reveal_strlit("???");
    }
    match op {
        0 => "MOV",
        1 => "LSL",
        2 => "ASR",
        3 => "ROR",
        4 => "AND",
        5 => "ANN",
        6 => "IOR",
        7 => "XOR",
        8 => "ADD",
        9 => "SUB",
        10 => "MUL",
        11 => "DIV",
        12 => "FAD",
        13 => "FSB",
        14 => "FML",
        15 => "FDV",
        _ => "???",
    }
}

/// The mnemonic of a branch condition, with the invert bit folded in.
pub fn cond_name(cond: u32, t_invert: bool) -> (r: &'static str)
    ensures
        r@.len() >= 1,
        cond == 0 && !t_invert ==> r@ == "BN"@,
        cond == 0 && t_invert ==> r@ == "BNN"@,
        cond == 1 && !t_invert ==> r@ == "BZ"@,
        cond == 1 && t_invert ==> r@ == "BNZ"@,
        cond == 2 && !t_invert ==> r@ == "BC"@,
        cond == 2 && t_invert ==> r@ == "BNC"@,
        cond == 3 && !t_invert ==> r@ == "BV"@,
        cond == 3 && t_invert ==> r@ == "BNV"@,
        cond == 4 && !t_invert ==> r@ == "BLS"@,
        cond == 4 && t_invert ==> r@ == "BHI"@,
        cond == 5 && !t_invert ==> r@ == "BLT"@,
        cond == 5 && t_invert ==> r@ == "BGE"@,
        cond == 6 && !t_invert ==> r@ == "BLE"@,
        cond == 6 && t_invert ==> r@ == "BGT"@,
        cond == 7 && !t_invert ==> r@ == "B"@,
        cond == 7 && t_invert ==> r@ == "BNEVER"@,
{
    proof {
        reveal_strlit("B");
        reveal_strlit("BN");
        reveal_strlit("BNN");
        reveal_strlit("BZ");
        reveal_strlit("BNZ");
        reveal_strlit("BC");
        reveal_strlit("BNC");
        reveal_strlit("BV");
        reveal_strlit("BNV");
        reveal_strlit("BLS");
        reveal_strlit("BHI");
        reveal_strlit("BLT");
        reveal_strlit("BGE");
        reveal_strlit("BLE");
        reveal_strlit("BGT");
        reveal_strlit("BNEVER");
        reveal_strlit("B?");
    }
    match (cond, t_invert) {
        (0, false) => "BN",
        (0, true) => "BNN",
        (1, false) => "BZ",
        (1, true) => "BNZ",
        (2, false) => "BC",
        (2, true) => "BNC",
        (3, false) => "BV",
        (3, true) => "BNV",
        (4, false) => "BLS",
        (4, true) => "BHI",
        (5, false) => "BLT",
        (5, true) => "BGE",
        (6, false) => "BLE",
        (6, true) => "BGT",
        (7, false) => "B",
        (7, true) => "BNEVER",
        _ => "B?",
    }
}

/// One uppercase hex digit.
fn hex_digit(n: u32) -> (r: &'static str)
    requires
        n < 16,
    ensures
        r@.len() == 1,
{
    proof {
        reveal_strlit("0");
        reveal_strlit("1");
        reveal_strlit("2");
        reveal_strlit("3");
        reveal_strlit("4");
        reveal_strlit("5");
        reveal_strlit("6");
        reveal_strlit("7");
        reveal_strlit("8");
        reveal_strlit("9");
        reveal_strlit("A");
        reveal_strlit("B");
        reveal_strlit("C");
        reveal_strlit("D");
        reveal_strlit("E");
        reveal_strlit("F");
    }
    match n {
        0 => "0",
        1 => "1",
        2 => "2",
        3 => "3",
        4 => "4",
        5 => "5",
        6 => "6",
        7 => "7",
        8 => "8",
        9 => "9",
        10 => "A",
        11 => "B",
        12 => "C",
        13 => "D",
        14 => "E",
        _ => "F",
    }
}

/// `x` as exactly eight uppercase hex digits.
fn hex8(x: u32) -> (r: String)
    ensures
        r@.len() == 8,
{
    let mut s = String::new();
    let mut k: u32 = 0;
    while k < 8
        invariant
            k <= 8,
            s@.len() == k,
        decreases 8 - k,
    {
        let shift = 28 - 4 * k;
        s.append(hex_digit((x >> shift) & 0xF));
        k = k + 1;
    }
    s
}

/// `x` as exactly four uppercase hex digits.
fn hex4(x: u32) -> (r: String)
    ensures
        r@.len() == 4,
{
    let mut s = String::new();
    let mut k: u32 = 0;
    while k < 4
        invariant
            k <= 4,
            s@.len() == k,
        decreases 4 - k,
    {
        let shift = 12 - 4 * k;
        s.append(hex_digit((x >> shift) & 0xF));
        k = k + 1;
    }
    s
}

/// `x` in uppercase hex without leading zeros (`0` stays `0`).
fn hex_trim(x: u32) -> (r: String)
    ensures
        r@.len() >= 1,
{
    if x == 0 {
        proof {
            reveal_strlit("0");
        }
        return String::from_str("0");
    }
    // skip leading zero digits: find the first nonzero nibble
    let mut lead: u32 = 0;
    while lead < 7 && ((x >> (28 - 4 * lead)) & 0xF) == 0
        invariant
            lead <= 7,
        decreases 7 - lead,
    {
        lead = lead + 1;
    }
    let mut s = String::new();
    let mut k: u32 = lead;
    while k < 8
        invariant
            lead <= k <= 8,
            s@.len() == k - lead,
        decreases 8 - k,
    {
        let shift = 28 - 4 * k;
        s.append(hex_digit((x >> shift) & 0xF));
        k = k + 1;
    }
    s
}

/// A signed value as `0x..` or `-0x..` hex.
pub fn fmt_imm(i: i32) -> (r: String)
    ensures
        r@.len() >= 3,
{
    proof {
        reveal_strlit("0x");
        reveal_strlit("-0x");
    }
    if i < 0 {
        let m = (-(i as i64)) as u32;
        String::from_str("-0x").concat(hex_trim(m).as_str())
    } else {
        String::from_str("0x").concat(hex_trim(i as u32).as_str())
    }
}

/// `R0` through `R15`.
fn reg_name(r: u32) -> (s: String)
    requires
        r < 16,
    ensures
        s@.len() >= 2,
{
    proof {
        reveal_strlit("R");
        reveal_strlit("1");
    }
    let mut s = String::from_str("R");
    if r < 10 {
        s.append(hex_digit(r));
    } else {
        s.append("1");
        s.append(hex_digit(r - 10));
    }
    s
}

/// Disassembles the word `ir` fetched from byte address `addr`: the same
/// three formats the CPU decodes, with the branch destination computed
/// for relative branches as `addr + 4 + 4 * offset`.
pub fn disassemble_at(addr: u32, ir: u32) -> (d: DisasmLine)
    ensures
        d.addr == addr,
        d.raw == ir,
        d.text@.len() > 0,
        ir & PBIT == 0 ==> d.kind is Reg && d.branch_target is None,
        ir & PBIT != 0 && ir & QBIT == 0 ==> d.kind is Mem && d.branch_target is None,
        ir & PBIT != 0 && ir & QBIT != 0 && ir & UBIT == 0 ==> d.kind is Branch
            && d.branch_target is None,
        ir & PBIT != 0 && ir & QBIT != 0 && ir & UBIT != 0 ==> d.kind is Branch && (
        d.branch_target matches Some(t) && t == addr.wrapping_add(4).wrapping_add(
            (((sext24(ir) as i64) * 4) as i64) as u32,
        )),
{
    proof {
        reveal_strlit(" ");
        reveal_strlit(", ");
        reveal_strlit("MOV  ");
        reveal_strlit("MOVH ");
        reveal_strlit("MOVF ");
        reveal_strlit(", NZCV");
        reveal_strlit(", H");
        reveal_strlit(", 0x");
        reveal_strlit("<<16");
        reveal_strlit("ADC  ");
        reveal_strlit("ADD  ");
        reveal_strlit("SBC  ");
        reveal_strlit("SUB  ");
        reveal_strlit("MULU ");
        reveal_strlit("MULS ");
        reveal_strlit("DIVU ");
        reveal_strlit("DIVS ");
        reveal_strlit(".U");
        reveal_strlit(".V");
        reveal_strlit(".UV");
        reveal_strlit("LDW ");
        reveal_strlit("LDB ");
        reveal_strlit("STW ");
        reveal_strlit("STB ");
        reveal_strlit(", [");
        reveal_strlit("+");
        reveal_strlit("]");
        reveal_strlit(".L ");
        reveal_strlit("  ; -> 0x");
    }
    let p = (ir & PBIT) != 0;
    let q = (ir & QBIT) != 0;
    let u = (ir & UBIT) != 0;
    let v = (ir & VBIT) != 0;

    if !p {
        // Register format.
        let a = (ir >> 24) & 0xF;
        let b = (ir >> 20) & 0xF;
        let op = (ir >> 16) & 0xF;
        let im = ir & 0xFFFF;
        let c = ir & 0xF;

        let c_str = if !q {
            reg_name(c)
        } else {
            fmt_imm(imm16(ir, v))
        };

        let text = if op == 0 {
            if !u {
                String::from_str("MOV  ").concat(reg_name(a).as_str()).concat(", ").concat(
                    c_str.as_str(),
                )
            } else if q {
                String::from_str("MOVH ").concat(reg_name(a).as_str()).concat(", 0x").concat(
                    hex4(im).as_str(),
                ).concat("<<16")
            } else if v {
                String::from_str("MOVF ").concat(reg_name(a).as_str()).concat(", NZCV")
            } else {
                String::from_str("MOVH ").concat(reg_name(a).as_str()).concat(", H")
            }
        } else {
            let head = if op == 8 {
                if u {
                    String::from_str("ADC  ")
                } else {
                    String::from_str("ADD  ")
                }
            } else if op == 9 {
                if u {
                    String::from_str("SBC  ")
                } else {
                    String::from_str("SUB  ")
                }
            } else if op == 10 {
                if u {
                    String::from_str("MULU ")
                } else {
                    String::from_str("MULS ")
                }
            } else if op == 11 {
                if u {
                    String::from_str("DIVU ")
                } else {
                    String::from_str("DIVS ")
                }
            } else if op == 12 || op == 13 {
                let suffix = if u && v {
                    ".UV "
                } else if u {
                    ".U "
                } else if v {
                    ".V "
                } else {
                    " "
                };
                proof {
                    reveal_strlit(".UV ");
                    reveal_strlit(".U ");
                    reveal_strlit(".V ");
                }
                String::from_str(op_name(op)).concat(suffix)
            } else {
                String::from_str(op_name(op)).concat(" ")
            };
            head.concat(reg_name(a).as_str()).concat(", ").concat(reg_name(b).as_str()).concat(
                ", ",
            ).concat(c_str.as_str())
        };

        return DisasmLine { addr, raw: ir, text, kind: InstrKind::Reg, branch_target: None };
    }
    if !q {
        // Memory format.
        let a = (ir >> 24) & 0xF;
        let b = (ir >> 20) & 0xF;
        let off = sign_extend_20(ir);
        let off_str = if off == 0 {
            String::new()
        } else {
            String::from_str("+").concat(fmt_imm(off).as_str())
        };

        let mnemonic = if !u {
            if !v {
                "LDW "
            } else {
                "LDB "
            }
        } else {
            if !v {
                "STW "
            } else {
                "STB "
            }
        };
        let text = String::from_str(mnemonic).concat(reg_name(a).as_str()).concat(", [").concat(
            reg_name(b).as_str(),
        ).concat(off_str.as_str()).concat("]");

        return DisasmLine { addr, raw: ir, text, kind: InstrKind::Mem, branch_target: None };
    }
    // Branch format.
    let t_invert = ((ir >> 27) & 1) != 0;
    let cond = (ir >> 24) & 7;
    let link = v;

    let mnem = cond_name(cond, t_invert);

    let target: Option<u32>;
    let ops: String;
    if !u {
        let c = ir & 0xF;
        target = None;
        ops = reg_name(c);
    } else {
        let off = sign_extend_24(ir);
        let next = addr.wrapping_add(4);
        let delta = (off as i64) * 4;
        target = Some(next.wrapping_add(#[verifier::truncate] (delta as u32)));
        ops = fmt_imm(off);
    }

    let head = if link {
        String::from_str(mnem).concat(".L ")
    } else {
        String::from_str(mnem).concat(" ")
    };
    let text = match target {
        Some(tgt) => head.concat(ops.as_str()).concat("  ; -> 0x").concat(hex8(tgt).as_str()),
        None => head.concat(ops.as_str()),
    };

    DisasmLine { addr, raw: ir, text, kind: InstrKind::Branch, branch_target: target }
}

/// One full debugger line: address, raw word and decoded text.
pub fn format_line(addr: u32, ir: u32) -> (r: String)
    ensures
        r@.len() > 0,
{
    proof {
        reveal_strlit("0x");
        reveal_strlit(":  0x");
        reveal_strlit("  ");
    }
    let d = disassemble_at(addr, ir);
    String::from_str("0x").concat(hex8(addr).as_str()).concat(":  0x").concat(
        hex8(ir).as_str(),
    ).concat("  ").concat(d.text.as_str())
}

} // verus!
