//! The CPU interpreter: fetch, decode and execute for the register,
//! memory and branch instruction formats, with the condition flags and
//! the progress budget that keeps run slices cooperative.
use vstd::prelude::*;
use vstd::array::ArrayAdditionalExecFns;

use crate::errors::{BusError, BusResult};
use crate::fp;
use crate::fp::{fp_add_model, fp_div_model, fp_mul_model, idiv_model};
use crate::system_bus::{bus_read_rel, bus_write_rel, SystemBus};

verus! {

broadcast use crate::bits::lemma_and_mask_bound;

/// Base address of the boot ROM; reset starts execution here.
pub const ROM_START: u32 = 0xFFFF_F800;

pub const MOV: u32 = 0;

pub const LSL: u32 = 1;

pub const ASR: u32 = 2;

pub const ROR: u32 = 3;

pub const AND: u32 = 4;

pub const ANN: u32 = 5;

pub const IOR: u32 = 6;

pub const XOR: u32 = 7;

pub const ADD: u32 = 8;

pub const SUB: u32 = 9;

pub const MUL: u32 = 10;

pub const DIV: u32 = 11;

pub const FAD: u32 = 12;

pub const FSB: u32 = 13;

pub const FML: u32 = 14;

pub const FDV: u32 = 15;

pub const PBIT: u32 = 0x8000_0000;

pub const QBIT: u32 = 0x4000_0000;

pub const UBIT: u32 = 0x2000_0000;

pub const VBIT: u32 = 0x1000_0000;

/// The processor state: byte program counter, 16 general registers, the
/// H register (multiply high word / divide remainder), the four condition
/// flags, and the progress counter of the current run slice.
#[derive(Debug)]
pub struct Cpu {
    pub pc: u32,
    pub r: [u32; 16],
    pub h: u32,
    pub z: bool,
    pub n: bool,
    pub c: bool,
    pub v: bool,
    pub progress: u32,
}

impl Default for Cpu {
    /// All registers, flags and counters zero.
    fn default() -> (r: Cpu)
        ensures
            r.pc == 0 && r.h == 0 && r.progress == 0,
            !r.z && !r.n && !r.c && !r.v,
            forall|i: int| 0 <= i < 16 ==> r.r@[i] == 0u32,
    {
        Cpu {
            pc: 0,
            r: [0u32; 16],
            h: 0,
            z: false,
            n: false,
            c: false,
            v: false,
            progress: 0,
        }
    }
}

/// A read-only snapshot of the CPU registers and flags.
#[derive(Debug, Clone, Copy)]
pub struct CpuView {
    pub pc: u32,
    pub r: [u32; 16],
    pub h: u32,
    pub z: bool,
    pub n: bool,
    pub c: bool,
    pub v: bool,
}

/// The flags readout word of the MOV variant `u=1, q=0, v=1`.
pub open spec fn flags_word(cpu: Cpu) -> u32 {
    0xD0u32 | ((if cpu.n {
        1u32
    } else {
        0u32
    }) << 31) | ((if cpu.z {
        1u32
    } else {
        0u32
    }) << 30) | ((if cpu.c {
        1u32
    } else {
        0u32
    }) << 29) | ((if cpu.v {
        1u32
    } else {
        0u32
    }) << 28)
}

/// The second ALU operand: register `c` when `q=0`, else the 16-bit
/// immediate, zero- or one-extended by `v`.
pub open spec fn sel_c_val(ir: u32, regs: Seq<u32>) -> u32 {
    if ir & QBIT == 0 {
        regs[(ir & 0xF) as int]
    } else if ir & VBIT == 0 {
        ir & 0xFFFF
    } else {
        0xFFFF_0000u32 | (ir & 0xFFFF)
    }
}

/// The MOV family: plain move, upper immediate, flags readout, or H.
pub open spec fn mov_val(cpu: Cpu, ir: u32, c_val: u32) -> u32 {
    if ir & UBIT == 0 {
        c_val
    } else if ir & QBIT != 0 {
        c_val << 16
    } else if ir & VBIT != 0 {
        flags_word(cpu)
    } else {
        cpu.h
    }
}

/// Quotient and remainder of the DIV instruction: a positive divisor gets
/// host division with Euclidean fix-up (signed) or plain unsigned
/// division; dividing by zero unsigned yields quotient 0 and remainder
/// the dividend; everything else goes to the bit-serial divider.
pub open spec fn div_parts(b_val: u32, c_val: u32, unsigned: bool) -> (u32, u32) {
    if !unsigned {
        if (c_val as i32) > 0 {
            let q = (b_val as i32) as int / (c_val as i32) as int;
            let rm = (b_val as i32) as int % (c_val as i32) as int;
            ((q as i32) as u32, (rm as i32) as u32)
        } else {
            let d = idiv_model(b_val, c_val, true);
            (d.quot, d.rem)
        }
    } else {
        if c_val == 0 {
            (0u32, b_val)
        } else if (c_val as i32) > 0 {
            (b_val / c_val, b_val % c_val)
        } else {
            let d = idiv_model(b_val, c_val, false);
            (d.quot, d.rem)
        }
    }
}

/// The value a register instruction writes to register `a`.
pub open spec fn alu_a_val(cpu: Cpu, ir: u32) -> u32 {
    let op = (ir >> 16) & 0xF;
    let b_val = cpu.r@[((ir >> 20) & 0xF) as int];
    let c_val = sel_c_val(ir, cpu.r@);
    if op == MOV {
        mov_val(cpu, ir, c_val)
    } else if op == LSL {
        b_val << (c_val & 31)
    } else if op == ASR {
        ((b_val as i32) >> (c_val & 31)) as u32
    } else if op == ROR {
        (b_val >> (c_val & 31)) | (b_val << (((32 - (c_val & 31)) as u32) & 31))
    } else if op == AND {
        b_val & c_val
    } else if op == ANN {
        b_val & !c_val
    } else if op == IOR {
        b_val | c_val
    } else if op == XOR {
        b_val ^ c_val
    } else if op == ADD {
        let s = b_val.wrapping_add(c_val);
        if ir & UBIT != 0 {
            s.wrapping_add(
                if cpu.c {
                    1u32
                } else {
                    0u32
                },
            )
        } else {
            s
        }
    } else if op == SUB {
        let s = b_val.wrapping_sub(c_val);
        if ir & UBIT != 0 {
            s.wrapping_sub(
                if cpu.c {
                    1u32
                } else {
                    0u32
                },
            )
        } else {
            s
        }
    } else if op == MUL {
        if ir & UBIT == 0 {
            ((((b_val as i32) as i64) * ((c_val as i32) as i64)) as i64) as u32
        } else {
            (((b_val as u64) * (c_val as u64)) as u64) as u32
        }
    } else if op == DIV {
        div_parts(b_val, c_val, ir & UBIT != 0).0
    } else if op == FAD {
        fp_add_model(b_val, c_val, ir & UBIT != 0, ir & VBIT != 0)
    } else if op == FSB {
        fp_add_model(b_val, c_val ^ 0x8000_0000, ir & UBIT != 0, ir & VBIT != 0)
    } else if op == FML {
        fp_mul_model(b_val, c_val)
    } else {
        fp_div_model(b_val, c_val)
    }
}

/// The carry flag after a register instruction: ADD sets it on unsigned
/// wrap-around, SUB on borrow; every other operation leaves it alone.
pub open spec fn alu_c_flag(cpu: Cpu, ir: u32) -> bool {
    let op = (ir >> 16) & 0xF;
    let b_val = cpu.r@[((ir >> 20) & 0xF) as int];
    let av = alu_a_val(cpu, ir);
    if op == ADD {
        av < b_val
    } else if op == SUB {
        av > b_val
    } else {
        cpu.c
    }
}

/// The overflow flag after a register instruction: set by ADD and SUB per
/// two's-complement signed overflow; every other operation leaves it
/// alone.
pub open spec fn alu_v_flag(cpu: Cpu, ir: u32) -> bool {
    let op = (ir >> 16) & 0xF;
    let b_val = cpu.r@[((ir >> 20) & 0xF) as int];
    let c_val = sel_c_val(ir, cpu.r@);
    let av = alu_a_val(cpu, ir);
    if op == ADD {
        ((av ^ c_val) & (av ^ b_val)) >> 31 != 0
    } else if op == SUB {
        ((b_val ^ c_val) & (av ^ b_val)) >> 31 != 0
    } else {
        cpu.v
    }
}

/// The H register after a register instruction: MUL leaves the high
/// product word, DIV the remainder; every other operation leaves it
/// alone.
pub open spec fn alu_h_val(cpu: Cpu, ir: u32) -> u32 {
    let op = (ir >> 16) & 0xF;
    let b_val = cpu.r@[((ir >> 20) & 0xF) as int];
    let c_val = sel_c_val(ir, cpu.r@);
    if op == MUL {
        if ir & UBIT == 0 {
            (((((b_val as i32) as i64) * ((c_val as i32) as i64)) as u64) >> 32) as u32
        } else {
            ((((b_val as u64) * (c_val as u64)) as u64) >> 32) as u32
        }
    } else if op == DIV {
        div_parts(b_val, c_val, ir & UBIT != 0).1
    } else {
        cpu.h
    }
}

/// What a register-format instruction does: register `a` takes the ALU
/// value, Z and N track that value, C and V change only under ADD and
/// SUB, H only under MUL and DIV, and the program counter moves past the
/// instruction.
pub open spec fn exec_reg_rel(pre: Cpu, p0: u32, post: Cpu, ir: u32) -> bool {
    let a = ((ir >> 24) & 0xF) as int;
    let av = alu_a_val(pre, ir);
    &&& post.r@ == pre.r@.update(a, av)
    &&& post.z == (av == 0)
    &&& post.n == ((av as i32) < 0)
    &&& post.c == alu_c_flag(pre, ir)
    &&& post.v == alu_v_flag(pre, ir)
    &&& post.h == alu_h_val(pre, ir)
    &&& post.pc == pre.pc.wrapping_add(4)
    &&& post.progress == p0
}

/// Euclidean division for a positive divisor: the remainder is never
/// negative, so it always lies in `[0, c)`.
pub fn div_signed_c_positive(b: i32, c: i32) -> (qr: (i32, i32))
    requires
        c > 0,
    ensures
        qr.0 == b as int / c as int,
        qr.1 == b as int % c as int,
        0 <= qr.1 < c,
{
    if b >= 0 {
        (b / c, b % c)
    } else {
        let bm = (-(b as i64)) as u32;
        let cu = c as u32;
        let q0 = bm / cu;
        let r0 = bm % cu;
        proof {
            vstd::arithmetic::div_mod::lemma_fundamental_div_mod(bm as int, cu as int);
            assert(r0 != 0 ==> q0 < 0x8000_0000) by (nonlinear_arith)
                requires
                    bm as int == q0 as int * cu as int + r0 as int && cu >= 1 && bm
                        <= 0x8000_0000u32,
            ;
            assert(b as int == -(bm as int));
            if r0 == 0 {
                assert(b as int == (-(q0 as int)) * (c as int) + 0) by (nonlinear_arith)
                    requires
                        bm as int == q0 as int * cu as int + r0 as int && r0 == 0 && cu as int
                            == c as int && b as int == -(bm as int),
                ;
                vstd::arithmetic::div_mod::lemma_fundamental_div_mod_converse(
                    b as int,
                    c as int,
                    -(q0 as int),
                    0,
                );
            } else {
                assert(b as int == (-(q0 as int) - 1) * (c as int) + (c as int - r0 as int))
                    by (nonlinear_arith)
                    requires
                        bm as int == q0 as int * cu as int + r0 as int && cu as int == c as int
                            && b as int == -(bm as int),
                ;
                vstd::arithmetic::div_mod::lemma_fundamental_div_mod_converse(
                    b as int,
                    c as int,
                    -(q0 as int) - 1,
                    c - r0,
                );
            }
        }
        if r0 == 0 {
            ((-(q0 as i64)) as i32, 0)
        } else {
            (((-(q0 as i64)) - 1) as i32, (cu - r0) as i32)
        }
    }
}

impl Cpu {
    /// All registers, flags and counters zero.
    pub fn new() -> (r: Cpu)
        ensures
            r.pc == 0 && r.h == 0 && r.progress == 0,
            !r.z && !r.n && !r.c && !r.v,
            forall|i: int| 0 <= i < 16 ==> r.r@[i] == 0u32,
    {
        Cpu {
            pc: 0,
            r: [0u32; 16],
            h: 0,
            z: false,
            n: false,
            c: false,
            v: false,
            progress: 0,
        }
    }

    /// Points the program counter at the boot ROM.
    pub fn reset(&mut self)
        ensures
            final(self).pc == ROM_START,
            final(self).r == old(self).r,
            final(self).h == old(self).h,
            final(self).z == old(self).z && final(self).n == old(self).n && final(self).c == old(
                self,
            ).c && final(self).v == old(self).v,
            final(self).progress == old(self).progress,
    {
        self.pc = ROM_START;
    }

    /// Writes a general register; Z and N always track the written value.
    fn set_reg(&mut self, reg: usize, value: u32)
        requires
            reg < 16,
        ensures
            final(self).r@ == old(self).r@.update(reg as int, value),
            final(self).z == (value == 0),
            final(self).n == ((value as i32) < 0),
            final(self).pc == old(self).pc,
            final(self).h == old(self).h,
            final(self).c == old(self).c,
            final(self).v == old(self).v,
            final(self).progress == old(self).progress,
    {
        self.r[reg] = value;
        self.z = value == 0;
        self.n = (value as i32) < 0;
    }

    /// A snapshot of the registers and flags.
    pub fn view(&self) -> (v: CpuView)
        ensures
            v.pc == self.pc && v.r == self.r && v.h == self.h,
            v.z == self.z && v.n == self.n && v.c == self.c && v.v == self.v,
    {
        CpuView {
            pc: self.pc,
            r: self.r,
            h: self.h,
            z: self.z,
            n: self.n,
            c: self.c,
            v: self.v,
        }
    }
}

/// Sign-extended 20-bit offset of a memory-format instruction.
pub open spec fn sext20(ir: u32) -> i32 {
    ((((ir & 0x000F_FFFF) as i32) ^ 0x0008_0000i32) - 0x0008_0000) as i32
}

/// Sign-extended 24-bit word offset of a relative branch.
pub open spec fn sext24(ir: u32) -> i32 {
    ((((ir & 0x00FF_FFFF) as i32) ^ 0x0080_0000i32) - 0x0080_0000) as i32
}

/// The byte of `w` selected by the low two address bits, little-endian.
pub open spec fn byte_of_word(w: u32, addr: u32) -> u32 {
    (w >> (((addr & 3) * 8) as u32)) & 0xFF
}

/// `w` with the byte selected by the low two address bits replaced.
pub open spec fn set_byte_in_word(w: u32, addr: u32, value: u32) -> u32 {
    (w & !(0xFFu32 << (((addr & 3) * 8) as u32))) | (value << (((addr & 3) * 8) as u32))
}

/// Registers, flags and H unchanged.
pub open spec fn cpu_regs_flags_same(pre: Cpu, post: Cpu) -> bool {
    &&& post.r@ == pre.r@
    &&& post.z == pre.z
    &&& post.n == pre.n
    &&& post.c == pre.c
    &&& post.v == pre.v
    &&& post.h == pre.h
}

/// Whether the branch condition selected by bits 24..26, XORed with the
/// invert bit 27, says to take the branch.
pub open spec fn branch_taken(pre: Cpu, ir: u32) -> bool {
    let t0 = (ir >> 27) & 1 != 0;
    let sel = (ir >> 24) & 7;
    let cond = if sel == 0 {
        pre.n
    } else if sel == 1 {
        pre.z
    } else if sel == 2 {
        pre.c
    } else if sel == 3 {
        pre.v
    } else if sel == 4 {
        pre.c || pre.z
    } else if sel == 5 {
        pre.n != pre.v
    } else if sel == 6 {
        (pre.n != pre.v) || pre.z
    } else {
        true
    };
    t0 != cond
}

/// What a branch-format instruction does: an untaken branch just moves
/// past the instruction; a taken one first links the post-fetch counter
/// into R15 when `v` is set (which, as any register write, retargets Z
/// and N), then jumps to `R[c]` or to the relative word offset.
pub open spec fn branch_rel(pre: Cpu, p0: u32, post: Cpu, ir: u32) -> bool {
    let pc1 = pre.pc.wrapping_add(4);
    &&& post.h == pre.h
    &&& post.c == pre.c
    &&& post.v == pre.v
    &&& post.progress == p0
    &&& if !branch_taken(pre, ir) {
        post.r@ == pre.r@ && post.z == pre.z && post.n == pre.n && post.pc == pc1
    } else {
        let link = ir & VBIT != 0;
        let regs1 = if link {
            pre.r@.update(15, pc1)
        } else {
            pre.r@
        };
        &&& post.r@ == regs1
        &&& post.z == (if link {
            pc1 == 0
        } else {
            pre.z
        })
        &&& post.n == (if link {
            (pc1 as i32) < 0
        } else {
            pre.n
        })
        &&& post.pc == (if ir & UBIT == 0 {
            regs1[(ir & 0xF) as int]
        } else {
            pc1.wrapping_add((((sext24(ir) as i64) * 4) as i64) as u32)
        })
    }
}

/// A successful load of the word `w` at the effective address of `ir`:
/// register `a` takes the word (or its extracted byte), Z and N track
/// the value, and nothing else of the CPU changes.
pub open spec fn load_ok_post(
    pre: Cpu,
    p0: u32,
    bpre: SystemBus,
    post: Cpu,
    bpost: SystemBus,
    ir: u32,
    w: u32,
) -> bool {
    let pc1 = pre.pc.wrapping_add(4);
    let a = ((ir >> 24) & 0xF) as int;
    let addr = pre.r@[((ir >> 20) & 0xF) as int].wrapping_add(sext20(ir) as u32);
    let val = if ir & VBIT == 0 {
        w
    } else {
        byte_of_word(w, addr)
    };
    &&& bus_read_rel(bpre, bpost, addr, p0, post.progress, Result::Ok(w))
    &&& post.r@ == pre.r@.update(a, val)
    &&& post.z == (val == 0)
    &&& post.n == ((val as i32) < 0)
    &&& post.c == pre.c && post.v == pre.v && post.h == pre.h
    &&& post.pc == pc1
}

/// A byte store seen on the bus: the enclosing word `w` is read (moving
/// progress from `p0` to `p1`), then written back with one byte replaced.
pub open spec fn rmw_chain(
    bpre: SystemBus,
    bmid: SystemBus,
    bpost: SystemBus,
    addr: u32,
    p0: u32,
    p1: u32,
    w: u32,
    value: u8,
    r: BusResult<()>,
) -> bool {
    &&& bus_read_rel(bpre, bmid, addr, p0, p1, Result::Ok(w))
    &&& bus_write_rel(bmid, bpost, addr, set_byte_in_word(w, addr, value as u32), r)
}

/// What a memory-format instruction does. The effective address is
/// `R[b]` plus the sign-extended 20-bit offset; a load puts the word (or
/// extracted byte) into register `a` with Z/N tracking it, a store sends
/// `R[a]` (bytes by read-modify-write of the enclosing word) through the
/// bus; every bus outcome is governed by the bus relations, and a bus
/// fault surfaces unchanged with the registers untouched.
pub open spec fn mem_instr_rel(
    pre: Cpu,
    p0: u32,
    bpre: SystemBus,
    post: Cpu,
    bpost: SystemBus,
    ir: u32,
    r: BusResult<()>,
) -> bool {
    let pc1 = pre.pc.wrapping_add(4);
    let a = ((ir >> 24) & 0xF) as int;
    let addr = pre.r@[((ir >> 20) & 0xF) as int].wrapping_add(sext20(ir) as u32);
    if ir & UBIT == 0 {
        match r {
            Result::Ok(u) => exists|w: u32| #[trigger] load_ok_post(pre, p0, bpre, post, bpost, ir, w),
            Result::Err(e) => {
                &&& bus_read_rel(bpre, bpost, addr, p0, post.progress, Result::Err(e))
                &&& cpu_regs_flags_same(pre, post)
                &&& post.pc == pc1
            },
        }
    } else if ir & VBIT == 0 {
        &&& cpu_regs_flags_same(pre, post)
        &&& post.pc == pc1
        &&& post.progress == p0
        &&& bus_write_rel(bpre, bpost, addr, pre.r@[a], r)
    } else {
        store_byte_post(pre, p0, bpre, post, bpost, ir, r)
    }
}

/// What a byte store does: the CPU only moves past the instruction; on
/// the bus the enclosing word is read and written back with the low byte
/// of `R[a]` spliced in, unless already the read faults.
pub open spec fn store_byte_post(
    pre: Cpu,
    p0: u32,
    bpre: SystemBus,
    post: Cpu,
    bpost: SystemBus,
    ir: u32,
    r: BusResult<()>,
) -> bool {
    let pc1 = pre.pc.wrapping_add(4);
    let a = ((ir >> 24) & 0xF) as int;
    let addr = pre.r@[((ir >> 20) & 0xF) as int].wrapping_add(sext20(ir) as u32);
    &&& cpu_regs_flags_same(pre, post)
    &&& post.pc == pc1
    &&& store_byte_bus_post(bpre, bpost, addr, p0, post.progress, (pre.r@[a] as u8), r)
}

/// What a byte store looks like on the bus alone: either the
/// read-modify-write chain ran for some enclosing word, or already the
/// read faulted and that fault is the result.
pub open spec fn store_byte_bus_post(
    bpre: SystemBus,
    bpost: SystemBus,
    addr: u32,
    p0: u32,
    p1: u32,
    value: u8,
    r: BusResult<()>,
) -> bool {
    (exists|w: u32, bmid: SystemBus| #[trigger] rmw_chain(bpre, bmid, bpost, addr, p0, p1, w, value, r))
        || (r matches Err(e) && bus_read_rel(
        bpre,
        bpost,
        addr,
        p0,
        p1,
        Result::<u32, BusError>::Err(e),
    ))
}

/// What one decoded instruction does, by format: register instructions
/// leave the bus alone, memory instructions go through the bus
/// relations, branches only move the program counter (and possibly R15).
pub open spec fn instr_rel(
    pre: Cpu,
    p0: u32,
    bpre: SystemBus,
    post: Cpu,
    bpost: SystemBus,
    ir: u32,
    r: BusResult<()>,
) -> bool {
    if ir & PBIT == 0 {
        bpost == bpre && r is Ok && exec_reg_rel(pre, p0, post, ir)
    } else if ir & QBIT == 0 {
        mem_instr_rel(pre, p0, bpre, post, bpost, ir, r)
    } else {
        bpost == bpre && r is Ok && branch_rel(pre, p0, post, ir)
    }
}

/// What one whole step does: the instruction is fetched at the (masked)
/// program counter through the bus relation, a fetch fault surfaces with
/// the CPU unmoved, and a fetched word executes per [`instr_rel`].
pub open spec fn step_rel(
    pre: Cpu,
    bpre: SystemBus,
    post: Cpu,
    bpost: SystemBus,
    r: BusResult<()>,
) -> bool {
    exists|fr: BusResult<u32>, p1: u32, bmid: SystemBus|
        {
            &&& #[trigger] bus_read_rel(bpre, bmid, pre.pc, pre.progress, p1, fr)
            &&& match fr {
                Result::Ok(w) => instr_rel(pre, p1, bmid, post, bpost, w, r),
                Result::Err(e) => {
                    &&& r == Result::<(), BusError>::Err(e)
                    &&& bpost == bmid
                    &&& cpu_regs_flags_same(pre, post)
                    &&& post.pc == pre.pc
                    &&& post.progress == p1
                },
            }
        }
}

/// The instruction relation reads the registers, flags and counter of its
/// pre-state but never its progress field (that travels as `p0`), so two
/// pre-states that differ only in progress satisfy it alike.
proof fn lemma_instr_rel_progress(
    pre1: Cpu,
    pre2: Cpu,
    p0: u32,
    bpre: SystemBus,
    post: Cpu,
    bpost: SystemBus,
    ir: u32,
    r: BusResult<()>,
)
    requires
        pre2.r@ == pre1.r@,
        pre2.pc == pre1.pc,
        pre2.h == pre1.h,
        pre2.z == pre1.z,
        pre2.n == pre1.n,
        pre2.c == pre1.c,
        pre2.v == pre1.v,
        instr_rel(pre1, p0, bpre, post, bpost, ir, r),
    ensures
        instr_rel(pre2, p0, bpre, post, bpost, ir, r),
{
    if ir & PBIT == 0 {
        assert(flags_word(pre2) == flags_word(pre1));
        assert(sel_c_val(ir, pre2.r@) == sel_c_val(ir, pre1.r@));
        assert(mov_val(pre2, ir, sel_c_val(ir, pre1.r@)) == mov_val(
            pre1,
            ir,
            sel_c_val(ir, pre1.r@),
        ));
        assert(alu_a_val(pre2, ir) == alu_a_val(pre1, ir));
        assert(alu_c_flag(pre2, ir) == alu_c_flag(pre1, ir));
        assert(alu_v_flag(pre2, ir) == alu_v_flag(pre1, ir));
        assert(alu_h_val(pre2, ir) == alu_h_val(pre1, ir));
        assert(exec_reg_rel(pre2, p0, post, ir));
    } else if ir & QBIT == 0 {
        if ir & UBIT == 0 && r is Ok {
            let w = choose|w: u32| load_ok_post(pre1, p0, bpre, post, bpost, ir, w);
            assert(load_ok_post(pre2, p0, bpre, post, bpost, ir, w));
        }
        assert(mem_instr_rel(pre2, p0, bpre, post, bpost, ir, r));
    } else {
        assert(branch_taken(pre2, ir) == branch_taken(pre1, ir));
        assert(branch_rel(pre2, p0, post, ir));
    }
}

impl Cpu {
    /// A progress-aware word read for instruction fetches and loads.
    fn load_word(&mut self, bus: &mut SystemBus, addr: u32) -> (r: BusResult<u32>)
        requires
            old(bus).wf(),
        ensures
            final(bus).wf(),
            bus_read_rel(
                *old(bus),
                *final(bus),
                addr,
                old(self).progress,
                final(self).progress,
                r,
            ),
            cpu_regs_flags_same(*old(self), *final(self)),
            final(self).pc == old(self).pc,
    {
        bus.read_word_for_cpu(addr, &mut self.progress)
    }

    /// A byte load: reads the enclosing word and extracts the byte picked
    /// by the low two address bits.
    fn load_byte(&mut self, bus: &mut SystemBus, addr: u32) -> (r: BusResult<u8>)
        requires
            old(bus).wf(),
        ensures
            final(bus).wf(),
            cpu_regs_flags_same(*old(self), *final(self)),
            final(self).pc == old(self).pc,
            exists|rr: BusResult<u32>|
                {
                    &&& #[trigger] bus_read_rel(
                        *old(bus),
                        *final(bus),
                        addr,
                        old(self).progress,
                        final(self).progress,
                        rr,
                    )
                    &&& match rr {
                        Result::Ok(w) => (r matches Ok(b) && b as u32 == byte_of_word(w, addr)),
                        Result::Err(e) => r == Result::<u8, BusError>::Err(e),
                    }
                },
    {
        let w = match self.load_word(bus, addr) {
            Ok(w) => w,
            Err(e) => {
                return Err(e);
            },
        };
        let shift = (addr & 3) * 8;
        Ok(#[verifier::truncate] (((w >> shift) & 0xFF) as u8))
    }

    /// A word store; stores never touch the progress counter.
    fn store_word(&mut self, bus: &mut SystemBus, addr: u32, value: u32) -> (r: BusResult<()>)
        requires
            old(bus).wf(),
        ensures
            final(bus).wf(),
            *final(self) == *old(self),
            bus_write_rel(*old(bus), *final(bus), addr, value, r),
    {
        bus.write_word(addr, value)
    }

    /// A byte store: read-modify-write of the enclosing word.
    fn store_byte(&mut self, bus: &mut SystemBus, addr: u32, value: u8) -> (r: BusResult<()>)
        requires
            old(bus).wf(),
        ensures
            final(bus).wf(),
            cpu_regs_flags_same(*old(self), *final(self)),
            final(self).pc == old(self).pc,
            store_byte_bus_post(
                *old(bus),
                *final(bus),
                addr,
                old(self).progress,
                final(self).progress,
                value,
                r,
            ),
    {
        let ghost bpre = *bus;
        let ghost p0 = self.progress;
        let w = match self.load_word(bus, addr) {
            Ok(w) => w,
            Err(e) => {
                return Err(e);
            },
        };
        let ghost bmid = *bus;
        let shift = (addr & 3) * 8;
        let w1 = (w & !(0xFFu32 << shift)) | ((value as u32) << shift);
        let res = self.store_word(bus, addr, w1);
        proof {
            assert(rmw_chain(bpre, bmid, *bus, addr, p0, self.progress, w, value, res));
        }
        res
    }
}

impl Cpu {
    /// Executes a register-format instruction (the program counter has
    /// not yet moved past it).
    #[verifier::rlimit(50)]
    fn exec_register(&mut self, ir: u32)
        requires
            ir & PBIT == 0,
        ensures
            exec_reg_rel(*old(self), old(self).progress, *final(self), ir),
    {
        let ghost cpre = *self;
        self.pc = self.pc.wrapping_add(4);

        let a = ((ir >> 24) & 0xF) as usize;
        let b = ((ir >> 20) & 0xF) as usize;
        let op = (ir >> 16) & 0xF;
        let im = ir & 0xFFFF;
        let c = (ir & 0xF) as usize;

        let b_val = self.r[b];
        let c_val = if (ir & QBIT) == 0 {
            self.r[c]
        } else if (ir & VBIT) == 0 {
            im
        } else {
            0xFFFF_0000 | im
        };
        assert(c_val == sel_c_val(ir, cpre.r@));

        let mut a_val: u32;

        if op == MOV {
            if (ir & UBIT) == 0 {
                a_val = c_val;
            } else if (ir & QBIT) != 0 {
                a_val = c_val << 16;
            } else if (ir & VBIT) != 0 {
                a_val = 0xD0 | ((if self.n {
                    1u32
                } else {
                    0u32
                }) << 31) | ((if self.z {
                    1u32
                } else {
                    0u32
                }) << 30) | ((if self.c {
                    1u32
                } else {
                    0u32
                }) << 29) | ((if self.v {
                    1u32
                } else {
                    0u32
                }) << 28);
            } else {
                a_val = self.h;
            }
        } else if op == LSL {
            a_val = b_val << (c_val & 31);
        } else if op == ASR {
            a_val = (((b_val as i32) >> (c_val & 31)) as u32);
        } else if op == ROR {
            let sh = c_val & 31;
            a_val = (b_val >> sh) | (b_val << ((32 - sh) & 31));
        } else if op == AND {
            a_val = b_val & c_val;
        } else if op == ANN {
            a_val = b_val & !c_val;
        } else if op == IOR {
            a_val = b_val | c_val;
        } else if op == XOR {
            a_val = b_val ^ c_val;
        } else if op == ADD {
            a_val = b_val.wrapping_add(c_val);
            if (ir & UBIT) != 0 {
                a_val = a_val.wrapping_add(
                    if self.c {
                        1
                    } else {
                        0
                    },
                );
            }
            self.c = a_val < b_val;
            self.v = (((a_val ^ c_val) & (a_val ^ b_val)) >> 31) != 0;
        } else if op == SUB {
            a_val = b_val.wrapping_sub(c_val);
            if (ir & UBIT) != 0 {
                a_val = a_val.wrapping_sub(
                    if self.c {
                        1
                    } else {
                        0
                    },
                );
            }
            self.c = a_val > b_val;
            self.v = (((b_val ^ c_val) & (a_val ^ b_val)) >> 31) != 0;
        } else if op == MUL {
            if (ir & UBIT) == 0 {
                proof {
                    assert(-0x4000_0000_0000_0000 <= (b_val as i32) as int * (c_val as i32) as int
                        <= 0x4000_0000_0000_0000) by (nonlinear_arith)
                        requires
                            -0x8000_0000 <= (b_val as i32) as int <= 0x7FFF_FFFF && -0x8000_0000
                                <= (c_val as i32) as int <= 0x7FFF_FFFF,
                    ;
                }
                let tmp = ((b_val as i32) as i64) * ((c_val as i32) as i64);
                a_val = #[verifier::truncate] (tmp as u32);
                self.h = (((tmp as u64) >> 32) as u32);
            } else {
                proof {
                    assert((b_val as u64) * (c_val as u64) <= 0xFFFF_FFFE_0000_0001u64)
                        by (nonlinear_arith)
                        requires
                            b_val <= 0xFFFF_FFFFu32 && c_val <= 0xFFFF_FFFFu32,
                    ;
                }
                let tmp = (b_val as u64) * (c_val as u64);
                a_val = #[verifier::truncate] (tmp as u32);
                self.h = ((tmp >> 32) as u32);
            }
        } else if op == DIV {
            if (ir & UBIT) == 0 {
                if (c_val as i32) > 0 {
                    let qr = div_signed_c_positive(b_val as i32, c_val as i32);
                    a_val = qr.0 as u32;
                    self.h = qr.1 as u32;
                } else {
                    let d = fp::idiv(b_val, c_val, true);
                    a_val = d.quot;
                    self.h = d.rem;
                }
            } else {
                if c_val == 0 {
                    a_val = 0;
                    self.h = b_val;
                } else if (c_val as i32) > 0 {
                    a_val = b_val / c_val;
                    self.h = b_val % c_val;
                } else {
                    let d = fp::idiv(b_val, c_val, false);
                    a_val = d.quot;
                    self.h = d.rem;
                }
            }
        } else if op == FAD {
            a_val = fp::fp_add(b_val, c_val, (ir & UBIT) != 0, (ir & VBIT) != 0);
        } else if op == FSB {
            a_val = fp::fp_add(b_val, c_val ^ 0x8000_0000, (ir & UBIT) != 0, (ir & VBIT) != 0);
        } else if op == FML {
            a_val = fp::fp_mul(b_val, c_val);
        } else {
            a_val = fp::fp_div(b_val, c_val);
        }

        assert(a_val == alu_a_val(cpre, ir));
        self.set_reg(a, a_val);
    }

    /// Executes a memory-format instruction (the program counter has not
    /// yet moved past it).
    #[verifier::rlimit(100)]
    fn exec_memory(&mut self, bus: &mut SystemBus, ir: u32) -> (r: BusResult<()>)
        requires
            old(bus).wf(),
            ir & PBIT != 0,
            ir & QBIT == 0,
        ensures
            final(bus).wf(),
            mem_instr_rel(
                *old(self),
                old(self).progress,
                *old(bus),
                *final(self),
                *final(bus),
                ir,
                r,
            ),
    {
        let ghost cpre = *self;
        let ghost bpre = *bus;
        self.pc = self.pc.wrapping_add(4);

        let a = ((ir >> 24) & 0xF) as usize;
        let b = ((ir >> 20) & 0xF) as usize;

        let mut off = (ir & 0x000F_FFFF) as i32;
        proof {
            let x = off;
            assert(0 <= x ^ 0x0008_0000i32 <= 0x000F_FFFF) by (bit_vector)
                requires
                    0 <= x <= 0x000F_FFFFi32,
            ;
        }
        off = (off ^ 0x0008_0000) - 0x0008_0000;
        assert(off == sext20(ir));

        let addr = self.r[b].wrapping_add(#[verifier::truncate] (off as u32));

        if (ir & UBIT) == 0 {
            if (ir & VBIT) == 0 {
                match self.load_word(bus, addr) {
                    Ok(w) => {
                        self.set_reg(a, w);
                        proof {
                            assert(load_ok_post(cpre, cpre.progress, bpre, *self, *bus, ir, w));
                            assert(mem_instr_rel(cpre, cpre.progress, bpre, *self, *bus, ir,
                                Result::Ok(())));
                        }
                        Ok(())
                    },
                    Err(e) => {
                        proof {
                            assert(bus_read_rel(bpre, *bus, addr, cpre.progress, self.progress,
                                Result::<u32, BusError>::Err(e)));
                            assert(mem_instr_rel(cpre, cpre.progress, bpre, *self, *bus, ir,
                                Result::<(), BusError>::Err(e)));
                        }
                        Err(e)
                    },
                }
            } else {
                match self.load_byte(bus, addr) {
                    Ok(bv) => {
                        self.set_reg(a, bv as u32);
                        proof {
                            let w = choose|w: u32|
                                bus_read_rel(bpre, *bus, addr, cpre.progress, self.progress,
                                    Result::Ok(w)) && bv as u32 == byte_of_word(w, addr);
                            assert(load_ok_post(cpre, cpre.progress, bpre, *self, *bus, ir, w));
                            assert(mem_instr_rel(cpre, cpre.progress, bpre, *self, *bus, ir,
                                Result::Ok(())));
                        }
                        Ok(())
                    },
                    Err(e) => {
                        proof {
                            assert(mem_instr_rel(cpre, cpre.progress, bpre, *self, *bus, ir,
                                Result::<(), BusError>::Err(e)));
                        }
                        Err(e)
                    },
                }
            }
        } else {
            if (ir & VBIT) == 0 {
                let v = self.r[a];
                let res = self.store_word(bus, addr, v);
                proof {
                    assert(mem_instr_rel(cpre, cpre.progress, bpre, *self, *bus, ir, res));
                }
                res
            } else {
                let v = self.r[a];
                let res = self.store_byte(bus, addr, #[verifier::truncate] (v as u8));
                proof {
                    assert((v as u8) == (cpre.r@[((ir >> 24) & 0xF) as int] as u8));
                    assert(store_byte_post(cpre, cpre.progress, bpre, *self, *bus, ir, res));
                    assert(mem_instr_rel(cpre, cpre.progress, bpre, *self, *bus, ir, res));
                }
                res
            }
        }
    }

    /// Executes a branch-format instruction (the program counter has not
    /// yet moved past it).
    #[verifier::rlimit(50)]
    fn exec_branch(&mut self, ir: u32)
        requires
            ir & PBIT != 0,
            ir & QBIT != 0,
        ensures
            branch_rel(*old(self), old(self).progress, *final(self), ir),
    {
        let ghost cpre = *self;
        self.pc = self.pc.wrapping_add(4);

        let sel = (ir >> 24) & 7;
        let cond = if sel == 0 {
            self.n
        } else if sel == 1 {
            self.z
        } else if sel == 2 {
            self.c
        } else if sel == 3 {
            self.v
        } else if sel == 4 {
            self.c || self.z
        } else if sel == 5 {
            self.n != self.v
        } else if sel == 6 {
            (self.n != self.v) || self.z
        } else {
            true
        };
        let t = (((ir >> 27) & 1) != 0) != cond;
        assert(t == branch_taken(cpre, ir));

        if t {
            if (ir & VBIT) != 0 {
                let link_pc = self.pc;
                self.set_reg(15, link_pc);
            }

            if (ir & UBIT) == 0 {
                let c = (ir & 0xF) as usize;
                self.pc = self.r[c];
            } else {
                let mut off = (ir & 0x00FF_FFFF) as i32;
                proof {
                    let x = off;
                    assert(0 <= x ^ 0x0080_0000i32 <= 0x00FF_FFFF) by (bit_vector)
                        requires
                            0 <= x <= 0x00FF_FFFFi32,
                    ;
                }
                off = (off ^ 0x0080_0000) - 0x0080_0000;
                let delta_bytes = (off as i64) * 4;
                self.pc = self.pc.wrapping_add(#[verifier::truncate] (delta_bytes as u32));
            }
        }
    }

    /// Executes one instruction: fetch at the program counter, decode by
    /// the top two bits, execute. A bus fault aborts the step and
    /// surfaces to the caller.
    #[verifier::rlimit(50)]
    pub fn step(&mut self, bus: &mut SystemBus) -> (r: BusResult<()>)
        requires
            old(bus).wf(),
        ensures
            final(bus).wf(),
            step_rel(*old(self), *old(bus), *final(self), *final(bus), r),
    {
        let ghost cpre = *self;
        let ghost bpre = *bus;

        let pc0 = self.pc;
        let ir = match self.load_word(bus, pc0) {
            Ok(w) => w,
            Err(e) => {
                return Err(e);
            },
        };
        let ghost p1 = self.progress;
        let ghost bmid = *bus;
        proof {
            assert(bus_read_rel(bpre, bmid, cpre.pc, cpre.progress, p1, Result::Ok(ir)));
        }

        let ghost cmid = *self;
        if (ir & PBIT) == 0 {
            self.exec_register(ir);
            proof {
                lemma_instr_rel_progress(cmid, cpre, p1, bmid, *self, *bus, ir, Result::Ok(()));
            }
            Ok(())
        } else if (ir & QBIT) == 0 {
            let r = self.exec_memory(bus, ir);
            proof {
                lemma_instr_rel_progress(cmid, cpre, p1, bmid, *self, *bus, ir, r);
            }
            r
        } else {
            self.exec_branch(ir);
            proof {
                lemma_instr_rel_progress(cmid, cpre, p1, bmid, *self, *bus, ir, Result::Ok(()));
            }
            Ok(())
        }
    }
}

/// `c2` is `c` with its progress counter set to `p`.
pub open spec fn cpu_with_progress(c: Cpu, p: u32, c2: Cpu) -> bool {
    &&& c2.r@ == c.r@
    &&& c2.pc == c.pc
    &&& c2.h == c.h
    &&& c2.z == c.z
    &&& c2.n == c.n
    &&& c2.c == c.c
    &&& c2.v == c.v
    &&& c2.progress == p
}

/// One successful step from `(c0, b0)` to `(c1, b1)`.
pub open spec fn step_ok(c0: Cpu, b0: SystemBus, c1: Cpu, b1: SystemBus) -> bool {
    exists|r: BusResult<()>| #[trigger] step_rel(c0, b0, c1, b1, r) && r is Ok
}

/// `trace` is a run: it starts at `(c0, b0)`, ends at `(c1, b1)`, and each
/// adjacent pair is one successful step taken while progress was non-zero.
pub open spec fn is_trace(
    trace: Seq<(Cpu, SystemBus)>,
    c0: Cpu,
    b0: SystemBus,
    c1: Cpu,
    b1: SystemBus,
) -> bool {
    &&& trace.len() >= 1
    &&& trace[0] == (c0, b0)
    &&& trace.last() == (c1, b1)
    &&& forall|i: int|
        0 <= i < trace.len() - 1 ==> (#[trigger] trace[i]).0.progress != 0 && step_ok(
            trace[i].0,
            trace[i].1,
            trace[i + 1].0,
            trace[i + 1].1,
        )
}

/// `n` successful steps lead from `(c0, b0)` to `(c1, b1)`, each taken
/// only while the progress counter was non-zero.
pub open spec fn reaches(c0: Cpu, b0: SystemBus, c1: Cpu, b1: SystemBus, n: nat) -> bool {
    exists|trace: Seq<(Cpu, SystemBus)>|
        #[trigger] is_trace(trace, c0, b0, c1, b1) && trace.len() == n + 1
}

/// Extends a run by one successful step.
#[verifier::rlimit(100)]
proof fn lemma_trace_snoc(
    trace: Seq<(Cpu, SystemBus)>,
    c0: Cpu,
    b0: SystemBus,
    cm: Cpu,
    bm: SystemBus,
    c1: Cpu,
    b1: SystemBus,
)
    requires
        is_trace(trace, c0, b0, cm, bm),
        cm.progress != 0,
        step_ok(cm, bm, c1, b1),
    ensures
        is_trace(trace.push((c1, b1)), c0, b0, c1, b1),
{
    let t2 = trace.push((c1, b1));
    assert forall|i: int|
        0 <= i < t2.len() - 1 implies (#[trigger] t2[i]).0.progress != 0 && step_ok(
        t2[i].0,
        t2[i].1,
        t2[i + 1].0,
        t2[i + 1].1,
    ) by {
        if i < trace.len() - 1 {
            assert(t2[i] == trace[i]);
            assert(t2[i + 1] == trace[i + 1]);
        } else {
            assert(t2[i] == trace[trace.len() - 1]);
            assert(trace[trace.len() - 1] == (cm, bm));
            assert(t2[i + 1] == (c1, b1));
        }
    }
}

impl Cpu {
    /// Runs one slice: progress starts at 20, then up to `cycles`
    /// instructions execute, stopping early when progress reaches zero.
    /// The result is a chain of successful steps, possibly ended by one
    /// faulting step whose fault is returned.
    pub fn run(&mut self, bus: &mut SystemBus, cycles: u32) -> (r: BusResult<()>)
        requires
            old(bus).wf(),
        ensures
            final(bus).wf(),
            r is Ok ==> exists|c0: Cpu, k: nat|
                {
                    &&& #[trigger] reaches(c0, *old(bus), *final(self), *final(bus), k)
                    &&& cpu_with_progress(*old(self), 20, c0)
                    &&& k <= cycles
                    &&& (k == cycles || final(self).progress == 0)
                },
            r is Err ==> exists|c0: Cpu, k: nat, cm: Cpu, bm: SystemBus|
                {
                    &&& #[trigger] reaches(c0, *old(bus), cm, bm, k)
                    &&& cpu_with_progress(*old(self), 20, c0)
                    &&& k <= cycles
                    &&& cm.progress != 0
                    &&& step_rel(cm, bm, *final(self), *final(bus), r)
                },
    {
        self.progress = 20;
        let ghost c0 = *self;
        let ghost b0 = *bus;
        let ghost mut trace: Seq<(Cpu, SystemBus)> = seq![(c0, b0)];
        let mut i: u32 = 0;
        while i < cycles
            invariant
                i <= cycles,
                bus.wf(),
                cpu_with_progress(*old(self), 20, c0),
                is_trace(trace, c0, b0, *self, *bus),
                trace.len() == i + 1,
                b0 == *old(bus),
            ensures
                i <= cycles,
                bus.wf(),
                cpu_with_progress(*old(self), 20, c0),
                is_trace(trace, c0, b0, *self, *bus),
                trace.len() == i + 1,
                b0 == *old(bus),
                i == cycles || self.progress == 0,
            decreases cycles - i,
        {
            if self.progress == 0 {
                break ;
            }
            let ghost cm = *self;
            let ghost bm = *bus;
            let step_result = self.step(bus);
            if step_result.is_err() {
                proof {
                    assert(reaches(c0, b0, cm, bm, i as nat));
                }
                return step_result;
            }
            proof {
                assert(step_ok(cm, bm, *self, *bus));
                lemma_trace_snoc(trace, c0, b0, cm, bm, *self, *bus);
                trace = trace.push((*self, *bus));
            }
            i = i + 1;
        }
        proof {
            assert(reaches(c0, b0, *self, *bus, i as nat));
        }
        Ok(())
    }
}


/// A byte store touches exactly the little-endian lane selected by the
/// low two address bits, at every alignment: loading the stored lane back
/// returns the byte, and the other three lanes keep their values.
pub proof fn lemma_byte_lane_semantics(w: u32, addr: u32, addr2: u32, v: u8)
    ensures
        byte_of_word(set_byte_in_word(w, addr, v as u32), addr) == v as u32,
        addr2 & 3 != addr & 3 ==> byte_of_word(set_byte_in_word(w, addr, v as u32), addr2)
            == byte_of_word(w, addr2),
{
    broadcast use crate::bits::lemma_and_mask_bound;

    let s = (((addr & 3) * 8) as u32);
    let s2 = (((addr2 & 3) * 8) as u32);
    let vb = v as u32;
    assert((((w & !(0xFFu32 << s)) | (vb << s)) >> s) & 0xFF == vb) by (bit_vector)
        requires
            vb < 256u32 && s <= 24u32,
    ;
    assert(s != s2 ==> (((w & !(0xFFu32 << s)) | (vb << s)) >> s2) & 0xFF == (w >> s2) & 0xFF)
        by (bit_vector)
        requires
            vb < 256u32 && s <= 24u32 && s2 <= 24u32 && s % 8 == 0 && s2 % 8 == 0,
    ;
}


/// After any register instruction, Z holds exactly when the written
/// register is zero and N exactly when its sign bit is set.
pub proof fn lemma_z_n_track_register_writes(pre: Cpu, p0: u32, post: Cpu, ir: u32)
    requires
        exec_reg_rel(pre, p0, post, ir),
    ensures
        post.z == (post.r@[((ir >> 24) & 0xF) as int] == 0),
        post.n == ((post.r@[((ir >> 24) & 0xF) as int] as i32) < 0),
{
    broadcast use crate::bits::lemma_and_mask_bound;

}

/// C and V are modified only by ADD and SUB: every other register
/// instruction leaves them exactly as they were (memory and branch
/// instructions never touch them at all; see the memory and branch
/// relations).
pub proof fn lemma_c_v_only_add_sub(pre: Cpu, p0: u32, post: Cpu, ir: u32)
    requires
        exec_reg_rel(pre, p0, post, ir),
        (ir >> 16) & 0xF != ADD,
        (ir >> 16) & 0xF != SUB,
    ensures
        post.c == pre.c,
        post.v == pre.v,
{
}

/// A plain ADD sets the carry flag exactly when the unsigned sum wraps
/// around 32 bits.
pub proof fn lemma_add_carry_iff_wrap(cpu: Cpu, ir: u32)
    requires
        (ir >> 16) & 0xF == ADD,
        ir & UBIT == 0,
    ensures
        alu_c_flag(cpu, ir) <==> cpu.r@[((ir >> 20) & 0xF) as int] + sel_c_val(ir, cpu.r@)
            > u32::MAX,
{
}

/// A plain ADD of two positive operands whose result is negative sets the
/// signed-overflow flag.
pub proof fn lemma_add_pos_pos_neg_sets_overflow(cpu: Cpu, ir: u32)
    requires
        (ir >> 16) & 0xF == ADD,
        ir & UBIT == 0,
        (cpu.r@[((ir >> 20) & 0xF) as int] as i32) > 0,
        (sel_c_val(ir, cpu.r@) as i32) > 0,
        (alu_a_val(cpu, ir) as i32) < 0,
    ensures
        alu_v_flag(cpu, ir),
{
    let b = cpu.r@[((ir >> 20) & 0xF) as int];
    let c = sel_c_val(ir, cpu.r@);
    let av = alu_a_val(cpu, ir);
    assert(av == b.wrapping_add(c));
    assert(((b as i32) > 0 && (c as i32) > 0 && (b.wrapping_add(c) as i32) < 0) ==> ((
    b.wrapping_add(c) ^ c) & (b.wrapping_add(c) ^ b)) >> 31 != 0) by (bit_vector);
}

/// A plain SUB sets the carry (borrow) flag exactly when the minuend is
/// unsigned-smaller than the subtrahend.
pub proof fn lemma_sub_carry_iff_borrow(cpu: Cpu, ir: u32)
    requires
        (ir >> 16) & 0xF == SUB,
        ir & UBIT == 0,
    ensures
        alu_c_flag(cpu, ir) <==> cpu.r@[((ir >> 20) & 0xF) as int] < sel_c_val(ir, cpu.r@),
{
}

/// An unsigned DIV by zero yields quotient 0 and remainder the dividend.
pub proof fn lemma_div_by_zero_unsigned(b_val: u32)
    ensures
        div_parts(b_val, 0, true).0 == 0,
        div_parts(b_val, 0, true).1 == b_val,
{
}

/// A signed DIV with a positive divisor always leaves a remainder in
/// `[0, divisor)`: the hardware's division is Euclidean.
pub proof fn lemma_signed_div_rem_range(b_val: u32, c_val: u32)
    requires
        (c_val as i32) > 0,
    ensures
        0 <= (div_parts(b_val, c_val, false).1 as i32) < (c_val as i32),
        (b_val as i32) as int == ((div_parts(b_val, c_val, false).0 as i32) as int) * ((
        c_val as i32) as int) + ((div_parts(b_val, c_val, false).1 as i32) as int),
{
    let b = (b_val as i32) as int;
    let c = (c_val as i32) as int;
    vstd::arithmetic::div_mod::lemma_fundamental_div_mod(b, c);
    vstd::arithmetic::div_mod::lemma_mod_bound(b, c);
    assert(0 <= b % c < c);
    assert(-0x8000_0000 <= b / c <= 0x7FFF_FFFF) by (nonlinear_arith)
        requires
            -0x8000_0000 <= b <= 0x7FFF_FFFF && c >= 1,
    ;
    let qi: i32 = (b / c) as i32;
    let ri: i32 = (b % c) as i32;
    assert((qi as u32) as i32 == qi) by (bit_vector);
    assert((ri as u32) as i32 == ri) by (bit_vector);
    vstd::arithmetic::mul::lemma_mul_is_commutative(c, qi as int);
}


} // verus!
