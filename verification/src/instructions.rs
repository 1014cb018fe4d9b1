//! The instruction executor: decodes a 32-bit instruction word, applies
//! its effect to the register file and memory, and reports a control-flow
//! event. The contract of `eval_instruction` pins the exact effect of
//! every supported mnemonic through the `instr_step` relation.

use vstd::prelude::*;

use crate::bitutils::{
    add_signed_offset, add_to_upper_bits, funct_of, get_funct, get_offset, get_opcode, get_rd,
    get_rs, get_rt, get_shift, imm_of, lemma_mask_bounds, opcode_of, rd_of, rs_of, rt_of, sext16,
    sext8, shamt_of, sign_extend_halfword, wadd,
};
use crate::event::{CPUEvent, CpuError};
use crate::memory::{half_at, half_seq, swl_seq, swr_seq, word_at, word_seq, Endianness, Memory};
use crate::registers::{reg_written, RegisterFile};

verus! {

/// What the executor asks of its caller: either a finished event, or a
/// request to run the system-call layer for the current state.
#[derive(Clone, Copy, PartialEq, Eq, Structural, Debug)]
pub enum InstrOutcome {
    Event(CPUEvent),
    Syscall,
}

/// The value of register `i` in `r`.
pub open spec fn rr(r: RegisterFile, i: u32) -> u32 {
    r.spec_reg(i as int)
}

/// The signed value of the 32-bit pattern `x`.
pub open spec fn s32(x: u32) -> int {
    x as i32 as int
}

/// The two's-complement negation of `x`.
pub open spec fn neg32(x: u32) -> u32 {
    if x == 0 {
        0u32
    } else {
        (0x1_0000_0000 - x) as u32
    }
}

/// The magnitude of the signed pattern `x`, as a 32-bit pattern.
pub open spec fn abs32(x: u32) -> u32 {
    if x < 0x8000_0000 {
        x
    } else {
        neg32(x)
    }
}

/// Signed addition of the patterns `a` and `b` leaves the 32-bit range.
pub open spec fn add_overflows(a: u32, b: u32) -> bool {
    s32(a) + s32(b) > 0x7FFF_FFFF || s32(a) + s32(b) < -0x8000_0000
}

/// Right rotation of `x` by `sh` places, `sh < 32`.
pub open spec fn rotr32(x: u32, sh: u32) -> u32 {
    if sh == 0 {
        x
    } else {
        (x >> sh) | (x << (32 - sh) as u32)
    }
}

/// The quotient of truncating signed division, as a 32-bit pattern.
pub open spec fn div_quot(a: u32, b: u32) -> u32
    recommends
        b != 0,
{
    let q = abs32(a) / abs32(b);
    if (a < 0x8000_0000) == (b < 0x8000_0000) {
        q
    } else {
        neg32(q)
    }
}

/// The remainder of truncating signed division (the sign follows the
/// dividend), as a 32-bit pattern.
pub open spec fn div_rem(a: u32, b: u32) -> u32
    recommends
        b != 0,
{
    let r = abs32(a) % abs32(b);
    if a < 0x8000_0000 {
        r
    } else {
        neg32(r)
    }
}

/// The 64-bit pattern of the 32-bit value `x` sign-extended to 64 bits.
pub open spec fn sext64(x: u32) -> u64 {
    if x < 0x8000_0000 {
        x as u64
    } else {
        (x as u64) | 0xFFFF_FFFF_0000_0000
    }
}

/// The 64-bit two's-complement pattern of the signed product of `a` and
/// `b`.
pub open spec fn mult_prod(a: u32, b: u32) -> u64 {
    (((sext64(a) * sext64(b)) % 0x1_0000_0000_0000_0000) as u64)
}

/// The low half of the signed 64-bit product.
pub open spec fn mult_lo(a: u32, b: u32) -> u32 {
    mult_prod(a, b) as u32
}

/// The high half of the signed 64-bit product.
pub open spec fn mult_hi(a: u32, b: u32) -> u32 {
    (mult_prod(a, b) >> 32) as u32
}

/// The 64-bit unsigned product of `a` and `b`.
pub open spec fn multu_prod(a: u32, b: u32) -> u64 {
    ((a * b) as u64)
}

pub open spec fn multu_lo(a: u32, b: u32) -> u32 {
    multu_prod(a, b) as u32
}

pub open spec fn multu_hi(a: u32, b: u32) -> u32 {
    (multu_prod(a, b) >> 32) as u32
}

/// The target of a PC-relative branch: the offset is shifted left by two
/// and sign-extended from 18 bits, relative to the delay slot address.
pub open spec fn branch_target(pc: u32, imm: u16) -> u32 {
    wadd(wadd(pc, 4), sext16(imm) << 2)
}

/// The target of an absolute J/JAL jump: the 26-bit index shifted left by
/// two, inside the 256 MiB region of `region_pc`.
pub open spec fn jump_target(region_pc: u32, w: u32) -> u32 {
    (region_pc & 0xF0_00_00_00) | ((w & 0x03_FF_FF_FF) << 2)
}

/// The effective address of a load or store: base register plus
/// sign-extended 16-bit displacement.
pub open spec fn ea(r: RegisterFile, rs: u32, imm: u16) -> u32 {
    wadd(rr(r, rs), sext16(imm))
}

/// The register value after an LWL merge at `addr`: the bytes from the
/// effective address to its aligned word boundary enter the register at
/// the most significant end, the rest of `prev` is kept.
pub open spec fn lwl_merge(m: Seq<u8>, e: Endianness, addr: u32, prev: u32) -> u32 {
    let k = addr % 4;
    let w = word_at(m, e, addr as int - k as int);
    let sh = match e {
        Endianness::BigEndian => (8 * k) as u32,
        Endianness::LittleEndian => (8 * (3 - k)) as u32,
    };
    (w << sh) | (prev & !(0xFFFF_FFFFu32 << sh))
}

/// The register value after an LWR merge at `addr`: the bytes from the
/// aligned word boundary to the effective address enter the register at
/// the least significant end, the rest of `prev` is kept.
pub open spec fn lwr_merge(m: Seq<u8>, e: Endianness, addr: u32, prev: u32) -> u32 {
    let k = addr % 4;
    let w = word_at(m, e, addr as int - k as int);
    let sh = match e {
        Endianness::BigEndian => (8 * (3 - k)) as u32,
        Endianness::LittleEndian => (8 * k) as u32,
    };
    (w >> sh) | (prev & !(0xFFFF_FFFFu32 >> sh))
}

/// Bit-field extract: `size` bits of `x` starting at bit `pos`.
pub open spec fn ext_field(x: u32, pos: u32, size: u32) -> u32
    recommends
        0 < size <= 32,
        pos + size <= 32,
{
    if size == 32 {
        x
    } else {
        (x >> pos) & (((1u32 << size) - 1) as u32)
    }
}

/// The ALIGN result: `bp` bytes of `rs_v` glued below `rt_v`.
pub open spec fn align_val(rs_v: u32, rt_v: u32, bp: u32) -> u32
    recommends
        1 <= bp <= 3,
{
    (rt_v << (8 * bp) as u32) | (rs_v >> (32 - 8 * bp) as u32)
}

/// The constant the emulator hands out for the UserLocal hardware
/// register, which it does not model.
pub const RDHWR_USER_LOCAL: u32 = 0x0058_E950;

/// A halfword access at `a` stays inside the address space.
pub open spec fn in2(a: u32) -> bool {
    a as int + 2 <= 0x1_0000_0000
}

/// A word access at `a` stays inside the address space.
pub open spec fn in4(a: u32) -> bool {
    a as int + 4 <= 0x1_0000_0000
}

/// `r1` is `r0` with register `id` written to `v` and nothing else
/// changed.
pub open spec fn regs_gpr_step(r0: RegisterFile, r1: RegisterFile, id: u32, v: u32) -> bool {
    &&& r1.spec_gpr() == reg_written(r0.spec_gpr(), id as int, v)
    &&& r1.spec_fpr() == r0.spec_fpr()
    &&& r1.spec_pc() == r0.spec_pc()
    &&& r1.spec_hi() == r0.spec_hi()
    &&& r1.spec_lo() == r0.spec_lo()
}

pub open spec fn regs_same(r0: RegisterFile, r1: RegisterFile) -> bool {
    &&& r1.spec_gpr() == r0.spec_gpr()
    &&& r1.spec_fpr() == r0.spec_fpr()
    &&& r1.spec_pc() == r0.spec_pc()
    &&& r1.spec_hi() == r0.spec_hi()
    &&& r1.spec_lo() == r0.spec_lo()
}

/// `r1` is `r0` with the HI/LO pair replaced.
pub open spec fn regs_hilo_step(r0: RegisterFile, r1: RegisterFile, hi: u32, lo: u32) -> bool {
    &&& r1.spec_gpr() == r0.spec_gpr()
    &&& r1.spec_fpr() == r0.spec_fpr()
    &&& r1.spec_pc() == r0.spec_pc()
    &&& r1.spec_hi() == hi
    &&& r1.spec_lo() == lo
}

/// `r1` is `r0` with floating point register `id` replaced.
pub open spec fn regs_fpr_step(r0: RegisterFile, r1: RegisterFile, id: u32, v: u32) -> bool {
    &&& r1.spec_gpr() == r0.spec_gpr()
    &&& r1.spec_fpr() == r0.spec_fpr().update(id as int, v)
    &&& r1.spec_pc() == r0.spec_pc()
    &&& r1.spec_hi() == r0.spec_hi()
    &&& r1.spec_lo() == r0.spec_lo()
}

pub open spec fn mem_same(m0: Memory, m1: Memory) -> bool {
    &&& m1@ == m0@
    &&& m1.spec_endianness() == m0.spec_endianness()
    &&& m1.spec_break() == m0.spec_break()
}

/// `m1` holds the bytes `s`, with the endianness and break of `m0`.
pub open spec fn mem_step(m0: Memory, m1: Memory, s: Seq<u8>) -> bool {
    &&& m1@ == s
    &&& m1.spec_endianness() == m0.spec_endianness()
    &&& m1.spec_break() == m0.spec_break()
}

pub open spec fn step_alu(
    r0: RegisterFile,
    m0: Memory,
    r1: RegisterFile,
    m1: Memory,
    out: Result<InstrOutcome, CpuError>,
    id: u32,
    v: u32,
) -> bool {
    &&& regs_gpr_step(r0, r1, id, v)
    &&& mem_same(m0, m1)
    &&& out == Ok::<InstrOutcome, CpuError>(InstrOutcome::Event(CPUEvent::Nothing))
}

pub open spec fn step_nothing(
    r0: RegisterFile,
    m0: Memory,
    r1: RegisterFile,
    m1: Memory,
    out: Result<InstrOutcome, CpuError>,
) -> bool {
    &&& regs_same(r0, r1)
    &&& mem_same(m0, m1)
    &&& out == Ok::<InstrOutcome, CpuError>(InstrOutcome::Event(CPUEvent::Nothing))
}

/// A fatal fault: the machine state is left untouched and the error is
/// reported.
pub open spec fn step_fatal(
    r0: RegisterFile,
    m0: Memory,
    r1: RegisterFile,
    m1: Memory,
    out: Result<InstrOutcome, CpuError>,
    e: CpuError,
) -> bool {
    &&& regs_same(r0, r1)
    &&& mem_same(m0, m1)
    &&& out == Err::<InstrOutcome, CpuError>(e)
}

pub open spec fn step_flow(
    r0: RegisterFile,
    m0: Memory,
    r1: RegisterFile,
    m1: Memory,
    out: Result<InstrOutcome, CpuError>,
    target: u32,
) -> bool {
    &&& regs_same(r0, r1)
    &&& mem_same(m0, m1)
    &&& out == Ok::<InstrOutcome, CpuError>(
        InstrOutcome::Event(CPUEvent::FlowChangeDelayed(target)),
    )
}

/// A delayed control transfer that also writes a link register.
pub open spec fn step_linkflow(
    r0: RegisterFile,
    m0: Memory,
    r1: RegisterFile,
    m1: Memory,
    out: Result<InstrOutcome, CpuError>,
    id: u32,
    v: u32,
    target: u32,
) -> bool {
    &&& regs_gpr_step(r0, r1, id, v)
    &&& mem_same(m0, m1)
    &&& out == Ok::<InstrOutcome, CpuError>(
        InstrOutcome::Event(CPUEvent::FlowChangeDelayed(target)),
    )
}

pub open spec fn step_hilo(
    r0: RegisterFile,
    m0: Memory,
    r1: RegisterFile,
    m1: Memory,
    out: Result<InstrOutcome, CpuError>,
    hi: u32,
    lo: u32,
) -> bool {
    &&& regs_hilo_step(r0, r1, hi, lo)
    &&& mem_same(m0, m1)
    &&& out == Ok::<InstrOutcome, CpuError>(InstrOutcome::Event(CPUEvent::Nothing))
}

pub open spec fn step_store(
    r0: RegisterFile,
    m0: Memory,
    r1: RegisterFile,
    m1: Memory,
    out: Result<InstrOutcome, CpuError>,
    s: Seq<u8>,
) -> bool {
    &&& regs_same(r0, r1)
    &&& mem_step(m0, m1, s)
    &&& out == Ok::<InstrOutcome, CpuError>(InstrOutcome::Event(CPUEvent::Nothing))
}

/// The effect of the SPECIAL (opcode 0) group.
pub open spec fn special_step(
    w: u32,
    r0: RegisterFile,
    m0: Memory,
    r1: RegisterFile,
    m1: Memory,
    out: Result<InstrOutcome, CpuError>,
) -> bool {
    let f = funct_of(w);
    let rs = rs_of(w);
    let rt = rt_of(w);
    let rd = rd_of(w);
    let sh = shamt_of(w);
    let pc = r0.spec_pc();
    if f == 0x00 {
        // SLL, and the canonical NOP encoding
        if w == 0 {
            step_nothing(r0, m0, r1, m1, out)
        } else if rs != 0 {
            step_fatal(r0, m0, r1, m1, out, CpuError::DecodeError(w))
        } else {
            step_alu(r0, m0, r1, m1, out, rd, rr(r0, rt) << sh)
        }
    } else if f == 0x04 {
        // SLLV
        step_alu(r0, m0, r1, m1, out, rd, rr(r0, rt) << (rr(r0, rs) & 0x1F))
    } else if f == 0x06 {
        // SRLV
        step_alu(r0, m0, r1, m1, out, rd, rr(r0, rt) >> (rr(r0, rs) & 0x1F))
    } else if f == 0x02 {
        // SRL when rs is 0, ROTR when rs is 1
        if rs == 1 {
            step_alu(r0, m0, r1, m1, out, rd, rotr32(rr(r0, rt), sh))
        } else if rs == 0 {
            step_alu(r0, m0, r1, m1, out, rd, rr(r0, rt) >> sh)
        } else {
            step_fatal(r0, m0, r1, m1, out, CpuError::DecodeError(w))
        }
    } else if f == 0x03 {
        // SRA
        if rs != 0 {
            step_fatal(r0, m0, r1, m1, out, CpuError::DecodeError(w))
        } else {
            step_alu(r0, m0, r1, m1, out, rd, ((rr(r0, rt) as i32) >> sh) as u32)
        }
    } else if f == 0x07 {
        // SRAV
        if sh != 0 {
            step_fatal(r0, m0, r1, m1, out, CpuError::DecodeError(w))
        } else {
            step_alu(r0, m0, r1, m1, out, rd, ((rr(r0, rt) as i32) >> (rr(r0, rs) & 0x1F)) as u32)
        }
    } else if f == 0x20 {
        // ADD traps on signed overflow
        if add_overflows(rr(r0, rs), rr(r0, rt)) {
            step_fatal(r0, m0, r1, m1, out, CpuError::ArithmeticOverflow)
        } else {
            step_alu(r0, m0, r1, m1, out, rd, wadd(rr(r0, rs), rr(r0, rt)))
        }
    } else if f == 0x21 {
        // ADDU
        step_alu(r0, m0, r1, m1, out, rd, wadd(rr(r0, rs), rr(r0, rt)))
    } else if f == 0x23 {
        // SUBU
        step_alu(r0, m0, r1, m1, out, rd, wadd(rr(r0, rs), neg32(rr(r0, rt))))
    } else if f == 0x24 {
        // AND
        step_alu(r0, m0, r1, m1, out, rd, rr(r0, rs) & rr(r0, rt))
    } else if f == 0x25 {
        // OR
        step_alu(r0, m0, r1, m1, out, rd, rr(r0, rs) | rr(r0, rt))
    } else if f == 0x26 {
        // XOR
        step_alu(r0, m0, r1, m1, out, rd, rr(r0, rs) ^ rr(r0, rt))
    } else if f == 0x27 {
        // NOR
        step_alu(r0, m0, r1, m1, out, rd, !(rr(r0, rs) | rr(r0, rt)))
    } else if f == 0x2A {
        // SLT
        step_alu(
            r0,
            m0,
            r1,
            m1,
            out,
            rd,
            if s32(rr(r0, rs)) < s32(rr(r0, rt)) {
                1u32
            } else {
                0u32
            },
        )
    } else if f == 0x2B {
        // SLTU
        step_alu(
            r0,
            m0,
            r1,
            m1,
            out,
            rd,
            if rr(r0, rs) < rr(r0, rt) {
                1u32
            } else {
                0u32
            },
        )
    } else if f == 0x0B {
        // MOVN
        if sh != 0 {
            step_fatal(r0, m0, r1, m1, out, CpuError::DecodeError(w))
        } else if rr(r0, rt) != 0 {
            step_alu(r0, m0, r1, m1, out, rd, rr(r0, rs))
        } else {
            step_nothing(r0, m0, r1, m1, out)
        }
    } else if f == 0x0A {
        // MOVZ
        if sh != 0 {
            step_fatal(r0, m0, r1, m1, out, CpuError::DecodeError(w))
        } else if rr(r0, rt) == 0 {
            step_alu(r0, m0, r1, m1, out, rd, rr(r0, rs))
        } else {
            step_nothing(r0, m0, r1, m1, out)
        }
    } else if f == 0x18 {
        // SOP30: MULT (op 0) writes HI:LO, MUL/MUH (ops 2 and 3) write rd
        if sh == 0x02 {
            step_alu(r0, m0, r1, m1, out, rd, mult_lo(rr(r0, rs), rr(r0, rt)))
        } else if sh == 0x03 {
            step_alu(r0, m0, r1, m1, out, rd, mult_hi(rr(r0, rs), rr(r0, rt)))
        } else if sh == 0x00 {
            if rd != 0 {
                step_fatal(r0, m0, r1, m1, out, CpuError::DecodeError(w))
            } else {
                step_hilo(
                    r0,
                    m0,
                    r1,
                    m1,
                    out,
                    mult_hi(rr(r0, rs), rr(r0, rt)),
                    mult_lo(rr(r0, rs), rr(r0, rt)),
                )
            }
        } else {
            step_fatal(r0, m0, r1, m1, out, CpuError::DecodeError(w))
        }
    } else if f == 0x19 {
        // SOP31: legacy unsigned MULTU writes HI:LO
        if sh == 0x00 {
            if rd != 0 {
                step_fatal(r0, m0, r1, m1, out, CpuError::DecodeError(w))
            } else {
                step_hilo(
                    r0,
                    m0,
                    r1,
                    m1,
                    out,
                    multu_hi(rr(r0, rs), rr(r0, rt)),
                    multu_lo(rr(r0, rs), rr(r0, rt)),
                )
            }
        } else {
            step_fatal(r0, m0, r1, m1, out, CpuError::DecodeError(w))
        }
    } else if f == 0x1A {
        // SOP32: legacy signed DIV, LO takes the quotient and HI the
        // remainder
        if sh != 0 || rd != 0 {
            step_fatal(r0, m0, r1, m1, out, CpuError::DecodeError(w))
        } else if rr(r0, rt) == 0 {
            step_fatal(r0, m0, r1, m1, out, CpuError::DivisionByZero)
        } else if rr(r0, rs) == 0x8000_0000 && rr(r0, rt) == 0xFFFF_FFFF {
            step_fatal(r0, m0, r1, m1, out, CpuError::ArithmeticOverflow)
        } else {
            step_hilo(
                r0,
                m0,
                r1,
                m1,
                out,
                div_rem(rr(r0, rs), rr(r0, rt)),
                div_quot(rr(r0, rs), rr(r0, rt)),
            )
        }
    } else if f == 0x1B {
        // SOP33: legacy unsigned DIVU
        if sh != 0 || rd != 0 {
            step_fatal(r0, m0, r1, m1, out, CpuError::DecodeError(w))
        } else if rr(r0, rt) == 0 {
            step_fatal(r0, m0, r1, m1, out, CpuError::DivisionByZero)
        } else {
            step_hilo(r0, m0, r1, m1, out, rr(r0, rs) % rr(r0, rt), rr(r0, rs) / rr(r0, rt))
        }
    } else if f == 0x34 {
        // TEQ traps when the operands are equal
        if rr(r0, rs) == rr(r0, rt) {
            step_fatal(r0, m0, r1, m1, out, CpuError::TrapTriggered)
        } else {
            step_nothing(r0, m0, r1, m1, out)
        }
    } else if f == 0x10 {
        // MFHI
        if rt != 0 || rs != 0 || sh != 0 {
            step_fatal(r0, m0, r1, m1, out, CpuError::DecodeError(w))
        } else {
            step_alu(r0, m0, r1, m1, out, rd, r0.spec_hi())
        }
    } else if f == 0x12 {
        // MFLO
        if rt != 0 || rs != 0 || sh != 0 {
            step_fatal(r0, m0, r1, m1, out, CpuError::DecodeError(w))
        } else {
            step_alu(r0, m0, r1, m1, out, rd, r0.spec_lo())
        }
    } else if f == 0x09 {
        // JALR links pc+8 into rd; the target must be word aligned
        if rr(r0, rs) & 0x03 != 0 {
            step_fatal(r0, m0, r1, m1, out, CpuError::MisalignedJump(rr(r0, rs)))
        } else {
            step_linkflow(r0, m0, r1, m1, out, rd, wadd(pc, 8), rr(r0, rs))
        }
    } else if f == 0x08 {
        // JR
        step_flow(r0, m0, r1, m1, out, rr(r0, rs))
    } else if f == 0x0C {
        // SYSCALL is delegated to the system-call layer
        regs_same(r0, r1) && mem_same(m0, m1) && out == Ok::<InstrOutcome, CpuError>(
            InstrOutcome::Syscall,
        )
    } else if f == 0x0F {
        // SYNC is a no-operation for a single-threaded guest
        step_nothing(r0, m0, r1, m1, out)
    } else if f == 0x0D {
        // BREAK
        step_fatal(r0, m0, r1, m1, out, CpuError::Breakpoint)
    } else {
        step_fatal(r0, m0, r1, m1, out, CpuError::DecodeError(w))
    }
}

/// The effect of the REGIMM (opcode 1) group: BAL, BLTZ and BGEZ. BGEZAL
/// was removed in release 6 and is refused.
pub open spec fn regimm_step(
    w: u32,
    r0: RegisterFile,
    m0: Memory,
    r1: RegisterFile,
    m1: Memory,
    out: Result<InstrOutcome, CpuError>,
) -> bool {
    let rs = rs_of(w);
    let rt = rt_of(w);
    let imm = imm_of(w);
    let pc = r0.spec_pc();
    let target = branch_target(pc, imm);
    if rs == 0 && rt == 0x11 {
        // BAL: the condition compares r0 with zero, so it is always taken
        step_linkflow(r0, m0, r1, m1, out, 31, wadd(pc, 8), target)
    } else if rt == 0x11 {
        step_fatal(r0, m0, r1, m1, out, CpuError::UnimplementedInstruction(w))
    } else if rt == 0x00 {
        // BLTZ
        if s32(rr(r0, rs)) < 0 {
            step_flow(r0, m0, r1, m1, out, target)
        } else {
            step_nothing(r0, m0, r1, m1, out)
        }
    } else if rt == 0x01 {
        // BGEZ
        if s32(rr(r0, rs)) >= 0 {
            step_flow(r0, m0, r1, m1, out, target)
        } else {
            step_nothing(r0, m0, r1, m1, out)
        }
    } else {
        step_fatal(r0, m0, r1, m1, out, CpuError::DecodeError(w))
    }
}

/// The effect of the SPECIAL3 (opcode 0x1F) group: EXT, ALIGN and RDHWR.
pub open spec fn special3_step(
    w: u32,
    r0: RegisterFile,
    m0: Memory,
    r1: RegisterFile,
    m1: Memory,
    out: Result<InstrOutcome, CpuError>,
) -> bool {
    let f = funct_of(w);
    let rs = rs_of(w);
    let rt = rt_of(w);
    let rd = rd_of(w);
    let sh = shamt_of(w);
    if f == 0x20 {
        // ALIGN: the shift field is 0b010bp with byte count 1..=3
        if sh & 0xFC != 0x08 || sh & 0x03 == 0 {
            step_fatal(r0, m0, r1, m1, out, CpuError::DecodeError(w))
        } else {
            step_alu(r0, m0, r1, m1, out, rd, align_val(rr(r0, rs), rr(r0, rt), sh & 0x03))
        }
    } else if f == 0x3B {
        // RDHWR: only the UserLocal register is answered, with a stable
        // constant, since thread-local storage is not modelled
        if rd == 29 {
            step_alu(r0, m0, r1, m1, out, rt, RDHWR_USER_LOCAL)
        } else {
            step_fatal(r0, m0, r1, m1, out, CpuError::DecodeError(w))
        }
    } else if f == 0x00 {
        // EXT: pos is the shift field, size is rd+1
        if sh + rd + 1 <= 32 {
            step_alu(r0, m0, r1, m1, out, rt, ext_field(rr(r0, rs), sh, (rd + 1) as u32))
        } else {
            step_fatal(r0, m0, r1, m1, out, CpuError::DecodeError(w))
        }
    } else {
        step_fatal(r0, m0, r1, m1, out, CpuError::DecodeError(w))
    }
}

/// The effect of the load, store and floating point transfer opcodes.
pub open spec fn mem_op_step(
    w: u32,
    r0: RegisterFile,
    m0: Memory,
    r1: RegisterFile,
    m1: Memory,
    out: Result<InstrOutcome, CpuError>,
) -> bool {
    let op = opcode_of(w);
    let rs = rs_of(w);
    let rt = rt_of(w);
    let imm = imm_of(w);
    let a = ea(r0, rs, imm);
    let e = m0.spec_endianness();
    if op == 0x20 {
        // LB
        step_alu(r0, m0, r1, m1, out, rt, sext8(m0@[a as int]))
    } else if op == 0x24 {
        // LBU
        step_alu(r0, m0, r1, m1, out, rt, m0@[a as int] as u32)
    } else if op == 0x21 {
        // LH
        if in2(a) {
            step_alu(r0, m0, r1, m1, out, rt, sext16(half_at(m0@, e, a as int) as u16))
        } else {
            step_fatal(r0, m0, r1, m1, out, CpuError::AddressOverflow(a))
        }
    } else if op == 0x25 {
        // LHU
        if in2(a) {
            step_alu(r0, m0, r1, m1, out, rt, half_at(m0@, e, a as int))
        } else {
            step_fatal(r0, m0, r1, m1, out, CpuError::AddressOverflow(a))
        }
    } else if op == 0x23 {
        // LW
        if in4(a) {
            step_alu(r0, m0, r1, m1, out, rt, word_at(m0@, e, a as int))
        } else {
            step_fatal(r0, m0, r1, m1, out, CpuError::AddressOverflow(a))
        }
    } else if op == 0x22 {
        // LWL
        step_alu(r0, m0, r1, m1, out, rt, lwl_merge(m0@, e, a, rr(r0, rt)))
    } else if op == 0x26 {
        // LWR
        step_alu(r0, m0, r1, m1, out, rt, lwr_merge(m0@, e, a, rr(r0, rt)))
    } else if op == 0x30 {
        // LL: an ordinary word load that opens an atomic
        // read-modify-write block
        if in4(a) {
            regs_gpr_step(r0, r1, rt, word_at(m0@, e, a as int)) && mem_same(m0, m1) && out == Ok::<
                InstrOutcome,
                CpuError,
            >(InstrOutcome::Event(CPUEvent::AtomicLoadModifyWriteBegan))
        } else {
            step_fatal(r0, m0, r1, m1, out, CpuError::AddressOverflow(a))
        }
    } else if op == 0x28 {
        // SB
        step_store(r0, m0, r1, m1, out, m0@.update(a as int, rr(r0, rt) as u8))
    } else if op == 0x29 {
        // SH
        if in2(a) {
            step_store(r0, m0, r1, m1, out, half_seq(m0@, e, a as int, rr(r0, rt)))
        } else {
            step_fatal(r0, m0, r1, m1, out, CpuError::AddressOverflow(a))
        }
    } else if op == 0x2B {
        // SW
        if in4(a) {
            step_store(r0, m0, r1, m1, out, word_seq(m0@, e, a as int, rr(r0, rt)))
        } else {
            step_fatal(r0, m0, r1, m1, out, CpuError::AddressOverflow(a))
        }
    } else if op == 0x2A {
        // SWL
        step_store(r0, m0, r1, m1, out, swl_seq(m0@, e, a as int, rr(r0, rt)))
    } else if op == 0x2E {
        // SWR
        step_store(r0, m0, r1, m1, out, swr_seq(m0@, e, a as int, rr(r0, rt)))
    } else if op == 0x38 {
        // SC: the store always succeeds for a single-threaded guest, and
        // rt reports the success
        if in4(a) {
            regs_gpr_step(r0, r1, rt, 1) && mem_step(
                m0,
                m1,
                word_seq(m0@, e, a as int, rr(r0, rt)),
            ) && out == Ok::<InstrOutcome, CpuError>(InstrOutcome::Event(CPUEvent::Nothing))
        } else {
            step_fatal(r0, m0, r1, m1, out, CpuError::AddressOverflow(a))
        }
    } else if op == 0x31 {
        // LWC1 moves the raw pattern into the floating point register
        if in4(a) {
            regs_fpr_step(r0, r1, rt, word_at(m0@, e, a as int)) && mem_same(m0, m1) && out == Ok::<
                InstrOutcome,
                CpuError,
            >(InstrOutcome::Event(CPUEvent::Nothing))
        } else {
            step_fatal(r0, m0, r1, m1, out, CpuError::AddressOverflow(a))
        }
    } else if op == 0x39 {
        // SWC1 stores the raw floating point register pattern
        if in4(a) {
            step_store(r0, m0, r1, m1, out, word_seq(m0@, e, a as int, r0.spec_fpr()[rt as int]))
        } else {
            step_fatal(r0, m0, r1, m1, out, CpuError::AddressOverflow(a))
        }
    } else {
        step_fatal(r0, m0, r1, m1, out, CpuError::DecodeError(w))
    }
}

/// The full effect of one instruction: how the registers and memory after
/// execution relate to the state before it, and which outcome is
/// reported. Every fatal fault leaves the state untouched.
pub open spec fn instr_step(
    w: u32,
    r0: RegisterFile,
    m0: Memory,
    r1: RegisterFile,
    m1: Memory,
    out: Result<InstrOutcome, CpuError>,
) -> bool {
    let op = opcode_of(w);
    let rs = rs_of(w);
    let rt = rt_of(w);
    let imm = imm_of(w);
    let pc = r0.spec_pc();
    if op == 0x00 {
        special_step(w, r0, m0, r1, m1, out)
    } else if op == 0x01 {
        regimm_step(w, r0, m0, r1, m1, out)
    } else if op == 0x1F {
        special3_step(w, r0, m0, r1, m1, out)
    } else if op == 0x09 {
        // ADDIU
        step_alu(r0, m0, r1, m1, out, rt, wadd(rr(r0, rs), sext16(imm)))
    } else if op == 0x0C {
        // ANDI
        step_alu(r0, m0, r1, m1, out, rt, rr(r0, rs) & (imm as u32))
    } else if op == 0x0D {
        // ORI
        step_alu(r0, m0, r1, m1, out, rt, rr(r0, rs) | (imm as u32))
    } else if op == 0x0E {
        // XORI
        step_alu(r0, m0, r1, m1, out, rt, rr(r0, rs) ^ (imm as u32))
    } else if op == 0x0F {
        // AUI (LUI when rs is zero)
        step_alu(r0, m0, r1, m1, out, rt, wadd(rr(r0, rs), (imm as u32) << 16))
    } else if op == 0x0A {
        // SLTI compares signed, against the sign-extended immediate
        step_alu(
            r0,
            m0,
            r1,
            m1,
            out,
            rt,
            if s32(rr(r0, rs)) < s32(sext16(imm)) {
                1u32
            } else {
                0u32
            },
        )
    } else if op == 0x0B {
        // SLTIU compares unsigned, against the sign-extended immediate
        step_alu(
            r0,
            m0,
            r1,
            m1,
            out,
            rt,
            if rr(r0, rs) < sext16(imm) {
                1u32
            } else {
                0u32
            },
        )
    } else if op == 0x04 {
        // BEQ
        if rr(r0, rs) == rr(r0, rt) {
            step_flow(r0, m0, r1, m1, out, branch_target(pc, imm))
        } else {
            step_nothing(r0, m0, r1, m1, out)
        }
    } else if op == 0x05 {
        // BNE
        if rr(r0, rs) != rr(r0, rt) {
            step_flow(r0, m0, r1, m1, out, branch_target(pc, imm))
        } else {
            step_nothing(r0, m0, r1, m1, out)
        }
    } else if op == 0x07 {
        // BGTZ
        if rt != 0 {
            step_fatal(r0, m0, r1, m1, out, CpuError::DecodeError(w))
        } else if s32(rr(r0, rs)) > 0 {
            step_flow(r0, m0, r1, m1, out, branch_target(pc, imm))
        } else {
            step_nothing(r0, m0, r1, m1, out)
        }
    } else if op == 0x06 {
        // BLEZ
        if rt != 0 {
            step_fatal(r0, m0, r1, m1, out, CpuError::DecodeError(w))
        } else if s32(rr(r0, rs)) <= 0 {
            step_flow(r0, m0, r1, m1, out, branch_target(pc, imm))
        } else {
            step_nothing(r0, m0, r1, m1, out)
        }
    } else if op == 0x02 {
        // J takes its region from the delay slot address
        step_flow(r0, m0, r1, m1, out, jump_target(wadd(pc, 4), w))
    } else if op == 0x03 {
        // JAL links pc+8 into r31
        step_linkflow(r0, m0, r1, m1, out, 31, wadd(pc, 8), jump_target(pc, w))
    } else if op == 0x3B {
        // PCREL: only ALUIPC is supported
        if rt == 0x1F {
            step_alu(r0, m0, r1, m1, out, rs, 0xFFFF_0000 & wadd(pc, (imm as u32) << 16))
        } else {
            step_fatal(r0, m0, r1, m1, out, CpuError::DecodeError(w))
        }
    } else if op == 0x1C {
        // SPECIAL2: MUL writes the low half of the signed product
        if funct_of(w) == 0x02 {
            if shamt_of(w) != 0 {
                step_fatal(r0, m0, r1, m1, out, CpuError::DecodeError(w))
            } else {
                step_alu(r0, m0, r1, m1, out, rd_of(w), mult_lo(rr(r0, rs), rr(r0, rt)))
            }
        } else {
            step_fatal(r0, m0, r1, m1, out, CpuError::DecodeError(w))
        }
    } else if op == 0x11 {
        // COP1 arithmetic is outside the supported subset
        step_fatal(r0, m0, r1, m1, out, CpuError::UnimplementedInstruction(w))
    } else if is_mem_opcode(op) {
        mem_op_step(w, r0, m0, r1, m1, out)
    } else {
        step_fatal(r0, m0, r1, m1, out, CpuError::DecodeError(w))
    }
}

/// The opcodes handled by `mem_op_step`.
pub open spec fn is_mem_opcode(op: u32) -> bool {
    ||| op == 0x20
    ||| op == 0x21
    ||| op == 0x22
    ||| op == 0x23
    ||| op == 0x24
    ||| op == 0x25
    ||| op == 0x26
    ||| op == 0x28
    ||| op == 0x29
    ||| op == 0x2A
    ||| op == 0x2B
    ||| op == 0x2E
    ||| op == 0x30
    ||| op == 0x31
    ||| op == 0x38
    ||| op == 0x39
}

/// Truncating signed division on 32-bit patterns. The divisor must be
/// non-zero and the one overflowing combination is excluded.
fn signed_div(a: u32, b: u32) -> (qr: (u32, u32))
    requires
        b != 0,
        !(a == 0x8000_0000 && b == 0xFFFF_FFFF),
    ensures
        qr.0 == div_quot(a, b),
        qr.1 == div_rem(a, b),
{
    let ua = if a >= 0x8000_0000 {
        0u32.wrapping_sub(a)
    } else {
        a
    };
    let ub = if b >= 0x8000_0000 {
        0u32.wrapping_sub(b)
    } else {
        b
    };
    assert(ua == abs32(a));
    assert(ub == abs32(b));
    assert(ub != 0);
    let q = ua / ub;
    let r = ua % ub;
    let quot = if (a >= 0x8000_0000) != (b >= 0x8000_0000) {
        0u32.wrapping_sub(q)
    } else {
        q
    };
    let rem = if a >= 0x8000_0000 {
        0u32.wrapping_sub(r)
    } else {
        r
    };
    (quot, rem)
}

/// The signed 64-bit product of two 32-bit patterns, split into its high
/// and low words.
fn mult_parts(a: u32, b: u32) -> (hl: (u32, u32))
    ensures
        hl.0 == mult_hi(a, b),
        hl.1 == mult_lo(a, b),
{
    let sa: u64 = if a < 0x8000_0000 {
        a as u64
    } else {
        (a as u64) | 0xFFFF_FFFF_0000_0000
    };
    let sb: u64 = if b < 0x8000_0000 {
        b as u64
    } else {
        (b as u64) | 0xFFFF_FFFF_0000_0000
    };
    let pu: u64 = sa.wrapping_mul(sb);
    assert(pu == mult_prod(a, b));
    (#[verifier::truncate] ((pu >> 32) as u32), #[verifier::truncate] (pu as u32))
}

/// The branch target relative to the delay slot address.
fn branch_dest(pc: u32, imm: u16) -> (t: u32)
    ensures
        t == branch_target(pc, imm),
{
    pc.wrapping_add(4).wrapping_add(sign_extend_halfword(imm) << 2)
}

/// The LWL merge of memory at `addr` into the previous register value.
fn lwl_load(memory: &Memory, addr: u32, prev: u32) -> (r: u32)
    requires
        memory.wf(),
    ensures
        r == lwl_merge(memory@, memory.spec_endianness(), addr, prev),
{
    let k = addr % 4;
    let al = addr - k;
    let w = memory.read_word(al);
    let sh = match memory.endianness() {
        Endianness::BigEndian => 8 * k,
        Endianness::LittleEndian => 8 * (3 - k),
    };
    (w << sh) | (prev & !(0xFFFF_FFFFu32 << sh))
}

/// The LWR merge of memory at `addr` into the previous register value.
fn lwr_load(memory: &Memory, addr: u32, prev: u32) -> (r: u32)
    requires
        memory.wf(),
    ensures
        r == lwr_merge(memory@, memory.spec_endianness(), addr, prev),
{
    let k = addr % 4;
    let al = addr - k;
    let w = memory.read_word(al);
    let sh = match memory.endianness() {
        Endianness::BigEndian => 8 * (3 - k),
        Endianness::LittleEndian => 8 * k,
    };
    (w >> sh) | (prev & !(0xFFFF_FFFFu32 >> sh))
}

/// Evaluates the SPECIAL (opcode 0) group.
fn eval_special(w: u32, registers: &mut RegisterFile, memory: &mut Memory) -> (r: Result<
    InstrOutcome,
    CpuError,
>)
    requires
        opcode_of(w) == 0,
        old(registers).wf(),
        old(memory).wf(),
    ensures
        final(registers).wf(),
        final(memory).wf(),
        instr_step(w, *old(registers), *old(memory), *final(registers), *final(memory), r),
{
    let funct = get_funct(w);
    let rs = get_rs(w);
    let rt = get_rt(w);
    let rd = get_rd(w);
    let sh = get_shift(w);
    match funct {
        0x00 => {
            if w == 0 {
                Ok(InstrOutcome::Event(CPUEvent::Nothing))
            } else if rs != 0 {
                Err(CpuError::DecodeError(w))
            } else {
                let v = registers.read_register(rt) << sh;
                registers.write_register(rd, v);
                Ok(InstrOutcome::Event(CPUEvent::Nothing))
            }
        },
        0x04 => {
            let amount = registers.read_register(rs) & 0x1F;
            proof {
                lemma_mask_bounds(rr(*registers, rs));
            }
            let v = registers.read_register(rt) << amount;
            registers.write_register(rd, v);
            Ok(InstrOutcome::Event(CPUEvent::Nothing))
        },
        0x06 => {
            let amount = registers.read_register(rs) & 0x1F;
            proof {
                lemma_mask_bounds(rr(*registers, rs));
            }
            let v = registers.read_register(rt) >> amount;
            registers.write_register(rd, v);
            Ok(InstrOutcome::Event(CPUEvent::Nothing))
        },
        0x02 => {
            if rs == 1 {
                let x = registers.read_register(rt);
                let v = if sh == 0 {
                    x
                } else {
                    (x >> sh) | (x << (32 - sh))
                };
                registers.write_register(rd, v);
                Ok(InstrOutcome::Event(CPUEvent::Nothing))
            } else if rs == 0 {
                let v = registers.read_register(rt) >> sh;
                registers.write_register(rd, v);
                Ok(InstrOutcome::Event(CPUEvent::Nothing))
            } else {
                Err(CpuError::DecodeError(w))
            }
        },
        0x03 => {
            if rs != 0 {
                Err(CpuError::DecodeError(w))
            } else {
                let v = ((registers.read_register(rt) as i32) >> sh) as u32;
                registers.write_register(rd, v);
                Ok(InstrOutcome::Event(CPUEvent::Nothing))
            }
        },
        0x07 => {
            if sh != 0 {
                Err(CpuError::DecodeError(w))
            } else {
                let amount = registers.read_register(rs) & 0x1F;
                proof {
                    lemma_mask_bounds(rr(*registers, rs));
                }
                let v = ((registers.read_register(rt) as i32) >> amount) as u32;
                registers.write_register(rd, v);
                Ok(InstrOutcome::Event(CPUEvent::Nothing))
            }
        },
        0x20 => {
            let a = registers.read_register(rs);
            let b = registers.read_register(rt);
            let sum: i64 = ((a as i32) as i64) + ((b as i32) as i64);
            if sum > 0x7FFF_FFFFi64 || sum < -0x8000_0000i64 {
                Err(CpuError::ArithmeticOverflow)
            } else {
                registers.write_register(rd, a.wrapping_add(b));
                Ok(InstrOutcome::Event(CPUEvent::Nothing))
            }
        },
        0x21 => {
            let v = registers.read_register(rs).wrapping_add(registers.read_register(rt));
            registers.write_register(rd, v);
            Ok(InstrOutcome::Event(CPUEvent::Nothing))
        },
        0x23 => {
            let b = registers.read_register(rt);
            let v = registers.read_register(rs).wrapping_add(0u32.wrapping_sub(b));
            registers.write_register(rd, v);
            Ok(InstrOutcome::Event(CPUEvent::Nothing))
        },
        0x24 => {
            let v = registers.read_register(rs) & registers.read_register(rt);
            registers.write_register(rd, v);
            Ok(InstrOutcome::Event(CPUEvent::Nothing))
        },
        0x25 => {
            let v = registers.read_register(rs) | registers.read_register(rt);
            registers.write_register(rd, v);
            Ok(InstrOutcome::Event(CPUEvent::Nothing))
        },
        0x26 => {
            let v = registers.read_register(rs) ^ registers.read_register(rt);
            registers.write_register(rd, v);
            Ok(InstrOutcome::Event(CPUEvent::Nothing))
        },
        0x27 => {
            let v = !(registers.read_register(rs) | registers.read_register(rt));
            registers.write_register(rd, v);
            Ok(InstrOutcome::Event(CPUEvent::Nothing))
        },
        0x2A => {
            let v: u32 = if (registers.read_register(rs) as i32) < (registers.read_register(rt)
                as i32) {
                1
            } else {
                0
            };
            registers.write_register(rd, v);
            Ok(InstrOutcome::Event(CPUEvent::Nothing))
        },
        0x2B => {
            let v: u32 = if registers.read_register(rs) < registers.read_register(rt) {
                1
            } else {
                0
            };
            registers.write_register(rd, v);
            Ok(InstrOutcome::Event(CPUEvent::Nothing))
        },
        0x0B => {
            if sh != 0 {
                Err(CpuError::DecodeError(w))
            } else {
                if registers.read_register(rt) != 0 {
                    let v = registers.read_register(rs);
                    registers.write_register(rd, v);
                }
                Ok(InstrOutcome::Event(CPUEvent::Nothing))
            }
        },
        0x0A => {
            if sh != 0 {
                Err(CpuError::DecodeError(w))
            } else {
                if registers.read_register(rt) == 0 {
                    let v = registers.read_register(rs);
                    registers.write_register(rd, v);
                }
                Ok(InstrOutcome::Event(CPUEvent::Nothing))
            }
        },
        0x18 => {
            if sh == 0x02 {
                let hl = mult_parts(registers.read_register(rs), registers.read_register(rt));
                registers.write_register(rd, hl.1);
                Ok(InstrOutcome::Event(CPUEvent::Nothing))
            } else if sh == 0x03 {
                let hl = mult_parts(registers.read_register(rs), registers.read_register(rt));
                registers.write_register(rd, hl.0);
                Ok(InstrOutcome::Event(CPUEvent::Nothing))
            } else if sh == 0x00 {
                if rd != 0 {
                    Err(CpuError::DecodeError(w))
                } else {
                    let hl = mult_parts(registers.read_register(rs), registers.read_register(rt));
                    registers.write_hi(hl.0);
                    registers.write_lo(hl.1);
                    Ok(InstrOutcome::Event(CPUEvent::Nothing))
                }
            } else {
                Err(CpuError::DecodeError(w))
            }
        },
        0x19 => {
            if sh == 0x00 {
                if rd != 0 {
                    Err(CpuError::DecodeError(w))
                } else {
                    let a = registers.read_register(rs);
                    let b = registers.read_register(rt);
                    proof {
                        assert((a as int) * (b as int) < 0x1_0000_0000_0000_0000) by (nonlinear_arith)
                            requires
                                (a as int) < 0x1_0000_0000,
                                (b as int) < 0x1_0000_0000,
                        ;
                    }
                    let pu: u64 = (a as u64) * (b as u64);
                    assert(pu == multu_prod(a, b));
                    registers.write_hi(#[verifier::truncate] ((pu >> 32) as u32));
                    registers.write_lo(#[verifier::truncate] (pu as u32));
                    Ok(InstrOutcome::Event(CPUEvent::Nothing))
                }
            } else {
                Err(CpuError::DecodeError(w))
            }
        },
        0x1A => {
            if sh != 0 || rd != 0 {
                Err(CpuError::DecodeError(w))
            } else {
                let a = registers.read_register(rs);
                let b = registers.read_register(rt);
                if b == 0 {
                    Err(CpuError::DivisionByZero)
                } else if a == 0x8000_0000 && b == 0xFFFF_FFFF {
                    Err(CpuError::ArithmeticOverflow)
                } else {
                    let qr = signed_div(a, b);
                    registers.write_hi(qr.1);
                    registers.write_lo(qr.0);
                    Ok(InstrOutcome::Event(CPUEvent::Nothing))
                }
            }
        },
        0x1B => {
            if sh != 0 || rd != 0 {
                Err(CpuError::DecodeError(w))
            } else {
                let a = registers.read_register(rs);
                let b = registers.read_register(rt);
                if b == 0 {
                    Err(CpuError::DivisionByZero)
                } else {
                    registers.write_hi(a % b);
                    registers.write_lo(a / b);
                    Ok(InstrOutcome::Event(CPUEvent::Nothing))
                }
            }
        },
        0x34 => {
            if registers.read_register(rs) == registers.read_register(rt) {
                Err(CpuError::TrapTriggered)
            } else {
                Ok(InstrOutcome::Event(CPUEvent::Nothing))
            }
        },
        0x10 => {
            if rt != 0 || rs != 0 || sh != 0 {
                Err(CpuError::DecodeError(w))
            } else {
                let v = registers.read_hi();
                registers.write_register(rd, v);
                Ok(InstrOutcome::Event(CPUEvent::Nothing))
            }
        },
        0x12 => {
            if rt != 0 || rs != 0 || sh != 0 {
                Err(CpuError::DecodeError(w))
            } else {
                let v = registers.read_lo();
                registers.write_register(rd, v);
                Ok(InstrOutcome::Event(CPUEvent::Nothing))
            }
        },
        0x09 => {
            let target = registers.read_register(rs);
            if target & 0x03 != 0 {
                Err(CpuError::MisalignedJump(target))
            } else {
                let pc = registers.get_pc();
                registers.write_register(rd, pc.wrapping_add(8));
                Ok(InstrOutcome::Event(CPUEvent::FlowChangeDelayed(target)))
            }
        },
        0x08 => {
            let target = registers.read_register(rs);
            Ok(InstrOutcome::Event(CPUEvent::FlowChangeDelayed(target)))
        },
        0x0C => Ok(InstrOutcome::Syscall),
        0x0F => Ok(InstrOutcome::Event(CPUEvent::Nothing)),
        0x0D => Err(CpuError::Breakpoint),
        _ => Err(CpuError::DecodeError(w)),
    }
}

/// Evaluates the REGIMM (opcode 1) group.
fn eval_regimm(w: u32, registers: &mut RegisterFile) -> (r: Result<InstrOutcome, CpuError>)
    requires
        opcode_of(w) == 1,
        old(registers).wf(),
    ensures
        final(registers).wf(),
        forall|m: Memory| instr_step(w, *old(registers), m, *final(registers), m, r),
{
    let rs = get_rs(w);
    let rt = get_rt(w);
    let imm = get_offset(w);
    let pc = registers.get_pc();
    let target = branch_dest(pc, imm);
    if rs == 0 && rt == 0x11 {
        registers.write_register(31, pc.wrapping_add(8));
        Ok(InstrOutcome::Event(CPUEvent::FlowChangeDelayed(target)))
    } else if rt == 0x11 {
        Err(CpuError::UnimplementedInstruction(w))
    } else if rt == 0x00 {
        if (registers.read_register(rs) as i32) < 0 {
            Ok(InstrOutcome::Event(CPUEvent::FlowChangeDelayed(target)))
        } else {
            Ok(InstrOutcome::Event(CPUEvent::Nothing))
        }
    } else if rt == 0x01 {
        if (registers.read_register(rs) as i32) >= 0 {
            Ok(InstrOutcome::Event(CPUEvent::FlowChangeDelayed(target)))
        } else {
            Ok(InstrOutcome::Event(CPUEvent::Nothing))
        }
    } else {
        Err(CpuError::DecodeError(w))
    }
}

/// Evaluates the SPECIAL3 (opcode 0x1F) group.
fn eval_special3(w: u32, registers: &mut RegisterFile) -> (r: Result<InstrOutcome, CpuError>)
    requires
        opcode_of(w) == 0x1F,
        old(registers).wf(),
    ensures
        final(registers).wf(),
        forall|m: Memory| instr_step(w, *old(registers), m, *final(registers), m, r),
{
    let funct = get_funct(w);
    let rs = get_rs(w);
    let rt = get_rt(w);
    let rd = get_rd(w);
    let sh = get_shift(w);
    match funct {
        0x20 => {
            if sh & 0xFC != 0x08 || sh & 0x03 == 0 {
                Err(CpuError::DecodeError(w))
            } else {
                let bp = sh & 0x03;
                proof {
                    lemma_mask_bounds(sh);
                }
                let v = (registers.read_register(rt) << (8 * bp)) | (registers.read_register(rs)
                    >> (32 - 8 * bp));
                registers.write_register(rd, v);
                Ok(InstrOutcome::Event(CPUEvent::Nothing))
            }
        },
        0x3B => {
            if rd == 29 {
                registers.write_register(rt, RDHWR_USER_LOCAL);
                Ok(InstrOutcome::Event(CPUEvent::Nothing))
            } else {
                Err(CpuError::DecodeError(w))
            }
        },
        0x00 => {
            let pos = sh;
            let size = rd + 1;
            if pos + size <= 32 {
                let x = registers.read_register(rs);
                let v = if size == 32 {
                    x
                } else {
                    proof {
                        assert(size < 32 ==> 1u32 << size >= 1) by (bit_vector);
                    }
                    (x >> pos) & ((1u32 << size) - 1)
                };
                registers.write_register(rt, v);
                Ok(InstrOutcome::Event(CPUEvent::Nothing))
            } else {
                Err(CpuError::DecodeError(w))
            }
        },
        _ => Err(CpuError::DecodeError(w)),
    }
}

/// Evaluates the load, store and floating point transfer opcodes.
fn eval_mem_op(w: u32, registers: &mut RegisterFile, memory: &mut Memory) -> (r: Result<
    InstrOutcome,
    CpuError,
>)
    requires
        is_mem_opcode(opcode_of(w)),
        old(registers).wf(),
        old(memory).wf(),
    ensures
        final(registers).wf(),
        final(memory).wf(),
        mem_op_step(w, *old(registers), *old(memory), *final(registers), *final(memory), r),
{
    let op = get_opcode(w);
    let rs = get_rs(w);
    let rt = get_rt(w);
    let imm = get_offset(w);
    let a = add_signed_offset(registers.read_register(rs), imm);
    match op {
        0x20 => {
            let byte = memory.read_byte(a);
            let v = if byte < 0x80 {
                byte
            } else {
                byte | 0xFFFF_FF00
            };
            registers.write_register(rt, v);
            Ok(InstrOutcome::Event(CPUEvent::Nothing))
        },
        0x24 => {
            let v = memory.read_byte(a);
            registers.write_register(rt, v);
            Ok(InstrOutcome::Event(CPUEvent::Nothing))
        },
        0x21 => {
            if a >= 0xFFFF_FFFF {
                Err(CpuError::AddressOverflow(a))
            } else {
                proof {
                    crate::memory::lemma_half_at_bound(memory@, memory.spec_endianness(), a as int);
                }
                let h = memory.read_halfword(a);
                let v = if h < 0x8000 {
                    h
                } else {
                    h | 0xFFFF_0000
                };
                registers.write_register(rt, v);
                Ok(InstrOutcome::Event(CPUEvent::Nothing))
            }
        },
        0x25 => {
            if a >= 0xFFFF_FFFF {
                Err(CpuError::AddressOverflow(a))
            } else {
                let v = memory.read_halfword(a);
                registers.write_register(rt, v);
                Ok(InstrOutcome::Event(CPUEvent::Nothing))
            }
        },
        0x23 => {
            if a >= 0xFFFF_FFFD {
                Err(CpuError::AddressOverflow(a))
            } else {
                let v = memory.read_word(a);
                registers.write_register(rt, v);
                Ok(InstrOutcome::Event(CPUEvent::Nothing))
            }
        },
        0x22 => {
            let prev = registers.read_register(rt);
            let v = lwl_load(memory, a, prev);
            registers.write_register(rt, v);
            Ok(InstrOutcome::Event(CPUEvent::Nothing))
        },
        0x26 => {
            let prev = registers.read_register(rt);
            let v = lwr_load(memory, a, prev);
            registers.write_register(rt, v);
            Ok(InstrOutcome::Event(CPUEvent::Nothing))
        },
        0x30 => {
            if a >= 0xFFFF_FFFD {
                Err(CpuError::AddressOverflow(a))
            } else {
                let v = memory.read_word(a);
                registers.write_register(rt, v);
                Ok(InstrOutcome::Event(CPUEvent::AtomicLoadModifyWriteBegan))
            }
        },
        0x28 => {
            let v = registers.read_register(rt);
            memory.write_byte(a, v);
            Ok(InstrOutcome::Event(CPUEvent::Nothing))
        },
        0x29 => {
            if a >= 0xFFFF_FFFF {
                Err(CpuError::AddressOverflow(a))
            } else {
                let v = registers.read_register(rt);
                memory.write_halfword(a, v);
                Ok(InstrOutcome::Event(CPUEvent::Nothing))
            }
        },
        0x2B => {
            if a >= 0xFFFF_FFFD {
                Err(CpuError::AddressOverflow(a))
            } else {
                let v = registers.read_register(rt);
                memory.write_word(a, v);
                Ok(InstrOutcome::Event(CPUEvent::Nothing))
            }
        },
        0x2A => {
            let v = registers.read_register(rt);
            memory.write_word_unaligned_swl(a, v);
            Ok(InstrOutcome::Event(CPUEvent::Nothing))
        },
        0x2E => {
            let v = registers.read_register(rt);
            memory.write_word_unaligned_swr(a, v);
            Ok(InstrOutcome::Event(CPUEvent::Nothing))
        },
        0x38 => {
            if a >= 0xFFFF_FFFD {
                Err(CpuError::AddressOverflow(a))
            } else {
                let v = registers.read_register(rt);
                memory.write_word(a, v);
                registers.write_register(rt, 1);
                Ok(InstrOutcome::Event(CPUEvent::Nothing))
            }
        },
        0x31 => {
            if a >= 0xFFFF_FFFD {
                Err(CpuError::AddressOverflow(a))
            } else {
                let v = memory.read_word(a);
                registers.write_fpr(rt, v);
                Ok(InstrOutcome::Event(CPUEvent::Nothing))
            }
        },
        _ => {
            if a >= 0xFFFF_FFFD {
                Err(CpuError::AddressOverflow(a))
            } else {
                let v = registers.read_fpr(rt);
                memory.write_word(a, v);
                Ok(InstrOutcome::Event(CPUEvent::Nothing))
            }
        },
    }
}

/// Dispatches one fetched instruction word, mutates the registers and
/// memory as the instruction demands, and reports the resulting event.
/// The exact effect of every mnemonic is pinned by `instr_step`.
pub fn eval_instruction(instruction: u32, registers: &mut RegisterFile, memory: &mut Memory) -> (r:
    Result<InstrOutcome, CpuError>)
    requires
        old(registers).wf(),
        old(memory).wf(),
    ensures
        final(registers).wf(),
        final(memory).wf(),
        instr_step(
            instruction,
            *old(registers),
            *old(memory),
            *final(registers),
            *final(memory),
            r,
        ),
{
    let w = instruction;
    let op = get_opcode(w);
    let rs = get_rs(w);
    let rt = get_rt(w);
    let imm = get_offset(w);
    match op {
        0x00 => eval_special(w, registers, memory),
        0x01 => eval_regimm(w, registers),
        0x1F => eval_special3(w, registers),
        0x09 => {
            let v = add_signed_offset(registers.read_register(rs), imm);
            registers.write_register(rt, v);
            Ok(InstrOutcome::Event(CPUEvent::Nothing))
        },
        0x0C => {
            let v = registers.read_register(rs) & (imm as u32);
            registers.write_register(rt, v);
            Ok(InstrOutcome::Event(CPUEvent::Nothing))
        },
        0x0D => {
            let v = registers.read_register(rs) | (imm as u32);
            registers.write_register(rt, v);
            Ok(InstrOutcome::Event(CPUEvent::Nothing))
        },
        0x0E => {
            let v = registers.read_register(rs) ^ (imm as u32);
            registers.write_register(rt, v);
            Ok(InstrOutcome::Event(CPUEvent::Nothing))
        },
        0x0F => {
            let v = add_to_upper_bits(registers.read_register(rs), imm);
            registers.write_register(rt, v);
            Ok(InstrOutcome::Event(CPUEvent::Nothing))
        },
        0x0A => {
            let bound = sign_extend_halfword(imm);
            let v: u32 = if (registers.read_register(rs) as i32) < (bound as i32) {
                1
            } else {
                0
            };
            registers.write_register(rt, v);
            Ok(InstrOutcome::Event(CPUEvent::Nothing))
        },
        0x0B => {
            let bound = sign_extend_halfword(imm);
            let v: u32 = if registers.read_register(rs) < bound {
                1
            } else {
                0
            };
            registers.write_register(rt, v);
            Ok(InstrOutcome::Event(CPUEvent::Nothing))
        },
        0x04 => {
            let target = branch_dest(registers.get_pc(), imm);
            if registers.read_register(rs) == registers.read_register(rt) {
                Ok(InstrOutcome::Event(CPUEvent::FlowChangeDelayed(target)))
            } else {
                Ok(InstrOutcome::Event(CPUEvent::Nothing))
            }
        },
        0x05 => {
            let target = branch_dest(registers.get_pc(), imm);
            if registers.read_register(rs) != registers.read_register(rt) {
                Ok(InstrOutcome::Event(CPUEvent::FlowChangeDelayed(target)))
            } else {
                Ok(InstrOutcome::Event(CPUEvent::Nothing))
            }
        },
        0x07 => {
            if rt != 0 {
                Err(CpuError::DecodeError(w))
            } else {
                let target = branch_dest(registers.get_pc(), imm);
                if (registers.read_register(rs) as i32) > 0 {
                    Ok(InstrOutcome::Event(CPUEvent::FlowChangeDelayed(target)))
                } else {
                    Ok(InstrOutcome::Event(CPUEvent::Nothing))
                }
            }
        },
        0x06 => {
            if rt != 0 {
                Err(CpuError::DecodeError(w))
            } else {
                let target = branch_dest(registers.get_pc(), imm);
                if (registers.read_register(rs) as i32) <= 0 {
                    Ok(InstrOutcome::Event(CPUEvent::FlowChangeDelayed(target)))
                } else {
                    Ok(InstrOutcome::Event(CPUEvent::Nothing))
                }
            }
        },
        0x02 => {
            let region = registers.get_pc().wrapping_add(4);
            let target = (region & 0xF0_00_00_00) | ((w & 0x03_FF_FF_FF) << 2);
            Ok(InstrOutcome::Event(CPUEvent::FlowChangeDelayed(target)))
        },
        0x03 => {
            let pc = registers.get_pc();
            let target = (pc & 0xF0_00_00_00) | ((w & 0x03_FF_FF_FF) << 2);
            registers.write_register(31, pc.wrapping_add(8));
            Ok(InstrOutcome::Event(CPUEvent::FlowChangeDelayed(target)))
        },
        0x3B => {
            if rt == 0x1F {
                let v = 0xFFFF_0000 & registers.get_pc().wrapping_add((imm as u32) << 16);
                registers.write_register(rs, v);
                Ok(InstrOutcome::Event(CPUEvent::Nothing))
            } else {
                Err(CpuError::DecodeError(w))
            }
        },
        0x1C => {
            if get_funct(w) == 0x02 {
                if get_shift(w) != 0 {
                    Err(CpuError::DecodeError(w))
                } else {
                    let hl = mult_parts(registers.read_register(rs), registers.read_register(rt));
                    registers.write_register(get_rd(w), hl.1);
                    Ok(InstrOutcome::Event(CPUEvent::Nothing))
                }
            } else {
                Err(CpuError::DecodeError(w))
            }
        },
        0x11 => Err(CpuError::UnimplementedInstruction(w)),
        0x20 | 0x21 | 0x22 | 0x23 | 0x24 | 0x25 | 0x26 | 0x28 | 0x29 | 0x2A | 0x2B | 0x2E | 0x30
        | 0x31 | 0x38 | 0x39 => eval_mem_op(w, registers, memory),
        _ => Err(CpuError::DecodeError(w)),
    }
}

/// `jal target` leaves r31 equal to `pc + 8`, where `pc` is the jal
/// instruction's own address, and transfers control through a delay
/// slot.
pub proof fn lemma_jal_links_return_address(
    w: u32,
    r0: RegisterFile,
    m0: Memory,
    r1: RegisterFile,
    m1: Memory,
    out: Result<InstrOutcome, CpuError>,
)
    requires
        opcode_of(w) == 0x03,
        r0.wf(),
        instr_step(w, r0, m0, r1, m1, out),
    ensures
        rr(r1, 31) == wadd(r0.spec_pc(), 8),
        out == Ok::<InstrOutcome, CpuError>(
            InstrOutcome::Event(CPUEvent::FlowChangeDelayed(jump_target(r0.spec_pc(), w))),
        ),
{
}

} // verus!
