use mipsemu::event::{CPUEvent, CpuError};
use mipsemu::instructions::{eval_instruction, InstrOutcome, RDHWR_USER_LOCAL};
use mipsemu::memory::{Endianness, Memory};
use mipsemu::registers::RegisterFile;

fn special(rs: u32, rt: u32, rd: u32, sh: u32, funct: u32) -> u32 {
    (rs << 21) | (rt << 16) | (rd << 11) | (sh << 6) | funct
}

fn itype(op: u32, rs: u32, rt: u32, imm: u32) -> u32 {
    (op << 26) | (rs << 21) | (rt << 16) | (imm & 0xFFFF)
}

fn machine() -> (RegisterFile, Memory) {
    (RegisterFile::new(0x7FFF_FF00), Memory::new(Endianness::BigEndian))
}

fn nothing() -> Result<InstrOutcome, CpuError> {
    Ok(InstrOutcome::Event(CPUEvent::Nothing))
}

#[test]
fn test_addu_wraps_and_add_traps() {
    let (mut r, mut m) = machine();
    r.write_register(8, 0x7FFF_FFFF);
    r.write_register(9, 1);
    // addu wraps into the sign bit and execution continues
    let res = eval_instruction(special(8, 9, 10, 0, 0x21), &mut r, &mut m);
    assert_eq!(res, nothing());
    assert_eq!(r.read_register(10), 0x8000_0000);
    // add on the same operands must fail fatally, leaving r10 alone
    r.write_register(10, 7);
    let res = eval_instruction(special(8, 9, 10, 0, 0x20), &mut r, &mut m);
    assert_eq!(res, Err(CpuError::ArithmeticOverflow));
    assert_eq!(r.read_register(10), 7);
}

#[test]
fn test_subu_and_logic_ops() {
    let (mut r, mut m) = machine();
    r.write_register(8, 5);
    r.write_register(9, 12);
    assert_eq!(eval_instruction(special(8, 9, 10, 0, 0x23), &mut r, &mut m), nothing());
    assert_eq!(r.read_register(10), 5u32.wrapping_sub(12));
    r.write_register(8, 0b1100);
    r.write_register(9, 0b1010);
    eval_instruction(special(8, 9, 10, 0, 0x24), &mut r, &mut m).unwrap();
    assert_eq!(r.read_register(10), 0b1000);
    eval_instruction(special(8, 9, 10, 0, 0x25), &mut r, &mut m).unwrap();
    assert_eq!(r.read_register(10), 0b1110);
    eval_instruction(special(8, 9, 10, 0, 0x26), &mut r, &mut m).unwrap();
    assert_eq!(r.read_register(10), 0b0110);
    eval_instruction(special(8, 9, 10, 0, 0x27), &mut r, &mut m).unwrap();
    assert_eq!(r.read_register(10), !0b1110u32);
}

#[test]
fn test_shifts_and_rotate() {
    let (mut r, mut m) = machine();
    r.write_register(9, 0x8000_0001);
    eval_instruction(special(0, 9, 10, 1, 0x00), &mut r, &mut m).unwrap();  // sll
    assert_eq!(r.read_register(10), 2);
    eval_instruction(special(0, 9, 10, 1, 0x02), &mut r, &mut m).unwrap();  // srl
    assert_eq!(r.read_register(10), 0x4000_0000);
    eval_instruction(special(0, 9, 10, 1, 0x03), &mut r, &mut m).unwrap();  // sra
    assert_eq!(r.read_register(10), 0xC000_0000);
    eval_instruction(special(1, 9, 10, 4, 0x02), &mut r, &mut m).unwrap();  // rotr
    assert_eq!(r.read_register(10), 0x1800_0000);
    // variable shifts mask the amount to five bits
    r.write_register(8, 33);
    eval_instruction(special(8, 9, 10, 0, 0x04), &mut r, &mut m).unwrap();  // sllv
    assert_eq!(r.read_register(10), 2);
}

#[test]
fn test_slt_family() {
    let (mut r, mut m) = machine();
    r.write_register(8, 0xFFFF_FFFF);  // -1 signed
    r.write_register(9, 1);
    eval_instruction(special(8, 9, 10, 0, 0x2A), &mut r, &mut m).unwrap();  // slt
    assert_eq!(r.read_register(10), 1);
    eval_instruction(special(8, 9, 10, 0, 0x2B), &mut r, &mut m).unwrap();  // sltu
    assert_eq!(r.read_register(10), 0);
    // slti compares signed against the sign-extended immediate
    eval_instruction(itype(0x0A, 8, 10, 0x0000), &mut r, &mut m).unwrap();
    assert_eq!(r.read_register(10), 1);
    // sltiu sign-extends the immediate, then compares unsigned
    r.write_register(8, 2);
    eval_instruction(itype(0x0B, 8, 10, 0xFFFF), &mut r, &mut m).unwrap();
    assert_eq!(r.read_register(10), 1);
}

#[test]
fn test_immediate_ops() {
    let (mut r, mut m) = machine();
    r.write_register(8, 0xF0F0_0003);
    eval_instruction(itype(0x0C, 8, 10, 0x00FF), &mut r, &mut m).unwrap();  // andi
    assert_eq!(r.read_register(10), 0x0003);
    eval_instruction(itype(0x0D, 8, 10, 0x0F00), &mut r, &mut m).unwrap();  // ori
    assert_eq!(r.read_register(10), 0xF0F0_0F03);
    eval_instruction(itype(0x0E, 8, 10, 0x00FF), &mut r, &mut m).unwrap();  // xori
    assert_eq!(r.read_register(10), 0xF0F0_00FC);
    // lui places the immediate in the upper half
    eval_instruction(itype(0x0F, 0, 10, 0x1234), &mut r, &mut m).unwrap();
    assert_eq!(r.read_register(10), 0x1234_0000);
    eval_instruction(itype(0x09, 0, 10, 0xFFFF), &mut r, &mut m).unwrap();  // addiu
    assert_eq!(r.read_register(10), 0xFFFF_FFFF);
}

#[test]
fn test_loads_and_stores() {
    let (mut r, mut m) = machine();
    r.write_register(8, 0x1000);
    r.write_register(9, 0xAABB_CCDD);
    eval_instruction(itype(0x2B, 8, 9, 4), &mut r, &mut m).unwrap();  // sw
    assert_eq!(m.read_word(0x1004), 0xAABB_CCDD);
    eval_instruction(itype(0x23, 8, 10, 4), &mut r, &mut m).unwrap();  // lw
    assert_eq!(r.read_register(10), 0xAABB_CCDD);
    eval_instruction(itype(0x28, 8, 9, 8), &mut r, &mut m).unwrap();  // sb
    assert_eq!(m.read_byte(0x1008), 0xDD);
    eval_instruction(itype(0x29, 8, 9, 12), &mut r, &mut m).unwrap();  // sh
    assert_eq!(m.read_halfword(0x100C), 0xCCDD);
    // lb sign-extends, lbu does not
    eval_instruction(itype(0x20, 8, 10, 8), &mut r, &mut m).unwrap();
    assert_eq!(r.read_register(10), 0xFFFF_FFDD);
    eval_instruction(itype(0x24, 8, 10, 8), &mut r, &mut m).unwrap();
    assert_eq!(r.read_register(10), 0xDD);
    // lh sign-extends, lhu does not
    eval_instruction(itype(0x21, 8, 10, 12), &mut r, &mut m).unwrap();
    assert_eq!(r.read_register(10), 0xFFFF_CCDD);
    eval_instruction(itype(0x25, 8, 10, 12), &mut r, &mut m).unwrap();
    assert_eq!(r.read_register(10), 0xCCDD);
}

#[test]
fn test_lwl_lwr_pair_either_order() {
    let bytes = [0xAAu8, 0xBB, 0xCC, 0xDD, 0xEE, 0xFF];
    // lwl at 0x1001 and lwr at 0x1004 assemble the unaligned word,
    // whichever of the two loads runs first
    for lwl_first in [true, false] {
        let (mut r, mut m) = machine();
        m.write_block(0x1000, &bytes);
        r.write_register(2, 0x1111_1111);
        let lwl = itype(0x22, 0, 2, 0x1001);
        let lwr = itype(0x26, 0, 2, 0x1004);
        if lwl_first {
            eval_instruction(lwl, &mut r, &mut m).unwrap();
            eval_instruction(lwr, &mut r, &mut m).unwrap();
        } else {
            eval_instruction(lwr, &mut r, &mut m).unwrap();
            eval_instruction(lwl, &mut r, &mut m).unwrap();
        }
        assert_eq!(r.read_register(2), 0xBBCC_DDEE);
    }
}

#[test]
fn test_ll_and_sc() {
    let (mut r, mut m) = machine();
    m.write_word(0x2000, 41);
    r.write_register(8, 0x2000);
    let res = eval_instruction(itype(0x30, 8, 9, 0), &mut r, &mut m);  // ll
    assert_eq!(res, Ok(InstrOutcome::Event(CPUEvent::AtomicLoadModifyWriteBegan)));
    assert_eq!(r.read_register(9), 41);
    r.write_register(9, 42);
    let res = eval_instruction(itype(0x38, 8, 9, 0), &mut r, &mut m);  // sc
    assert_eq!(res, nothing());
    assert_eq!(m.read_word(0x2000), 42);
    // sc reports success in rt
    assert_eq!(r.read_register(9), 1);
}

#[test]
fn test_jal_links_return_address() {
    let (mut r, mut m) = machine();
    r.set_pc(0x0040_1000);
    let index = 0x0040_2000u32 >> 2;
    let res = eval_instruction((0x03 << 26) | index, &mut r, &mut m);
    assert_eq!(
        res,
        Ok(InstrOutcome::Event(CPUEvent::FlowChangeDelayed(0x0040_2000)))
    );
    assert_eq!(r.read_register(31), 0x0040_1008);
}

#[test]
fn test_jr_and_jalr() {
    let (mut r, mut m) = machine();
    r.set_pc(0x1000);
    r.write_register(8, 0x0040_3000);
    let res = eval_instruction(special(8, 0, 0, 0, 0x08), &mut r, &mut m);  // jr
    assert_eq!(
        res,
        Ok(InstrOutcome::Event(CPUEvent::FlowChangeDelayed(0x0040_3000)))
    );
    let res = eval_instruction(special(8, 0, 31, 0, 0x09), &mut r, &mut m);  // jalr
    assert_eq!(
        res,
        Ok(InstrOutcome::Event(CPUEvent::FlowChangeDelayed(0x0040_3000)))
    );
    assert_eq!(r.read_register(31), 0x1008);
    // a misaligned target is fatal
    r.write_register(8, 0x0040_3001);
    let res = eval_instruction(special(8, 0, 31, 0, 0x09), &mut r, &mut m);
    assert_eq!(res, Err(CpuError::MisalignedJump(0x0040_3001)));
}

#[test]
fn test_mult_and_mul() {
    let (mut r, mut m) = machine();
    r.write_register(8, 0xFFFF_FFFF);  // -1
    r.write_register(9, 6);
    // legacy mult writes the 64-bit product into HI:LO
    eval_instruction(special(8, 9, 0, 0, 0x18), &mut r, &mut m).unwrap();
    assert_eq!(r.read_lo(), 0xFFFF_FFFA);
    assert_eq!(r.read_hi(), 0xFFFF_FFFF);
    eval_instruction(special(0, 0, 10, 0, 0x12), &mut r, &mut m).unwrap();  // mflo
    assert_eq!(r.read_register(10), 0xFFFF_FFFA);
    eval_instruction(special(0, 0, 10, 0, 0x10), &mut r, &mut m).unwrap();  // mfhi
    assert_eq!(r.read_register(10), 0xFFFF_FFFF);
    // release-6 mul and muh write the halves into rd
    eval_instruction(special(8, 9, 10, 2, 0x18), &mut r, &mut m).unwrap();
    assert_eq!(r.read_register(10), 0xFFFF_FFFA);
    eval_instruction(special(8, 9, 10, 3, 0x18), &mut r, &mut m).unwrap();
    assert_eq!(r.read_register(10), 0xFFFF_FFFF);
    // the SPECIAL2 form of mul
    eval_instruction((0x1C << 26) | special(8, 9, 10, 0, 0x02), &mut r, &mut m).unwrap();
    assert_eq!(r.read_register(10), 0xFFFF_FFFA);
}

#[test]
fn test_div_and_divu() {
    let (mut r, mut m) = machine();
    r.write_register(8, 0xFFFF_FFF9);  // -7
    r.write_register(9, 2);
    eval_instruction(special(8, 9, 0, 0, 0x1A), &mut r, &mut m).unwrap();  // div
    assert_eq!(r.read_lo(), 0xFFFF_FFFD);  // -3, truncating
    assert_eq!(r.read_hi(), 0xFFFF_FFFF);  // remainder -1
    r.write_register(8, 7);
    r.write_register(9, 2);
    eval_instruction(special(8, 9, 0, 0, 0x1B), &mut r, &mut m).unwrap();  // divu
    assert_eq!(r.read_lo(), 3);
    assert_eq!(r.read_hi(), 1);
    // division by zero is fatal
    r.write_register(9, 0);
    let res = eval_instruction(special(8, 9, 0, 0, 0x1A), &mut r, &mut m);
    assert_eq!(res, Err(CpuError::DivisionByZero));
}

#[test]
fn test_traps_and_unknown_instructions() {
    let (mut r, mut m) = machine();
    r.write_register(8, 5);
    r.write_register(9, 5);
    assert_eq!(
        eval_instruction(special(8, 9, 0, 0, 0x34), &mut r, &mut m),
        Err(CpuError::TrapTriggered)
    );
    r.write_register(9, 6);
    assert_eq!(eval_instruction(special(8, 9, 0, 0, 0x34), &mut r, &mut m), nothing());
    let brk = special(0, 0, 0, 0, 0x0D);
    assert_eq!(eval_instruction(brk, &mut r, &mut m), Err(CpuError::Breakpoint));
    let bad = 0x34 << 26;
    assert_eq!(eval_instruction(bad, &mut r, &mut m), Err(CpuError::DecodeError(bad)));
    // sync retires quietly
    assert_eq!(eval_instruction(special(0, 0, 0, 0, 0x0F), &mut r, &mut m), nothing());
}

#[test]
fn test_ext_and_align_and_rdhwr() {
    let (mut r, mut m) = machine();
    r.write_register(8, 0x0000_0FF0);
    // ext rt, rs with pos=4, size=8 picks out one byte
    let ext = (0x1F << 26) | (8 << 21) | (10 << 16) | (7 << 11) | (4 << 6);
    eval_instruction(ext, &mut r, &mut m).unwrap();
    assert_eq!(r.read_register(10), 0xFF);
    // align glues bp bytes of rs under rt
    r.write_register(8, 0xAABB_CCDD);
    r.write_register(9, 0x1122_3344);
    let align = (0x1F << 26) | (8 << 21) | (9 << 16) | (10 << 11) | (0b01001 << 6) | 0x20;
    eval_instruction(align, &mut r, &mut m).unwrap();
    assert_eq!(r.read_register(10), 0x22_3344_AA);
    // rdhwr hands out the stable UserLocal constant
    let rdhwr = (0x1F << 26) | (10 << 16) | (29 << 11) | 0x3B;
    eval_instruction(rdhwr, &mut r, &mut m).unwrap();
    assert_eq!(r.read_register(10), RDHWR_USER_LOCAL);
}

#[test]
fn test_fpr_transfer_keeps_raw_patterns() {
    let (mut r, mut m) = machine();
    m.write_word(0x3000, 0x3F80_0001);
    r.write_register(8, 0x3000);
    eval_instruction(itype(0x31, 8, 5, 0), &mut r, &mut m).unwrap();  // lwc1
    assert_eq!(r.read_fpr(5), 0x3F80_0001);
    eval_instruction(itype(0x39, 8, 5, 4), &mut r, &mut m).unwrap();  // swc1
    assert_eq!(m.read_word(0x3004), 0x3F80_0001);
}

#[test]
fn test_movn_movz() {
    let (mut r, mut m) = machine();
    r.write_register(8, 77);
    r.write_register(9, 1);
    eval_instruction(special(8, 9, 10, 0, 0x0B), &mut r, &mut m).unwrap();  // movn
    assert_eq!(r.read_register(10), 77);
    r.write_register(10, 0);
    eval_instruction(special(8, 9, 10, 0, 0x0A), &mut r, &mut m).unwrap();  // movz
    assert_eq!(r.read_register(10), 0);
}

#[test]
fn test_register_zero_semantics() {
    let (mut r, mut m) = machine();
    // a write to r0 is ignored
    r.write_register(0, 123);
    assert_eq!(r.read_register(0), 0);
    // every other register returns the most recent write
    r.write_register(17, 5);
    r.write_register(17, 9);
    assert_eq!(r.read_register(17), 9);
    assert_eq!(r.read_register(18), 0);
    // addiu into r0 has no effect
    eval_instruction(itype(0x09, 0, 0, 55), &mut r, &mut m).unwrap();
    assert_eq!(r.read_register(0), 0);
}

#[test]
fn test_multu_unsigned_product() {
    let (mut r, mut m) = machine();
    r.write_register(8, 0xFFFF_FFFF);
    r.write_register(9, 6);
    // multu treats both operands as unsigned
    eval_instruction(special(8, 9, 0, 0, 0x19), &mut r, &mut m).unwrap();
    assert_eq!(r.read_lo(), 0xFFFF_FFFA);
    assert_eq!(r.read_hi(), 5);
}
