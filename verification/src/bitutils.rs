//! Pure decoding helpers: instruction field extraction, sign extension,
//! and wrap-around address arithmetic on 32-bit words.

use vstd::prelude::*;

verus! {

/// Addition of two 32-bit words with two's-complement wrap-around.
pub open spec fn wadd(a: u32, b: u32) -> u32 {
    if a + b > u32::MAX {
        (a + b - 0x1_0000_0000) as u32
    } else {
        (a + b) as u32
    }
}

/// The 32-bit pattern of the 16-bit value `x` sign-extended to 32 bits.
pub open spec fn sext16(x: u16) -> u32 {
    if x < 0x8000 {
        x as u32
    } else {
        (x as u32) | 0xFFFF_0000
    }
}

/// The 32-bit pattern of the 8-bit value `x` sign-extended to 32 bits.
pub open spec fn sext8(x: u8) -> u32 {
    if x < 0x80 {
        x as u32
    } else {
        (x as u32) | 0xFFFF_FF00
    }
}

/// Bit `i` of the word `w`.
pub open spec fn bit32(w: u32, i: u32) -> bool {
    (w >> i) & 1 == 1
}

pub open spec fn opcode_of(w: u32) -> u32 {
    (w & 0xFC_00_00_00) >> 26
}

pub open spec fn rs_of(w: u32) -> u32 {
    (w & 0x03_E0_00_00) >> 21
}

pub open spec fn rt_of(w: u32) -> u32 {
    (w & 0x00_1F_00_00) >> 16
}

pub open spec fn rd_of(w: u32) -> u32 {
    (w & 0x00_00_F8_00) >> 11
}

pub open spec fn shamt_of(w: u32) -> u32 {
    (w & 0x00_00_07_C0) >> 6
}

pub open spec fn funct_of(w: u32) -> u32 {
    w & 0x00_00_00_3F
}

pub open spec fn imm_of(w: u32) -> u16 {
    (w & 0x00_00_FF_FF) as u16
}

/// Every instruction field lies in the range its width allows.
pub proof fn lemma_field_ranges(w: u32)
    by (bit_vector)
    ensures
        opcode_of(w) < 64,
        rs_of(w) < 32,
        rt_of(w) < 32,
        rd_of(w) < 32,
        shamt_of(w) < 32,
        funct_of(w) < 64,
{
}

/// Masking with a five-bit or two-bit mask bounds the result.
pub proof fn lemma_mask_bounds(x: u32)
    by (bit_vector)
    ensures
        x & 0x1F < 32,
        x & 0x03 < 4,
{
}

pub fn get_opcode(instruction: u32) -> (r: u32)
    ensures
        r == opcode_of(instruction),
        r < 64,
{
    proof {
        lemma_field_ranges(instruction);
    }
    (instruction & 0xFC_00_00_00) >> 26
}

pub fn get_rs(instruction: u32) -> (r: u32)
    ensures
        r == rs_of(instruction),
        r < 32,
{
    proof {
        lemma_field_ranges(instruction);
    }
    (instruction & 0x03_E0_00_00) >> 21
}

pub fn get_rt(instruction: u32) -> (r: u32)
    ensures
        r == rt_of(instruction),
        r < 32,
{
    proof {
        lemma_field_ranges(instruction);
    }
    (instruction & 0x00_1F_00_00) >> 16
}

pub fn get_rd(instruction: u32) -> (r: u32)
    ensures
        r == rd_of(instruction),
        r < 32,
{
    proof {
        lemma_field_ranges(instruction);
    }
    (instruction & 0x00_00_F8_00) >> 11
}

pub fn get_shift(instruction: u32) -> (r: u32)
    ensures
        r == shamt_of(instruction),
        r < 32,
{
    proof {
        lemma_field_ranges(instruction);
    }
    (instruction & 0x00_00_07_C0) >> 6
}

pub fn get_funct(instruction: u32) -> (r: u32)
    ensures
        r == funct_of(instruction),
        r < 64,
{
    proof {
        lemma_field_ranges(instruction);
    }
    instruction & 0x00_00_00_3F
}

pub fn get_offset(instruction: u32) -> (r: u16)
    ensures
        r == imm_of(instruction),
{
    (instruction & 0x00_00_FF_FF) as u16
}

/// The 16-bit offset reinterpreted as a signed value and widened to the
/// 32-bit pattern of that value.
pub fn sign_extend_halfword(offset: u16) -> (r: u32)
    ensures
        r == sext16(offset),
{
    if offset < 0x8000 {
        offset as u32
    } else {
        (offset as u32) | 0xFFFF_0000
    }
}

/// Adds a signed 16-bit displacement to a 32-bit word, wrapping around.
pub fn add_signed_offset(word: u32, offset: u16) -> (r: u32)
    ensures
        r == wadd(word, sext16(offset)),
{
    word.wrapping_add(sign_extend_halfword(offset))
}

/// Adds `immediate << 16` to a 32-bit word, wrapping around.
pub fn add_to_upper_bits(word: u32, immediate: u16) -> (r: u32)
    ensures
        r == wadd(word, (immediate as u32) << 16),
{
    word.wrapping_add((immediate as u32) << 16)
}

/// The low `length` bits of `word` reinterpreted as a signed value of
/// that width and extended to 32 bits.
pub open spec fn spec_sign_extend(word: u32, length: u32) -> i32
    recommends
        0 < length < 32,
{
    ((word << ((32 - length) as u32)) as i32) >> ((32 - length) as u32)
}

pub fn sign_extend(word: u32, length: u8) -> (r: i32)
    requires
        0 < length < 32,
    ensures
        r == spec_sign_extend(word, length as u32),
{
    ((word << ((32 - length) as u32)) as i32) >> ((32 - length) as u32)
}

/// Sign extension leaves the low `length` bits unchanged and fills every
/// higher bit with bit `length - 1` of the input.
pub proof fn lemma_sign_extend_bits(word: u32, length: u32, i: u32)
    by (bit_vector)
    requires
        0 < length < 32,
        i < 32,
    ensures
        i < length ==> bit32(spec_sign_extend(word, length) as u32, i) == bit32(word, i),
        i >= length ==> bit32(spec_sign_extend(word, length) as u32, i) == bit32(
            word,
            (length - 1) as u32,
        ),
{
}

/// For a halfword the bit-level sign extension agrees with the value-level
/// description `sext16`.
pub proof fn lemma_sign_extend_16(x: u16)
    by (bit_vector)
    ensures
        spec_sign_extend(x as u32, 16) as u32 == sext16(x),
{
}

/// For a byte the bit-level sign extension agrees with the value-level
/// description `sext8`.
pub proof fn lemma_sign_extend_8(x: u8)
    by (bit_vector)
    ensures
        spec_sign_extend(x as u32, 8) as u32 == sext8(x),
{
}

} // verus!
