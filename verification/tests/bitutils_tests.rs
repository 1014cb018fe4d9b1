use mipsemu::bitutils::{
    add_signed_offset, add_to_upper_bits, get_funct, get_offset, get_opcode, get_rd, get_rs,
    get_rt, get_shift, sign_extend, sign_extend_halfword,
};

#[test]
fn test_apply_offset() {
    assert_eq!(add_signed_offset(0, 10), 10);
    assert_eq!(add_signed_offset(65535, 10), 65545);
    assert_eq!(add_signed_offset(65535, 65535), 65534);
    assert_eq!(add_signed_offset(0xFF_FF_FF_00, 0xFF), 0xFF_FF_FF_FF);
    assert_eq!(
        add_signed_offset(0xFF_FF_FF_FF, 0x80_00),
        0xFF_FF_FF_FF - (65535 / 2) - 1
    );
}

#[test]
fn test_sign_extend() {
    assert_eq!(sign_extend(0xFF, 8), -1);
    assert_eq!(sign_extend(0x00_FF_FF_FF, 24), -1);
}

#[test]
fn cpu_test_apply_offset() {
    assert_eq!(add_signed_offset(0, 10), 10);
    assert_eq!(add_signed_offset(65535, 10), 65545);
    assert_eq!(add_signed_offset(65535, 65535), 65534);
    assert_eq!(add_signed_offset(0xFF_FF_FF_00, 0xFF), 0xFF_FF_FF_FF);
    assert_eq!(
        add_signed_offset(0xFF_FF_FF_FF, 0x80_00),
        0xFF_FF_FF_FF - (65535 / 2) - 1
    );
}

#[test]
fn cpu_test_sign_extend() {
    assert_eq!(sign_extend(0xFF, 8), 0xFF_FF_FF_FFu32 as i32);
    assert_eq!(sign_extend(0x00_FF_FF_FF, 24), 0xFF_FF_FF_FFu32 as i32);
}

#[test]
fn test_add_to_upper_bits() {
    assert_eq!(add_to_upper_bits(0x0000_0000, 0x7F_FF), 0x7F_FF_00_00);
    assert_eq!(add_to_upper_bits(0x0001_0001, 0x0001), 0x0002_0001);
    assert_eq!(add_to_upper_bits(0x7FFF_0001, 0x0000), 0x7FFF_0001);
    assert_eq!(add_to_upper_bits(0x7FFF_0001, 0xFFFF), 0x7FFE_0001);
}

#[test]
fn test_field_extraction() {
    // addu r10, r8, r9 encodes as rs=8, rt=9, rd=10, funct 0x21
    let w: u32 = (8 << 21) | (9 << 16) | (10 << 11) | 0x21;
    assert_eq!(get_opcode(w), 0);
    assert_eq!(get_rs(w), 8);
    assert_eq!(get_rt(w), 9);
    assert_eq!(get_rd(w), 10);
    assert_eq!(get_shift(w), 0);
    assert_eq!(get_funct(w), 0x21);
    assert_eq!(get_offset(0x1234_ABCD), 0xABCD);
}

#[test]
fn test_sign_extension_upper_bits() {
    // the upper 32-k bits replicate bit k-1 of the input
    for &k in &[8u8, 16, 24] {
        let set: u32 = 1 << (k - 1);
        let r = sign_extend(set, k) as u32;
        assert_eq!(r >> k, 0xFFFF_FFFFu32 >> k, "k={}", k);
        let clear: u32 = set - 1;
        let r2 = sign_extend(clear, k) as u32;
        assert_eq!(r2 >> k, 0, "k={}", k);
    }
}

#[test]
fn test_sign_extend_halfword_values() {
    assert_eq!(sign_extend_halfword(0x7FFF), 0x7FFF);
    assert_eq!(sign_extend_halfword(0x8000), 0xFFFF_8000);
    assert_eq!(sign_extend_halfword(0), 0);
}
