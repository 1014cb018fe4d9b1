use mipsemu::memory::{Endianness, Memory};

#[test]
fn test_fresh_memory_reads_zero() {
    let m = Memory::new(Endianness::BigEndian);
    assert_eq!(m.read_byte(0), 0);
    assert_eq!(m.read_byte(0xFFFF_FFFF), 0);
    assert_eq!(m.read_word(0x1234_5678), 0);
    assert_eq!(m.get_program_break(), 0);
}

#[test]
fn test_write_read_byte_both_endians() {
    for e in [Endianness::BigEndian, Endianness::LittleEndian] {
        let mut m = Memory::new(e);
        m.write_byte(0x2000, 0x1AB);
        // only the low byte of the value is stored
        assert_eq!(m.read_byte(0x2000), 0xAB);
    }
}

#[test]
fn test_write_read_halfword_both_endians() {
    for e in [Endianness::BigEndian, Endianness::LittleEndian] {
        let mut m = Memory::new(e);
        m.write_halfword(0x2001, 0x5_BEEF);
        assert_eq!(m.read_halfword(0x2001), 0xBEEF);
    }
    let mut m = Memory::new(Endianness::BigEndian);
    m.write_halfword(0x3000, 0x1234);
    assert_eq!(m.read_byte(0x3000), 0x12);
    assert_eq!(m.read_byte(0x3001), 0x34);
    let mut m = Memory::new(Endianness::LittleEndian);
    m.write_halfword(0x3000, 0x1234);
    assert_eq!(m.read_byte(0x3000), 0x34);
    assert_eq!(m.read_byte(0x3001), 0x12);
}

#[test]
fn test_write_read_word_both_endians() {
    for e in [Endianness::BigEndian, Endianness::LittleEndian] {
        let mut m = Memory::new(e);
        m.write_word(0x4002, 0xDEAD_BEEF);
        assert_eq!(m.read_word(0x4002), 0xDEAD_BEEF);
        assert_eq!(m.fetch_instruction(0x4002), 0xDEAD_BEEF);
    }
    let mut m = Memory::new(Endianness::BigEndian);
    m.write_word(0x5000, 0x0102_0304);
    assert_eq!(m.read_byte(0x5000), 1);
    assert_eq!(m.read_byte(0x5003), 4);
}

#[test]
fn test_swl_swr_pair_reconstructs_word_big_endian() {
    // an unaligned store pair over two adjacent words
    for eff in [0x1000u32, 0x1001, 0x1002, 0x1003] {
        let mut m = Memory::new(Endianness::BigEndian);
        m.write_word_unaligned_swl(eff, 0xCAFE_F00D);
        m.write_word_unaligned_swr(eff.wrapping_add(3), 0xCAFE_F00D);
        assert_eq!(m.read_word(eff), 0xCAFE_F00D, "eff={:#x}", eff);
    }
}

#[test]
fn test_swl_swr_pair_reconstructs_word_little_endian() {
    for eff in [0x1000u32, 0x1001, 0x1002, 0x1003] {
        let mut m = Memory::new(Endianness::LittleEndian);
        m.write_word_unaligned_swr(eff, 0xCAFE_F00D);
        m.write_word_unaligned_swl(eff.wrapping_add(3), 0xCAFE_F00D);
        assert_eq!(m.read_word(eff), 0xCAFE_F00D, "eff={:#x}", eff);
    }
}

#[test]
fn test_swl_partial_bytes() {
    // only the high bytes land, from the effective offset to the word end
    let mut m = Memory::new(Endianness::BigEndian);
    m.write_word(0x1000, 0x1111_1111);
    m.write_word_unaligned_swl(0x1001, 0xAABB_CCDD);
    assert_eq!(m.read_byte(0x1000), 0x11);
    assert_eq!(m.read_byte(0x1001), 0xAA);
    assert_eq!(m.read_byte(0x1002), 0xBB);
    assert_eq!(m.read_byte(0x1003), 0xCC);
}

#[test]
fn test_write_block_and_program_break() {
    let mut m = Memory::new(Endianness::BigEndian);
    m.write_block(0x8000, &[1, 2, 3]);
    assert_eq!(m.read_byte(0x8000), 1);
    assert_eq!(m.read_byte(0x8002), 3);
    assert_eq!(m.get_program_break(), 0);

    m.write_block_and_update_program_break(0x9000, &[7, 8]);
    assert_eq!(m.get_program_break(), 0x9002);
    // a later block below the break leaves it where it is
    m.write_block_and_update_program_break(0x100, &[9]);
    assert_eq!(m.get_program_break(), 0x9002);
    // the stack region never moves the break
    m.write_block_and_update_program_break(0x7FFF_0000, &[1]);
    assert_eq!(m.get_program_break(), 0x9002);
    m.update_program_break(0x500);
    assert_eq!(m.get_program_break(), 0x500);
}

#[test]
fn test_read_slice() {
    let mut m = Memory::new(Endianness::BigEndian);
    m.write_block(0x600, &[10, 20, 30, 40]);
    assert_eq!(m.read_slice(0x600, 4).as_slice(), &[10, 20, 30, 40]);
    assert_eq!(m.read_slice(0x601, 2).as_slice(), &[20, 30]);
}

#[test]
fn test_initialize_stack_layout() {
    let mut m = Memory::new(Endianness::BigEndian);
    let sp: u32 = 0x7FFF_FE50;
    let args = vec![b"prog".to_vec(), b"x".to_vec()];
    let envs = vec![(b"HOME".to_vec(), b"/tmp".to_vec())];
    let auxv = vec![(6u32, 4096u32), (17u32, 100u32)];
    m.initialize_stack_at(sp, &envs, &args, &auxv).unwrap();

    // argc
    assert_eq!(m.read_word(sp), 2);
    // the payload area starts past the count, both tables and the
    // forty reserved auxiliary words
    let data_start = sp + 4 + (43 + 2 + 1) * 4;
    // argv pointers and terminator
    let a0 = m.read_word(sp + 4);
    let a1 = m.read_word(sp + 8);
    assert_eq!(a0, data_start);
    assert_eq!(a1, data_start + 5);
    assert_eq!(m.read_word(sp + 12), 0);
    // envp pointer and terminator
    let e0 = m.read_word(sp + 16);
    assert_eq!(e0, data_start + 5 + 2);
    assert_eq!(m.read_word(sp + 20), 0);
    // auxiliary vector pairs and the terminating pair
    assert_eq!(m.read_word(sp + 24), 6);
    assert_eq!(m.read_word(sp + 28), 4096);
    assert_eq!(m.read_word(sp + 32), 17);
    assert_eq!(m.read_word(sp + 36), 100);
    assert_eq!(m.read_word(sp + 40), 0);
    assert_eq!(m.read_word(sp + 44), 0);
    // string payloads
    assert_eq!(m.read_slice(a0, 5).as_slice(), b"prog\0");
    assert_eq!(m.read_slice(a1, 2).as_slice(), b"x\0");
    assert_eq!(m.read_slice(e0, 10).as_slice(), b"HOME=/tmp\0");
}
