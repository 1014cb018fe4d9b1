//! The flat 4 GiB guest RAM: byte-addressed, endian-aware halfword and
//! word access, the unaligned SWL/SWR store variants, bulk block writes,
//! and the program-break cursor.
//!
//! Allocating the full 4 GiB up front relies on the host kernel handing
//! out zeroed pages lazily, so the allocation itself costs neither time
//! nor resident memory.

use vstd::prelude::*;

verus! {

/// The number of pages, and the number of bytes in each: the guest
/// address splits into a page index (high half) and an offset (low
/// half).
pub const PAGE_COUNT: usize = 0x1_0000;

pub const PAGE_SIZE: usize = 0x1_0000;

/// The byte at absolute offset `i` of the paged store: an empty entry
/// stands for a page of zeroes that was never touched.
pub open spec fn page_byte(pages: Seq<Vec<u8>>, i: int) -> u8 {
    let p = pages[i / 0x1_0000];
    if p@.len() == 0 {
        0u8
    } else {
        p@[i % 0x1_0000]
    }
}

/// A fresh zeroed page.
fn new_page() -> (v: Vec<u8>)
    ensures
        v@.len() == 0x1_0000,
        forall|i: int| 0 <= i < v@.len() ==> v@[i] == 0u8,
{
    vec![0u8; PAGE_SIZE]
}

/// Addresses at or above this ceiling never move the program break when
/// blocks are loaded, which keeps the stack region out of the data
/// segment during image load.
pub const PROGRAM_BREAK_CEILING: u32 = 0x7000_0000;

#[derive(Clone, Copy, PartialEq, Eq, Structural, Debug)]
pub enum Endianness {
    LittleEndian,
    BigEndian,
}

pub struct Memory {
    endianness: Endianness,
    program_break: u32,
    pages: Vec<Vec<u8>>,
}

/// Byte `sh/8` of the word `v`, counting from the least significant end.
pub open spec fn wbyte(v: u32, sh: u32) -> u8 {
    (v >> sh) as u8
}

/// A shift by zero returns the word unchanged.
pub proof fn lemma_shr_zero(v: u32)
    by (bit_vector)
    ensures
        v >> 0 == v,
{
}

/// The halfword stored at byte offset `a` of `s` under endianness `e`.
pub open spec fn half_at(s: Seq<u8>, e: Endianness, a: int) -> u32 {
    match e {
        Endianness::BigEndian => ((s[a] as u32) << 8) | (s[a + 1] as u32),
        Endianness::LittleEndian => ((s[a + 1] as u32) << 8) | (s[a] as u32),
    }
}

/// The word stored at byte offset `a` of `s` under endianness `e`.
pub open spec fn word_at(s: Seq<u8>, e: Endianness, a: int) -> u32 {
    match e {
        Endianness::BigEndian => ((s[a] as u32) << 24) | ((s[a + 1] as u32) << 16) | ((s[a + 2]
            as u32) << 8) | (s[a + 3] as u32),
        Endianness::LittleEndian => ((s[a + 3] as u32) << 24) | ((s[a + 2] as u32) << 16) | ((s[a
            + 1] as u32) << 8) | (s[a] as u32),
    }
}

/// `s` after a halfword store of `v` at offset `a` under endianness `e`.
pub open spec fn half_seq(s: Seq<u8>, e: Endianness, a: int, v: u32) -> Seq<u8> {
    match e {
        Endianness::BigEndian => s.update(a, wbyte(v, 8)).update(a + 1, wbyte(v, 0)),
        Endianness::LittleEndian => s.update(a, wbyte(v, 0)).update(a + 1, wbyte(v, 8)),
    }
}

/// `s` after a word store of `v` at offset `a` under endianness `e`.
pub open spec fn word_seq(s: Seq<u8>, e: Endianness, a: int, v: u32) -> Seq<u8> {
    match e {
        Endianness::BigEndian => s.update(a, wbyte(v, 24)).update(a + 1, wbyte(v, 16)).update(
            a + 2,
            wbyte(v, 8),
        ).update(a + 3, wbyte(v, 0)),
        Endianness::LittleEndian => s.update(a, wbyte(v, 0)).update(a + 1, wbyte(v, 8)).update(
            a + 2,
            wbyte(v, 16),
        ).update(a + 3, wbyte(v, 24)),
    }
}

/// `s` after the partial store that SWL performs for effective address
/// `eff`: with `k = eff % 4`, the high `4 - k` register bytes land at
/// offsets `k..4` of the aligned word (mirrored under little-endian).
pub open spec fn swl_seq(s: Seq<u8>, e: Endianness, eff: int, v: u32) -> Seq<u8> {
    let k = eff % 4;
    let a = eff - k;
    match e {
        Endianness::BigEndian => {
            if k == 0 {
                word_seq(s, e, a, v)
            } else if k == 1 {
                s.update(a + 1, wbyte(v, 24)).update(a + 2, wbyte(v, 16)).update(a + 3, wbyte(v, 8))
            } else if k == 2 {
                s.update(a + 2, wbyte(v, 24)).update(a + 3, wbyte(v, 16))
            } else {
                s.update(a + 3, wbyte(v, 24))
            }
        },
        Endianness::LittleEndian => {
            if k == 0 {
                s.update(a, wbyte(v, 24))
            } else if k == 1 {
                s.update(a, wbyte(v, 16)).update(a + 1, wbyte(v, 24))
            } else if k == 2 {
                s.update(a, wbyte(v, 8)).update(a + 1, wbyte(v, 16)).update(a + 2, wbyte(v, 24))
            } else {
                word_seq(s, e, a, v)
            }
        },
    }
}

/// `s` after the partial store that SWR performs for effective address
/// `eff`: with `k = eff % 4`, the low `k + 1` register bytes land at
/// offsets `0..=k` of the aligned word (mirrored under little-endian).
pub open spec fn swr_seq(s: Seq<u8>, e: Endianness, eff: int, v: u32) -> Seq<u8> {
    let k = eff % 4;
    let a = eff - k;
    match e {
        Endianness::BigEndian => {
            if k == 0 {
                s.update(a, wbyte(v, 0))
            } else if k == 1 {
                s.update(a, wbyte(v, 8)).update(a + 1, wbyte(v, 0))
            } else if k == 2 {
                s.update(a, wbyte(v, 16)).update(a + 1, wbyte(v, 8)).update(a + 2, wbyte(v, 0))
            } else {
                word_seq(s, e, a, v)
            }
        },
        Endianness::LittleEndian => {
            if k == 0 {
                word_seq(s, e, a, v)
            } else if k == 1 {
                s.update(a + 1, wbyte(v, 0)).update(a + 2, wbyte(v, 8)).update(a + 3, wbyte(v, 16))
            } else if k == 2 {
                s.update(a + 2, wbyte(v, 0)).update(a + 3, wbyte(v, 8))
            } else {
                s.update(a + 3, wbyte(v, 0))
            }
        },
    }
}

impl View for Memory {
    type V = Seq<u8>;

    closed spec fn view(&self) -> Seq<u8> {
        Seq::new(0x1_0000_0000, |i: int| page_byte(self.pages@, i))
    }
}

impl Memory {
    pub closed spec fn spec_endianness(&self) -> Endianness {
        self.endianness
    }

    pub closed spec fn spec_break(&self) -> u32 {
        self.program_break
    }

    /// Every page entry is either untouched (empty) or a full page.
    pub closed spec fn pages_ok(&self) -> bool {
        self.pages@.len() == 0x1_0000 && forall|k: int|
            0 <= k < 0x1_0000 ==> (#[trigger] self.pages@[k])@.len() == 0 || self.pages@[k]@.len()
                == 0x1_0000
    }

    /// The whole 32-bit address space is backed by a byte.
    pub open spec fn wf(&self) -> bool {
        self@.len() == 0x1_0000_0000 && self.pages_ok()
    }

    pub fn endianness(&self) -> (e: Endianness)
        ensures
            e == self.spec_endianness(),
    {
        self.endianness
    }

    pub fn new(endianness: Endianness) -> (m: Memory)
        ensures
            m.wf(),
            m.spec_endianness() == endianness,
            m.spec_break() == 0u32,
            forall|i: int| 0 <= i < 0x1_0000_0000 ==> m@[i] == 0u8,
    {
        let mut pages: Vec<Vec<u8>> = Vec::new();
        let mut k: usize = 0;
        while k < PAGE_COUNT
            invariant
                0 <= k <= PAGE_COUNT,
                pages@.len() == k,
                forall|j: int| 0 <= j < k ==> (#[trigger] pages@[j])@.len() == 0,
            decreases PAGE_COUNT - k,
        {
            pages.push(Vec::new());
            k = k + 1;
        }
        Memory { endianness, pages, program_break: 0 }
    }

    pub fn read_byte(&self, address: u32) -> (r: u32)
        requires
            self.wf(),
        ensures
            r == self@[address as int] as u32,
            r < 0x100,
    {
        let p = (address / 0x1_0000) as usize;
        let off = (address % 0x1_0000) as usize;
        if self.pages[p].len() == 0 {
            0
        } else {
            self.pages[p][off] as u32
        }
    }

    pub fn write_byte(&mut self, address: u32, value: u32)
        requires
            old(self).wf(),
        ensures
            final(self).wf(),
            final(self)@ == old(self)@.update(address as int, value as u8),
            final(self).spec_endianness() == old(self).spec_endianness(),
            final(self).spec_break() == old(self).spec_break(),
    {
        let p = (address / 0x1_0000) as usize;
        let off = (address % 0x1_0000) as usize;
        if self.pages[p].len() == 0 {
            let fresh = new_page();
            self.pages[p] = fresh;
        }
        let page = &mut self.pages[p];
        page[off] = value as u8;
        proof {
            assert forall|j: int| 0 <= j < 0x1_0000_0000 implies #[trigger] self@[j] == old(
                self,
            )@.update(address as int, value as u8)[j] by {
                assert(j == 0x1_0000 * (j / 0x1_0000) + (j % 0x1_0000));
                assert(address as int == 0x1_0000 * (address as int / 0x1_0000) + (address as int
                    % 0x1_0000));
            }
            assert(self@ =~= old(self)@.update(address as int, value as u8));
        }
    }

    pub fn read_halfword(&self, address: u32) -> (r: u32)
        requires
            self.wf(),
            address as int + 2 <= 0x1_0000_0000,
        ensures
            r == half_at(self@, self.spec_endianness(), address as int),
    {
        let b0 = self.read_byte(address);
        let b1 = self.read_byte(address + 1);
        match self.endianness {
            Endianness::BigEndian => (b0 << 8) | b1,
            Endianness::LittleEndian => (b1 << 8) | b0,
        }
    }

    pub fn read_word(&self, address: u32) -> (r: u32)
        requires
            self.wf(),
            address as int + 4 <= 0x1_0000_0000,
        ensures
            r == word_at(self@, self.spec_endianness(), address as int),
    {
        let b0 = self.read_byte(address);
        let b1 = self.read_byte(address + 1);
        let b2 = self.read_byte(address + 2);
        let b3 = self.read_byte(address + 3);
        match self.endianness {
            Endianness::BigEndian => (b0 << 24) | (b1 << 16) | (b2 << 8) | b3,
            Endianness::LittleEndian => (b3 << 24) | (b2 << 16) | (b1 << 8) | b0,
        }
    }

    /// Copies `len` bytes out of guest memory.
    pub fn read_slice(&self, address: u32, len: u32) -> (r: Vec<u8>)
        requires
            self.wf(),
            address as int + len as int <= 0x1_0000_0000,
        ensures
            r@ == self@.subrange(address as int, address as int + len as int),
    {
        let mut r: Vec<u8> = Vec::new();
        let mut i: u32 = 0;
        while i < len
            invariant
                self.wf(),
                0 <= i <= len,
                address as int + len as int <= 0x1_0000_0000,
                r@.len() == i,
                forall|j: int| 0 <= j < i ==> r@[j] == self@[address as int + j],
            decreases len - i,
        {
            let b = self.read_byte(address + i);
            r.push(b as u8);
            i = i + 1;
        }
        proof {
            assert(r@ =~= self@.subrange(address as int, address as int + len as int));
        }
        r
    }

    /// Instruction words are stored in the configured endianness, so a
    /// fetch is exactly a word read.
    pub fn fetch_instruction(&self, address: u32) -> (r: u32)
        requires
            self.wf(),
            address as int + 4 <= 0x1_0000_0000,
        ensures
            r == word_at(self@, self.spec_endianness(), address as int),
    {
        self.read_word(address)
    }

    pub fn write_halfword(&mut self, address: u32, value: u32)
        requires
            old(self).wf(),
            address as int + 2 <= 0x1_0000_0000,
        ensures
            final(self).wf(),
            final(self)@ == half_seq(old(self)@, old(self).spec_endianness(), address as int, value),
            half_at(final(self)@, final(self).spec_endianness(), address as int) == value & 0xFFFF,
            final(self).spec_endianness() == old(self).spec_endianness(),
            final(self).spec_break() == old(self).spec_break(),
    {
        match self.endianness {
            Endianness::BigEndian => {
                self.write_byte(address + 1, value);
                self.write_byte(address, value >> 8);
            },
            Endianness::LittleEndian => {
                self.write_byte(address, value);
                self.write_byte(address + 1, value >> 8);
            },
        }
        proof {
            let e = self.spec_endianness();
            let a = address as int;
            lemma_shr_zero(value);
            assert(half_seq(old(self)@, e, a, value) =~= self@);
            assert(((value >> 8) as u8 as u32) << 8 | (value as u8 as u32) == value & 0xFFFF)
                by (bit_vector);
        }
    }

    pub fn write_word(&mut self, address: u32, value: u32)
        requires
            old(self).wf(),
            address as int + 4 <= 0x1_0000_0000,
        ensures
            final(self).wf(),
            final(self)@ == word_seq(old(self)@, old(self).spec_endianness(), address as int, value),
            word_at(final(self)@, final(self).spec_endianness(), address as int) == value,
            final(self).spec_endianness() == old(self).spec_endianness(),
            final(self).spec_break() == old(self).spec_break(),
    {
        match self.endianness {
            Endianness::BigEndian => {
                self.write_byte(address + 3, value);
                self.write_byte(address + 2, value >> 8);
                self.write_byte(address + 1, value >> 16);
                self.write_byte(address, value >> 24);
            },
            Endianness::LittleEndian => {
                self.write_byte(address, value);
                self.write_byte(address + 1, value >> 8);
                self.write_byte(address + 2, value >> 16);
                self.write_byte(address + 3, value >> 24);
            },
        }
        proof {
            let e = self.spec_endianness();
            let a = address as int;
            lemma_shr_zero(value);
            assert(word_seq(old(self)@, e, a, value) =~= self@);
            assert(((value >> 24) as u8 as u32) << 24 | ((value >> 16) as u8 as u32) << 16 | ((value
                >> 8) as u8 as u32) << 8 | (value as u8 as u32) == value) by (bit_vector);
        }
    }

    /// SWL: store the most significant part of `value` into the aligned
    /// word that `eff_address` falls in, starting at its offset.
    pub fn write_word_unaligned_swl(&mut self, eff_address: u32, value: u32)
        requires
            old(self).wf(),
        ensures
            final(self).wf(),
            final(self)@ == swl_seq(
                old(self)@,
                old(self).spec_endianness(),
                eff_address as int,
                value,
            ),
            final(self).spec_endianness() == old(self).spec_endianness(),
            final(self).spec_break() == old(self).spec_break(),
    {
        let vaddr = eff_address % 4;
        let addr = eff_address - vaddr;
        match self.endianness {
            Endianness::BigEndian => {
                if vaddr == 0 {
                    self.write_byte(addr + 3, value);
                    self.write_byte(addr + 2, value >> 8);
                    self.write_byte(addr + 1, value >> 16);
                    self.write_byte(addr, value >> 24);
                } else if vaddr == 1 {
                    self.write_byte(addr + 3, value >> 8);
                    self.write_byte(addr + 2, value >> 16);
                    self.write_byte(addr + 1, value >> 24);
                } else if vaddr == 2 {
                    self.write_byte(addr + 3, value >> 16);
                    self.write_byte(addr + 2, value >> 24);
                } else {
                    self.write_byte(addr + 3, value >> 24);
                }
            },
            Endianness::LittleEndian => {
                if vaddr == 0 {
                    self.write_byte(addr, value >> 24);
                } else if vaddr == 1 {
                    self.write_byte(addr, value >> 16);
                    self.write_byte(addr + 1, value >> 24);
                } else if vaddr == 2 {
                    self.write_byte(addr, value >> 8);
                    self.write_byte(addr + 1, value >> 16);
                    self.write_byte(addr + 2, value >> 24);
                } else {
                    self.write_byte(addr, value);
                    self.write_byte(addr + 1, value >> 8);
                    self.write_byte(addr + 2, value >> 16);
                    self.write_byte(addr + 3, value >> 24);
                }
            },
        }
        proof {
            lemma_shr_zero(value);
            let eff = eff_address as int;
            let k = eff % 4;
            assert(vaddr as int == k);
            assert(addr as int == eff - k);
            assert(addr as int + 4 <= 0x1_0000_0000);
            assert(swl_seq(old(self)@, self.spec_endianness(), eff_address as int, value)
                =~= self@);
        }
    }

    /// SWR: store the least significant part of `value` into the aligned
    /// word that `eff_address` falls in, ending at its offset.
    pub fn write_word_unaligned_swr(&mut self, eff_address: u32, value: u32)
        requires
            old(self).wf(),
        ensures
            final(self).wf(),
            final(self)@ == swr_seq(
                old(self)@,
                old(self).spec_endianness(),
                eff_address as int,
                value,
            ),
            final(self).spec_endianness() == old(self).spec_endianness(),
            final(self).spec_break() == old(self).spec_break(),
    {
        let vaddr = eff_address % 4;
        let address = eff_address - vaddr;
        match self.endianness {
            Endianness::BigEndian => {
                if vaddr == 0 {
                    self.write_byte(address, value);
                } else if vaddr == 1 {
                    self.write_byte(address, value >> 8);
                    self.write_byte(address + 1, value);
                } else if vaddr == 2 {
                    self.write_byte(address, value >> 16);
                    self.write_byte(address + 1, value >> 8);
                    self.write_byte(address + 2, value);
                } else {
                    self.write_byte(address, value >> 24);
                    self.write_byte(address + 1, value >> 16);
                    self.write_byte(address + 2, value >> 8);
                    self.write_byte(address + 3, value);
                }
            },
            Endianness::LittleEndian => {
                if vaddr == 0 {
                    self.write_byte(address, value);
                    self.write_byte(address + 1, value >> 8);
                    self.write_byte(address + 2, value >> 16);
                    self.write_byte(address + 3, value >> 24);
                } else if vaddr == 1 {
                    self.write_byte(address + 1, value);
                    self.write_byte(address + 2, value >> 8);
                    self.write_byte(address + 3, value >> 16);
                } else if vaddr == 2 {
                    self.write_byte(address + 2, value);
                    self.write_byte(address + 3, value >> 8);
                } else {
                    self.write_byte(address + 3, value);
                }
            },
        }
        proof {
            lemma_shr_zero(value);
            let eff = eff_address as int;
            let k = eff % 4;
            assert(vaddr as int == k);
            assert(address as int == eff - k);
            assert(address as int + 4 <= 0x1_0000_0000);
            assert(swr_seq(old(self)@, self.spec_endianness(), eff_address as int, value)
                =~= self@);
        }
    }

    pub fn write_block(&mut self, address: u32, data: &[u8])
        requires
            old(self).wf(),
            address as int + data@.len() <= 0x1_0000_0000,
        ensures
            final(self).wf(),
            final(self)@.len() == old(self)@.len(),
            forall|i: int|
                address as int <= i < address as int + data@.len() ==> final(self)@[i] == data@[i
                    - address as int],
            forall|i: int|
                0 <= i < 0x1_0000_0000 && !(address as int <= i < address as int + data@.len())
                    ==> final(self)@[i] == old(self)@[i],
            final(self).spec_endianness() == old(self).spec_endianness(),
            final(self).spec_break() == old(self).spec_break(),
    {
        let len: usize = data.len();
        let mut i: usize = 0;
        while i < len
            invariant
                self.wf(),
                len == data@.len(),
                i <= len,
                address as int + len <= 0x1_0000_0000,
                forall|j: int|
                    address as int <= j < address as int + i ==> self@[j] == data@[j
                        - address as int],
                forall|j: int|
                    0 <= j < 0x1_0000_0000 && !(address as int <= j < address as int + i)
                        ==> self@[j] == old(self)@[j],
                self.spec_endianness() == old(self).spec_endianness(),
                self.spec_break() == old(self).spec_break(),
            decreases len - i,
        {
            let b = data[i];
            self.write_byte(address + (i as u32), b as u32);
            i = i + 1;
        }
    }

    /// Bulk copy that also raises the program break to the end of the
    /// written block, when that end lies below the break ceiling.
    pub fn write_block_and_update_program_break(&mut self, address: u32, data: &[u8])
        requires
            old(self).wf(),
            address as int + data@.len() <= 0x1_0000_0000,
        ensures
            final(self).wf(),
            final(self)@.len() == old(self)@.len(),
            forall|i: int|
                address as int <= i < address as int + data@.len() ==> final(self)@[i] == data@[i
                    - address as int],
            forall|i: int|
                0 <= i < 0x1_0000_0000 && !(address as int <= i < address as int + data@.len())
                    ==> final(self)@[i] == old(self)@[i],
            final(self).spec_endianness() == old(self).spec_endianness(),
            final(self).spec_break() == if data@.len() > 0 && address as int + data@.len()
                < PROGRAM_BREAK_CEILING && address as int + data@.len() > old(self).spec_break() {
                (address as int + data@.len()) as u32
            } else {
                old(self).spec_break()
            },
    {
        if data.len() == 0 {
            return ;
        }
        let end: u64 = address as u64 + data.len() as u64;
        if end < PROGRAM_BREAK_CEILING as u64 {
            if end > self.program_break as u64 {
                self.program_break = end as u32;
            }
        }
        self.write_block(address, data);
    }

    pub fn get_program_break(&self) -> (r: u32)
        ensures
            r == self.spec_break(),
    {
        self.program_break
    }

    /// Builds the standard initial stack at `address`: the argument
    /// count, the argv pointer table with its zero terminator, the envp
    /// pointer table with its zero terminator, the auxiliary vector as
    /// key and value pairs with a terminating zero pair, and the string
    /// payloads at a data cursor past the forty words reserved for the
    /// auxiliary vector. The auxiliary entries are supplied by the
    /// caller, which typically filters the host's own vector.
    #[verifier::loop_isolation(false)]
    #[verifier::rlimit(60)]
    pub fn initialize_stack_at(
        &mut self,
        address: u32,
        environment_variables: &Vec<(Vec<u8>, Vec<u8>)>,
        arguments: &Vec<Vec<u8>>,
        auxv: &Vec<(u32, u32)>,
    ) -> (r: Result<(), crate::event::CpuError>)
        requires
            old(self).wf(),
            address % 8 == 0,
            arguments@.len() < 0x10000,
            environment_variables@.len() < 0x10000,
            auxv@.len() <= 19,
        ensures
            final(self).wf(),
            final(self).spec_endianness() == old(self).spec_endianness(),
            final(self).spec_break() == old(self).spec_break(),
            ({
                let args = views_of(*arguments);
                let envs = env_views_of(*environment_variables);
                let ds = stack_data_start(address, args.len() as int, envs.len() as int);
                let blob = args_blob_from(args, 0) + envs_blob_from(envs, 0);
                if ds + args_size_from(args, 0) + envs_size_from(envs, 0) <= 0x1_0000_0000 {
                    &&& r == Ok::<(), crate::event::CpuError>(())
                    &&& final(self)@ == bytes_written(
                        words_written(
                            old(self)@,
                            old(self).spec_endianness(),
                            address as int,
                            stack_table_words(args, envs, auxv@, ds),
                        ),
                        ds,
                        blob,
                    )
                } else {
                    &&& r == Err::<(), crate::event::CpuError>(
                        crate::event::CpuError::AddressOverflow(address),
                    )
                    &&& final(self)@ == old(self)@
                }
            }),
    {
        let ghost args = views_of(*arguments);
        let ghost envs = env_views_of(*environment_variables);
        let nargs = arguments.len();
        let nenv = environment_variables.len();
        let ds64: u64 = address as u64 + 4 + (43 + nargs as u64 + nenv as u64) * 4;
        let ghost ds = stack_data_start(address, nargs as int, nenv as int);

        // measure the payloads, rejecting anything that cannot fit
        proof {
            lemma_args_size_nonneg(args, 0);
            lemma_envs_size_nonneg(envs, 0);
        }
        if ds64 > 0x1_0000_0000u64 {
            return Err(crate::event::CpuError::AddressOverflow(address));
        }
        let mut total: u64 = ds64;
        let mut i: usize = 0;
        while i < nargs
            invariant
                nargs == args.len(),
                0 <= i <= nargs,
                forall|j: int| 0 <= j < args.len() ==> args[j] == arguments@[j]@,
                total == ds + args_size_from(args, 0) - args_size_from(args, i as int),
                total <= 0x1_0000_0000,
            decreases nargs - i,
        {
            proof {
                lemma_args_size_nonneg(args, i as int);
                lemma_args_size_nonneg(args, i + 1);
            }
            if arguments[i].len() as u64 >= 0x1_0000_0000u64 || total + (arguments[i].len() as u64)
                + 1 > 0x1_0000_0000u64 {
                proof {
                    lemma_args_size_nonneg(args, i + 1);
                    lemma_envs_size_nonneg(envs, 0);
                }
                return Err(crate::event::CpuError::AddressOverflow(address));
            }
            total = total + (arguments[i].len() as u64) + 1;
            i = i + 1;
        }
        let mut j: usize = 0;
        while j < nenv
            invariant
                nenv == envs.len(),
                0 <= j <= nenv,
                forall|k: int|
                    0 <= k < envs.len() ==> envs[k] == (
                        environment_variables@[k].0@,
                        environment_variables@[k].1@,
                    ),
                total == ds + args_size_from(args, 0) + envs_size_from(envs, 0) - envs_size_from(
                    envs,
                    j as int,
                ),
                total <= 0x1_0000_0000,
            decreases nenv - j,
        {
            proof {
                lemma_envs_size_nonneg(envs, j as int);
                lemma_envs_size_nonneg(envs, j + 1);
            }
            let (name, value) = &environment_variables[j];
            if name.len() as u64 >= 0x1_0000_0000u64 || value.len() as u64 >= 0x1_0000_0000u64
                || total + (name.len() as u64) + (value.len() as u64) + 2 > 0x1_0000_0000u64 {
                proof {
                    lemma_envs_size_nonneg(envs, j + 1);
                }
                return Err(crate::event::CpuError::AddressOverflow(address));
            }
            total = total + (name.len() as u64) + (value.len() as u64) + 2;
            j = j + 1;
        }

        // the pointer table
        let mut table: Vec<u32> = Vec::new();
        table.push(nargs as u32);
        let mut cursor: u64 = ds64;
        let mut i: usize = 0;
        proof {
            assert(table@ =~= seq![nargs as u32]);
        }
        while i < nargs
            invariant
                nargs == args.len(),
                0 <= i <= nargs,
                forall|j: int| 0 <= j < args.len() ==> args[j] == arguments@[j]@,
                cursor == ds + args_size_from(args, 0) - args_size_from(args, i as int),
                cursor <= 0x1_0000_0000,
                ds + args_size_from(args, 0) + envs_size_from(envs, 0) <= 0x1_0000_0000,
                seq![nargs as u32] + arg_ptr_words_from(args, 0, ds) == table@
                    + arg_ptr_words_from(args, i as int, cursor as int),
            decreases nargs - i,
        {
            proof {
                lemma_args_size_nonneg(args, i + 1);
                lemma_envs_size_nonneg(envs, 0);
            }
            table.push(cursor as u32);
            cursor = cursor + (arguments[i].len() as u64) + 1;
            i = i + 1;
        }
        table.push(0);
        let mut j: usize = 0;
        while j < nenv
            invariant
                nenv == envs.len(),
                0 <= j <= nenv,
                forall|k: int|
                    0 <= k < envs.len() ==> envs[k] == (
                        environment_variables@[k].0@,
                        environment_variables@[k].1@,
                    ),
                cursor == ds + args_size_from(args, 0) + envs_size_from(envs, 0) - envs_size_from(
                    envs,
                    j as int,
                ),
                cursor <= 0x1_0000_0000,
                seq![nargs as u32] + arg_ptr_words_from(args, 0, ds) + seq![0u32]
                    + env_ptr_words_from(envs, 0, ds + args_size_from(args, 0)) == table@
                    + env_ptr_words_from(envs, j as int, cursor as int),
            decreases nenv - j,
        {
            proof {
                lemma_envs_size_nonneg(envs, j + 1);
            }
            table.push(cursor as u32);
            let (name, value) = &environment_variables[j];
            cursor = cursor + (name.len() as u64) + (value.len() as u64) + 2;
            j = j + 1;
        }
        table.push(0);
        let nauxv = auxv.len();
        let mut k: usize = 0;
        while k < nauxv
            invariant
                nauxv == auxv@.len(),
                0 <= k <= nauxv,
                seq![nargs as u32] + arg_ptr_words_from(args, 0, ds) + seq![0u32]
                    + env_ptr_words_from(envs, 0, ds + args_size_from(args, 0)) + seq![0u32]
                    + auxv_words_from(auxv@, 0) == table@ + auxv_words_from(auxv@, k as int),
            decreases nauxv - k,
        {
            let (key, val) = auxv[k];
            table.push(key);
            table.push(val);
            k = k + 1;
        }
        table.push(0);
        table.push(0);
        proof {
            assert(table@ =~= stack_table_words(args, envs, auxv@, ds));
        }

        // the string payloads
        let mut blob: Vec<u8> = Vec::new();
        let mut i: usize = 0;
        while i < nargs
            invariant
                nargs == args.len(),
                0 <= i <= nargs,
                forall|j: int| 0 <= j < args.len() ==> args[j] == arguments@[j]@,
                args_blob_from(args, 0) == blob@ + args_blob_from(args, i as int),
            decreases nargs - i,
        {
            let arg = &arguments[i];
            let alen = arg.len();
            let mut b: usize = 0;
            while b < alen
                invariant
                    0 <= b <= alen,
                    alen == arg@.len(),
                    0 <= i < args.len(),
                    args[i as int] == arg@,
                    args_blob_from(args, 0) == blob@ + arg@.skip(b as int) + seq![0u8]
                        + args_blob_from(args, i + 1),
                decreases alen - b,
            {
                blob.push(arg[b]);
                proof {
                    assert(arg@.skip(b as int) =~= seq![arg@[b as int]] + arg@.skip(b + 1));
                }
                b = b + 1;
            }
            blob.push(0);
            proof {
                assert(arg@.skip(alen as int) =~= Seq::<u8>::empty());
            }
            i = i + 1;
        }
        let mut j: usize = 0;
        while j < nenv
            invariant
                nenv == envs.len(),
                0 <= j <= nenv,
                forall|k: int|
                    0 <= k < envs.len() ==> envs[k] == (
                        environment_variables@[k].0@,
                        environment_variables@[k].1@,
                    ),
                args_blob_from(args, 0) + envs_blob_from(envs, 0) == blob@ + envs_blob_from(
                    envs,
                    j as int,
                ),
            decreases nenv - j,
        {
            let (name, value) = &environment_variables[j];
            let nlen = name.len();
            let mut b: usize = 0;
            while b < nlen
                invariant
                    0 <= b <= nlen,
                    nlen == name@.len(),
                    0 <= j < envs.len(),
                    envs[j as int] == (name@, value@),
                    args_blob_from(args, 0) + envs_blob_from(envs, 0) == blob@ + name@.skip(
                        b as int,
                    ) + seq![0x3Du8] + value@ + seq![0u8] + envs_blob_from(envs, j + 1),
                decreases nlen - b,
            {
                blob.push(name[b]);
                proof {
                    assert(name@.skip(b as int) =~= seq![name@[b as int]] + name@.skip(b + 1));
                }
                b = b + 1;
            }
            proof {
                assert(name@.skip(nlen as int) =~= Seq::<u8>::empty());
            }
            blob.push(0x3D);
            let vlen = value.len();
            let mut b: usize = 0;
            while b < vlen
                invariant
                    0 <= b <= vlen,
                    vlen == value@.len(),
                    0 <= j < envs.len(),
                    envs[j as int] == (name@, value@),
                    args_blob_from(args, 0) + envs_blob_from(envs, 0) == blob@ + value@.skip(
                        b as int,
                    ) + seq![0u8] + envs_blob_from(envs, j + 1),
                decreases vlen - b,
            {
                blob.push(value[b]);
                proof {
                    assert(value@.skip(b as int) =~= seq![value@[b as int]] + value@.skip(b + 1));
                }
                b = b + 1;
            }
            proof {
                assert(value@.skip(vlen as int) =~= Seq::<u8>::empty());
            }
            blob.push(0);
            j = j + 1;
        }
        proof {
            lemma_args_blob_len(args, 0);
            lemma_envs_blob_len(envs, 0);
            lemma_arg_ptr_words_len(args, 0, ds);
            lemma_env_ptr_words_len(envs, 0, ds + args_size_from(args, 0));
            lemma_auxv_words_len(auxv@, 0);
            assert(blob@ =~= args_blob_from(args, 0) + envs_blob_from(envs, 0));
            assert(blob@.len() == args_size_from(args, 0) + envs_size_from(envs, 0));
        }

        // splice the table and payloads into memory
        write_words(self, address, &table);
        let ghost after_table = self@;
        self.write_block(ds64 as u32, blob.as_slice());
        proof {
            assert(self@ =~= bytes_written(after_table, ds, blob@));
        }
        Ok(())
    }

    pub fn update_program_break(&mut self, new_value: u32)
        ensures
            final(self).wf() == old(self).wf(),
            final(self)@ == old(self)@,
            final(self).spec_endianness() == old(self).spec_endianness(),
            final(self).spec_break() == new_value,
    {
        self.program_break = new_value;
    }
}

/// The argument payload sizes are never negative.
proof fn lemma_args_size_nonneg(args: Seq<Seq<u8>>, i: int)
    requires
        0 <= i <= args.len(),
    ensures
        args_size_from(args, i) >= 0,
    decreases args.len() - i,
{
    if i < args.len() {
        lemma_args_size_nonneg(args, i + 1);
    }
}

/// The environment payload sizes are never negative.
proof fn lemma_envs_size_nonneg(envs: Seq<(Seq<u8>, Seq<u8>)>, i: int)
    requires
        0 <= i <= envs.len(),
    ensures
        envs_size_from(envs, i) >= 0,
    decreases envs.len() - i,
{
    if i < envs.len() {
        lemma_envs_size_nonneg(envs, i + 1);
    }
}

/// The views of a vector of byte strings.
pub open spec fn views_of(v: Vec<Vec<u8>>) -> Seq<Seq<u8>> {
    v@.map_values(|x: Vec<u8>| x@)
}

/// The views of a vector of name and value byte-string pairs.
pub open spec fn env_views_of(v: Vec<(Vec<u8>, Vec<u8>)>) -> Seq<(Seq<u8>, Seq<u8>)> {
    v@.map_values(|x: (Vec<u8>, Vec<u8>)| (x.0@, x.1@))
}

/// The argv pointer table holds one word per argument.
proof fn lemma_arg_ptr_words_len(args: Seq<Seq<u8>>, i: int, cursor: int)
    requires
        0 <= i <= args.len(),
    ensures
        arg_ptr_words_from(args, i, cursor).len() == args.len() - i,
    decreases args.len() - i,
{
    if i < args.len() {
        lemma_arg_ptr_words_len(args, i + 1, cursor + args[i].len() + 1);
    }
}

/// The envp pointer table holds one word per entry.
proof fn lemma_env_ptr_words_len(envs: Seq<(Seq<u8>, Seq<u8>)>, i: int, cursor: int)
    requires
        0 <= i <= envs.len(),
    ensures
        env_ptr_words_from(envs, i, cursor).len() == envs.len() - i,
    decreases envs.len() - i,
{
    if i < envs.len() {
        lemma_env_ptr_words_len(envs, i + 1, cursor + envs[i].0.len() + 1 + envs[i].1.len() + 1);
    }
}

/// The auxiliary vector takes two words per entry.
proof fn lemma_auxv_words_len(auxv: Seq<(u32, u32)>, i: int)
    requires
        0 <= i <= auxv.len(),
    ensures
        auxv_words_from(auxv, i).len() == 2 * (auxv.len() - i),
    decreases auxv.len() - i,
{
    if i < auxv.len() {
        lemma_auxv_words_len(auxv, i + 1);
    }
}

/// The argument payload is exactly as long as its measured size.
proof fn lemma_args_blob_len(args: Seq<Seq<u8>>, i: int)
    requires
        0 <= i <= args.len(),
    ensures
        args_blob_from(args, i).len() == args_size_from(args, i),
    decreases args.len() - i,
{
    if i < args.len() {
        lemma_args_blob_len(args, i + 1);
    }
}

/// The environment payload is exactly as long as its measured size.
proof fn lemma_envs_blob_len(envs: Seq<(Seq<u8>, Seq<u8>)>, i: int)
    requires
        0 <= i <= envs.len(),
    ensures
        envs_blob_from(envs, i).len() == envs_size_from(envs, i),
    decreases envs.len() - i,
{
    if i < envs.len() {
        lemma_envs_blob_len(envs, i + 1);
    }
}

/// `m` with the bytes `data` stored from offset `a` on.
pub open spec fn bytes_written(m: Seq<u8>, a: int, data: Seq<u8>) -> Seq<u8> {
    Seq::new(
        m.len(),
        |i: int|
            if a <= i < a + data.len() {
                data[i - a]
            } else {
                m[i]
            },
    )
}

/// A halfword composed of two bytes fits in sixteen bits.
pub proof fn lemma_half_at_bound(s: Seq<u8>, e: Endianness, a: int)
    ensures
        half_at(s, e, a) < 0x1_0000,
{
    let b0 = s[a] as u32;
    let b1 = s[a + 1] as u32;
    assert((b0 << 8) | b1 < 0x1_0000 && (b1 << 8) | b0 < 0x1_0000) by (bit_vector)
        requires
            b0 < 256,
            b1 < 256,
    ;
}

// ---------------------------------------------------------------------
// The initial guest stack.
// ---------------------------------------------------------------------

/// The summed payload size of the argument strings from index `i` on,
/// one terminator byte each.
pub open spec fn args_size_from(args: Seq<Seq<u8>>, i: int) -> int
    decreases args.len() - i,
    when 0 <= i <= args.len()
{
    if i >= args.len() {
        0
    } else {
        args[i].len() + 1 + args_size_from(args, i + 1)
    }
}

/// The summed payload size of the environment entries from index `i`
/// on: name, separator, value and terminator.
pub open spec fn envs_size_from(envs: Seq<(Seq<u8>, Seq<u8>)>, i: int) -> int
    decreases envs.len() - i,
    when 0 <= i <= envs.len()
{
    if i >= envs.len() {
        0
    } else {
        envs[i].0.len() + 1 + envs[i].1.len() + 1 + envs_size_from(envs, i + 1)
    }
}

/// The argument strings laid out back to back, each followed by its
/// terminator.
pub open spec fn args_blob_from(args: Seq<Seq<u8>>, i: int) -> Seq<u8>
    decreases args.len() - i,
    when 0 <= i <= args.len()
{
    if i >= args.len() {
        Seq::empty()
    } else {
        args[i] + seq![0u8] + args_blob_from(args, i + 1)
    }
}

/// The environment entries laid out back to back, each as
/// `name=value` with its terminator.
pub open spec fn envs_blob_from(envs: Seq<(Seq<u8>, Seq<u8>)>, i: int) -> Seq<u8>
    decreases envs.len() - i,
    when 0 <= i <= envs.len()
{
    if i >= envs.len() {
        Seq::empty()
    } else {
        envs[i].0 + seq![0x3Du8] + envs[i].1 + seq![0u8] + envs_blob_from(envs, i + 1)
    }
}

/// The argv pointer words from index `i` on, for payloads placed from
/// `cursor` on.
pub open spec fn arg_ptr_words_from(args: Seq<Seq<u8>>, i: int, cursor: int) -> Seq<u32>
    decreases args.len() - i,
    when 0 <= i <= args.len()
{
    if i >= args.len() {
        Seq::empty()
    } else {
        seq![cursor as u32] + arg_ptr_words_from(args, i + 1, cursor + args[i].len() + 1)
    }
}

/// The envp pointer words from index `i` on.
pub open spec fn env_ptr_words_from(envs: Seq<(Seq<u8>, Seq<u8>)>, i: int, cursor: int) -> Seq<u32>
    decreases envs.len() - i,
    when 0 <= i <= envs.len()
{
    if i >= envs.len() {
        Seq::empty()
    } else {
        seq![cursor as u32] + env_ptr_words_from(
            envs,
            i + 1,
            cursor + envs[i].0.len() + 1 + envs[i].1.len() + 1,
        )
    }
}

/// The auxiliary vector as alternating key and value words, from entry
/// `i` on.
pub open spec fn auxv_words_from(auxv: Seq<(u32, u32)>, i: int) -> Seq<u32>
    decreases auxv.len() - i,
    when 0 <= i <= auxv.len()
{
    if i >= auxv.len() {
        Seq::empty()
    } else {
        seq![auxv[i].0, auxv[i].1] + auxv_words_from(auxv, i + 1)
    }
}

/// Where the string payloads start: past the argument count, the two
/// pointer tables with their terminators, and the forty words reserved
/// for the auxiliary vector.
pub open spec fn stack_data_start(address: u32, nargs: int, nenv: int) -> int {
    address + 4 + (43 + nargs + nenv) * 4
}

/// The whole pointer table of the initial stack: the argument count,
/// the argv pointers with a zero word, the envp pointers with a zero
/// word, and the auxiliary vector pairs with their terminating pair.
pub open spec fn stack_table_words(
    args: Seq<Seq<u8>>,
    envs: Seq<(Seq<u8>, Seq<u8>)>,
    auxv: Seq<(u32, u32)>,
    data_start: int,
) -> Seq<u32> {
    seq![args.len() as u32] + arg_ptr_words_from(args, 0, data_start) + seq![0u32]
        + env_ptr_words_from(envs, 0, data_start + args_size_from(args, 0)) + seq![0u32]
        + auxv_words_from(auxv, 0) + seq![0u32, 0u32]
}

/// `m` with the words `ws` stored from offset `a` on, each word in the
/// endianness `e`.
pub open spec fn words_written(m: Seq<u8>, e: Endianness, a: int, ws: Seq<u32>) -> Seq<u8>
    decreases ws.len(),
{
    if ws.len() == 0 {
        m
    } else {
        words_written(word_seq(m, e, a, ws[0]), e, a + 4, ws.skip(1))
    }
}

proof fn lemma_words_written_push(m: Seq<u8>, e: Endianness, a: int, ws: Seq<u32>, x: u32)
    ensures
        words_written(m, e, a, ws.push(x)) == word_seq(
            words_written(m, e, a, ws),
            e,
            a + 4 * ws.len(),
            x,
        ),
    decreases ws.len(),
{
    if ws.len() == 0 {
        assert(ws.push(x)[0] == x);
        assert(ws.push(x).skip(1) =~= Seq::<u32>::empty());
        assert(words_written(m, e, a, ws.push(x)) == words_written(
            word_seq(m, e, a, x),
            e,
            a + 4,
            Seq::<u32>::empty(),
        ));
    } else {
        assert(ws.push(x)[0] == ws[0]);
        assert(ws.push(x).skip(1) =~= ws.skip(1).push(x));
        lemma_words_written_push(word_seq(m, e, a, ws[0]), e, a + 4, ws.skip(1), x);
    }
}

/// Stores the words `ws` from `addr` on.
pub fn write_words(memory: &mut Memory, addr: u32, ws: &Vec<u32>)
    requires
        old(memory).wf(),
        addr as int + 4 * ws@.len() <= 0x1_0000_0000,
    ensures
        final(memory).wf(),
        final(memory)@ == words_written(old(memory)@, old(memory).spec_endianness(), addr as int, ws@),
        final(memory).spec_endianness() == old(memory).spec_endianness(),
        final(memory).spec_break() == old(memory).spec_break(),
{
    let n: usize = ws.len();
    let mut i: usize = 0;
    proof {
        assert(ws@.take(0) =~= Seq::<u32>::empty());
    }
    while i < n
        invariant
            memory.wf(),
            n == ws@.len(),
            0 <= i <= n,
            addr as int + 4 * n <= 0x1_0000_0000,
            memory@ == words_written(
                old(memory)@,
                old(memory).spec_endianness(),
                addr as int,
                ws@.take(i as int),
            ),
            memory.spec_endianness() == old(memory).spec_endianness(),
            memory.spec_break() == old(memory).spec_break(),
        decreases n - i,
    {
        let w = ws[i];
        memory.write_word(addr + (4 * i) as u32, w);
        proof {
            lemma_words_written_push(
                old(memory)@,
                old(memory).spec_endianness(),
                addr as int,
                ws@.take(i as int),
                w,
            );
            assert(ws@.take(i as int).push(w) =~= ws@.take(i + 1));
        }
        i = i + 1;
    }
    proof {
        assert(ws@.take(n as int) =~= ws@);
    }
}

/// Reads `count` words from `addr` on.
pub fn read_words(memory: &Memory, addr: u32, count: u32) -> (r: Vec<u32>)
    requires
        memory.wf(),
        addr as int + 4 * count as int <= 0x1_0000_0000,
    ensures
        r@.len() == count,
        forall|i: int|
            0 <= i < count ==> r@[i] == word_at(
                memory@,
                memory.spec_endianness(),
                addr as int + 4 * i,
            ),
{
    let mut v: Vec<u32> = Vec::new();
    let mut i: u32 = 0;
    while i < count
        invariant
            memory.wf(),
            0 <= i <= count,
            addr as int + 4 * count as int <= 0x1_0000_0000,
            v@.len() == i,
            forall|j: int|
                0 <= j < i ==> v@[j] == word_at(
                    memory@,
                    memory.spec_endianness(),
                    addr as int + 4 * j,
                ),
        decreases count - i,
    {
        let w = memory.read_word(addr + 4 * i);
        v.push(w);
        i = i + 1;
    }
    v
}

/// Storing a byte and reading it back returns the stored value masked to
/// byte width, at every address.
pub proof fn lemma_write_read_byte(s: Seq<u8>, a: int, v: u32)
    requires
        0 <= a < s.len(),
    ensures
        s.update(a, v as u8)[a] as u32 == v & 0xFF,
{
    assert((v as u8) as u32 == v & 0xFF) by (bit_vector);
}

/// Storing a halfword and reading it back returns the stored value masked
/// to halfword width, at every address and under both endiannesses.
pub proof fn lemma_write_read_halfword(s: Seq<u8>, e: Endianness, a: int, v: u32)
    requires
        0 <= a,
        a + 2 <= s.len(),
    ensures
        half_at(half_seq(s, e, a, v), e, a) == v & 0xFFFF,
{
    lemma_shr_zero(v);
    assert(((v >> 8) as u8 as u32) << 8 | (v as u8 as u32) == v & 0xFFFF) by (bit_vector);
}

/// Storing a word and reading it back returns the stored value, at every
/// address and under both endiannesses.
pub proof fn lemma_write_read_word(s: Seq<u8>, e: Endianness, a: int, v: u32)
    requires
        0 <= a,
        a + 4 <= s.len(),
    ensures
        word_at(word_seq(s, e, a, v), e, a) == v,
{
    lemma_shr_zero(v);
    assert(((v >> 24) as u8 as u32) << 24 | ((v >> 16) as u8 as u32) << 16 | ((v >> 8) as u8
        as u32) << 8 | (v as u8 as u32) == v) by (bit_vector);
}

/// An SWL store at `eff` followed by an SWR store of the same value at
/// `eff + 3` covers disjoint byte ranges of two adjacent aligned words
/// whose union is exactly the four bytes starting at `eff`, and together
/// they reconstruct a full (unaligned) word store: reading the word back
/// at `eff` returns the stored value. Stated for big-endian memory; the
/// little-endian pair is mirrored (SWR at `eff`, then SWL at `eff + 3`).
pub proof fn lemma_swl_swr_reconstructs_word(s: Seq<u8>, e: Endianness, eff: int, v: u32)
    requires
        0 <= eff,
        eff + 4 <= s.len(),
    ensures
        e == Endianness::BigEndian ==> word_at(swr_seq(swl_seq(s, e, eff, v), e, eff + 3, v), e, eff)
            == v,
        e == Endianness::LittleEndian ==> word_at(
            swl_seq(swr_seq(s, e, eff, v), e, eff + 3, v),
            e,
            eff,
        ) == v,
{
    lemma_shr_zero(v);
    assert(((v >> 24) as u8 as u32) << 24 | ((v >> 16) as u8 as u32) << 16 | ((v >> 8) as u8
        as u32) << 8 | (v as u8 as u32) == v) by (bit_vector);
    let k = eff % 4;
    assert(0 <= k < 4);
    if k == 0 {
        assert((eff + 3) % 4 == 3);
    } else if k == 1 {
        assert((eff + 3) % 4 == 0);
    } else if k == 2 {
        assert((eff + 3) % 4 == 1);
    } else {
        assert((eff + 3) % 4 == 2);
    }
}

} // verus!
