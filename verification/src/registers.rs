//! The register file: 31 general-purpose registers with r0 hard-wired to
//! zero, the program counter, the HI/LO scratch pair, and 32 floating
//! point registers held as raw 32-bit patterns.

use vstd::prelude::*;

verus! {

pub const V0: u32 = 2;

pub const A0: u32 = 4;

pub const A3: u32 = 7;

pub const STACK_POINTER: u32 = 29;

pub const RETURN_ADDRESS: u32 = 31;

/// Reading register `i` from the stored bank `s` (31 entries): r0 is a
/// constant zero, every other register returns its stored value.
pub open spec fn reg_read(s: Seq<u32>, i: int) -> u32 {
    if i == 0 {
        0u32
    } else {
        s[i - 1]
    }
}

/// The stored bank after writing `v` to register `i`: a write to r0 is
/// ignored, every other write replaces the stored value.
pub open spec fn reg_written(s: Seq<u32>, i: int, v: u32) -> Seq<u32> {
    if i == 0 {
        s
    } else {
        s.update(i - 1, v)
    }
}

pub struct RegisterFile {
    gpr: Vec<u32>,
    fpr: Vec<u32>,
    pc: u32,
    hi: u32,
    lo: u32,
}

impl RegisterFile {
    pub closed spec fn spec_gpr(&self) -> Seq<u32> {
        self.gpr@
    }

    pub closed spec fn spec_fpr(&self) -> Seq<u32> {
        self.fpr@
    }

    pub closed spec fn spec_pc(&self) -> u32 {
        self.pc
    }

    pub closed spec fn spec_hi(&self) -> u32 {
        self.hi
    }

    pub closed spec fn spec_lo(&self) -> u32 {
        self.lo
    }

    pub open spec fn wf(&self) -> bool {
        self.spec_gpr().len() == 31 && self.spec_fpr().len() == 32
    }

    /// The architecturally visible value of register `i`.
    pub open spec fn spec_reg(&self, i: int) -> u32 {
        reg_read(self.spec_gpr(), i)
    }

    pub fn new(stack_pointer: u32) -> (r: RegisterFile)
        ensures
            r.wf(),
            r.spec_gpr() == Seq::new(31, |i: int| 0u32).update(
                STACK_POINTER as int - 1,
                stack_pointer,
            ),
            r.spec_reg(STACK_POINTER as int) == stack_pointer,
            forall|i: int| 0 <= i < 32 && i != STACK_POINTER ==> r.spec_reg(i) == 0u32,
            r.spec_pc() == 0u32,
            r.spec_hi() == 0u32,
            r.spec_lo() == 0u32,
            forall|i: int| 0 <= i < 32 ==> r.spec_fpr()[i] == 0u32,
    {
        let mut r = RegisterFile {
            gpr: vec![0u32; 31],
            fpr: vec![0u32; 32],
            pc: 0,
            hi: 0,
            lo: 0,
        };
        r.write_register(STACK_POINTER, stack_pointer);
        proof {
            assert(r.spec_gpr() =~= Seq::new(31, |i: int| 0u32).update(
                STACK_POINTER as int - 1,
                stack_pointer,
            ));
        }
        r
    }

    pub fn read_register(&self, id: u32) -> (r: u32)
        requires
            self.wf(),
            id < 32,
        ensures
            r == self.spec_reg(id as int),
    {
        if id == 0 {
            0
        } else {
            self.gpr[(id - 1) as usize]
        }
    }

    pub fn write_register(&mut self, id: u32, value: u32)
        requires
            old(self).wf(),
            id < 32,
        ensures
            final(self).wf(),
            final(self).spec_gpr() == reg_written(old(self).spec_gpr(), id as int, value),
            final(self).spec_reg(id as int) == if id == 0 {
                0u32
            } else {
                value
            },
            forall|i: int|
                0 <= i < 32 && i != id ==> final(self).spec_reg(i) == old(self).spec_reg(i),
            final(self).spec_fpr() == old(self).spec_fpr(),
            final(self).spec_pc() == old(self).spec_pc(),
            final(self).spec_hi() == old(self).spec_hi(),
            final(self).spec_lo() == old(self).spec_lo(),
    {
        if id != 0 {
            self.gpr[(id - 1) as usize] = value;
        }
    }

    /// Floating point registers hold raw 32-bit patterns; loads and
    /// stores move the pattern unchanged.
    pub fn read_fpr(&self, id: u32) -> (r: u32)
        requires
            self.wf(),
            id < 32,
        ensures
            r == self.spec_fpr()[id as int],
    {
        self.fpr[id as usize]
    }

    pub fn write_fpr(&mut self, id: u32, val: u32)
        requires
            old(self).wf(),
            id < 32,
        ensures
            final(self).wf(),
            final(self).spec_fpr() == old(self).spec_fpr().update(id as int, val),
            final(self).spec_gpr() == old(self).spec_gpr(),
            final(self).spec_pc() == old(self).spec_pc(),
            final(self).spec_hi() == old(self).spec_hi(),
            final(self).spec_lo() == old(self).spec_lo(),
    {
        self.fpr[id as usize] = val;
    }

    pub fn get_pc(&self) -> (r: u32)
        ensures
            r == self.spec_pc(),
    {
        self.pc
    }

    pub fn set_pc(&mut self, value: u32)
        ensures
            final(self).wf() == old(self).wf(),
            final(self).spec_pc() == value,
            final(self).spec_gpr() == old(self).spec_gpr(),
            final(self).spec_fpr() == old(self).spec_fpr(),
            final(self).spec_hi() == old(self).spec_hi(),
            final(self).spec_lo() == old(self).spec_lo(),
    {
        self.pc = value;
    }

    /// Advances the program counter by one instruction.
    pub fn increment_pc(&mut self)
        ensures
            final(self).wf() == old(self).wf(),
            final(self).spec_pc() == crate::bitutils::wadd(old(self).spec_pc(), 4),
            final(self).spec_gpr() == old(self).spec_gpr(),
            final(self).spec_fpr() == old(self).spec_fpr(),
            final(self).spec_hi() == old(self).spec_hi(),
            final(self).spec_lo() == old(self).spec_lo(),
    {
        self.pc = self.pc.wrapping_add(4);
    }

    /// Moves the program counter to `address`.
    pub fn jump_to(&mut self, address: u32)
        ensures
            final(self).wf() == old(self).wf(),
            final(self).spec_pc() == address,
            final(self).spec_gpr() == old(self).spec_gpr(),
            final(self).spec_fpr() == old(self).spec_fpr(),
            final(self).spec_hi() == old(self).spec_hi(),
            final(self).spec_lo() == old(self).spec_lo(),
    {
        self.set_pc(address);
    }

    pub fn read_hi(&self) -> (r: u32)
        ensures
            r == self.spec_hi(),
    {
        self.hi
    }

    pub fn read_lo(&self) -> (r: u32)
        ensures
            r == self.spec_lo(),
    {
        self.lo
    }

    pub fn write_hi(&mut self, value: u32)
        ensures
            final(self).wf() == old(self).wf(),
            final(self).spec_hi() == value,
            final(self).spec_gpr() == old(self).spec_gpr(),
            final(self).spec_fpr() == old(self).spec_fpr(),
            final(self).spec_pc() == old(self).spec_pc(),
            final(self).spec_lo() == old(self).spec_lo(),
    {
        self.hi = value;
    }

    pub fn write_lo(&mut self, value: u32)
        ensures
            final(self).wf() == old(self).wf(),
            final(self).spec_lo() == value,
            final(self).spec_gpr() == old(self).spec_gpr(),
            final(self).spec_fpr() == old(self).spec_fpr(),
            final(self).spec_pc() == old(self).spec_pc(),
            final(self).spec_hi() == old(self).spec_hi(),
    {
        self.lo = value;
    }
}

/// r0 reads as zero after every possible write, and every other register
/// reads back the most recent value written to it; writes to one register
/// leave all the others alone.
pub proof fn lemma_register_semantics(s: Seq<u32>, id: int, j: int, v: u32)
    requires
        s.len() == 31,
        0 <= id < 32,
        0 <= j < 32,
    ensures
        reg_read(reg_written(s, id, v), j) == if j == 0 {
            0u32
        } else if j == id {
            v
        } else {
            reg_read(s, j)
        },
{
}

/// The conventional assembler name of each register.
pub fn get_register_name(id: u32) -> (r: &'static str)
    requires
        id < 32,
{
    if id == 0 {
        "zero"
    } else if id == 1 {
        "at"
    } else if id == 2 {
        "v0"
    } else if id == 3 {
        "v1"
    } else if id == 4 {
        "a0"
    } else if id == 5 {
        "a1"
    } else if id == 6 {
        "a2"
    } else if id == 7 {
        "a3"
    } else if id == 8 {
        "t0"
    } else if id == 9 {
        "t1"
    } else if id == 10 {
        "t2"
    } else if id == 11 {
        "t3"
    } else if id == 12 {
        "t4"
    } else if id == 13 {
        "t5"
    } else if id == 14 {
        "t6"
    } else if id == 15 {
        "t7"
    } else if id == 16 {
        "s0"
    } else if id == 17 {
        "s1"
    } else if id == 18 {
        "s2"
    } else if id == 19 {
        "s3"
    } else if id == 20 {
        "s4"
    } else if id == 21 {
        "s5"
    } else if id == 22 {
        "s6"
    } else if id == 23 {
        "s7"
    } else if id == 24 {
        "t8"
    } else if id == 25 {
        "t9"
    } else if id == 26 {
        "k0"
    } else if id == 27 {
        "k1"
    } else if id == 28 {
        "gp"
    } else if id == 29 {
        "sp"
    } else if id == 30 {
        "fp"
    } else {
        "ra"
    }
}

} // verus!
