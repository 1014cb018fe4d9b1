//! The command-line surface of the emulator, as plain data. Parsing the
//! actual argument list is the embedder's concern; this is what it hands
//! over.

use vstd::prelude::*;

use crate::control::CPUFlags;

verus! {

pub struct Arguments {
    pub executable: String,
    pub is_coredump: bool,
    pub entry_point: Option<u32>,
    pub stack_pointer: Option<u32>,
    pub verbosity_level: u32,
    pub arguments: Vec<String>,
    pub flags: CPUFlags,
}

} // verus!
