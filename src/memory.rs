//! The static modules of the process, as the runtime describes their memory.
use vstd::prelude::*;

verus! {

/// A range of memory: its start and its size in bytes.
#[derive(Copy, Clone, PartialEq, Eq, Structural, Debug)]
pub struct MemoryRange {
    pub start: u64,
    pub size: u64,
}

/// The memory of a statically known module: its whole image and each section, with
/// where its header and its loader object lie.
#[derive(Copy, Clone, PartialEq, Eq, Structural, Debug)]
pub struct ModuleMemory {
    pub total: MemoryRange,
    pub text: MemoryRange,
    pub rodata: MemoryRange,
    pub data: MemoryRange,
    pub bss: MemoryRange,
    pub module_header: u64,
    pub module_object: u64,
}

impl ModuleMemory {
    /// The address of byte `offset` of the text section: None where the section has no
    /// such byte.
    pub fn text_address(&self, offset: u64) -> (r: Option<u64>)
        ensures
            offset < self.text.size && self.text.start + offset < 0x1_0000_0000_0000_0000 ==> r
                == Some((self.text.start + offset) as u64),
            !(offset < self.text.size && self.text.start + offset < 0x1_0000_0000_0000_0000) ==> r
                is None,
    {
        if offset >= self.text.size {
            return None;
        }
        self.text.start.checked_add(offset)
    }
}

/// The modules whose memory the runtime always knows.
#[derive(Copy, Clone, PartialEq, Eq, Structural, Debug)]
pub enum StaticModule {
    Rtld,
    Main,
    SkylineEx,
    Sdk,
}

} // verus!
