use vstd::prelude::*;
use super::registers::{CpuRegister, FpuRegister};

verus! {

/// The general purpose registers saved by a legacy inline hook, which may fire on any
/// instruction. They are restored from this context once the callback returns, so the
/// callback may change them.
#[derive(Copy, Clone, Debug)]
pub struct LegacyInlineCtx {
    /// The 31 general purpose registers x0-x30.
    pub registers: [CpuRegister; 31],
}

/// The fuller register state saved by an inline hook.
///
/// As with [`LegacyInlineCtx`], the registers are restored once the callback returns,
/// with the exception of the stack pointer.
#[derive(Copy, Clone, Debug)]
pub struct InlineCtx {
    /// The 31 general purpose registers x0-x30.
    pub registers: [CpuRegister; 31],
    /// The stack pointer; it is not restored, so it is effectively read-only.
    pub sp: CpuRegister,
    /// The NEON/SIMD registers.
    pub fpu_registers: [FpuRegister; 32],
}

} // verus!
