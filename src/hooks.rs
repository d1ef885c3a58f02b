mod backtrace;
mod contexts;
mod install;
mod registers;

pub use backtrace::{
    backtrace_text, chain_node, clamped_limit, endless_chain, entry_line, entry_lines,
    formatted_addr, frame_from, lemma_endless_chain_reaches_limit, lemma_formatted_location,
    lemma_self_referential_frame, module_offset, name_or_unknown, needs_read, opt_bytes, rendered,
    resolve_address, resolves_to, unwind, walk, AddressLocation, Backtrace, BacktraceEntry,
    BacktraceError, ModuleLocation, StackFrame, StackMemory, SymbolLocation, Unwinder,
    STACK_FRAME_SIZE,
};
pub use contexts::{InlineCtx, LegacyInlineCtx};
pub use install::{
    declaration, error_module_on_replace, install_request, lemma_original_needs_installation,
    lemma_strategy_selection, original_result,
    should_be_jit_hook, static_text_address, strategy_diagnostic, target_value, toggle_address,
    uses_jit, Diagnostic, HookAttributes, HookError, HookKind, HookRecord, HookState, HookStyle,
    HookTarget, HookTargetDesc, HookType, KnownModule, ModuleArg, PatchRequest, Strategy,
};
pub use registers::{lane16, lane32, lane64, lane8, CpuRegister, FpuRegister, VectorRegister};
