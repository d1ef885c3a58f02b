//! Backtraces reconstructed from frame-pointer chains alone, and their rendering.
use vstd::prelude::*;
use vstd::string::StringSliceAdditionalSpecFns;
use super::contexts::{InlineCtx, LegacyInlineCtx};
use crate::rtld::{
    find_module_for_address, module_for_address, module_name, symbol_for_address, ModuleRegistry,
};
use crate::text::{
    append_bytes, append_dec_pad2, append_hex_fixed, append_hex_prefixed, append_str, dec_pad2,
    hex_fixed, hex_prefixed,
};

verus! {

/// A stack frame record as Aarch64 code pushes it: the caller's frame pointer, then the
/// return address.
#[derive(Copy, Clone, PartialEq, Eq, Structural, Debug)]
pub struct StackFrame {
    pub previous_frame: u64,
    pub return_address: u64,
}

/// What ends a backtrace early or marks it incomplete.
#[derive(Copy, Clone, PartialEq, Eq, Structural, Debug)]
pub enum BacktraceError {
    /// The initial frame pointer is null.
    InitialFPNull,
    /// A frame pointer points back to the frame it was read from.
    RecursiveFramePointer,
    /// The chain goes on past the limit.
    BacktraceLimitReached,
}

impl BacktraceError {
    /// The text that describes the error.
    pub open spec fn message_spec(self) -> Seq<u8> {
        match self {
            BacktraceError::InitialFPNull => "The initial frame pointer is null".spec_bytes(),
            BacktraceError::RecursiveFramePointer =>
                "The backtrace is recursive and the frame pointer points to itself".spec_bytes(),
            BacktraceError::BacktraceLimitReached =>
                "The backtrace is longer than the provided limit".spec_bytes(),
        }
    }

    /// The text that describes the error.
    pub fn message(&self) -> (r: &'static str)
        ensures
            r.spec_bytes() == self.message_spec(),
    {
        match self {
            BacktraceError::InitialFPNull => "The initial frame pointer is null",
            BacktraceError::RecursiveFramePointer =>
                "The backtrace is recursive and the frame pointer points to itself",
            BacktraceError::BacktraceLimitReached => "The backtrace is longer than the provided limit",
        }
    }
}

/// A frame of a backtrace: where its record lies and what it holds.
#[derive(Copy, Clone, PartialEq, Eq, Structural, Debug)]
pub struct BacktraceEntry {
    pub ptr: u64,
    pub frame: StackFrame,
}

/// The size in bytes of a [`StackFrame`] record.
pub const STACK_FRAME_SIZE: u64 = 16;

impl BacktraceEntry {
    /// The entry for the frame record `frame` found at `ptr`.
    pub fn new(ptr: u64, frame: StackFrame) -> (r: BacktraceEntry)
        ensures
            r.ptr == ptr,
            r.frame == frame,
    {
        BacktraceEntry { ptr, frame }
    }

    /// The stack pointer of the calling frame: just past this frame's record, or null
    /// for a null record.
    pub fn get_previous_stack_pointer(&self) -> (r: u64)
        ensures
            self.ptr == 0 ==> r == 0,
            self.ptr != 0 ==> r == (self.ptr + STACK_FRAME_SIZE) % 0x1_0000_0000_0000_0000,
    {
        if self.ptr == 0 {
            0
        } else {
            self.ptr.wrapping_add(STACK_FRAME_SIZE)
        }
    }
}

/// A copy of the stack memory that holds frame records: the record stored at each
/// listed address (the first listing of an address counts). Every other address reads
/// as a zero record.
#[derive(Clone, Debug)]
pub struct StackMemory {
    pub frames: Vec<(u64, StackFrame)>,
}

/// The record read at `addr` from `frames`, looking from index `from` on.
pub open spec fn frame_from(frames: Seq<(u64, StackFrame)>, addr: u64, from: int) -> StackFrame
    decreases frames.len() - from,
{
    if from < 0 || from >= frames.len() {
        StackFrame { previous_frame: 0, return_address: 0 }
    } else if frames[from].0 == addr {
        frames[from].1
    } else {
        frame_from(frames, addr, from + 1)
    }
}

impl StackMemory {
    /// The record read at `addr`.
    pub open spec fn frame_at(self, addr: u64) -> StackFrame {
        frame_from(self.frames@, addr, 0)
    }

    /// Reads the record at `addr`.
    pub fn read(&self, addr: u64) -> (r: StackFrame)
        ensures
            r == self.frame_at(addr),
    {
        let mut i: usize = 0;
        while i < self.frames.len()
            invariant
                i <= self.frames@.len(),
                frame_from(self.frames@, addr, 0) == frame_from(self.frames@, addr, i as int),
            decreases self.frames@.len() - i,
        {
            if self.frames[i].0 == addr {
                return self.frames[i].1;
            }
            i += 1;
        }
        StackFrame { previous_frame: 0, return_address: 0 }
    }
}

/// The entries that the walk of the frame chain adds from the frame pointer `fp`,
/// `prev` being the frame pointer of the record read last and `budget` the number of
/// records it may still read.
pub open spec fn walk(mem: StackMemory, fp: u64, prev: u64, budget: nat) -> Seq<
    Result<BacktraceEntry, BacktraceError>,
>
    decreases budget,
{
    if budget == 0 {
        seq![Err(BacktraceError::BacktraceLimitReached)]
    } else if fp == 0 {
        seq![]
    } else if fp == prev {
        seq![Err(BacktraceError::RecursiveFramePointer)]
    } else {
        let frame = mem.frame_at(fp);
        seq![Ok(BacktraceEntry { ptr: fp, frame })].add(
            walk(mem, frame.previous_frame, fp, (budget - 1) as nat),
        )
    }
}

/// The limit of a walk, raised to at least 32.
pub open spec fn clamped_limit(limit: usize) -> nat {
    if limit < 32 {
        32
    } else {
        limit as nat
    }
}

/// What a backtrace holds for a frame pointer `fp` (not null), a return address `lr`
/// and a limit: the current frame, where the record at `fp` returns to `lr`, then the
/// walk of the chain. The current frame counts against the limit.
pub open spec fn unwind(mem: StackMemory, fp: u64, lr: u64, limit: usize) -> (
    Option<BacktraceEntry>,
    Seq<Result<BacktraceEntry, BacktraceError>>,
) {
    let frame = mem.frame_at(fp);
    let budget = (clamped_limit(limit) - 1) as nat;
    if frame.return_address != lr {
        (None, walk(mem, fp, 0, budget))
    } else {
        (Some(BacktraceEntry { ptr: fp, frame }), walk(mem, frame.previous_frame, fp, budget))
    }
}

/// The frame pointer reached after following `k` records from `fp`.
pub open spec fn chain_node(mem: StackMemory, fp: u64, k: nat) -> u64
    decreases k,
{
    if k == 0 {
        fp
    } else {
        mem.frame_at(chain_node(mem, fp, (k - 1) as nat)).previous_frame
    }
}

/// From `fp` on, the chain never ends: no frame pointer on it is null, and none points
/// back to the record it was read from.
pub open spec fn endless_chain(mem: StackMemory, fp: u64) -> bool {
    forall|k: nat|
        #![trigger chain_node(mem, fp, k)]
        chain_node(mem, fp, k) != 0 && chain_node(mem, fp, k + 1) != chain_node(mem, fp, k)
}

proof fn lemma_chain_shift(mem: StackMemory, fp: u64, k: nat)
    ensures
        chain_node(mem, mem.frame_at(fp).previous_frame, k) == chain_node(mem, fp, k + 1),
    decreases k,
{
    if k > 0 {
        lemma_chain_shift(mem, fp, (k - 1) as nat);
        assert(((k + 1) - 1) as nat == k);
    } else {
        assert(chain_node(mem, fp, 0) == fp);
        assert(((0 + 1) - 1) as nat == 0);
    }
}

proof fn lemma_endless_walk(mem: StackMemory, fp: u64, prev: u64, budget: nat)
    requires
        endless_chain(mem, fp),
        fp != prev,
    ensures
        walk(mem, fp, prev, budget).len() == budget + 1,
        walk(mem, fp, prev, budget).last() == Err::<BacktraceEntry, BacktraceError>(
            BacktraceError::BacktraceLimitReached,
        ),
        forall|i: int| 0 <= i < budget ==> #[trigger] walk(mem, fp, prev, budget)[i] is Ok,
    decreases budget,
{
    if budget > 0 {
        let next = mem.frame_at(fp).previous_frame;
        assert(chain_node(mem, fp, 0) != 0);
        assert(chain_node(mem, fp, 1) != chain_node(mem, fp, 0));
        assert forall|k: nat| #![trigger chain_node(mem, next, k)]
            chain_node(mem, next, k) != 0 && chain_node(mem, next, k + 1) != chain_node(mem, next, k) by {
            lemma_chain_shift(mem, fp, k);
            lemma_chain_shift(mem, fp, k + 1);
            assert(chain_node(mem, fp, k + 1) != 0);
            assert(chain_node(mem, fp, k + 1 + 1) != chain_node(mem, fp, k + 1));
        }
        lemma_endless_walk(mem, next, fp, (budget - 1) as nat);
        let rest = walk(mem, next, fp, (budget - 1) as nat);
        let w = walk(mem, fp, prev, budget);
        assert(w == seq![Ok(BacktraceEntry { ptr: fp, frame: mem.frame_at(fp) })].add(rest));
        assert forall|i: int| 0 <= i < budget implies #[trigger] w[i] is Ok by {
            if i > 0 {
                assert(w[i] == rest[i - 1]);
            }
        }
    }
}

/// A frame record that points back to itself ends the backtrace within one more step:
/// the walk holds at most that record once, and its last entry is
/// [`BacktraceError::RecursiveFramePointer`].
pub proof fn lemma_self_referential_frame(mem: StackMemory, fp: u64, lr: u64, limit: usize)
    requires
        fp != 0,
        mem.frame_at(fp).previous_frame == fp,
    ensures
        1 <= unwind(mem, fp, lr, limit).1.len() <= 2,
        unwind(mem, fp, lr, limit).1.last() == Err::<BacktraceEntry, BacktraceError>(
            BacktraceError::RecursiveFramePointer,
        ),
{
    let budget = (clamped_limit(limit) - 1) as nat;
    assert(walk(mem, fp, fp, budget) == seq![Err::<BacktraceEntry, BacktraceError>(BacktraceError::RecursiveFramePointer)]);
    assert(walk(mem, fp, fp, (budget - 1) as nat) == seq![Err::<BacktraceEntry, BacktraceError>(BacktraceError::RecursiveFramePointer)]);
    if mem.frame_at(fp).return_address != lr {
        let w = walk(mem, fp, 0, budget);
        assert(w == seq![Ok(BacktraceEntry { ptr: fp, frame: mem.frame_at(fp) })].add(
            walk(mem, fp, fp, (budget - 1) as nat),
        ));
    }
}

/// On a chain that never ends, and with a limit of at least 32, the backtrace ends in
/// exactly one [`BacktraceError::BacktraceLimitReached`] entry, preceded only by resolved
/// entries, and it resolves at most `limit` frames, the current frame included.
pub proof fn lemma_endless_chain_reaches_limit(mem: StackMemory, fp: u64, lr: u64, limit: usize)
    requires
        endless_chain(mem, fp),
        limit >= 32,
    ensures
        ({
            let (current, entries) = unwind(mem, fp, lr, limit);
            &&& entries.len() >= 1
            &&& entries.last() == Err::<BacktraceEntry, BacktraceError>(
                BacktraceError::BacktraceLimitReached,
            )
            &&& forall|i: int| 0 <= i < entries.len() - 1 ==> #[trigger] entries[i] is Ok
            &&& entries.len() - 1 + (if current is Some { 1int } else { 0int }) <= limit
        }),
{
    let budget = (limit - 1) as nat;
    assert(chain_node(mem, fp, 0) != 0);
    if mem.frame_at(fp).return_address != lr {
        lemma_endless_walk(mem, fp, 0, budget);
    } else {
        let next = mem.frame_at(fp).previous_frame;
        assert(chain_node(mem, fp, 1) != chain_node(mem, fp, 0));
        assert forall|k: nat| #![trigger chain_node(mem, next, k)]
            chain_node(mem, next, k) != 0 && chain_node(mem, next, k + 1) != chain_node(mem, next, k) by {
            lemma_chain_shift(mem, fp, k);
            lemma_chain_shift(mem, fp, k + 1);
            assert(chain_node(mem, fp, k + 1) != 0);
            assert(chain_node(mem, fp, k + 1 + 1) != chain_node(mem, fp, k + 1));
        }
        lemma_endless_walk(mem, next, fp, budget);
    }
}

/// The walk will read the record at `fp` next.
pub open spec fn needs_read(fp: u64, prev: u64, remaining: usize) -> bool {
    remaining > 0 && fp != 0 && fp != prev
}

/// A backtrace in the making, for a caller that reads the stack itself: it asks for one
/// frame record at a time ([`Unwinder::next_address`]) and takes it
/// ([`Unwinder::advance`]) until it is done.
pub struct Unwinder {
    pub current_lr: u64,
    pub current_frame: Option<BacktraceEntry>,
    pub entries: Vec<Result<BacktraceEntry, BacktraceError>>,
    pub fp: u64,
    pub prev_fp: u64,
    pub remaining: usize,
    pub started: bool,
    pub done: bool,
}

impl Unwinder {
    pub open spec fn wf(self) -> bool {
        &&& !self.started ==> !self.done && self.fp != 0 && self.current_frame is None
            && self.entries@.len() == 0
        &&& self.started && !self.done ==> needs_read(self.fp, self.prev_fp, self.remaining)
    }

    /// What the finished backtrace will hold, where every record still to be read is
    /// read from `mem`.
    pub open spec fn outcome(self, mem: StackMemory) -> (
        Option<BacktraceEntry>,
        Seq<Result<BacktraceEntry, BacktraceError>>,
    ) {
        if !self.started {
            let frame = mem.frame_at(self.fp);
            if frame.return_address != self.current_lr {
                (None, walk(mem, self.fp, 0, self.remaining as nat))
            } else {
                (
                    Some(BacktraceEntry { ptr: self.fp, frame }),
                    walk(mem, frame.previous_frame, self.fp, self.remaining as nat),
                )
            }
        } else if self.done {
            (self.current_frame, self.entries@)
        } else {
            (
                self.current_frame,
                self.entries@ + walk(mem, self.fp, self.prev_fp, self.remaining as nat),
            )
        }
    }

    /// How many more records the walk may read, at most.
    pub open spec fn fuel(self) -> nat {
        if self.done {
            0
        } else if !self.started {
            self.remaining as nat + 2
        } else {
            self.remaining as nat + 1
        }
    }

    /// Starts a backtrace from the frame pointer `current_fp` and the return address
    /// `current_lr`, reading at most `limit` records (at least 32).
    pub fn start(current_fp: u64, current_lr: u64, limit: usize) -> (r: Result<
        Unwinder,
        BacktraceError,
    >)
        ensures
            current_fp == 0 ==> r == Err::<Unwinder, BacktraceError>(BacktraceError::InitialFPNull),
            current_fp != 0 ==> (r matches Ok(u) && u.wf() && u.current_lr == current_lr
                && forall|mem: StackMemory| #[trigger]
                    u.outcome(mem) == unwind(mem, current_fp, current_lr, limit)),
    {
        if current_fp == 0 {
            return Err(BacktraceError::InitialFPNull);
        }
        let limit = if limit < 32 {
            32
        } else {
            limit
        };
        Ok(
            Unwinder {
                current_lr,
                current_frame: None,
                entries: Vec::new(),
                fp: current_fp,
                prev_fp: 0,
                remaining: limit - 1,
                started: false,
                done: false,
            },
        )
    }

    /// The address of the record to read next, or None once the backtrace is done.
    pub fn next_address(&self) -> (r: Option<u64>)
        ensures
            self.done ==> r is None,
            !self.done ==> r == Some(self.fp),
    {
        if self.done {
            None
        } else {
            Some(self.fp)
        }
    }

    fn settle(&mut self)
        requires
            old(self).started,
            !old(self).done,
        ensures
            final(self).wf(),
            final(self).started,
            final(self).current_lr == old(self).current_lr,
            final(self).fuel() <= old(self).fuel(),
            forall|mem: StackMemory| #[trigger]
                final(self).outcome(mem) == old(self).outcome(mem),
    {
        if self.remaining == 0 {
            self.entries.push(Err(BacktraceError::BacktraceLimitReached));
            self.done = true;
        } else if self.fp == 0 {
            self.done = true;
        } else if self.fp == self.prev_fp {
            self.entries.push(Err(BacktraceError::RecursiveFramePointer));
            self.done = true;
        }
        assert forall|mem: StackMemory| #[trigger] self.outcome(mem) == old(self).outcome(mem) by {
            if old(self).remaining == 0 {
                assert(self.entries@ =~= old(self).entries@ + walk(mem, old(self).fp, old(self).prev_fp, 0));
            } else if old(self).fp == 0 {
                assert(self.entries@ =~= old(self).entries@ + walk(
                    mem,
                    old(self).fp,
                    old(self).prev_fp,
                    old(self).remaining as nat,
                ));
            } else if old(self).fp == old(self).prev_fp {
                assert(self.entries@ =~= old(self).entries@ + walk(
                    mem,
                    old(self).fp,
                    old(self).prev_fp,
                    old(self).remaining as nat,
                ));
            }
        }
    }

    /// Takes `frame`, the record read at [`Unwinder::next_address`].
    pub fn advance(&mut self, frame: StackFrame)
        requires
            old(self).wf(),
            !old(self).done,
        ensures
            final(self).wf(),
            final(self).current_lr == old(self).current_lr,
            final(self).fuel() < old(self).fuel(),
            forall|mem: StackMemory|
                mem.frame_at(old(self).fp) == frame ==> #[trigger] final(self).outcome(mem)
                    == old(self).outcome(mem),
    {
        let ghost before = *self;
        if !self.started {
            self.started = true;
            if frame.return_address != self.current_lr {
                self.prev_fp = 0;
            } else {
                self.current_frame = Some(BacktraceEntry::new(self.fp, frame));
                self.prev_fp = self.fp;
                self.fp = frame.previous_frame;
            }
            assert forall|mem: StackMemory|
                mem.frame_at(before.fp) == frame implies #[trigger] self.outcome(mem)
                == before.outcome(mem) by {
                assert(self.entries@ + walk(mem, self.fp, self.prev_fp, self.remaining as nat)
                    =~= walk(mem, self.fp, self.prev_fp, self.remaining as nat));
            }
        } else {
            self.entries.push(Ok(BacktraceEntry::new(self.fp, frame)));
            self.prev_fp = self.fp;
            self.fp = frame.previous_frame;
            self.remaining = self.remaining - 1;
            assert forall|mem: StackMemory|
                mem.frame_at(before.fp) == frame implies #[trigger] self.outcome(mem)
                == before.outcome(mem) by {
                assert(self.entries@ + walk(mem, self.fp, self.prev_fp, self.remaining as nat)
                    =~= before.entries@ + walk(
                    mem,
                    before.fp,
                    before.prev_fp,
                    before.remaining as nat,
                ));
            }
        }
        self.settle();
    }

    /// The finished backtrace.
    pub fn finish(self) -> (r: Backtrace)
        requires
            self.done,
        ensures
            r.current_lr == self.current_lr,
            r.current_frame == self.current_frame,
            r.backtrace@ == self.entries@,
    {
        Backtrace {
            current_frame: self.current_frame,
            current_lr: self.current_lr,
            backtrace: self.entries,
        }
    }
}

/// A backtrace: the return address it was taken at, the current frame where the frame
/// pointer already reflected that call, and the frames of the chain, which may end in
/// an error entry.
#[derive(Clone, Debug)]
pub struct Backtrace {
    pub current_frame: Option<BacktraceEntry>,
    pub current_lr: u64,
    pub backtrace: Vec<Result<BacktraceEntry, BacktraceError>>,
}

impl Backtrace {
    /// Builds the backtrace of the frame chain that starts at the frame pointer
    /// `current_fp`, taken at the return address `current_lr`, reading frame records from
    /// `memory`. At most `limit` records (raised to at least 32) are read; a chain that
    /// goes on ends in a [`BacktraceError::BacktraceLimitReached`] entry.
    pub fn new(memory: &StackMemory, current_fp: u64, current_lr: u64, limit: usize) -> (r: Result<
        Backtrace,
        BacktraceError,
    >)
        ensures
            current_fp == 0 ==> r == Err::<Backtrace, BacktraceError>(BacktraceError::InitialFPNull),
            current_fp != 0 ==> (r matches Ok(bt) && bt.current_lr == current_lr && (
            bt.current_frame,
            bt.backtrace@,
            ) == unwind(*memory, current_fp, current_lr, limit)),
    {
        let mut u = match Unwinder::start(current_fp, current_lr, limit) {
            Ok(u) => u,
            Err(e) => return Err(e),
        };
        assert(u.outcome(*memory) == unwind(*memory, current_fp, current_lr, limit));
        while !u.done
            invariant
                u.wf(),
                u.current_lr == current_lr,
                u.outcome(*memory) == unwind(*memory, current_fp, current_lr, limit),
            decreases u.fuel(),
        {
            let frame = memory.read(u.fp);
            u.advance(frame);
        }
        Ok(u.finish())
    }

    /// The backtrace of a legacy inline hook's context, from its frame pointer (x29) and
    /// link register (x30).
    pub fn new_from_legacy_inline_ctx(memory: &StackMemory, ctx: &LegacyInlineCtx, limit: usize) -> (r: Result<
        Backtrace,
        BacktraceError,
    >)
        ensures
            ctx.registers[29].0 == 0 ==> r == Err::<Backtrace, BacktraceError>(
                BacktraceError::InitialFPNull,
            ),
            ctx.registers[29].0 != 0 ==> (r matches Ok(bt) && bt.current_lr == ctx.registers[30].0
                && (bt.current_frame, bt.backtrace@) == unwind(
                *memory,
                ctx.registers[29].0,
                ctx.registers[30].0,
                limit,
            )),
    {
        Self::new(memory, ctx.registers[29].x(), ctx.registers[30].x(), limit)
    }

    /// The backtrace of an inline hook's context, from its frame pointer (x29) and link
    /// register (x30).
    pub fn new_from_inline_ctx(memory: &StackMemory, ctx: &InlineCtx, limit: usize) -> (r: Result<
        Backtrace,
        BacktraceError,
    >)
        ensures
            ctx.registers[29].0 == 0 ==> r == Err::<Backtrace, BacktraceError>(
                BacktraceError::InitialFPNull,
            ),
            ctx.registers[29].0 != 0 ==> (r matches Ok(bt) && bt.current_lr == ctx.registers[30].0
                && (bt.current_frame, bt.backtrace@) == unwind(
                *memory,
                ctx.registers[29].0,
                ctx.registers[30].0,
                limit,
            )),
    {
        Self::new(memory, ctx.registers[29].x(), ctx.registers[30].x(), limit)
    }
}

/// `address - base` taken modulo 2^64.
pub open spec fn module_offset(address: u64, base: u64) -> int {
    if address >= base {
        address - base
    } else {
        address - base + 0x1_0000_0000_0000_0000
    }
}

/// The name under which a module is shown: its recovered name, or `unknown`.
pub open spec fn name_or_unknown(name: Option<Seq<u8>>) -> Seq<u8> {
    match name {
        Some(n) => n,
        None => "unknown".spec_bytes(),
    }
}

/// How an address is shown: 16 hexadecimal digits, then, where a module holds it, the
/// module's name and the offset from its base, then, where a symbol of that module
/// covers it, the symbol's name and the offset from its start.
pub open spec fn formatted_addr(reg: ModuleRegistry, address: u64) -> Seq<u8> {
    hex_fixed(address as nat, 16) + match module_for_address(reg, address as int) {
        None => seq![],
        Some(m) => " (".spec_bytes() + name_or_unknown(module_name(m)) + " + ".spec_bytes()
            + hex_prefixed(module_offset(address, m.module_base) as nat) + ")".spec_bytes()
            + match symbol_for_address(m, address as int) {
            None => seq![],
            Some((n, start)) => " (".spec_bytes() + n + " + ".spec_bytes() + hex_prefixed(
                (address - start) as nat,
            ) + ")".spec_bytes(),
        },
    }
}

/// Where in a symbol an address lies.
#[derive(Clone, Debug)]
pub struct SymbolLocation {
    pub name: Vec<u8>,
    pub start: u64,
    pub offset: u64,
}

/// Where in a module an address lies.
#[derive(Clone, Debug)]
pub struct ModuleLocation {
    pub name: Option<Vec<u8>>,
    pub base: u64,
    pub offset: u64,
    pub symbol: Option<SymbolLocation>,
}

/// An address with the module and the symbol it resolves to, where there are some.
#[derive(Clone, Debug)]
pub struct AddressLocation {
    pub address: u64,
    pub module: Option<ModuleLocation>,
}

/// The bytes of an optional name.
pub open spec fn opt_bytes(name: Option<Vec<u8>>) -> Option<Seq<u8>> {
    match name {
        Some(n) => Some(n@),
        None => None,
    }
}

/// `loc` is what `address` resolves to in `reg`.
pub open spec fn resolves_to(loc: AddressLocation, reg: ModuleRegistry, address: u64) -> bool {
    &&& loc.address == address
    &&& match module_for_address(reg, address as int) {
        None => loc.module is None,
        Some(m) => loc.module matches Some(ml) && ml.base == m.module_base && ml.offset
            == module_offset(address, m.module_base) && opt_bytes(ml.name) == module_name(m)
            && match symbol_for_address(m, address as int) {
            None => ml.symbol is None,
            Some((n, start)) => ml.symbol matches Some(sl) && sl.name@ == n && sl.start == start
                && sl.offset == address - start,
        },
    }
}

/// How `loc` is shown (see [`formatted_addr`]).
pub open spec fn rendered(loc: AddressLocation) -> Seq<u8> {
    hex_fixed(loc.address as nat, 16) + match loc.module {
        None => seq![],
        Some(ml) => " (".spec_bytes() + name_or_unknown(opt_bytes(ml.name)) + " + ".spec_bytes()
            + hex_prefixed(ml.offset as nat) + ")".spec_bytes() + match ml.symbol {
            None => seq![],
            Some(sl) => " (".spec_bytes() + sl.name@ + " + ".spec_bytes() + hex_prefixed(
                sl.offset as nat,
            ) + ")".spec_bytes(),
        },
    }
}

/// Resolves `address` to the module whose region holds it and to the symbol of that
/// module that covers it.
pub fn resolve_address(registry: &ModuleRegistry, address: u64) -> (r: AddressLocation)
    ensures
        resolves_to(r, *registry, address),
{
    match find_module_for_address(registry, address) {
        None => AddressLocation { address, module: None },
        Some(object) => {
            let offset = address.wrapping_sub(object.module_base);
            let name = object.get_module_name();
            let symbol = match object.find_symbol_for_address(address) {
                Some((sym_name, start)) => Some(
                    SymbolLocation { name: sym_name, start, offset: address - start },
                ),
                None => None,
            };
            let r = AddressLocation {
                address,
                module: Some(ModuleLocation { name, base: object.module_base, offset, symbol }),
            };
            assert(opt_bytes(name) == module_name(*object));
            r
        },
    }
}

impl AddressLocation {
    /// Appends how this location is shown to `out`.
    pub fn render(&self, out: &mut Vec<u8>)
        ensures
            final(out)@ == old(out)@ + rendered(*self),
    {
        append_hex_fixed(out, self.address, 16);
        match &self.module {
            None => {},
            Some(ml) => {
                append_str(out, " (");
                match &ml.name {
                    Some(n) => append_bytes(out, n.as_slice()),
                    None => append_str(out, "unknown"),
                }
                append_str(out, " + ");
                append_hex_prefixed(out, ml.offset);
                append_str(out, ")");
                match &ml.symbol {
                    None => {},
                    Some(sl) => {
                        append_str(out, " (");
                        append_bytes(out, sl.name.as_slice());
                        append_str(out, " + ");
                        append_hex_prefixed(out, sl.offset);
                        append_str(out, ")");
                    },
                }
            },
        }
        assert(out@ =~= old(out)@ + rendered(*self));
    }
}

/// The line of a backtrace for its `index`-th entry.
pub open spec fn entry_line(
    reg: ModuleRegistry,
    index: nat,
    entry: Result<BacktraceEntry, BacktraceError>,
) -> Seq<u8> {
    "      [".spec_bytes() + dec_pad2(index) + "]: ".spec_bytes() + match entry {
        Ok(e) => formatted_addr(reg, e.frame.return_address),
        Err(e) => e.message_spec(),
    } + "\n".spec_bytes()
}

/// The lines of the first `n` of `entries`, numbered from `first`.
pub open spec fn entry_lines(
    reg: ModuleRegistry,
    entries: Seq<Result<BacktraceEntry, BacktraceError>>,
    first: nat,
    n: nat,
) -> Seq<u8>
    decreases n,
{
    if n == 0 {
        seq![]
    } else {
        entry_lines(reg, entries, first, (n - 1) as nat) + entry_line(
            reg,
            (first + n - 1) as nat,
            entries[n - 1],
        )
    }
}

/// The text of a backtrace: the return address it was taken at, then one numbered line
/// per frame, the current frame first.
pub open spec fn backtrace_text(
    reg: ModuleRegistry,
    current_lr: u64,
    current_frame: Option<BacktraceEntry>,
    entries: Seq<Result<BacktraceEntry, BacktraceError>>,
) -> Seq<u8> {
    "Current LR: ".spec_bytes() + formatted_addr(reg, current_lr) + "\n".spec_bytes() + match current_frame {
        Some(e) => entry_line(reg, 0, Ok(e)),
        None => seq![],
    } + entry_lines(reg, entries, if current_frame is Some { 1 } else { 0 }, entries.len())
}

impl Backtrace {
    /// Appends how `address` is shown to `writer`.
    pub fn write_formatted_addr(writer: &mut Vec<u8>, registry: &ModuleRegistry, address: u64)
        ensures
            final(writer)@ == old(writer)@ + formatted_addr(*registry, address),
    {
        let loc = resolve_address(registry, address);
        loc.render(writer);
        assert(rendered(loc) =~= formatted_addr(*registry, address));
    }

    fn write_entry_line(
        writer: &mut Vec<u8>,
        registry: &ModuleRegistry,
        index: u64,
        entry: &Result<BacktraceEntry, BacktraceError>,
    )
        ensures
            final(writer)@ == old(writer)@ + entry_line(*registry, index as nat, *entry),
    {
        append_str(writer, "      [");
        append_dec_pad2(writer, index);
        append_str(writer, "]: ");
        match entry {
            Ok(e) => Self::write_formatted_addr(writer, registry, e.frame.return_address),
            Err(e) => append_str(writer, e.message()),
        }
        append_str(writer, "\n");
        assert(writer@ =~= old(writer)@ + entry_line(*registry, index as nat, *entry));
    }

    /// Appends the text of this backtrace to `writer`.
    pub fn write(&self, writer: &mut Vec<u8>, registry: &ModuleRegistry)
        ensures
            final(writer)@ == old(writer)@ + backtrace_text(
                *registry,
                self.current_lr,
                self.current_frame,
                self.backtrace@,
            ),
    {
        append_str(writer, "Current LR: ");
        Self::write_formatted_addr(writer, registry, self.current_lr);
        append_str(writer, "\n");
        let mut first: u64 = 0;
        match &self.current_frame {
            Some(e) => {
                Self::write_entry_line(writer, registry, 0, &Ok(*e));
                first = 1;
            },
            None => {},
        }
        let ghost head = writer@;
        let mut i: usize = 0;
        while i < self.backtrace.len()
            invariant
                i <= self.backtrace@.len(),
                first == (if self.current_frame is Some { 1nat } else { 0nat }),
                writer@ == head + entry_lines(*registry, self.backtrace@, first as nat, i as nat),
            decreases self.backtrace@.len() - i,
        {
            Self::write_entry_line(writer, registry, first + i as u64, &self.backtrace[i]);
            i += 1;
            assert(writer@ =~= head + entry_lines(*registry, self.backtrace@, first as nat, i as nat));
        }
        assert(writer@ =~= old(writer)@ + backtrace_text(
            *registry,
            self.current_lr,
            self.current_frame,
            self.backtrace@,
        ));
    }
}

/// A resolved address inside a known module and a known symbol is shown with the
/// module's name, its offset from the module base, the symbol's name and its offset from
/// the symbol's start, and both offsets give back the address: it lies past the module
/// base by the first and past the symbol's start by the second.
pub proof fn lemma_formatted_location(reg: ModuleRegistry, address: u64)
    requires
        module_for_address(reg, address as int) is Some,
        symbol_for_address(module_for_address(reg, address as int).unwrap(), address as int) is Some,
    ensures
        ({
            let m = module_for_address(reg, address as int).unwrap();
            let (name, start) = symbol_for_address(m, address as int).unwrap();
            &&& m.module_base <= start <= address
            &&& m.module_base + module_offset(address, m.module_base) == address
            &&& formatted_addr(reg, address) == hex_fixed(address as nat, 16) + " (".spec_bytes()
                + name_or_unknown(module_name(m)) + " + ".spec_bytes() + hex_prefixed(
                (address - m.module_base) as nat,
            ) + ")".spec_bytes() + " (".spec_bytes() + name + " + ".spec_bytes() + hex_prefixed(
                (address - start) as nat,
            ) + ")".spec_bytes()
        }),
{
    let m = module_for_address(reg, address as int).unwrap();
    crate::rtld::lemma_symbol_resolution(m, address as int);
}

} // verus!
