//! How a hook is declared, which strategy installs it, and the requests that install,
//! uninstall, enable and disable it make of the patch engine.
use vstd::prelude::*;
use vstd::string::StringSliceAdditionalSpecFns;
use crate::memory::{ModuleMemory, StaticModule};
use crate::rtld::{find_module_by_name, module_named, ModuleRegistry};

verus! {

/// The kind of a hook as the patch engine knows it: how many registers it saves and
/// what the call site looks like. Only [`HookType::Hook`] can call the original code.
#[derive(Copy, Clone, PartialEq, Eq, Structural, Debug)]
pub enum HookType {
    Callback,
    Inline,
    LegacyInline,
    Hook,
}

/// The kind of hook a declaration asks for.
#[derive(Copy, Clone, PartialEq, Eq, Structural, Debug)]
pub enum HookKind {
    Callback,
    Inline,
    LegacyInline,
    Hook,
}

impl HookKind {
    /// The [`HookType`] of this kind.
    pub open spec fn hook_type(self) -> HookType {
        match self {
            HookKind::Callback => HookType::Callback,
            HookKind::Inline => HookType::Inline,
            HookKind::LegacyInline => HookType::LegacyInline,
            HookKind::Hook => HookType::Hook,
        }
    }

    /// The name of this kind, as it appears in the names of generated items.
    pub open spec fn name_spec(self) -> Seq<u8> {
        match self {
            HookKind::Callback => "callback".spec_bytes(),
            HookKind::Inline => "inline".spec_bytes(),
            HookKind::LegacyInline => "legacy_inline".spec_bytes(),
            HookKind::Hook => "hook".spec_bytes(),
        }
    }

    /// The [`HookType`] that names this kind to the patch engine.
    pub fn to_path(&self) -> (r: HookType)
        ensures
            r == self.hook_type(),
    {
        match self {
            HookKind::Callback => HookType::Callback,
            HookKind::Inline => HookType::Inline,
            HookKind::LegacyInline => HookType::LegacyInline,
            HookKind::Hook => HookType::Hook,
        }
    }

    /// The name of this kind, as it appears in the names of generated items.
    pub fn as_str(&self) -> (r: &'static str)
        ensures
            r.spec_bytes() == self.name_spec(),
    {
        match self {
            HookKind::Callback => "callback",
            HookKind::Inline => "inline",
            HookKind::LegacyInline => "legacy_inline",
            HookKind::Hook => "hook",
        }
    }
}

/// A module that a hook's offset may be taken in, named by keyword.
#[derive(Copy, Clone, PartialEq, Eq, Structural, Debug)]
pub enum KnownModule {
    Rtld,
    Main,
    Skyline,
    Sdk,
}

impl KnownModule {
    /// The static module that the keyword names.
    pub open spec fn static_module(self) -> StaticModule {
        match self {
            KnownModule::Rtld => StaticModule::Rtld,
            KnownModule::Main => StaticModule::Main,
            KnownModule::Skyline => StaticModule::SkylineEx,
            KnownModule::Sdk => StaticModule::Sdk,
        }
    }

    /// The static module that the keyword names.
    pub fn to_path(&self) -> (r: StaticModule)
        ensures
            r == self.static_module(),
    {
        match self {
            KnownModule::Rtld => StaticModule::Rtld,
            KnownModule::Main => StaticModule::Main,
            KnownModule::Skyline => StaticModule::SkylineEx,
            KnownModule::Sdk => StaticModule::Sdk,
        }
    }
}

/// The module argument of a hook declaration: a keyword, or a module's name.
#[derive(Clone, Debug)]
pub enum ModuleArg {
    ByKnown(KnownModule),
    ByName(Vec<u8>),
}

/// How a declaration gives its target: `replace` (an absolute address or a symbol) or
/// `offset` (an offset in a module).
#[derive(Copy, Clone, PartialEq, Eq, Structural, Debug)]
pub enum HookStyle {
    Symbol,
    Offset,
}

/// The target expression of a declaration: its form, and the value it gives.
#[derive(Clone, Debug)]
pub enum HookTarget {
    /// A string literal: the name of a symbol that may only resolve later.
    Str(Vec<u8>),
    /// Any other literal.
    Lit(u64),
    /// A path, such as the name of a function.
    Path(u64),
    /// Any other expression.
    Expr(u64),
}

/// The arguments of a hook declaration.
#[derive(Clone, Debug)]
pub struct HookAttributes {
    pub module: Option<ModuleArg>,
    pub style: HookStyle,
    pub value: HookTarget,
    pub force_jit: bool,
}

/// A message about a hook declaration.
#[derive(Copy, Clone, PartialEq, Eq, Structural, Debug)]
pub enum Diagnostic {
    /// Warning: `force_jit` on a hook that is patched directly anyway.
    UnnecessaryForceJit,
    /// Error: `force_jit` on a hook that must be installed on a symbol.
    InvalidForceJit,
    /// Error: a `module` argument on a hook that gives an absolute address (`replace`).
    ModuleOnReplace,
    /// Error: a string given as an offset.
    StringOffset,
}

impl Diagnostic {
    /// The message stops the declaration.
    pub open spec fn is_error(self) -> bool {
        !(self is UnnecessaryForceJit)
    }
}

/// The hook must be, or is asked to be, installed by patching code directly (rather than
/// through its precompiled stub). A string under `replace` always takes the stub; a
/// literal or a path under `replace` takes the stub unless `force_jit` is given; any
/// other expression, and everything under `offset`, is patched directly.
pub open spec fn uses_jit(attrs: HookAttributes) -> bool {
    match attrs.style {
        HookStyle::Offset => true,
        HookStyle::Symbol => match attrs.value {
            HookTarget::Str(_) => false,
            HookTarget::Lit(_) => attrs.force_jit,
            HookTarget::Path(_) => attrs.force_jit,
            HookTarget::Expr(_) => true,
        },
    }
}

/// What the choice of strategy has to say of `force_jit`: an error where the stub is
/// required, a warning where direct patching is required anyway.
pub open spec fn strategy_diagnostic(attrs: HookAttributes) -> Option<Diagnostic> {
    if !attrs.force_jit {
        None
    } else {
        match attrs.style {
            HookStyle::Offset => Some(Diagnostic::UnnecessaryForceJit),
            HookStyle::Symbol => match attrs.value {
                HookTarget::Str(_) => Some(Diagnostic::InvalidForceJit),
                HookTarget::Lit(_) => None,
                HookTarget::Path(_) => None,
                HookTarget::Expr(_) => Some(Diagnostic::UnnecessaryForceJit),
            },
        }
    }
}

/// Whether the hook is patched directly, with what the choice has to say of `force_jit`.
pub fn should_be_jit_hook(attrs: &HookAttributes) -> (r: (bool, Option<Diagnostic>))
    ensures
        r.0 == uses_jit(*attrs),
        r.1 == strategy_diagnostic(*attrs),
{
    let warning = if attrs.force_jit {
        Some(Diagnostic::UnnecessaryForceJit)
    } else {
        None
    };
    match attrs.style {
        HookStyle::Offset => (true, warning),
        HookStyle::Symbol => match &attrs.value {
            HookTarget::Str(_) => {
                if attrs.force_jit {
                    (false, Some(Diagnostic::InvalidForceJit))
                } else {
                    (false, None)
                }
            },
            HookTarget::Lit(_) => (attrs.force_jit, None),
            HookTarget::Path(_) => (attrs.force_jit, None),
            HookTarget::Expr(_) => (true, warning),
        },
    }
}

/// The error for a `module` argument under `replace`, whose target is absolute.
pub fn error_module_on_replace(attrs: &HookAttributes) -> (r: Option<Diagnostic>)
    ensures
        r == (if attrs.style is Symbol && attrs.module is Some {
            Some(Diagnostic::ModuleOnReplace)
        } else {
            None
        }),
{
    match attrs.style {
        HookStyle::Symbol => match &attrs.module {
            Some(_) => Some(Diagnostic::ModuleOnReplace),
            None => None,
        },
        HookStyle::Offset => None,
    }
}

/// A string under `replace` always takes the precompiled stub, and `force_jit` on it is
/// an error; a literal under `replace` takes the stub unless `force_jit` asks for direct
/// patching, which is then accepted without a message; anything under `offset` is
/// patched directly.
pub proof fn lemma_strategy_selection(attrs: HookAttributes)
    ensures
        attrs.style is Symbol && attrs.value is Str ==> !uses_jit(attrs) && (attrs.force_jit
            ==> strategy_diagnostic(attrs) == Some(Diagnostic::InvalidForceJit)
            && Diagnostic::InvalidForceJit.is_error()),
        attrs.style is Symbol && attrs.value is Lit ==> uses_jit(attrs) == attrs.force_jit
            && strategy_diagnostic(attrs) is None,
        attrs.style is Offset ==> uses_jit(attrs),
{
}

/// How a hook is installed, decided once when it is declared.
#[derive(Copy, Clone, PartialEq, Eq, Structural, Debug)]
pub enum Strategy {
    /// The patch engine patches the code at the target's address.
    DirectPatch,
    /// A precompiled stub is bound to a symbol and gated by the hook's enable flag.
    PrecompiledStub,
}

/// What a hook targets once its declaration is read.
#[derive(Clone, Debug)]
pub enum HookTargetDesc {
    /// An absolute address, patched directly.
    Absolute(u64),
    /// An offset in the text of a statically known module.
    KnownOffset(KnownModule, u64),
    /// An offset in the text of a module named by its name: a static module if there is
    /// one of that name, else a module that the loader may load later.
    NamedOffset(Vec<u8>, u64),
    /// The address of a symbol, for the stub.
    Symbol(u64),
    /// The name of a symbol that may only resolve later, for the stub.
    FutureSymbol(Vec<u8>),
}

/// The value of a non-string target expression.
pub open spec fn target_value(t: HookTarget) -> u64 {
    match t {
        HookTarget::Str(_) => 0,
        HookTarget::Lit(v) => v,
        HookTarget::Path(v) => v,
        HookTarget::Expr(v) => v,
    }
}

/// The strategy and target that a declaration gives, or the error that stops it.
pub open spec fn declaration(attrs: HookAttributes) -> Result<(Strategy, HookTargetDesc), Diagnostic> {
    let d = strategy_diagnostic(attrs);
    if d is Some && d.unwrap().is_error() {
        Err(d.unwrap())
    } else if attrs.style is Symbol && attrs.module is Some {
        Err(Diagnostic::ModuleOnReplace)
    } else if !uses_jit(attrs) {
        match attrs.value {
            HookTarget::Str(name) => Ok((Strategy::PrecompiledStub, HookTargetDesc::FutureSymbol(name))),
            _ => Ok((Strategy::PrecompiledStub, HookTargetDesc::Symbol(target_value(attrs.value)))),
        }
    } else if attrs.style is Symbol {
        Ok((Strategy::DirectPatch, HookTargetDesc::Absolute(target_value(attrs.value))))
    } else if attrs.value is Str {
        Err(Diagnostic::StringOffset)
    } else {
        let offset = target_value(attrs.value);
        match attrs.module {
            None => Ok((Strategy::DirectPatch, HookTargetDesc::KnownOffset(KnownModule::Main, offset))),
            Some(ModuleArg::ByKnown(k)) => Ok((Strategy::DirectPatch, HookTargetDesc::KnownOffset(k, offset))),
            Some(ModuleArg::ByName(n)) => Ok((Strategy::DirectPatch, HookTargetDesc::NamedOffset(n, offset))),
        }
    }
}

/// Where a hook stands in its installation.
#[derive(Copy, Clone, PartialEq, Eq, Structural, Debug)]
pub enum HookState {
    Uninstalled,
    /// Installation was requested and the trampoline is not filled yet (the target
    /// module may not be loaded yet).
    Pending,
    Installed,
}

/// A request to the patch engine or the loader. Names that a request needs are those
/// of the hook's target.
#[derive(Copy, Clone, PartialEq, Eq, Structural, Debug)]
pub enum PatchRequest {
    /// Patch the code at `target`; the engine returns the original code's entry point.
    Install { target: u64, kind: HookType },
    /// Patch at `offset` in the hook's named module once the loader loads it, filling the
    /// trampoline then.
    InstallOnDynamicLoad { offset: u64, kind: HookType },
    /// Bind the hook's stub to the symbol at `target`, registered by the module whose
    /// loader object is `module_object`.
    InstallOnSymbol { module_object: u64, target: u64, kind: HookType },
    /// Bind the hook's stub to its named symbol once it resolves.
    InstallOnSymbolFuture { module_object: u64, kind: HookType },
    /// Remove a directly patched hook.
    Uninstall,
    /// Remove a hook bound through its stub.
    UninstallFromSymbol,
    /// Enable or disable the directly patched hook at `target`.
    SetEnable { target: u64, enable: bool },
}

/// A misuse of the protocol or a target that cannot be resolved. All of these abort
/// the operation that meets them.
#[derive(Copy, Clone, PartialEq, Eq, Structural, Debug)]
pub enum HookError {
    /// The original code was called before the trampoline was filled.
    TrampolineUnset,
    /// The hook's named module is not loaded, so there is no address to enable or
    /// disable.
    DynamicModuleNotLoaded,
    /// The module that declares the hook cannot be found.
    SelfModuleNotFound,
    /// No static module is known for the hook's keyword.
    StaticModuleMissing,
    /// The offset lies outside the module.
    OffsetOutOfRange,
}

/// The address at `offset` in the text of the static module `module`.
pub open spec fn static_text_address(module: Option<ModuleMemory>, offset: u64) -> Result<u64, HookError> {
    match module {
        None => Err(HookError::StaticModuleMissing),
        Some(mm) => if offset < mm.text.size && mm.text.start + offset < 0x1_0000_0000_0000_0000 {
            Ok((mm.text.start + offset) as u64)
        } else {
            Err(HookError::OffsetOutOfRange)
        },
    }
}

fn text_address_of(module: Option<ModuleMemory>, offset: u64) -> (r: Result<u64, HookError>)
    ensures
        r == static_text_address(module, offset),
{
    match module {
        None => Err(HookError::StaticModuleMissing),
        Some(mm) => match mm.text_address(offset) {
            Some(a) => Ok(a),
            None => Err(HookError::OffsetOutOfRange),
        },
    }
}

/// A declared hook: its identity, strategy and target, its trampoline slot (the original
/// code's entry point, zero until installed) and its enable flag.
pub struct HookRecord {
    pub name: Vec<u8>,
    pub kind: HookKind,
    pub strategy: Strategy,
    pub target: HookTargetDesc,
    pub trampoline: u64,
    pub enabled: bool,
    pub state: HookState,
}

/// The request that installs a hook of `kind` with `target`, where
/// `static_module` is the static module its offset is taken in (None where it names none
/// or none of that name exists) and `self_object` the loader object of the module that
/// declares it.
pub open spec fn install_request(
    target: HookTargetDesc,
    kind: HookKind,
    static_module: Option<ModuleMemory>,
    self_object: Option<u64>,
) -> Result<PatchRequest, HookError> {
    let ty = kind.hook_type();
    match target {
        HookTargetDesc::Absolute(a) => Ok(PatchRequest::Install { target: a, kind: ty }),
        HookTargetDesc::KnownOffset(_, off) => match static_text_address(static_module, off) {
            Ok(a) => Ok(PatchRequest::Install { target: a, kind: ty }),
            Err(e) => Err(e),
        },
        HookTargetDesc::NamedOffset(_, off) => if static_module is None {
            Ok(PatchRequest::InstallOnDynamicLoad { offset: off, kind: ty })
        } else {
            match static_text_address(static_module, off) {
                Ok(a) => Ok(PatchRequest::Install { target: a, kind: ty }),
                Err(e) => Err(e),
            }
        },
        HookTargetDesc::Symbol(a) => match self_object {
            None => Err(HookError::SelfModuleNotFound),
            Some(o) => Ok(PatchRequest::InstallOnSymbol { module_object: o, target: a, kind: ty }),
        },
        HookTargetDesc::FutureSymbol(_) => match self_object {
            None => Err(HookError::SelfModuleNotFound),
            Some(o) => Ok(PatchRequest::InstallOnSymbolFuture { module_object: o, kind: ty }),
        },
    }
}

/// The address at which a directly patched hook is enabled or disabled: for a named
/// module that is not static, the base of the loaded module of that name. (Stub targets
/// are never toggled through the patch engine.)
pub open spec fn toggle_address(
    target: HookTargetDesc,
    static_module: Option<ModuleMemory>,
    registry: ModuleRegistry,
) -> Result<u64, HookError> {
    match target {
        HookTargetDesc::Absolute(a) => Ok(a),
        HookTargetDesc::KnownOffset(_, off) => static_text_address(static_module, off),
        HookTargetDesc::NamedOffset(name, off) => if static_module is Some {
            static_text_address(static_module, off)
        } else {
            match module_named(registry, name@) {
                None => Err(HookError::DynamicModuleNotLoaded),
                Some(m) => if m.module_base + off < 0x1_0000_0000_0000_0000 {
                    Ok((m.module_base + off) as u64)
                } else {
                    Err(HookError::OffsetOutOfRange)
                },
            }
        },
        HookTargetDesc::Symbol(a) => Ok(a),
        HookTargetDesc::FutureSymbol(_) => Ok(0),
    }
}

/// What calling the original code through the trampoline slot of `rec` gives: its entry
/// point, or [`HookError::TrampolineUnset`] while the slot is empty.
pub open spec fn original_result(rec: HookRecord) -> Result<u64, HookError> {
    if rec.trampoline != 0 {
        Ok(rec.trampoline)
    } else {
        Err(HookError::TrampolineUnset)
    }
}

/// The original code of a well-formed hook can be called exactly when the hook is
/// installed; before that, and after it is uninstalled, the slot is empty and the call
/// fails with [`HookError::TrampolineUnset`].
pub proof fn lemma_original_needs_installation(rec: HookRecord)
    requires
        rec.wf(),
    ensures
        original_result(rec) is Ok <==> rec.state is Installed,
        !(rec.state is Installed) ==> rec.trampoline == 0 && original_result(rec) == Err::<
            u64,
            HookError,
        >(HookError::TrampolineUnset),
        rec.state is Installed ==> rec.trampoline != 0 && original_result(rec) == Ok::<
            u64,
            HookError,
        >(rec.trampoline),
{
}

impl HookRecord {
    /// The trampoline slot is filled exactly when the hook is installed, and the target
    /// is one that the strategy can install.
    pub open spec fn wf(self) -> bool {
        &&& (self.state is Installed) == (self.trampoline != 0)
        &&& (self.strategy is DirectPatch) == (self.target is Absolute || self.target is KnownOffset
            || self.target is NamedOffset)
    }

    /// Declares the hook `name` of `kind` with the arguments `attrs`: uninstalled, with an
    /// empty trampoline slot, enabled.
    pub fn declare(name: Vec<u8>, attrs: HookAttributes, kind: HookKind) -> (r: Result<
        HookRecord,
        Diagnostic,
    >)
        ensures
            match declaration(attrs) {
                Ok((strategy, target)) => r matches Ok(rec) && rec.wf() && rec.name == name
                    && rec.kind == kind && rec.strategy == strategy && rec.target == target
                    && rec.trampoline == 0 && rec.enabled && rec.state is Uninstalled,
                Err(d) => r == Err::<HookRecord, Diagnostic>(d),
            },
    {
        let (jit, diagnostic) = should_be_jit_hook(&attrs);
        match diagnostic {
            Some(Diagnostic::UnnecessaryForceJit) => {},
            Some(d) => return Err(d),
            None => {},
        }
        if let Some(d) = error_module_on_replace(&attrs) {
            return Err(d);
        }
        let HookAttributes { module, style, value, force_jit } = attrs;
        let (strategy, target) = if !jit {
            match value {
                HookTarget::Str(symbol) => (Strategy::PrecompiledStub, HookTargetDesc::FutureSymbol(symbol)),
                HookTarget::Lit(v) => (Strategy::PrecompiledStub, HookTargetDesc::Symbol(v)),
                HookTarget::Path(v) => (Strategy::PrecompiledStub, HookTargetDesc::Symbol(v)),
                HookTarget::Expr(v) => (Strategy::PrecompiledStub, HookTargetDesc::Symbol(v)),
            }
        } else {
            let v = match value {
                HookTarget::Str(_) => {
                    return Err(Diagnostic::StringOffset);
                },
                HookTarget::Lit(v) => v,
                HookTarget::Path(v) => v,
                HookTarget::Expr(v) => v,
            };
            match style {
                HookStyle::Symbol => (Strategy::DirectPatch, HookTargetDesc::Absolute(v)),
                HookStyle::Offset => match module {
                    None => (Strategy::DirectPatch, HookTargetDesc::KnownOffset(KnownModule::Main, v)),
                    Some(ModuleArg::ByKnown(k)) => (Strategy::DirectPatch, HookTargetDesc::KnownOffset(k, v)),
                    Some(ModuleArg::ByName(n)) => (Strategy::DirectPatch, HookTargetDesc::NamedOffset(n, v)),
                },
            }
        };
        Ok(
            HookRecord {
                name,
                kind,
                strategy,
                target,
                trampoline: 0,
                enabled: true,
                state: HookState::Uninstalled,
            },
        )
    }

    /// Requests the installation of an uninstalled hook. `static_module` is the static
    /// module its offset is taken in, None where it names none or none of that name
    /// exists; `self_object` is the loader object of the module that declares it. The
    /// hook is pending until [`HookRecord::complete_install`].
    pub fn install(&mut self, static_module: Option<ModuleMemory>, self_object: Option<u64>) -> (r:
        Result<PatchRequest, HookError>)
        requires
            old(self).wf(),
            old(self).state is Uninstalled,
        ensures
            r == install_request(old(self).target, old(self).kind, static_module, self_object),
            final(self).wf(),
            final(self).name == old(self).name,
            final(self).kind == old(self).kind,
            final(self).strategy == old(self).strategy,
            final(self).target == old(self).target,
            final(self).trampoline == old(self).trampoline,
            final(self).enabled == old(self).enabled,
            r is Ok ==> final(self).state is Pending,
            r is Err ==> final(self).state is Uninstalled,
    {
        let ty = self.kind.to_path();
        let r = match &self.target {
            HookTargetDesc::Absolute(a) => Ok(PatchRequest::Install { target: *a, kind: ty }),
            HookTargetDesc::KnownOffset(_, off) => match text_address_of(static_module, *off) {
                Ok(a) => Ok(PatchRequest::Install { target: a, kind: ty }),
                Err(e) => Err(e),
            },
            HookTargetDesc::NamedOffset(_, off) => match static_module {
                None => Ok(PatchRequest::InstallOnDynamicLoad { offset: *off, kind: ty }),
                Some(_) => match text_address_of(static_module, *off) {
                    Ok(a) => Ok(PatchRequest::Install { target: a, kind: ty }),
                    Err(e) => Err(e),
                },
            },
            HookTargetDesc::Symbol(a) => match self_object {
                None => Err(HookError::SelfModuleNotFound),
                Some(o) => Ok(PatchRequest::InstallOnSymbol { module_object: o, target: *a, kind: ty }),
            },
            HookTargetDesc::FutureSymbol(_) => match self_object {
                None => Err(HookError::SelfModuleNotFound),
                Some(o) => Ok(PatchRequest::InstallOnSymbolFuture { module_object: o, kind: ty }),
            },
        };
        if r.is_ok() {
            self.state = HookState::Pending;
        }
        r
    }

    /// Records the original code's entry point once the patch engine has given it (for a
    /// deferred request, once the loader has filled the slot). A null entry point means
    /// the installation failed, and the hook is uninstalled again.
    pub fn complete_install(&mut self, original_entry: u64)
        requires
            old(self).wf(),
            old(self).state is Pending,
        ensures
            final(self).wf(),
            final(self).name == old(self).name,
            final(self).kind == old(self).kind,
            final(self).strategy == old(self).strategy,
            final(self).target == old(self).target,
            final(self).enabled == old(self).enabled,
            original_entry != 0 ==> final(self).state is Installed && final(self).trampoline
                == original_entry,
            original_entry == 0 ==> final(self).state is Uninstalled && final(self).trampoline
                == 0,
    {
        self.trampoline = original_entry;
        if original_entry != 0 {
            self.state = HookState::Installed;
        } else {
            self.state = HookState::Uninstalled;
        }
    }

    /// Requests the removal of the hook. It is uninstalled at once, and its trampoline
    /// slot is cleared, so that the original code cannot be called through it.
    pub fn uninstall(&mut self) -> (r: PatchRequest)
        requires
            old(self).wf(),
        ensures
            old(self).strategy is DirectPatch ==> r == PatchRequest::Uninstall,
            old(self).strategy is PrecompiledStub ==> r == PatchRequest::UninstallFromSymbol,
            final(self).wf(),
            final(self).state is Uninstalled,
            final(self).trampoline == 0,
            final(self).name == old(self).name,
            final(self).kind == old(self).kind,
            final(self).strategy == old(self).strategy,
            final(self).target == old(self).target,
            final(self).enabled == old(self).enabled,
    {
        self.state = HookState::Uninstalled;
        self.trampoline = 0;
        match self.strategy {
            Strategy::DirectPatch => PatchRequest::Uninstall,
            Strategy::PrecompiledStub => PatchRequest::UninstallFromSymbol,
        }
    }

    /// Enables or disables the hook. A stub hook only flips its flag and cannot fail. A
    /// directly patched hook asks the patch engine to toggle it at its target's address,
    /// resolved again now; it fails where that address cannot be resolved, as for a named
    /// module that is not loaded. The trampoline is never touched.
    pub fn set_enable(
        &mut self,
        enable: bool,
        static_module: Option<ModuleMemory>,
        registry: &ModuleRegistry,
    ) -> (r: Result<Option<PatchRequest>, HookError>)
        requires
            old(self).wf(),
        ensures
            final(self).wf(),
            final(self).name == old(self).name,
            final(self).kind == old(self).kind,
            final(self).strategy == old(self).strategy,
            final(self).target == old(self).target,
            final(self).trampoline == old(self).trampoline,
            final(self).state == old(self).state,
            old(self).strategy is PrecompiledStub ==> r == Ok::<Option<PatchRequest>, HookError>(None)
                && final(self).enabled == enable,
            old(self).strategy is DirectPatch ==> match toggle_address(old(self).target, static_module, *registry) {
                Ok(a) => r == Ok::<Option<PatchRequest>, HookError>(Some(PatchRequest::SetEnable { target: a, enable }))
                    && final(self).enabled == enable,
                Err(e) => r == Err::<Option<PatchRequest>, HookError>(e) && final(self).enabled == old(self).enabled,
            },
    {
        match self.strategy {
            Strategy::PrecompiledStub => {
                self.enabled = enable;
                return Ok(None);
            },
            Strategy::DirectPatch => {},
        }
        let address = match &self.target {
            HookTargetDesc::Absolute(a) => Ok(*a),
            HookTargetDesc::KnownOffset(_, off) => text_address_of(static_module, *off),
            HookTargetDesc::NamedOffset(name, off) => match static_module {
                Some(_) => text_address_of(static_module, *off),
                None => match find_module_by_name(registry, name.as_slice()) {
                    None => Err(HookError::DynamicModuleNotLoaded),
                    Some(m) => match m.module_base.checked_add(*off) {
                        Some(a) => Ok(a),
                        None => Err(HookError::OffsetOutOfRange),
                    },
                },
            },
            HookTargetDesc::Symbol(a) => Ok(*a),
            HookTargetDesc::FutureSymbol(_) => Ok(0),
        };
        match address {
            Ok(a) => {
                self.enabled = enable;
                Ok(Some(PatchRequest::SetEnable { target: a, enable }))
            },
            Err(e) => Err(e),
        }
    }

    /// The entry point of the original code, to be called with the hooked function's
    /// exact signature; [`HookError::TrampolineUnset`] while the slot is empty.
    pub fn original(&self) -> (r: Result<u64, HookError>)
        ensures
            r == original_result(*self),
    {
        if self.trampoline == 0 {
            Err(HookError::TrampolineUnset)
        } else {
            Ok(self.trampoline)
        }
    }
}

} // verus!
