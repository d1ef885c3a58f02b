use skyline::hooks::{
    error_module_on_replace, should_be_jit_hook, Diagnostic, HookAttributes, HookError, HookKind,
    HookRecord, HookState, HookStyle, HookTarget, HookTargetDesc, HookType, KnownModule,
    ModuleArg, PatchRequest, Strategy,
};
use skyline::memory::{MemoryRange, ModuleMemory, StaticModule};
use skyline::rtld::{MemoryRegion, ModuleObject, ModuleRegistry};

fn attrs(style: HookStyle, value: HookTarget, module: Option<ModuleArg>, force_jit: bool) -> HookAttributes {
    HookAttributes { module, style, value, force_jit }
}

fn range(start: u64, size: u64) -> MemoryRange {
    MemoryRange { start, size }
}

fn static_module(text_start: u64, text_size: u64) -> ModuleMemory {
    ModuleMemory {
        total: range(text_start, text_size * 2),
        text: range(text_start, text_size),
        rodata: range(text_start + text_size, 0),
        data: range(text_start + text_size, 0),
        bss: range(text_start + text_size, 0),
        module_header: 0,
        module_object: 0,
    }
}

fn named_module(base: u64, path: &str) -> ModuleObject {
    let mut prefix = vec![0, 0, 0, 0];
    prefix.extend_from_slice(&(path.len() as u32).to_le_bytes());
    prefix.extend_from_slice(path.as_bytes());
    ModuleObject {
        address: 0x5000,
        module_base: base,
        region: Some(MemoryRegion { addr: base, size: 0x1000 }),
        ro_region: Some(MemoryRegion { addr: base + 0x1000, size: 0x1000 }),
        ro_prefix: prefix,
        dynsym: vec![],
        dynstr: vec![],
    }
}

fn empty_registry() -> ModuleRegistry {
    ModuleRegistry::new(vec![], vec![]).unwrap()
}

#[test]
fn string_symbol_selects_stub() {
    let a = attrs(HookStyle::Symbol, HookTarget::Str(b"some_symbol".to_vec()), None, false);
    assert_eq!(should_be_jit_hook(&a), (false, None));
    let rec = HookRecord::declare(b"my_hook".to_vec(), a, HookKind::Hook).unwrap();
    assert_eq!(rec.strategy, Strategy::PrecompiledStub);
    assert!(matches!(&rec.target, HookTargetDesc::FutureSymbol(s) if s == b"some_symbol"));
}

#[test]
fn force_jit_on_string_symbol_is_an_error() {
    let a = attrs(HookStyle::Symbol, HookTarget::Str(b"some_symbol".to_vec()), None, true);
    assert_eq!(should_be_jit_hook(&a), (false, Some(Diagnostic::InvalidForceJit)));
    assert!(matches!(HookRecord::declare(b"h".to_vec(), a, HookKind::Hook), Err(Diagnostic::InvalidForceJit)));
}

#[test]
fn literal_under_replace_takes_stub_unless_forced() {
    let a = attrs(HookStyle::Symbol, HookTarget::Lit(0x1234), None, false);
    assert_eq!(should_be_jit_hook(&a), (false, None));
    let rec = HookRecord::declare(b"h".to_vec(), a, HookKind::Inline).unwrap();
    assert_eq!(rec.strategy, Strategy::PrecompiledStub);
    assert!(matches!(rec.target, HookTargetDesc::Symbol(0x1234)));

    let forced = attrs(HookStyle::Symbol, HookTarget::Lit(0x1234), None, true);
    assert_eq!(should_be_jit_hook(&forced), (true, None));
    let rec = HookRecord::declare(b"h".to_vec(), forced, HookKind::Inline).unwrap();
    assert_eq!(rec.strategy, Strategy::DirectPatch);
    assert!(matches!(rec.target, HookTargetDesc::Absolute(0x1234)));
}

#[test]
fn path_under_replace_follows_force_jit() {
    assert_eq!(should_be_jit_hook(&attrs(HookStyle::Symbol, HookTarget::Path(0x10), None, false)), (false, None));
    assert_eq!(should_be_jit_hook(&attrs(HookStyle::Symbol, HookTarget::Path(0x10), None, true)), (true, None));
}

#[test]
fn offset_always_patches_directly() {
    let a = attrs(HookStyle::Offset, HookTarget::Lit(0x1234), None, false);
    assert_eq!(should_be_jit_hook(&a), (true, None));
    let forced = attrs(HookStyle::Offset, HookTarget::Lit(0x1234), None, true);
    assert_eq!(should_be_jit_hook(&forced), (true, Some(Diagnostic::UnnecessaryForceJit)));
    let rec = HookRecord::declare(b"h".to_vec(), forced, HookKind::Hook).unwrap();
    assert_eq!(rec.strategy, Strategy::DirectPatch);
    assert!(matches!(rec.target, HookTargetDesc::KnownOffset(KnownModule::Main, 0x1234)));
}

#[test]
fn other_expression_under_replace_patches_directly() {
    let a = attrs(HookStyle::Symbol, HookTarget::Expr(0x40), None, true);
    assert_eq!(should_be_jit_hook(&a), (true, Some(Diagnostic::UnnecessaryForceJit)));
}

#[test]
fn module_argument_on_replace_is_an_error() {
    let a = attrs(HookStyle::Symbol, HookTarget::Lit(1), Some(ModuleArg::ByKnown(KnownModule::Sdk)), false);
    assert_eq!(error_module_on_replace(&a), Some(Diagnostic::ModuleOnReplace));
    assert!(matches!(HookRecord::declare(b"h".to_vec(), a, HookKind::Hook), Err(Diagnostic::ModuleOnReplace)));
    let b = attrs(HookStyle::Offset, HookTarget::Lit(1), Some(ModuleArg::ByKnown(KnownModule::Sdk)), false);
    assert_eq!(error_module_on_replace(&b), None);
}

#[test]
fn string_offset_is_an_error() {
    let a = attrs(HookStyle::Offset, HookTarget::Str(b"x".to_vec()), None, false);
    assert!(matches!(HookRecord::declare(b"h".to_vec(), a, HookKind::Hook), Err(Diagnostic::StringOffset)));
}

#[test]
fn kind_names_and_types() {
    assert_eq!(HookKind::Callback.as_str(), "callback");
    assert_eq!(HookKind::Inline.as_str(), "inline");
    assert_eq!(HookKind::LegacyInline.as_str(), "legacy_inline");
    assert_eq!(HookKind::Hook.as_str(), "hook");
    assert_eq!(HookKind::LegacyInline.to_path(), HookType::LegacyInline);
    assert_eq!(KnownModule::Skyline.to_path(), StaticModule::SkylineEx);
    assert_eq!(KnownModule::Rtld.to_path(), StaticModule::Rtld);
}

#[test]
fn trampoline_lifecycle() {
    let a = attrs(HookStyle::Offset, HookTarget::Lit(0x20), None, false);
    let mut rec = HookRecord::declare(b"h".to_vec(), a, HookKind::Hook).unwrap();
    assert_eq!(rec.trampoline, 0);
    assert_eq!(rec.state, HookState::Uninstalled);
    assert_eq!(rec.original(), Err(HookError::TrampolineUnset));
    let req = rec.install(Some(static_module(0x10_0000, 0x100)), None).unwrap();
    assert_eq!(req, PatchRequest::Install { target: 0x10_0020, kind: HookType::Hook });
    assert_eq!(rec.state, HookState::Pending);
    assert_eq!(rec.original(), Err(HookError::TrampolineUnset));
    rec.complete_install(0xabc0);
    assert_eq!(rec.state, HookState::Installed);
    assert_eq!(rec.original(), Ok(0xabc0));
    assert_eq!(rec.uninstall(), PatchRequest::Uninstall);
    assert_eq!(rec.trampoline, 0);
    assert_eq!(rec.original(), Err(HookError::TrampolineUnset));
}

#[test]
fn failed_install_leaves_hook_uninstalled() {
    let a = attrs(HookStyle::Symbol, HookTarget::Expr(0x4000), None, false);
    let mut rec = HookRecord::declare(b"h".to_vec(), a, HookKind::Callback).unwrap();
    assert_eq!(rec.install(None, None), Ok(PatchRequest::Install { target: 0x4000, kind: HookType::Callback }));
    rec.complete_install(0);
    assert_eq!(rec.state, HookState::Uninstalled);
    assert_eq!(rec.original(), Err(HookError::TrampolineUnset));
}

#[test]
fn offset_past_text_is_refused() {
    let a = attrs(HookStyle::Offset, HookTarget::Lit(0x100), Some(ModuleArg::ByKnown(KnownModule::Sdk)), false);
    let mut rec = HookRecord::declare(b"h".to_vec(), a, HookKind::Hook).unwrap();
    assert_eq!(rec.install(Some(static_module(0x10_0000, 0x100)), None), Err(HookError::OffsetOutOfRange));
    assert_eq!(rec.state, HookState::Uninstalled);
    assert_eq!(rec.install(None, None), Err(HookError::StaticModuleMissing));
}

#[test]
fn named_module_not_loaded_defers_install() {
    let a = attrs(HookStyle::Offset, HookTarget::Lit(0x30), Some(ModuleArg::ByName(b"plugin.nro".to_vec())), false);
    let mut rec = HookRecord::declare(b"h".to_vec(), a, HookKind::Inline).unwrap();
    assert!(matches!(&rec.target, HookTargetDesc::NamedOffset(n, 0x30) if n == b"plugin.nro"));
    assert_eq!(rec.install(None, None), Ok(PatchRequest::InstallOnDynamicLoad { offset: 0x30, kind: HookType::Inline }));
    assert_eq!(rec.state, HookState::Pending);
    rec.complete_install(0x7770);
    assert_eq!(rec.original(), Ok(0x7770));
}

#[test]
fn named_static_module_installs_directly() {
    let a = attrs(HookStyle::Offset, HookTarget::Lit(0x30), Some(ModuleArg::ByName(b"static".to_vec())), false);
    let mut rec = HookRecord::declare(b"h".to_vec(), a, HookKind::Hook).unwrap();
    assert_eq!(
        rec.install(Some(static_module(0x20_0000, 0x1000)), None),
        Ok(PatchRequest::Install { target: 0x20_0030, kind: HookType::Hook })
    );
}

#[test]
fn stub_install_needs_self_module() {
    let a = attrs(HookStyle::Symbol, HookTarget::Str(b"later".to_vec()), None, false);
    let mut rec = HookRecord::declare(b"h".to_vec(), a, HookKind::Hook).unwrap();
    assert_eq!(rec.install(None, None), Err(HookError::SelfModuleNotFound));
    assert_eq!(
        rec.install(None, Some(0x8000)),
        Ok(PatchRequest::InstallOnSymbolFuture { module_object: 0x8000, kind: HookType::Hook })
    );
    let b = attrs(HookStyle::Symbol, HookTarget::Path(0x4444), None, false);
    let mut rec = HookRecord::declare(b"h".to_vec(), b, HookKind::LegacyInline).unwrap();
    assert_eq!(
        rec.install(None, Some(0x8000)),
        Ok(PatchRequest::InstallOnSymbol { module_object: 0x8000, target: 0x4444, kind: HookType::LegacyInline })
    );
    assert_eq!(rec.uninstall(), PatchRequest::UninstallFromSymbol);
}

#[test]
fn stub_enable_flips_flag_only() {
    let a = attrs(HookStyle::Symbol, HookTarget::Path(0x4444), None, false);
    let mut rec = HookRecord::declare(b"h".to_vec(), a, HookKind::Hook).unwrap();
    assert!(rec.enabled);
    assert_eq!(rec.set_enable(false, None, &empty_registry()), Ok(None));
    assert!(!rec.enabled);
    assert_eq!(rec.set_enable(true, None, &empty_registry()), Ok(None));
    assert!(rec.enabled);
}

#[test]
fn direct_enable_resolves_target_again() {
    let a = attrs(HookStyle::Offset, HookTarget::Lit(0x30), Some(ModuleArg::ByName(b"plugin.nro".to_vec())), false);
    let mut rec = HookRecord::declare(b"h".to_vec(), a, HookKind::Hook).unwrap();
    rec.install(None, None).unwrap();
    rec.complete_install(0x7770);
    assert_eq!(rec.set_enable(false, None, &empty_registry()), Err(HookError::DynamicModuleNotLoaded));
    assert!(rec.enabled);
    let reg = ModuleRegistry::new(vec![named_module(0x60_0000, "rom:/plugin.nro")], vec![]).unwrap();
    assert_eq!(
        rec.set_enable(false, None, &reg),
        Ok(Some(PatchRequest::SetEnable { target: 0x60_0030, enable: false }))
    );
    assert!(!rec.enabled);
    assert_eq!(rec.original(), Ok(0x7770));
    let b = attrs(HookStyle::Symbol, HookTarget::Expr(0x1000), None, false);
    let mut rec = HookRecord::declare(b"h".to_vec(), b, HookKind::Hook).unwrap();
    assert_eq!(
        rec.set_enable(true, None, &empty_registry()),
        Ok(Some(PatchRequest::SetEnable { target: 0x1000, enable: true }))
    );
}
