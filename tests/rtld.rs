use skyline::hooks::{resolve_address, Backtrace, BacktraceEntry, BacktraceError, StackFrame};
use skyline::rtld::{
    find_module_by_name, find_module_for_address, get_module_for_self, module_header_address,
    ElfSymbol, MemoryRegion, ModuleHeader, ModuleObject, ModuleObjectList, ModuleRegistry,
    MOD0_MAGIC,
};

fn path_metadata(path: &str) -> Vec<u8> {
    let mut b = vec![0, 0, 0, 0];
    b.extend_from_slice(&(path.len() as u32).to_le_bytes());
    b.extend_from_slice(path.as_bytes());
    b
}

fn func(st_name: u32, st_value: u64, st_size: u64) -> ElfSymbol {
    ElfSymbol { st_name, st_info: 0x12, st_shndx: 1, st_value, st_size }
}

fn module(address: u64, base: u64, size: u64, path: Option<&str>) -> ModuleObject {
    ModuleObject {
        address,
        module_base: base,
        region: Some(MemoryRegion { addr: base, size }),
        ro_region: Some(MemoryRegion { addr: base + size, size: 0x1000 }),
        ro_prefix: path.map(path_metadata).unwrap_or_default(),
        dynsym: vec![],
        dynstr: vec![],
    }
}

fn main_module() -> ModuleObject {
    let mut m = module(0x9000, 0x40_0000, 0x10_0000, Some("C:\\build\\out/main.nso"));
    m.dynstr = b"\0foo\0_ZN3bar3bazEv\0undef\0".to_vec();
    m.dynsym = vec![
        // An undefined symbol covering everything never resolves.
        ElfSymbol { st_name: 19, st_info: 0x12, st_shndx: 0, st_value: 0, st_size: 0x10_0000 },
        func(1, 0x1000, 0x20),
        func(5, 0x2000, 0x40),
        // An object, not a function.
        ElfSymbol { st_name: 1, st_info: 0x11, st_shndx: 1, st_value: 0x3000, st_size: 0x10 },
    ];
    m
}

fn registry() -> ModuleRegistry {
    let auto = vec![main_module(), module(0x9100, 0x80_0000, 0x1000, Some("sdk"))];
    let manual = vec![module(0x9200, 0x90_0000, 0x1000, None)];
    ModuleRegistry::new(auto, manual).unwrap()
}

fn text(bytes: Vec<u8>) -> String {
    String::from_utf8(bytes).unwrap()
}

#[test]
fn module_name_is_file_name_of_path() {
    assert_eq!(main_module().get_module_name(), Some(b"main.nso".to_vec()));
    assert_eq!(module(0, 0x1000, 0x10, Some("plain")).get_module_name(), Some(b"plain".to_vec()));
}

#[test]
fn module_name_fails_closed() {
    assert_eq!(module(0, 0x1000, 0x10, None).get_module_name(), None);
    let mut m = module(0, 0x1000, 0x10, Some("x"));
    m.ro_prefix[0] = 1;
    assert_eq!(m.get_module_name(), None);
    let mut m = module(0, 0x1000, 0x10, Some("name"));
    m.ro_prefix.truncate(10);
    assert_eq!(m.get_module_name(), None);
    let mut m = module(0, 0x1000, 0x10, Some("name"));
    m.ro_prefix[4..8].copy_from_slice(&(-3i32).to_le_bytes());
    assert_eq!(m.get_module_name(), None);
    let mut m = module(0, 0x1000, 0x10, Some("name"));
    m.region = None;
    assert_eq!(m.get_module_name(), None);
}

#[test]
fn contains_address_includes_both_ends() {
    let m = module(0, 0x1000, 0x100, None);
    assert!(!m.contains_address(0xfff));
    assert!(m.contains_address(0x1000));
    assert!(m.contains_address(0x1100));
    assert!(!m.contains_address(0x1101));
    let mut m = m;
    m.region = None;
    assert!(!m.contains_address(0x1000));
}

#[test]
fn symbol_lookup_first_match_and_end_inclusive() {
    let m = main_module();
    assert_eq!(m.find_symbol_for_address(0x40_1010), Some((b"foo".to_vec(), 0x40_1000)));
    // Exactly at start + size still resolves.
    assert_eq!(m.find_symbol_for_address(0x40_1020), Some((b"foo".to_vec(), 0x40_1000)));
    assert_eq!(m.find_symbol_for_address(0x40_1021), None);
    assert_eq!(m.find_symbol_for_address(0x40_2000), Some((b"_ZN3bar3bazEv".to_vec(), 0x40_2000)));
    // The object symbol is skipped.
    assert_eq!(m.find_symbol_for_address(0x40_3008), None);
}

#[test]
fn reserved_section_symbols_are_skipped() {
    let mut m = main_module();
    m.dynsym = vec![ElfSymbol { st_name: 1, st_info: 2, st_shndx: 0xfff1, st_value: 0, st_size: 0x100 }];
    assert_eq!(m.find_symbol_for_address(0x40_0010), None);
    m.dynsym[0].st_shndx = 0xfeff;
    assert_eq!(m.find_symbol_for_address(0x40_0010), Some((b"foo".to_vec(), 0x40_0000)));
}

#[test]
fn symbol_name_without_terminator_runs_to_table_end() {
    let mut m = main_module();
    m.dynstr = b"\0abc".to_vec();
    m.dynsym = vec![func(1, 0, 0x10), func(9, 0x100, 0x10)];
    assert_eq!(m.find_symbol_for_address(0x40_0004), Some((b"abc".to_vec(), 0x40_0000)));
    assert_eq!(m.find_symbol_for_address(0x40_0104), Some((vec![], 0x40_0100)));
}

#[test]
fn module_lookup_by_address() {
    let reg = registry();
    assert_eq!(find_module_for_address(&reg, 0x40_5000).map(|m| m.address), Some(0x9000));
    assert_eq!(find_module_for_address(&reg, 0x80_0800).map(|m| m.address), Some(0x9100));
    assert_eq!(find_module_for_address(&reg, 0x90_0000).map(|m| m.address), Some(0x9200));
    assert!(find_module_for_address(&reg, 0x10).is_none());
}

#[test]
fn overlapping_modules_are_refused() {
    let a = module(1, 0x1000, 0x1000, None);
    let b = module(2, 0x1800, 0x1000, None);
    assert!(ModuleRegistry::new(vec![a.clone()], vec![b.clone()]).is_none());
    assert!(ModuleRegistry::new(vec![a.clone(), b.clone()], vec![]).is_none());
    let c = module(3, 0x2000, 0x1000, None);
    assert!(ModuleRegistry::new(vec![a], vec![c]).is_some());
}

#[test]
fn module_lookup_by_name() {
    let reg = registry();
    assert_eq!(find_module_by_name(&reg, b"sdk").map(|m| m.address), Some(0x9100));
    assert_eq!(find_module_by_name(&reg, b"main.nso").map(|m| m.address), Some(0x9000));
    assert!(find_module_by_name(&reg, b"missing").is_none());
    // A module without a recoverable name matches no name at all.
    assert!(find_module_by_name(&reg, b"__invalid_name").is_none());
    assert!(find_module_by_name(&reg, b"").is_none());
}

#[test]
fn module_list_iterator_walks_in_order() {
    let list = ModuleObjectList { objects: vec![module(1, 0, 1, None), module(2, 0x10, 1, None)] };
    let mut it = list.iter();
    assert_eq!(it.next().map(|m| m.address), Some(1));
    assert_eq!(it.next().map(|m| m.address), Some(2));
    assert!(it.next().is_none());
}

#[test]
fn self_module_from_header() {
    let header = ModuleHeader {
        magic: MOD0_MAGIC,
        dynamic_offset: 0,
        bss_start_offset: 0,
        bss_end_offset: 0,
        unwind_start_offset: 0,
        unwind_end_offset: 0,
        module_object_offset: 0x200,
    };
    assert_eq!(module_header_address(0x1000, 0x80), Some(0x1080));
    assert_eq!(module_header_address(u64::MAX, 1), None);
    assert_eq!(get_module_for_self(0x1080, &header), Some(0x1280));
    let bad = ModuleHeader { magic: 0x1234, ..header };
    assert_eq!(get_module_for_self(0x1080, &bad), None);
    assert_eq!(get_module_for_self(u64::MAX, &header), None);
}

#[test]
fn formatted_address_with_module_and_symbol() {
    let reg = registry();
    let mut out = vec![];
    Backtrace::write_formatted_addr(&mut out, &reg, 0x40_1010);
    assert_eq!(text(out), "0000000000401010 (main.nso + 0x1010) (foo + 0x10)");
}

#[test]
fn formatted_address_round_trip() {
    let reg = registry();
    let loc = resolve_address(&reg, 0x40_2024);
    let m = loc.module.as_ref().unwrap();
    let s = m.symbol.as_ref().unwrap();
    assert_eq!(m.base + m.offset, 0x40_2024);
    assert_eq!(s.start + s.offset, 0x40_2024);
    assert_eq!(m.name.as_deref(), Some(&b"main.nso"[..]));
    assert_eq!(s.name, b"_ZN3bar3bazEv".to_vec());
    let mut out = vec![];
    loc.render(&mut out);
    assert_eq!(text(out), "0000000000402024 (main.nso + 0x2024) (_ZN3bar3bazEv + 0x24)");
}

#[test]
fn formatted_address_fallbacks() {
    let reg = registry();
    let mut out = vec![];
    Backtrace::write_formatted_addr(&mut out, &reg, 0x90_0010);
    assert_eq!(text(out), "0000000000900010 (unknown + 0x10)");
    let mut out = vec![];
    Backtrace::write_formatted_addr(&mut out, &reg, 0xdead);
    assert_eq!(text(out), "000000000000dead");
    let mut out = vec![];
    Backtrace::write_formatted_addr(&mut out, &reg, 0x40_0000);
    assert_eq!(text(out), "0000000000400000 (main.nso + 0x0)");
}

#[test]
fn written_backtrace_text() {
    let reg = registry();
    let entry = BacktraceEntry::new(0x7000, StackFrame { previous_frame: 0x7100, return_address: 0x40_1004 });
    let mut entries = vec![Ok(entry); 10];
    entries.push(Err(BacktraceError::RecursiveFramePointer));
    let bt = Backtrace {
        current_frame: Some(BacktraceEntry::new(0x6000, StackFrame { previous_frame: 0x7000, return_address: 0x10 })),
        current_lr: 0x40_2000,
        backtrace: entries,
    };
    let mut out = b">".to_vec();
    bt.write(&mut out, &reg);
    let mut expected = String::from(">Current LR: 0000000000402000 (main.nso + 0x2000) (_ZN3bar3bazEv + 0x0)\n");
    expected.push_str("      [00]: 0000000000000010\n");
    for i in 1..=10 {
        expected.push_str(&format!("      [{:02}]: 0000000000401004 (main.nso + 0x1004) (foo + 0x4)\n", i));
    }
    expected.push_str("      [11]: The backtrace is recursive and the frame pointer points to itself\n");
    assert_eq!(text(out), expected);
}
