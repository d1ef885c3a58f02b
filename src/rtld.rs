//! The loader's view of the process: loaded modules, their memory regions and their
//! dynamic symbol tables, and lookups of addresses and names against them.
use vstd::prelude::*;

verus! {

/// A memory region as the kernel reports it for a queried address.
#[derive(Copy, Clone, PartialEq, Eq, Structural, Debug)]
pub struct MemoryRegion {
    pub addr: u64,
    pub size: u64,
}

impl MemoryRegion {
    /// The first address past the region.
    pub open spec fn end(self) -> int {
        self.addr + self.size
    }

    /// `address` lies in the region, counting its end address in.
    pub open spec fn covers(self, address: int) -> bool {
        self.addr <= address <= self.end()
    }
}

/// The header (`MOD0`) that every module carries, giving offsets relative to itself.
#[derive(Copy, Clone, PartialEq, Eq, Structural, Debug)]
pub struct ModuleHeader {
    pub magic: u32,
    pub dynamic_offset: u32,
    pub bss_start_offset: u32,
    pub bss_end_offset: u32,
    pub unwind_start_offset: u32,
    pub unwind_end_offset: u32,
    pub module_object_offset: u32,
}

/// The magic word `MOD0` of a [`ModuleHeader`], read as a little-endian integer.
pub const MOD0_MAGIC: u32 = 0x30444F4D;

/// Section index of an undefined symbol.
pub const SHN_UNDEF: u16 = 0;

/// Symbol type of a function (the low nibble of `st_info`).
pub const STT_FUNC: u8 = 2;

/// One entry of a module's dynamic symbol table (an ELF64 symbol).
#[derive(Copy, Clone, PartialEq, Eq, Structural, Debug)]
pub struct ElfSymbol {
    /// Offset of the symbol's name in the string table.
    pub st_name: u32,
    /// Symbol type (low nibble) and binding (high nibble).
    pub st_info: u8,
    /// Section index, or one of the reserved indices `0xff00..=0xffff`.
    pub st_shndx: u16,
    /// Address of the symbol relative to the module base.
    pub st_value: u64,
    /// Size of the symbol in bytes.
    pub st_size: u64,
}

impl ElfSymbol {
    /// The symbol is a function in a regular section, so that addresses resolve to it.
    pub open spec fn is_eligible(self) -> bool {
        self.st_shndx != SHN_UNDEF && (self.st_shndx & 0xff00u16) != 0xff00u16 && (self.st_info
            & 0xfu8) == STT_FUNC
    }

    /// `is_eligible`, computed.
    pub fn eligible(&self) -> (r: bool)
        ensures
            r == self.is_eligible(),
    {
        self.st_shndx != SHN_UNDEF && (self.st_shndx & 0xff00u16) != 0xff00u16 && (self.st_info
            & 0xfu8) == STT_FUNC
    }
}

/// Index of the first NUL byte of `s` at or after `from`, or `s.len()` if there is none.
pub open spec fn nul_index(s: Seq<u8>, from: int) -> int
    decreases s.len() - from,
{
    if from >= s.len() || from < 0 {
        s.len() as int
    } else if s[from] == 0 {
        from
    } else {
        nul_index(s, from + 1)
    }
}

/// The NUL-terminated string that starts at offset `off` of the string table `s`
/// (empty where `off` is past the table's end; cut at the end where no NUL follows).
pub open spec fn c_str_at(s: Seq<u8>, off: int) -> Seq<u8> {
    if off < s.len() {
        s.subrange(off, nul_index(s, off))
    } else {
        seq![]
    }
}

/// The little-endian integer of four bytes.
pub open spec fn le_u32(b0: u8, b1: u8, b2: u8, b3: u8) -> int {
    b0 + 0x100 * b1 + 0x1_0000 * b2 + 0x100_0000 * b3
}

fn read_le_u32(bytes: &Vec<u8>, at: usize) -> (r: u32)
    requires
        at + 4 <= bytes@.len(),
    ensures
        r == le_u32(bytes@[at as int], bytes@[at + 1], bytes@[at + 2], bytes@[at + 3]),
{
    let n = bytes.len();
    assert(at + 4 <= n);
    bytes[at] as u32 + 0x100 * (bytes[at + 1] as u32) + 0x1_0000 * (bytes[at + 2] as u32)
        + 0x100_0000 * (bytes[at + 3] as u32)
}

/// Index of the last occurrence of `c` in `s`, or -1 if there is none.
pub open spec fn last_index_of(s: Seq<u8>, c: u8) -> int
    decreases s.len(),
{
    if s.len() == 0 {
        -1
    } else if s.last() == c {
        s.len() - 1
    } else {
        last_index_of(s.drop_last(), c)
    }
}

/// What follows the last `c` in `s`; all of `s` where `c` does not occur.
pub open spec fn after_last(s: Seq<u8>, c: u8) -> Seq<u8> {
    s.subrange(last_index_of(s, c) + 1, s.len() as int)
}

proof fn lemma_last_index_bounds(s: Seq<u8>, c: u8)
    ensures
        -1 <= last_index_of(s, c) < s.len(),
    decreases s.len(),
{
    if s.len() > 0 && s.last() != c {
        lemma_last_index_bounds(s.drop_last(), c);
    }
}

fn after_last_byte(s: &[u8], c: u8) -> (r: Vec<u8>)
    ensures
        r@ == after_last(s@, c),
{
    let mut i: usize = s.len();
    assert(s@.subrange(0, i as int) =~= s@);
    while i > 0 && s[i - 1] != c
        invariant
            i <= s@.len(),
            last_index_of(s@, c) == last_index_of(s@.subrange(0, i as int), c),
        decreases i,
    {
        assert(s@.subrange(0, i as int).drop_last() =~= s@.subrange(0, i - 1));
        i -= 1;
    }
    proof {
        if i > 0 {
            assert(s@.subrange(0, i as int).last() == c);
        } else {
            assert(s@.subrange(0, 0) =~= Seq::<u8>::empty());
        }
        lemma_last_index_bounds(s@, c);
    }
    let mut r: Vec<u8> = Vec::new();
    let mut j: usize = i;
    while j < s.len()
        invariant
            i <= j <= s@.len(),
            r@ == s@.subrange(i as int, j as int),
        decreases s@.len() - j,
    {
        r.push(s[j]);
        j += 1;
        assert(r@ =~= s@.subrange(i as int, j as int));
    }
    r
}

/// The file name of a module path: what follows its last `\` and then its last `/`.
pub open spec fn path_file_name(path: Seq<u8>) -> Seq<u8> {
    after_last(after_last(path, 0x5cu8), 0x2fu8)
}

/// A module that the process's loader keeps in one of its lists, with what the
/// library reads of its memory.
#[derive(Clone, Debug)]
pub struct ModuleObject {
    /// Where the loader keeps this object: the handle by which the patch engine knows it.
    pub address: u64,
    /// Address at which the module's image is mapped.
    pub module_base: u64,
    /// The region that contains `module_base`, where the kernel reports one.
    pub region: Option<MemoryRegion>,
    /// The region that starts where `region` ends (the module's read-only data).
    pub ro_region: Option<MemoryRegion>,
    /// The leading bytes of `ro_region`, where the module's path is recorded.
    pub ro_prefix: Vec<u8>,
    /// The dynamic symbol table.
    pub dynsym: Vec<ElfSymbol>,
    /// The dynamic string table.
    pub dynstr: Vec<u8>,
}

/// The name of a module, recovered from the metadata at the start of its read-only
/// data: a zero word, the path's length as a positive 32-bit integer, then the path.
/// None wherever that layout is not found.
pub open spec fn module_name(m: ModuleObject) -> Option<Seq<u8>> {
    let b = m.ro_prefix@;
    if m.region.is_none() || m.ro_region.is_none() || b.len() < 8 {
        None
    } else {
        let info = m.region.unwrap();
        let ro = m.ro_region.unwrap();
        let rw_data_offset = le_u32(b[0], b[1], b[2], b[3]);
        let path_length = le_u32(b[4], b[5], b[6], b[7]);
        if rw_data_offset + info.addr == ro.end() || rw_data_offset != 0 {
            None
        } else if path_length == 0 || path_length >= 0x8000_0000 || 8 + path_length > b.len() {
            None
        } else {
            Some(path_file_name(b.subrange(8, 8 + path_length)))
        }
    }
}

/// Address of the `i`-th symbol of `m` (may lie past the 64-bit range).
pub open spec fn symbol_start(m: ModuleObject, i: int) -> int {
    m.module_base + m.dynsym@[i].st_value
}

/// The `i`-th symbol of `m` is eligible and its range, end included, holds `address`.
pub open spec fn symbol_covers(m: ModuleObject, i: int, address: int) -> bool {
    &&& m.dynsym@[i].is_eligible()
    &&& symbol_start(m, i) <= address <= symbol_start(m, i) + m.dynsym@[i].st_size
}

/// Index of the first symbol of `m`, at or after `from`, that covers `address`.
pub open spec fn first_covering_symbol(m: ModuleObject, address: int, from: int) -> Option<int>
    decreases m.dynsym@.len() - from,
{
    if from < 0 || from >= m.dynsym@.len() {
        None
    } else if symbol_covers(m, from, address) {
        Some(from)
    } else {
        first_covering_symbol(m, address, from + 1)
    }
}

proof fn lemma_first_covering(m: ModuleObject, address: int, from: int)
    requires
        0 <= from,
    ensures
        match first_covering_symbol(m, address, from) {
            Some(i) => from <= i < m.dynsym@.len() && symbol_covers(m, i, address) && forall|
                k: int,
            |
                from <= k < i ==> !symbol_covers(m, k, address),
            None => forall|k: int| from <= k < m.dynsym@.len() ==> !symbol_covers(m, k, address),
        },
    decreases m.dynsym@.len() - from,
{
    if from < m.dynsym@.len() && !symbol_covers(m, from, address) {
        lemma_first_covering(m, address, from + 1);
    }
}

/// The name and start address of the symbol of `m` that `address` resolves to.
pub open spec fn symbol_for_address(m: ModuleObject, address: int) -> Option<(Seq<u8>, int)> {
    match first_covering_symbol(m, address, 0) {
        Some(i) => Some((c_str_at(m.dynstr@, m.dynsym@[i].st_name as int), symbol_start(m, i))),
        None => None,
    }
}

impl ModuleObject {
    /// `address` lies in the region of this module's base, end address included.
    pub open spec fn holds(self, address: int) -> bool {
        self.region.is_some() && self.region.unwrap().covers(address)
    }

    /// Recovers the module's file name from the path recorded in its read-only data.
    pub fn get_module_name(&self) -> (r: Option<Vec<u8>>)
        ensures
            r matches Some(n) ==> module_name(*self) == Some(n@),
            r is None ==> module_name(*self) is None,
    {
        let b = &self.ro_prefix;
        let info = match self.region {
            Some(info) => info,
            None => return None,
        };
        let ro = match self.ro_region {
            Some(ro) => ro,
            None => return None,
        };
        if b.len() < 8 {
            return None;
        }
        let rw_data_offset = read_le_u32(b, 0);
        if rw_data_offset as u128 + info.addr as u128 == ro.addr as u128 + ro.size as u128 {
            return None;
        }
        if rw_data_offset != 0 {
            return None;
        }
        let path_length = read_le_u32(b, 4);
        if path_length == 0 || path_length >= 0x8000_0000 || path_length as usize > b.len() - 8 {
            return None;
        }
        let end: usize = 8 + path_length as usize;
        let mut path: Vec<u8> = Vec::new();
        let mut i: usize = 8;
        while i < end
            invariant
                end == 8 + path_length,
                8 <= i <= 8 + path_length <= b@.len(),
                path@ == b@.subrange(8, i as int),
            decreases 8 + path_length - i,
        {
            path.push(b[i]);
            i += 1;
            assert(path@ =~= b@.subrange(8, i as int));
        }
        let file = after_last_byte(path.as_slice(), 0x5cu8);
        let name = after_last_byte(file.as_slice(), 0x2fu8);
        Some(name)
    }

    /// Whether `address` lies in the region of this module's base, end address included.
    pub fn contains_address(&self, address: u64) -> (r: bool)
        ensures
            r == self.holds(address as int),
    {
        match self.region {
            Some(info) => info.addr <= address && address as u128 <= info.addr as u128
                + info.size as u128,
            None => false,
        }
    }

    fn symbol_name(&self, offset: u32) -> (r: Vec<u8>)
        ensures
            r@ == c_str_at(self.dynstr@, offset as int),
    {
        let s = &self.dynstr;
        let start = offset as usize;
        if start >= s.len() {
            return Vec::new();
        }
        let mut r: Vec<u8> = Vec::new();
        let mut j: usize = start;
        while j < s.len() && s[j] != 0
            invariant
                start <= j <= s@.len(),
                nul_index(s@, start as int) == nul_index(s@, j as int),
                r@ == s@.subrange(start as int, j as int),
            decreases s@.len() - j,
        {
            r.push(s[j]);
            j += 1;
            assert(r@ =~= s@.subrange(start as int, j as int));
        }
        r
    }

    /// The first eligible function symbol, in table order, whose range holds `address`
    /// (its end address included), as its name and start address.
    pub fn find_symbol_for_address(&self, address: u64) -> (r: Option<(Vec<u8>, u64)>)
        ensures
            match symbol_for_address(*self, address as int) {
                Some((name, start)) => r matches Some((n, s)) && n@ == name && s == start,
                None => r is None,
            },
            r matches Some((n, s)) ==> s <= address,
    {
        let mut i: usize = 0;
        while i < self.dynsym.len()
            invariant
                i <= self.dynsym@.len(),
                first_covering_symbol(*self, address as int, 0) == first_covering_symbol(
                    *self,
                    address as int,
                    i as int,
                ),
            decreases self.dynsym@.len() - i,
        {
            let symbol = self.dynsym[i];
            if symbol.eligible() {
                let start: u128 = self.module_base as u128 + symbol.st_value as u128;
                let end: u128 = start + symbol.st_size as u128;
                if start <= address as u128 && address as u128 <= end {
                    let name = self.symbol_name(symbol.st_name);
                    return Some((name, start as u64));
                }
            }
            i += 1;
        }
        None
    }
}

/// One of the loader's lists of modules, in list order.
#[derive(Clone, Debug)]
pub struct ModuleObjectList {
    pub objects: Vec<ModuleObject>,
}

impl ModuleObjectList {
    /// Walks the list from its front.
    pub fn iter(&self) -> (r: ModuleObjectListIterator<'_>)
        ensures
            r.list == self,
            r.index == 0,
    {
        ModuleObjectListIterator { list: self, index: 0 }
    }
}

/// A walk over a [`ModuleObjectList`].
pub struct ModuleObjectListIterator<'a> {
    pub list: &'a ModuleObjectList,
    pub index: usize,
}

impl<'a> ModuleObjectListIterator<'a> {
    /// The next module of the list, or None at the end of the list.
    pub fn next(&mut self) -> (r: Option<&'a ModuleObject>)
        ensures
            final(self).list == old(self).list,
            old(self).index < old(self).list.objects@.len() ==> r == Some(
                &old(self).list.objects@[old(self).index as int],
            ) && final(self).index == old(self).index + 1,
            old(self).index >= old(self).list.objects@.len() ==> r is None && final(self).index
                == old(self).index,
    {
        if self.index < self.list.objects.len() {
            let r = &self.list.objects[self.index];
            self.index = self.index + 1;
            Some(r)
        } else {
            None
        }
    }
}

/// The regions of `a` and `b`, taken as half-open ranges, do not overlap.
pub open spec fn regions_disjoint(a: ModuleObject, b: ModuleObject) -> bool {
    a.region is None || b.region is None || a.region.unwrap().end() <= b.region.unwrap().addr
        || b.region.unwrap().end() <= a.region.unwrap().addr
}

fn check_disjoint(a: &ModuleObject, b: &ModuleObject) -> (r: bool)
    ensures
        r == regions_disjoint(*a, *b),
{
    match (a.region, b.region) {
        (Some(x), Some(y)) => x.addr as u128 + x.size as u128 <= y.addr as u128 || y.addr as u128
            + y.size as u128 <= x.addr as u128,
        _ => true,
    }
}

/// No two modules of `a` have overlapping regions.
pub open spec fn disjoint_within(a: Seq<ModuleObject>) -> bool {
    forall|i: int, j: int| 0 <= i < j < a.len() ==> regions_disjoint(#[trigger] a[i], #[trigger] a[j])
}

/// No module of `a` overlaps a module of `b`.
pub open spec fn disjoint_across(a: Seq<ModuleObject>, b: Seq<ModuleObject>) -> bool {
    forall|i: int, j: int|
        0 <= i < a.len() && 0 <= j < b.len() ==> regions_disjoint(#[trigger] a[i], #[trigger] b[j])
}

fn check_within(a: &Vec<ModuleObject>) -> (r: bool)
    ensures
        r == disjoint_within(a@),
{
    let n = a.len();
    let mut i: usize = 0;
    while i < n
        invariant
            n == a@.len(),
            i <= n,
            forall|p: int, q: int| 0 <= p < i && p < q < n ==> regions_disjoint(#[trigger] a@[p], #[trigger] a@[q]),
        decreases n - i,
    {
        let mut j: usize = i + 1;
        while j < n
            invariant
                n == a@.len(),
                i < n,
                i < j <= n,
                forall|p: int, q: int| 0 <= p < i && p < q < n ==> regions_disjoint(#[trigger] a@[p], #[trigger] a@[q]),
                forall|q: int| i < q < j ==> regions_disjoint(a@[i as int], #[trigger] a@[q]),
            decreases n - j,
        {
            if !check_disjoint(&a[i], &a[j]) {
                return false;
            }
            j += 1;
        }
        i += 1;
    }
    true
}

fn check_across(a: &Vec<ModuleObject>, b: &Vec<ModuleObject>) -> (r: bool)
    ensures
        r == disjoint_across(a@, b@),
{
    let mut i: usize = 0;
    while i < a.len()
        invariant
            i <= a@.len(),
            forall|p: int, q: int| 0 <= p < i && 0 <= q < b@.len() ==> regions_disjoint(#[trigger] a@[p], #[trigger] b@[q]),
        decreases a@.len() - i,
    {
        let mut j: usize = 0;
        while j < b.len()
            invariant
                i < a@.len(),
                j <= b@.len(),
                forall|p: int, q: int| 0 <= p < i && 0 <= q < b@.len() ==> regions_disjoint(#[trigger] a@[p], #[trigger] b@[q]),
                forall|q: int| 0 <= q < j ==> regions_disjoint(a@[i as int], #[trigger] b@[q]),
            decreases b@.len() - j,
        {
            if !check_disjoint(&a[i], &b[j]) {
                return false;
            }
            j += 1;
        }
        i += 1;
    }
    true
}

/// Index of the first module of `mods`, at or after `from`, whose region holds `address`.
pub open spec fn first_module_holding(mods: Seq<ModuleObject>, address: int, from: int) -> Option<int>
    decreases mods.len() - from,
{
    if from < 0 || from >= mods.len() {
        None
    } else if mods[from].holds(address) {
        Some(from)
    } else {
        first_module_holding(mods, address, from + 1)
    }
}

/// Index of the first module of `mods`, at or after `from`, whose recovered name is `name`.
pub open spec fn first_module_named(mods: Seq<ModuleObject>, name: Seq<u8>, from: int) -> Option<int>
    decreases mods.len() - from,
{
    if from < 0 || from >= mods.len() {
        None
    } else if module_name(mods[from]) == Some(name) {
        Some(from)
    } else {
        first_module_named(mods, name, from + 1)
    }
}

proof fn lemma_first_module_holding(mods: Seq<ModuleObject>, address: int, from: int)
    requires
        0 <= from,
    ensures
        match first_module_holding(mods, address, from) {
            Some(i) => from <= i < mods.len() && mods[i].holds(address) && forall|k: int|
                from <= k < i ==> !#[trigger] mods[k].holds(address),
            None => forall|k: int| from <= k < mods.len() ==> !#[trigger] mods[k].holds(address),
        },
    decreases mods.len() - from,
{
    if from < mods.len() && !mods[from].holds(address) {
        lemma_first_module_holding(mods, address, from + 1);
    }
}

/// The two lists of loaded modules that the process's loader keeps: the modules loaded
/// with the program, then those loaded on request.
#[derive(Clone, Debug)]
pub struct ModuleRegistry {
    pub auto_load: ModuleObjectList,
    pub manual_load: ModuleObjectList,
}

impl ModuleRegistry {
    /// Every module, the auto-loaded list first.
    pub open spec fn modules(self) -> Seq<ModuleObject> {
        self.auto_load.objects@ + self.manual_load.objects@
    }

    /// The regions of co-resident modules do not overlap.
    pub open spec fn wf(self) -> bool {
        &&& disjoint_within(self.auto_load.objects@)
        &&& disjoint_within(self.manual_load.objects@)
        &&& disjoint_across(self.auto_load.objects@, self.manual_load.objects@)
    }

    /// The registry of the two lists, or None where two of their modules overlap.
    pub fn new(auto_load: Vec<ModuleObject>, manual_load: Vec<ModuleObject>) -> (r: Option<
        ModuleRegistry,
    >)
        ensures
            r matches Some(reg) ==> reg.wf() && reg.auto_load.objects@ == auto_load@
                && reg.manual_load.objects@ == manual_load@,
            r is None ==> !(disjoint_within(auto_load@) && disjoint_within(manual_load@)
                && disjoint_across(auto_load@, manual_load@)),
    {
        if check_within(&auto_load) && check_within(&manual_load) && check_across(
            &auto_load,
            &manual_load,
        ) {
            Some(
                ModuleRegistry {
                    auto_load: ModuleObjectList { objects: auto_load },
                    manual_load: ModuleObjectList { objects: manual_load },
                },
            )
        } else {
            None
        }
    }
}

/// The module that `address` resolves to: the first, auto-loaded list first, whose
/// region holds it (end address included).
pub open spec fn module_for_address(reg: ModuleRegistry, address: int) -> Option<ModuleObject> {
    match first_module_holding(reg.modules(), address, 0) {
        Some(i) => Some(reg.modules()[i]),
        None => None,
    }
}

/// Finds the module whose region holds `address`, scanning the auto-loaded list and then
/// the manually loaded one.
pub fn find_module_for_address(registry: &ModuleRegistry, address: u64) -> (r: Option<&ModuleObject>)
    ensures
        match module_for_address(*registry, address as int) {
            Some(m) => r matches Some(found) && *found == m,
            None => r is None,
        },
{
    let ghost mods = registry.modules();
    let auto = &registry.auto_load.objects;
    let manual = &registry.manual_load.objects;
    let mut i: usize = 0;
    while i < auto.len()
        invariant
            mods == auto@ + manual@,
            mods == registry.modules(),
            i <= auto@.len(),
            first_module_holding(mods, address as int, 0) == first_module_holding(mods, address as int, i as int),
        decreases auto@.len() - i,
    {
        assert(mods[i as int] == auto@[i as int]);
        if auto[i].contains_address(address) {
            assert(first_module_holding(mods, address as int, i as int) == Some(i as int));
            return Some(&auto[i]);
        }
        i += 1;
    }
    let mut j: usize = 0;
    while j < manual.len()
        invariant
            mods == auto@ + manual@,
            mods == registry.modules(),
            j <= manual@.len(),
            first_module_holding(mods, address as int, 0) == first_module_holding(mods, address as int, auto@.len() + j),
        decreases manual@.len() - j,
    {
        assert(mods[auto@.len() + j] == manual@[j as int]);
        if manual[j].contains_address(address) {
            assert(first_module_holding(mods, address as int, auto@.len() + j) == Some(auto@.len() + j));
            return Some(&manual[j]);
        }
        j += 1;
    }
    None
}

/// The module that `name` names: the first, auto-loaded list first, whose recovered name
/// equals it. A module whose name cannot be recovered matches no name.
pub open spec fn module_named(reg: ModuleRegistry, name: Seq<u8>) -> Option<ModuleObject> {
    match first_module_named(reg.modules(), name, 0) {
        Some(i) => Some(reg.modules()[i]),
        None => None,
    }
}

fn bytes_equal(a: &[u8], b: &[u8]) -> (r: bool)
    ensures
        r == (a@ == b@),
{
    if a.len() != b.len() {
        return false;
    }
    let mut i: usize = 0;
    while i < a.len()
        invariant
            a@.len() == b@.len(),
            i <= a@.len(),
            forall|k: int| 0 <= k < i ==> a@[k] == b@[k],
        decreases a@.len() - i,
    {
        if a[i] != b[i] {
            return false;
        }
        i += 1;
    }
    assert(a@ =~= b@);
    true
}

fn has_name(m: &ModuleObject, name: &[u8]) -> (r: bool)
    ensures
        r == (module_name(*m) == Some(name@)),
{
    match m.get_module_name() {
        Some(n) => bytes_equal(n.as_slice(), name),
        None => false,
    }
}

/// Finds the module whose recovered name is `name`, scanning the auto-loaded list and
/// then the manually loaded one.
pub fn find_module_by_name<'a>(registry: &'a ModuleRegistry, name: &[u8]) -> (r: Option<&'a ModuleObject>)
    ensures
        match module_named(*registry, name@) {
            Some(m) => r matches Some(found) && *found == m,
            None => r is None,
        },
{
    let ghost mods = registry.modules();
    let auto = &registry.auto_load.objects;
    let manual = &registry.manual_load.objects;
    let mut i: usize = 0;
    while i < auto.len()
        invariant
            mods == auto@ + manual@,
            mods == registry.modules(),
            i <= auto@.len(),
            first_module_named(mods, name@, 0) == first_module_named(mods, name@, i as int),
        decreases auto@.len() - i,
    {
        assert(mods[i as int] == auto@[i as int]);
        if has_name(&auto[i], name) {
            assert(first_module_named(mods, name@, i as int) == Some(i as int));
            return Some(&auto[i]);
        }
        i += 1;
    }
    let mut j: usize = 0;
    while j < manual.len()
        invariant
            mods == auto@ + manual@,
            mods == registry.modules(),
            j <= manual@.len(),
            first_module_named(mods, name@, 0) == first_module_named(mods, name@, auto@.len() + j),
        decreases manual@.len() - j,
    {
        assert(mods[auto@.len() + j] == manual@[j as int]);
        if has_name(&manual[j], name) {
            assert(first_module_named(mods, name@, auto@.len() + j) == Some(auto@.len() + j));
            return Some(&manual[j]);
        }
        j += 1;
    }
    None
}

/// Where a module's header lies: its image starts with a word, then the header's offset
/// from the image start. None where the sum leaves the address space.
pub fn module_header_address(image_start: u64, header_offset: u32) -> (r: Option<u64>)
    ensures
        image_start + header_offset < 0x1_0000_0000_0000_0000 ==> r == Some(
            (image_start + header_offset) as u64,
        ),
        image_start + header_offset >= 0x1_0000_0000_0000_0000 ==> r is None,
{
    image_start.checked_add(header_offset as u64)
}

/// The loader object of the module whose header, found at `header_address`, is
/// `header`: None where the header lacks the `MOD0` magic.
pub fn get_module_for_self(header_address: u64, header: &ModuleHeader) -> (r: Option<u64>)
    ensures
        header.magic != MOD0_MAGIC ==> r is None,
        header.magic == MOD0_MAGIC && header_address + header.module_object_offset
            < 0x1_0000_0000_0000_0000 ==> r == Some(
            (header_address + header.module_object_offset) as u64,
        ),
        header.magic == MOD0_MAGIC && header_address + header.module_object_offset
            >= 0x1_0000_0000_0000_0000 ==> r is None,
{
    if header.magic != MOD0_MAGIC {
        return None;
    }
    header_address.checked_add(header.module_object_offset as u64)
}

/// The symbol that an address resolves to covers it: the address lies between the
/// symbol's start, which is at or past the module base, and its end, end included. An
/// address at the very end of an eligible symbol resolves to a symbol.
pub proof fn lemma_symbol_resolution(m: ModuleObject, address: int)
    ensures
        symbol_for_address(m, address) matches Some((name, start)) ==> m.module_base <= start
            <= address && exists|i: int|
            0 <= i < m.dynsym@.len() && #[trigger] symbol_covers(m, i, address) && start
                == symbol_start(m, i) && name == c_str_at(m.dynstr@, m.dynsym@[i].st_name as int),
        forall|i: int|
            0 <= i < m.dynsym@.len() && m.dynsym@[i].is_eligible() && address == symbol_start(m, i)
                + m.dynsym@[i].st_size ==> #[trigger] symbol_covers(m, i, address) && symbol_for_address(m, address) is Some,
{
    lemma_first_covering(m, address, 0);
}

/// In a well-formed registry no two modules overlap, and the module that an address
/// resolves to holds it (end included); where it resolves to no module, no module holds
/// it.
pub proof fn lemma_module_resolution(reg: ModuleRegistry, address: int)
    requires
        reg.wf(),
    ensures
        forall|i: int, j: int|
            0 <= i < reg.modules().len() && 0 <= j < reg.modules().len() && i != j
                ==> regions_disjoint(#[trigger] reg.modules()[i], #[trigger] reg.modules()[j]),
        module_for_address(reg, address) matches Some(m) ==> m.holds(address) && exists|i: int|
            0 <= i < reg.modules().len() && #[trigger] reg.modules()[i] == m,
        module_for_address(reg, address) is None ==> forall|i: int|
            0 <= i < reg.modules().len() ==> !#[trigger] reg.modules()[i].holds(address),
{
    let mods = reg.modules();
    let a = reg.auto_load.objects@;
    let b = reg.manual_load.objects@;
    assert forall|i: int, j: int|
        0 <= i < mods.len() && 0 <= j < mods.len() && i != j implies regions_disjoint(
        #[trigger] mods[i],
        #[trigger] mods[j],
    ) by {
        if i < a.len() && j < a.len() {
            if i < j {
                assert(regions_disjoint(a[i], a[j]));
            } else {
                assert(regions_disjoint(a[j], a[i]));
            }
        } else if i >= a.len() && j >= a.len() {
            if i < j {
                assert(regions_disjoint(b[i - a.len()], b[j - a.len()]));
            } else {
                assert(regions_disjoint(b[j - a.len()], b[i - a.len()]));
            }
        } else if i < a.len() {
            assert(regions_disjoint(a[i], b[j - a.len()]));
        } else {
            assert(regions_disjoint(a[j], b[i - a.len()]));
        }
    }
    lemma_first_module_holding(mods, address, 0);
}

} // verus!
