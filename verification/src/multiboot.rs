//! Multiboot2 boot information: the tags that the bootloader hands to the kernel, read from
//! the bytes of the boot information structure.
use vstd::prelude::*;
use vstd::string::StringExecFns;

use crate::bytes::{le32_at, le64_at};

verus! {

/// Kinds of memory regions in the memory map.
#[derive(Clone, Copy, Debug, PartialEq, Eq, Structural)]
pub enum MemoryRegionType {
    Available,
    Reserved,
    ACPIInfo,
    PreserveForHibernation,
    DefectiveRam,
}

/// The region type that number `v` names, if any.
pub open spec fn spec_memory_region_type(v: u32) -> Option<MemoryRegionType> {
    if v == 1 {
        Some(MemoryRegionType::Available)
    } else if v == 2 {
        Some(MemoryRegionType::Reserved)
    } else if v == 3 {
        Some(MemoryRegionType::ACPIInfo)
    } else if v == 4 {
        Some(MemoryRegionType::PreserveForHibernation)
    } else if v == 5 {
        Some(MemoryRegionType::DefectiveRam)
    } else {
        None
    }
}

impl MemoryRegionType {
    /// The region type named by `value`; gives `value` back when it names none.
    pub fn try_from(value: u32) -> (r: Result<MemoryRegionType, u32>)
        ensures
            r matches Ok(t) ==> spec_memory_region_type(value) == Some(t),
            r matches Err(e) ==> spec_memory_region_type(value) is None && e == value,
    {
        if value == 1 {
            Ok(MemoryRegionType::Available)
        } else if value == 2 {
            Ok(MemoryRegionType::Reserved)
        } else if value == 3 {
            Ok(MemoryRegionType::ACPIInfo)
        } else if value == 4 {
            Ok(MemoryRegionType::PreserveForHibernation)
        } else if value == 5 {
            Ok(MemoryRegionType::DefectiveRam)
        } else {
            Err(value)
        }
    }
}

/// One region of the memory map.
#[derive(Clone, Copy, Debug, PartialEq, Eq, Structural)]
pub struct MemoryEntry {
    /// The starting address of the region.
    pub base_addr: u64,
    /// Size of the region in bytes.
    pub length: u64,
    pub typ: MemoryRegionType,
}

/// A memory map entry as the bootloader writes it.
#[derive(Clone, Copy, Debug, PartialEq, Eq, Structural)]
pub struct RawMemoryEntry {
    pub base_addr: u64,
    pub length: u64,
    pub typ: u32,
}

impl MemoryEntry {
    /// The entry for `value`; fails when its type is unknown.
    pub fn try_from(value: &RawMemoryEntry) -> (r: Result<MemoryEntry, ()>)
        ensures
            r is Ok <==> spec_memory_region_type(value.typ) is Some,
            r matches Ok(e) ==> e.base_addr == value.base_addr && e.length == value.length && Some(e.typ)
                == spec_memory_region_type(value.typ),
    {
        match MemoryRegionType::try_from(value.typ) {
            Ok(typ) => Ok(MemoryEntry { base_addr: value.base_addr, length: value.length, typ }),
            Err(_) => Err(()),
        }
    }
}

/// Why a tag could not be had.
#[derive(Debug, PartialEq, Eq, Structural)]
pub enum TagError {
    NotFound,
    ValidationError,
}

/// The header of one tag, and where it starts in the boot information.
#[derive(Clone, Copy, Debug, PartialEq, Eq, Structural)]
pub struct TagHeader {
    pub typ: u32,
    pub size: u32,
    pub offset: usize,
}

/// `size` rounded up to a multiple of 8: tags are 8-byte aligned.
pub open spec fn align8(size: int) -> int {
    (size + 7) / 8 * 8
}

/// The tags from offset `off` up to the end tag; `None` when the chain is malformed: a tag
/// smaller than its header, a tag that runs past the end, or a missing end tag.
pub open spec fn tag_chain(b: Seq<u8>, off: nat) -> Option<Seq<TagHeader>>
    decreases b.len() - off,
{
    if off + 8 > b.len() {
        None
    } else {
        let typ = le32_at(b, off as int);
        let size = le32_at(b, off + 4int);
        if size < 8 {
            None
        } else if typ == 0 && size == 8 {
            Some(Seq::empty())
        } else if size + 7 > u32::MAX {
            None
        } else {
            let next = off + align8(size);
            if next > b.len() || next > usize::MAX {
                None
            } else {
                match tag_chain(b, next as nat) {
                    Some(rest) => Some(
                        seq![TagHeader { typ: typ as u32, size: size as u32, offset: off as usize }] + rest,
                    ),
                    None => None,
                }
            }
        }
    }
}

/// `acc` followed by the chain `o`, if there is one.
pub open spec fn prepend_chain(acc: Seq<TagHeader>, o: Option<Seq<TagHeader>>) -> Option<Seq<TagHeader>> {
    match o {
        Some(r) => Some(acc + r),
        None => None,
    }
}

/// Whether `t` is the first of `tags` of type `id`.
pub open spec fn is_first_tag(tags: Seq<TagHeader>, t: TagHeader, id: u32) -> bool {
    exists|i: int|
        0 <= i < tags.len() && #[trigger] tags[i] == t && t.typ == id && forall|j: int|
            0 <= j < i ==> #[trigger] tags[j].typ != id
}

/// The boot information structure: its address and its bytes.
pub struct BootInformationFormat {
    pub start: u64,
    pub bytes: Vec<u8>,
}

/// The tags of the boot information, if its chain of tags is well formed.
pub open spec fn boot_tags(b: Seq<u8>) -> Option<Seq<TagHeader>> {
    tag_chain(b, 8)
}

impl BootInformationFormat {
    /// The boot information at address `addr` whose bytes are `bytes`; the address and the
    /// total size (the first word) must be multiples of 8.
    pub fn load(addr: u64, bytes: Vec<u8>) -> (r: BootInformationFormat)
        requires
            addr % 8 == 0,
            bytes@.len() >= 8,
            le32_at(bytes@, 0) == bytes@.len(),
            bytes@.len() % 8 == 0,
        ensures
            r.start == addr,
            r.bytes@ == bytes@,
    {
        BootInformationFormat { start: addr, bytes }
    }

    /// Walks the tags up to the end tag; `None` when the chain is malformed.
    pub fn tags(&self) -> (r: Option<Vec<TagHeader>>)
        ensures
            r is Some <==> boot_tags(self.bytes@) is Some,
            r matches Some(v) ==> Some(v@) == boot_tags(self.bytes@),
    {
        let b = self.bytes.as_slice();
        let len = b.len();
        let mut acc: Vec<TagHeader> = Vec::new();
        let mut off: usize = 8;
        assert(acc@ + Seq::<TagHeader>::empty() =~= Seq::<TagHeader>::empty());
        loop
            invariant
                len == b@.len(),
                b@ == self.bytes@,
                boot_tags(b@) == prepend_chain(acc@, tag_chain(b@, off as nat)),
            decreases len - off,
        {
            if off > len || len - off < 8 {
                return None;
            }
            let typ = crate::bytes::u32_le_at(b, off);
            let size = crate::bytes::u32_le_at(b, off + 4);
            if size < 8 {
                return None;
            }
            if typ == 0 && size == 8 {
                assert(acc@ + Seq::<TagHeader>::empty() =~= acc@);
                return Some(acc);
            }
            if size > 0xffff_fff8 {
                return None;
            }
            let step = ((size + 7) / 8 * 8) as usize;
            if step > len - off {
                return None;
            }
            let ghost old_acc = acc@;
            acc.push(TagHeader { typ, size, offset: off });
            proof {
                let t = TagHeader { typ, size, offset: off };
                match tag_chain(b@, (off + step) as nat) {
                    Some(rest) => {
                        assert(old_acc + (seq![t] + rest) =~= acc@ + rest);
                    },
                    None => {},
                }
            }
            off = off + step;
        }
    }

    /// The first tag of type `id`.
    pub fn get(&self, id: u32) -> (r: Result<TagHeader, TagError>)
        requires
            boot_tags(self.bytes@) is Some,
        ensures
            r is Err <==> forall|i: int|
                0 <= i < boot_tags(self.bytes@).unwrap().len() ==> #[trigger] boot_tags(
                    self.bytes@,
                ).unwrap()[i].typ != id,
            r matches Err(e) ==> e == TagError::NotFound,
            r matches Ok(t) ==> is_first_tag(boot_tags(self.bytes@).unwrap(), t, id),
    {
        let tags = match self.tags() {
            Some(t) => t,
            None => {
                return Err(TagError::NotFound);
            },
        };
        let mut i: usize = 0;
        while i < tags.len()
            invariant
                i <= tags@.len(),
                Some(tags@) == boot_tags(self.bytes@),
                forall|j: int| 0 <= j < i ==> #[trigger] tags@[j].typ != id,
            decreases tags@.len() - i,
        {
            if tags[i].typ == id {
                assert(boot_tags(self.bytes@).unwrap()[i as int].typ == id);
                return Ok(tags[i]);
            }
            i = i + 1;
        }
        Err(TagError::NotFound)
    }

    /// Address of the boot information.
    pub fn start_addr(&self) -> (r: u64)
        ensures
            r == self.start,
    {
        self.start
    }

    /// Address just past the boot information.
    pub fn end_addr(&self) -> (r: u64)
        requires
            self.start + le32_at(self.bytes@, 0) <= u64::MAX,
            self.bytes@.len() >= 4,
        ensures
            r == self.start + le32_at(self.bytes@, 0),
    {
        self.start + crate::bytes::u32_le_at(self.bytes.as_slice(), 0) as u64
    }
}

/// The memory map tag: where it is, and the size and version of its entries.
#[derive(Clone, Copy, Debug, PartialEq, Eq, Structural)]
pub struct MemoryMap {
    pub header: TagHeader,
    pub entry_size: u32,
    pub entry_version: u32,
}

/// Type number of the memory map tag.
pub const MEMORY_MAP_TAG: u32 = 6;

/// Type number of the ELF sections tag.
pub const ELF_SYMBOLS_TAG: u32 = 9;

/// Length of the fixed part of the memory map tag.
pub const MEMORY_MAP_HEADER_LEN: usize = 16;

/// Length of one memory map entry as the bootloader writes it.
pub const RAW_MEMORY_ENTRY_LEN: usize = 24;

/// The raw entry that starts at `at`.
pub open spec fn raw_entry_at(b: Seq<u8>, at: int) -> RawMemoryEntry {
    RawMemoryEntry {
        base_addr: le64_at(b, at) as u64,
        length: le64_at(b, at + 8) as u64,
        typ: le32_at(b, at + 16) as u32,
    }
}

/// The entries of known type among the first `k` raw entries that start at `base`.
pub open spec fn known_entries(b: Seq<u8>, base: int, k: nat) -> Seq<MemoryEntry>
    decreases k,
{
    if k == 0 {
        Seq::empty()
    } else {
        let prev = known_entries(b, base, (k - 1) as nat);
        let raw = raw_entry_at(b, base + (k - 1) * 24);
        match spec_memory_region_type(raw.typ) {
            Some(t) => prev.push(MemoryEntry { base_addr: raw.base_addr, length: raw.length, typ: t }),
            None => prev,
        }
    }
}

/// Whether a memory map tag passes the checks of `validate`.
pub open spec fn memory_map_valid(m: MemoryMap) -> bool {
    &&& m.entry_size % 8 == 0
    &&& (m.header.size - 16) % 24 == 0
    &&& m.entry_size == 24
}

impl MemoryMap {
    /// Checks the layout of the memory map: entries are 8-byte aligned, their size is that of
    /// a raw entry, and the tag holds a whole number of them.
    pub fn validate(&self) -> (r: Result<MemoryMap, TagError>)
        requires
            self.entry_size % 8 == 0 ==> self.header.size >= 16,
        ensures
            r is Ok <==> memory_map_valid(*self),
            r matches Ok(m) ==> m == *self,
            r matches Err(e) ==> e == TagError::ValidationError,
    {
        if self.entry_size % 8 == 0 && (self.header.size - 16) % 24 == 0 && self.entry_size == 24 {
            Ok(*self)
        } else {
            Err(TagError::ValidationError)
        }
    }

    /// The entries of the memory map whose type is known, in order.
    pub fn get_all_entries(&self, boot: &BootInformationFormat) -> (r: Vec<MemoryEntry>)
        requires
            memory_map_valid(*self),
            self.header.size >= 16,
            self.header.offset + self.header.size <= boot.bytes@.len(),
        ensures
            r@ == known_entries(boot.bytes@, self.header.offset + 16, ((self.header.size - 16) / 24) as nat),
    {
        let b = boot.bytes.as_slice();
        let blen = b.len();
        let count = ((self.header.size - 16) / self.entry_size) as usize;
        let base = self.header.offset + 16;
        let mut out: Vec<MemoryEntry> = Vec::new();
        let mut k: usize = 0;
        while k < count
            invariant
                b@ == boot.bytes@,
                blen == b@.len(),
                k <= count,
                count == (self.header.size - 16) / 24,
                base == self.header.offset + 16,
                base + count * 24 <= b@.len(),
                out@ == known_entries(b@, base as int, k as nat),
            decreases count - k,
        {
            assert(base + k * 24 + 24 <= b@.len()) by (nonlinear_arith)
                requires
                    k < count,
                    base + count * 24 <= b@.len(),
            ;
            let at = base + k * 24;
            let raw = RawMemoryEntry {
                base_addr: crate::bytes::u64_le_at(b, at),
                length: crate::bytes::u64_le_at(b, at + 8),
                typ: crate::bytes::u32_le_at(b, at + 16),
            };
            if let Ok(e) = MemoryEntry::try_from(&raw) {
                out.push(e);
            }
            k = k + 1;
        }
        out
    }
}

/// The sections of kinds this kernel tells apart.
#[derive(Clone, Copy, Debug, PartialEq, Eq, Structural)]
pub enum SectionType {
    Inactive,
    Progbits,
    SymTable,
    StringTable,
    Rela,
    Hash,
    Dynamic,
    Note,
    NoBits,
    Rel,
    Unknown,
}

/// The section type that number `v` names, if any.
pub open spec fn spec_section_type(v: u32) -> Option<SectionType> {
    if v == 0 {
        Some(SectionType::Inactive)
    } else if v == 1 {
        Some(SectionType::Progbits)
    } else if v == 2 {
        Some(SectionType::SymTable)
    } else if v == 3 {
        Some(SectionType::StringTable)
    } else if v == 4 {
        Some(SectionType::Rela)
    } else if v == 5 {
        Some(SectionType::Hash)
    } else if v == 6 {
        Some(SectionType::Dynamic)
    } else if v == 7 {
        Some(SectionType::Note)
    } else if v == 8 {
        Some(SectionType::NoBits)
    } else if v == 9 {
        Some(SectionType::Rel)
    } else if v == 0xffff_ffff {
        Some(SectionType::Unknown)
    } else {
        None
    }
}

impl SectionType {
    /// The section type named by `value`; gives `value` back when it names none.
    pub fn try_from(value: u32) -> (r: Result<SectionType, u32>)
        ensures
            r matches Ok(t) ==> spec_section_type(value) == Some(t),
            r matches Err(e) ==> spec_section_type(value) is None && e == value,
    {
        if value == 0 {
            Ok(SectionType::Inactive)
        } else if value == 1 {
            Ok(SectionType::Progbits)
        } else if value == 2 {
            Ok(SectionType::SymTable)
        } else if value == 3 {
            Ok(SectionType::StringTable)
        } else if value == 4 {
            Ok(SectionType::Rela)
        } else if value == 5 {
            Ok(SectionType::Hash)
        } else if value == 6 {
            Ok(SectionType::Dynamic)
        } else if value == 7 {
            Ok(SectionType::Note)
        } else if value == 8 {
            Ok(SectionType::NoBits)
        } else if value == 9 {
            Ok(SectionType::Rel)
        } else if value == 0xffff_ffff {
            Ok(SectionType::Unknown)
        } else {
            Err(value)
        }
    }
}

/// The ELF sections tag: where it is, the number and size of its section headers, and
/// which one is the string table.
#[derive(Clone, Copy, Debug, PartialEq, Eq, Structural)]
pub struct ELFSymbols {
    pub header: TagHeader,
    pub num_sections: u32,
    pub entry_size: u32,
    pub string_section_header_index: u32,
}

/// An ELF section header (64-bit).
#[derive(Clone, Copy, Debug, PartialEq, Eq, Structural)]
pub struct ElfSection {
    pub name_index: u32,
    pub typ: u32,
    pub flags: u64,
    pub addr: u64,
    pub size: u64,
    /// Where the header of the section-name string table starts in the boot information.
    pub string_section: usize,
    pub entry_size: u32,
}

/// Length of a 64-bit ELF section header.
pub const ELF_SECTION_HEADER_LEN: usize = 64;

/// The section header that starts at `at`.
pub open spec fn section_at(b: Seq<u8>, at: int, string_section: usize, entry_size: u32) -> ElfSection {
    ElfSection {
        name_index: le32_at(b, at) as u32,
        typ: le32_at(b, at + 4) as u32,
        flags: le64_at(b, at + 8) as u64,
        addr: le64_at(b, at + 16) as u64,
        size: le64_at(b, at + 32) as u64,
        string_section,
        entry_size,
    }
}

/// The active sections among the first `k` section headers of `e`.
pub open spec fn active_sections(b: Seq<u8>, e: ELFSymbols, k: nat) -> Seq<ElfSection>
    decreases k,
{
    if k == 0 {
        Seq::empty()
    } else {
        let prev = active_sections(b, e, (k - 1) as nat);
        let s = section_at(
            b,
            e.header.offset + 20 + (k - 1) * e.entry_size,
            (e.header.offset + 20 + e.string_section_header_index * 64) as usize,
            e.entry_size,
        );
        if s.typ != 0 {
            prev.push(s)
        } else {
            prev
        }
    }
}

impl ELFSymbols {
    /// The section headers that are not inactive, in order.
    pub fn get_sections(&self, boot: &BootInformationFormat) -> (r: Vec<ElfSection>)
        requires
            self.header.offset + 20 + self.num_sections * self.entry_size + 64 <= boot.bytes@.len(),
            self.header.offset + 20 + self.string_section_header_index * 64 <= usize::MAX,
            self.entry_size >= 64,
        ensures
            r@ == active_sections(boot.bytes@, *self, self.num_sections as nat),
    {
        let b = boot.bytes.as_slice();
        let blen = b.len();
        let base = self.header.offset + 20;
        let string_section = base + self.string_section_header_index as usize * 64;
        let n = self.num_sections as usize;
        let es = self.entry_size as usize;
        let mut out: Vec<ElfSection> = Vec::new();
        let mut k: usize = 0;
        while k < n
            invariant
                b@ == boot.bytes@,
                blen == b@.len(),
                k <= n,
                n == self.num_sections,
                es == self.entry_size,
                base == self.header.offset + 20,
                string_section == self.header.offset + 20 + self.string_section_header_index * 64,
                base + n * es + 64 <= b@.len(),
                out@ == active_sections(b@, *self, k as nat),
            decreases n - k,
        {
            assert(base + k * es + 64 <= b@.len()) by (nonlinear_arith)
                requires
                    k < n,
                    base + n * es + 64 <= b@.len(),
            ;
            assert(k * es <= n * es) by (nonlinear_arith)
                requires
                    k < n,
            ;
            let at = base + k * es;
            let s = ElfSection {
                name_index: crate::bytes::u32_le_at(b, at),
                typ: crate::bytes::u32_le_at(b, at + 4),
                flags: crate::bytes::u64_le_at(b, at + 8),
                addr: crate::bytes::u64_le_at(b, at + 16),
                size: crate::bytes::u64_le_at(b, at + 32),
                string_section,
                entry_size: self.entry_size,
            };
            if s.typ != 0 {
                out.push(s);
            }
            k = k + 1;
        }
        out
    }
}

impl ElfSection {
    /// Address where the section starts.
    pub fn start_addr(&self) -> (r: u64)
        ensures
            r == self.addr,
    {
        self.addr
    }

    /// Address just past the section.
    pub fn end_addr(&self) -> (r: u64)
        requires
            self.addr + self.size <= u64::MAX,
        ensures
            r == self.addr + self.size,
    {
        self.addr + self.size
    }

    /// The kind of the section; `Unknown` for kinds this kernel does not tell apart.
    pub fn section_type(&self) -> (r: SectionType)
        ensures
            r == (match spec_section_type(self.typ) {
                Some(t) => t,
                None => SectionType::Unknown,
            }),
    {
        match SectionType::try_from(self.typ) {
            Ok(t) => t,
            Err(_) => SectionType::Unknown,
        }
    }
}

impl BootInformationFormat {
    /// The memory map, checked by `MemoryMap::validate`.
    pub fn memory_map(&self) -> (r: Result<MemoryMap, TagError>)
        requires
            boot_tags(self.bytes@) is Some,
            forall|i: int|
                0 <= i < boot_tags(self.bytes@).unwrap().len() && #[trigger] boot_tags(
                    self.bytes@,
                ).unwrap()[i].typ == MEMORY_MAP_TAG ==> boot_tags(self.bytes@).unwrap()[i].size >= 16,
        ensures
            r matches Ok(m) ==> is_first_tag(boot_tags(self.bytes@).unwrap(), m.header, MEMORY_MAP_TAG)
                && memory_map_valid(m) && m.entry_size == le32_at(self.bytes@, m.header.offset + 8)
                && m.entry_version == le32_at(self.bytes@, m.header.offset + 12),
            r matches Err(e) ==> (e == TagError::NotFound <==> forall|i: int|
                0 <= i < boot_tags(self.bytes@).unwrap().len() ==> #[trigger] boot_tags(
                    self.bytes@,
                ).unwrap()[i].typ != MEMORY_MAP_TAG),
    {
        let header = match self.get(MEMORY_MAP_TAG) {
            Ok(h) => h,
            Err(e) => {
                return Err(e);
            },
        };
        let b = self.bytes.as_slice();
        let _blen = b.len();
        proof {
            let tags = boot_tags(self.bytes@).unwrap();
            let i = choose|i: int|
                0 <= i < tags.len() && #[trigger] tags[i] == header && header.typ == MEMORY_MAP_TAG && forall|j: int|
                    0 <= j < i ==> #[trigger] tags[j].typ != MEMORY_MAP_TAG;
            assert(tags[i] == header);
            assert(tags.contains(header));
            lemma_tag_in_bounds(self.bytes@, 8, header);
        }
        let m = MemoryMap {
            header,
            entry_size: crate::bytes::u32_le_at(b, header.offset + 8),
            entry_version: crate::bytes::u32_le_at(b, header.offset + 12),
        };
        m.validate()
    }

    /// The ELF sections tag.
    pub fn elf_symbols(&self) -> (r: Result<ELFSymbols, TagError>)
        requires
            boot_tags(self.bytes@) is Some,
            forall|i: int|
                0 <= i < boot_tags(self.bytes@).unwrap().len() && #[trigger] boot_tags(
                    self.bytes@,
                ).unwrap()[i].typ == ELF_SYMBOLS_TAG ==> boot_tags(self.bytes@).unwrap()[i].size >= 20,
        ensures
            r matches Ok(e) ==> is_first_tag(boot_tags(self.bytes@).unwrap(), e.header, ELF_SYMBOLS_TAG)
                && e.num_sections == le32_at(self.bytes@, e.header.offset + 8) && e.entry_size == le32_at(
                self.bytes@,
                e.header.offset + 12,
            ) && e.string_section_header_index == le32_at(self.bytes@, e.header.offset + 16),
            r is Err <==> forall|i: int|
                0 <= i < boot_tags(self.bytes@).unwrap().len() ==> #[trigger] boot_tags(
                    self.bytes@,
                ).unwrap()[i].typ != ELF_SYMBOLS_TAG,
    {
        let header = match self.get(ELF_SYMBOLS_TAG) {
            Ok(h) => h,
            Err(e) => {
                return Err(e);
            },
        };
        let b = self.bytes.as_slice();
        let _blen = b.len();
        proof {
            let tags = boot_tags(self.bytes@).unwrap();
            let i = choose|i: int|
                0 <= i < tags.len() && #[trigger] tags[i] == header && header.typ == ELF_SYMBOLS_TAG && forall|j: int|
                    0 <= j < i ==> #[trigger] tags[j].typ != ELF_SYMBOLS_TAG;
            assert(tags[i] == header);
            assert(tags.contains(header));
            lemma_tag_in_bounds(self.bytes@, 8, header);
        }
        Ok(ELFSymbols {
            header,
            num_sections: crate::bytes::u32_le_at(b, header.offset + 8),
            entry_size: crate::bytes::u32_le_at(b, header.offset + 12),
            string_section_header_index: crate::bytes::u32_le_at(b, header.offset + 16),
        })
    }
}

/// Every tag of a well-formed chain lies within the bytes: it starts at or after `off` and
/// its size, rounded up to 8, ends within them.
pub proof fn lemma_tag_in_bounds(b: Seq<u8>, off: nat, t: TagHeader)
    requires
        tag_chain(b, off) is Some,
        tag_chain(b, off).unwrap().contains(t),
    ensures
        t.offset >= off,
        t.offset + align8(t.size as int) <= b.len(),
        t.offset + t.size <= b.len(),
        t.size >= 8,
    decreases b.len() - off,
{
    let size = le32_at(b, off + 4int);
    let next = off + align8(size);
    let rest = tag_chain(b, next as nat).unwrap();
    let head = TagHeader { typ: le32_at(b, off as int) as u32, size: size as u32, offset: off as usize };
    assert(tag_chain(b, off).unwrap() == seq![head] + rest);
    if t != head {
        let i = choose|i: int| 0 <= i < tag_chain(b, off).unwrap().len() && tag_chain(b, off).unwrap()[i] == t;
        assert(rest[i - 1] == t);
        assert(rest.contains(t));
        lemma_tag_in_bounds(b, next as nat, t);
    }
}

/// Marks the tag types of this module, so that no other can claim a type number.
pub trait Sealed {}

/// A kind of tag, with its type number.
pub trait TagType: Sealed {
    /// The type number of tags of this kind.
    fn id() -> (r: u32);
}

impl Sealed for MemoryMap {}

impl TagType for MemoryMap {
    fn id() -> (r: u32)
        ensures
            r == MEMORY_MAP_TAG,
    {
        MEMORY_MAP_TAG
    }
}

impl Sealed for ELFSymbols {}

impl TagType for ELFSymbols {
    fn id() -> (r: u32)
        ensures
            r == ELF_SYMBOLS_TAG,
    {
        ELF_SYMBOLS_TAG
    }
}

/// Type number of the boot loader name tag.
pub const BOOT_LOADER_NAME_TAG: u32 = 2;

/// The tag that names the boot loader: a string ended by a zero byte, after the header.
#[derive(Clone, Copy, Debug, PartialEq, Eq, Structural)]
pub struct BootLoaderName {
    pub header: TagHeader,
}

impl Sealed for BootLoaderName {}

impl TagType for BootLoaderName {
    fn id() -> (r: u32)
        ensures
            r == BOOT_LOADER_NAME_TAG,
    {
        BOOT_LOADER_NAME_TAG
    }
}

/// Why the boot loader's name could not be read.
#[derive(Clone, Copy, Debug, PartialEq, Eq, Structural)]
pub enum NameError {
    /// The name is not valid UTF-8.
    NotUtf8,
}

/// The text that `bytes` encode in UTF-8, if they are valid UTF-8.
pub uninterp spec fn utf8_decoding(bytes: Seq<u8>) -> Option<Seq<char>>;

/// The error type of `core::str::from_utf8`.
#[verifier::external_type_specification]
#[verifier::external_body]
pub struct ExUtf8Error(core::str::Utf8Error);

/// `core::str::from_utf8`: the text that `v` encodes, when `v` is valid UTF-8.
#[verifier::external_body]
fn str_from_utf8<'a>(v: &'a [u8]) -> (r: Result<&'a str, core::str::Utf8Error>)
    ensures
        r is Ok <==> utf8_decoding(v@) is Some,
        r matches Ok(s) ==> utf8_decoding(v@) == Some(s@),
{
    core::str::from_utf8(v)
}

/// The bytes from `start` up to, not including, the first zero byte after it.
pub open spec fn c_string_at(b: Seq<u8>, start: int) -> Seq<u8> {
    let rest = b.subrange(start, b.len() as int);
    match rest.index_of_first(0u8) {
        Some(end) => rest.subrange(0, end),
        None => rest,
    }
}

impl BootLoaderName {
    /// The boot loader's name: the text from just after the tag's header up to the first zero
    /// byte.
    pub fn name(&self, boot: &BootInformationFormat) -> (r: Result<String, NameError>)
        requires
            self.header.offset + 8 <= boot.bytes@.len(),
            boot.bytes@.subrange(self.header.offset + 8, boot.bytes@.len() as int).contains(0u8),
        ensures
            r is Ok <==> utf8_decoding(c_string_at(boot.bytes@, self.header.offset + 8)) is Some,
            r matches Ok(s) ==> utf8_decoding(c_string_at(boot.bytes@, self.header.offset + 8)) == Some(s@),
            r matches Err(e) ==> e == NameError::NotUtf8,
    {
        let b = boot.bytes.as_slice();
        let start = self.header.offset + 8;
        let ghost rest = b@.subrange(start as int, b@.len() as int);
        let mut end: usize = start;
        while end < b.len() && b[end] != 0
            invariant
                start <= end <= b@.len(),
                rest == b@.subrange(start as int, b@.len() as int),
                rest.contains(0u8),
                forall|j: int| start <= j < end ==> b@[j] != 0,
            decreases b@.len() - end,
        {
            end = end + 1;
        }
        proof {
            rest.index_of_first_ensures(0u8);
            if end == b@.len() {
                let k = choose|k: int| 0 <= k < rest.len() && rest[k] == 0u8;
                assert(b@[start + k] == 0);
            }
            assert(rest[end - start] == 0u8);
            assert(c_string_at(b@, start as int) =~= b@.subrange(start as int, end as int));
        }
        let text = vstd::slice::slice_subrange(b, start, end);
        match str_from_utf8(text) {
            Ok(s) => Ok(String::from_str(s)),
            Err(_) => Err(NameError::NotUtf8),
        }
    }
}

impl BootInformationFormat {
    /// The boot loader name tag.
    pub fn boot_loader_name(&self) -> (r: Result<BootLoaderName, TagError>)
        requires
            boot_tags(self.bytes@) is Some,
        ensures
            r is Err <==> forall|i: int|
                0 <= i < boot_tags(self.bytes@).unwrap().len() ==> #[trigger] boot_tags(
                    self.bytes@,
                ).unwrap()[i].typ != BOOT_LOADER_NAME_TAG,
            r matches Ok(n) ==> is_first_tag(boot_tags(self.bytes@).unwrap(), n.header, BOOT_LOADER_NAME_TAG),
    {
        match self.get(BootLoaderName::id()) {
            Ok(header) => Ok(BootLoaderName { header }),
            Err(e) => Err(e),
        }
    }
}


/// The number of memory region type `t` in a multiboot memory map entry.
pub open spec fn memory_region_type_number(t: MemoryRegionType) -> u32 {
    match t {
        MemoryRegionType::Available => 1,
        MemoryRegionType::Reserved => 2,
        MemoryRegionType::ACPIInfo => 3,
        MemoryRegionType::PreserveForHibernation => 4,
        MemoryRegionType::DefectiveRam => 5,
    }
}

/// The number of ELF section type `t` (`sh_type`).
pub open spec fn section_type_number(t: SectionType) -> u32 {
    match t {
        SectionType::Inactive => 0x0,
        SectionType::Progbits => 0x1,
        SectionType::SymTable => 0x2,
        SectionType::StringTable => 0x3,
        SectionType::Rela => 0x4,
        SectionType::Hash => 0x5,
        SectionType::Dynamic => 0x6,
        SectionType::Note => 0x7,
        SectionType::NoBits => 0x8,
        SectionType::Rel => 0x9,
        SectionType::Unknown => 0xffffffff,
    }
}

/// Law: a memory map entry's type number names the region type with that number (1 for
/// available RAM up to 5 for defective RAM), and every region type is read from its number.
pub proof fn lemma_memory_region_type_numbers(v: u32, t: MemoryRegionType)
    ensures
        spec_memory_region_type(v) is Some <==> 1 <= v <= 5,
        spec_memory_region_type(v) matches Some(u) ==> memory_region_type_number(u) == v,
        spec_memory_region_type(memory_region_type_number(t)) == Some(t),
{
}

/// Law: an ELF section type number names the section type with that number, and every
/// section type is read from its number.
pub proof fn lemma_section_type_numbers(v: u32, t: SectionType)
    ensures
        spec_section_type(v) matches Some(u) ==> section_type_number(u) == v,
        spec_section_type(section_type_number(t)) == Some(t),
{
}

} // verus!
