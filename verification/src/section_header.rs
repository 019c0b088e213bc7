//! Section headers: the section-type enumeration, the flag bitset, the
//! decoded record, the bounds-checked content view with name resolution, and
//! the lazy table iterator.

use vstd::prelude::*;

use crate::elf::{sh_nth_present, spec_sh_nth, spec_shstr_section, ElfGen};
use crate::elf_header::ElfClass;
use crate::word::{le32_at, le64_at};

verus! {

/// The kind of one section, with the OS-, processor- and application-
/// reserved ranges kept as open variants carrying the raw code.
#[derive(Copy, Clone, Debug, PartialEq, Eq, Structural)]
pub enum SectionType {
    SHT_NULL,
    SHT_PROGBITS,
    SHT_SYMTAB,
    SHT_STRTAB,
    SHT_RELA,
    SHT_HASH,
    SHT_DYNAMIC,
    SHT_NOTE,
    SHT_NOBITS,
    SHT_REL,
    SHT_SHLIB,
    SHT_DYNSYM,
    SHT_INIT_ARRAY,
    SHT_FINI_ARRAY,
    SHT_PREINIT_ARRAY,
    SHT_GROUP,
    SHT_SYMTAB_SHNDX,
    SHT_NUM,
    OsSpecific(u32),
    ProcessorSpecific(u32),
    ApplicationSpecific(u32),
    Unknown(u32),
}

/// The decoding of the 32-bit section-type field.
pub open spec fn spec_section_type(n: u32) -> SectionType {
    if n == 0x0 {
        SectionType::SHT_NULL
    } else if n == 0x1 {
        SectionType::SHT_PROGBITS
    } else if n == 0x2 {
        SectionType::SHT_SYMTAB
    } else if n == 0x3 {
        SectionType::SHT_STRTAB
    } else if n == 0x4 {
        SectionType::SHT_RELA
    } else if n == 0x5 {
        SectionType::SHT_HASH
    } else if n == 0x6 {
        SectionType::SHT_DYNAMIC
    } else if n == 0x7 {
        SectionType::SHT_NOTE
    } else if n == 0x8 {
        SectionType::SHT_NOBITS
    } else if n == 0x9 {
        SectionType::SHT_REL
    } else if n == 0xa {
        SectionType::SHT_SHLIB
    } else if n == 0xb {
        SectionType::SHT_DYNSYM
    } else if n == 0xe {
        SectionType::SHT_INIT_ARRAY
    } else if n == 0xf {
        SectionType::SHT_FINI_ARRAY
    } else if n == 0x10 {
        SectionType::SHT_PREINIT_ARRAY
    } else if n == 0x11 {
        SectionType::SHT_GROUP
    } else if n == 0x12 {
        SectionType::SHT_SYMTAB_SHNDX
    } else if n == 0x13 {
        SectionType::SHT_NUM
    } else if 0x60000000 <= n && n <= 0x6fffffff {
        SectionType::OsSpecific(n)
    } else if 0x70000000 <= n && n <= 0x7fffffff {
        SectionType::ProcessorSpecific(n)
    } else if 0x80000000 <= n {
        SectionType::ApplicationSpecific(n)
    } else {
        SectionType::Unknown(n)
    }
}

impl From<u32> for SectionType {
    fn from(n: u32) -> (r: Self) {
        match n {
            0x0 => SectionType::SHT_NULL,
            0x1 => SectionType::SHT_PROGBITS,
            0x2 => SectionType::SHT_SYMTAB,
            0x3 => SectionType::SHT_STRTAB,
            0x4 => SectionType::SHT_RELA,
            0x5 => SectionType::SHT_HASH,
            0x6 => SectionType::SHT_DYNAMIC,
            0x7 => SectionType::SHT_NOTE,
            0x8 => SectionType::SHT_NOBITS,
            0x9 => SectionType::SHT_REL,
            0xa => SectionType::SHT_SHLIB,
            0xb => SectionType::SHT_DYNSYM,
            0xe => SectionType::SHT_INIT_ARRAY,
            0xf => SectionType::SHT_FINI_ARRAY,
            0x10 => SectionType::SHT_PREINIT_ARRAY,
            0x11 => SectionType::SHT_GROUP,
            0x12 => SectionType::SHT_SYMTAB_SHNDX,
            0x13 => SectionType::SHT_NUM,
            x if 0x60000000 <= x && x <= 0x6fffffff => SectionType::OsSpecific(x),
            x if 0x70000000 <= x && x <= 0x7fffffff => SectionType::ProcessorSpecific(x),
            x if 0x80000000 <= x => SectionType::ApplicationSpecific(x),
            n => SectionType::Unknown(n),
        }
    }
}

impl vstd::std_specs::convert::FromSpecImpl<u32> for SectionType {
    open spec fn obeys_from_spec() -> bool {
        true
    }

    open spec fn from_spec(n: u32) -> Self {
        spec_section_type(n)
    }
}

/// Attribute bit of a writable section.
pub const SHF_WRITE: u64 = 0x1;

/// Attribute bit of a section occupying memory at run time.
pub const SHF_ALLOC: u64 = 0x2;

/// Attribute bit of a section holding executable instructions.
pub const SHF_EXECINSTR: u64 = 0x4;

/// Attribute bit of a mergeable section.
pub const SHF_MERGE: u64 = 0x10;

/// Attribute bit of a section holding NUL-terminated strings.
pub const SHF_STRINGS: u64 = 0x20;

/// Attribute bit marking the info field as a section-header index.
pub const SHF_INFO_LINK: u64 = 0x40;

/// Attribute bit demanding link order be kept.
pub const SHF_LINK_ORDER: u64 = 0x80;

/// Attribute bit of a section needing OS-specific handling.
pub const SHF_OS_NONCONFORMING: u64 = 0x100;

/// Attribute bit of a section-group member.
pub const SHF_GROUP: u64 = 0x200;

/// Attribute bit of a thread-local-storage section.
pub const SHF_TLS: u64 = 0x400;

/// Mask of the OS-reserved attribute bits.
pub const SHF_MASKOS: u64 = 0x0ff00000;

/// Mask of the processor-reserved attribute bits.
pub const SHF_MASKPROC: u64 = 0xf0000000;

/// Attribute bit demanding special ordering (legacy).
pub const SHF_ORDERED: u64 = 0x40000000;

/// Attribute bit excluding the section from linking (legacy).
pub const SHF_EXCLUDE: u64 = 0x80000000;

/// The attribute bits of one section. Every raw bit is preserved, the
/// unrecognized ones included, so vendor extensions survive a decode.
#[derive(Copy, Clone, Debug, PartialEq, Eq, Structural)]
pub struct SectionHeaderFlags {
    pub bits: u64,
}

impl SectionHeaderFlags {
    /// The raw bits, unchanged.
    pub fn bits(&self) -> (r: u64)
        ensures
            r == self.bits,
    {
        self.bits
    }

    /// Whether every bit of `mask` is set.
    pub fn contains(&self, mask: u64) -> (r: bool)
        ensures
            r == (self.bits & mask == mask),
    {
        self.bits & mask == mask
    }
}

/// The size in bytes of one on-disk section-header record for class `c`.
pub open spec fn sh_entry_size_of(c: ElfClass) -> int {
    if c is Elf64 {
        64
    } else {
        40
    }
}

/// One decoded section-header record, with class-width fields widened to 64
/// bits.
#[derive(Copy, Clone, Debug, PartialEq, Eq, Structural)]
pub struct SectionHeaderGen {
    pub sh_name: u32,
    pub sh_type: u32,
    pub sh_flags: u64,
    pub sh_addr: u64,
    pub sh_offset: u64,
    pub sh_size: u64,
    pub sh_link: u32,
    pub sh_info: u32,
    pub sh_addralign: u64,
    pub sh_entsize: u64,
}

/// The section-header record of class `c` stored at byte offset `off` of
/// `s`. Both classes order the fields alike; only the word width differs.
pub open spec fn spec_sh_at(s: Seq<u8>, c: ElfClass, off: int) -> SectionHeaderGen {
    if c is Elf64 {
        SectionHeaderGen {
            sh_name: le32_at(s, off),
            sh_type: le32_at(s, off + 4),
            sh_flags: le64_at(s, off + 8),
            sh_addr: le64_at(s, off + 16),
            sh_offset: le64_at(s, off + 24),
            sh_size: le64_at(s, off + 32),
            sh_link: le32_at(s, off + 40),
            sh_info: le32_at(s, off + 44),
            sh_addralign: le64_at(s, off + 48),
            sh_entsize: le64_at(s, off + 56),
        }
    } else {
        SectionHeaderGen {
            sh_name: le32_at(s, off),
            sh_type: le32_at(s, off + 4),
            sh_flags: le32_at(s, off + 8) as u64,
            sh_addr: le32_at(s, off + 12) as u64,
            sh_offset: le32_at(s, off + 16) as u64,
            sh_size: le32_at(s, off + 20) as u64,
            sh_link: le32_at(s, off + 24),
            sh_info: le32_at(s, off + 28),
            sh_addralign: le32_at(s, off + 32) as u64,
            sh_entsize: le32_at(s, off + 36) as u64,
        }
    }
}

/// Decodes the section-header record of class `c` at byte offset `off`.
pub(crate) fn decode_sh(buf: &[u8], c: ElfClass, off: usize) -> (sh: SectionHeaderGen)
    requires
        c is Elf32 || c is Elf64,
        off + sh_entry_size_of(c) <= buf@.len(),
    ensures
        sh == spec_sh_at(buf@, c, off as int),
{
    let _n = buf.len();
    if matches!(c, ElfClass::Elf64) {
        SectionHeaderGen {
            sh_name: crate::word::read_u32(buf, off),
            sh_type: crate::word::read_u32(buf, off + 4),
            sh_flags: crate::word::read_u64(buf, off + 8),
            sh_addr: crate::word::read_u64(buf, off + 16),
            sh_offset: crate::word::read_u64(buf, off + 24),
            sh_size: crate::word::read_u64(buf, off + 32),
            sh_link: crate::word::read_u32(buf, off + 40),
            sh_info: crate::word::read_u32(buf, off + 44),
            sh_addralign: crate::word::read_u64(buf, off + 48),
            sh_entsize: crate::word::read_u64(buf, off + 56),
        }
    } else {
        SectionHeaderGen {
            sh_name: crate::word::read_u32(buf, off),
            sh_type: crate::word::read_u32(buf, off + 4),
            sh_flags: crate::word::read_u32(buf, off + 8) as u64,
            sh_addr: crate::word::read_u32(buf, off + 12) as u64,
            sh_offset: crate::word::read_u32(buf, off + 16) as u64,
            sh_size: crate::word::read_u32(buf, off + 20) as u64,
            sh_link: crate::word::read_u32(buf, off + 24),
            sh_info: crate::word::read_u32(buf, off + 28),
            sh_addralign: crate::word::read_u32(buf, off + 32) as u64,
            sh_entsize: crate::word::read_u32(buf, off + 36) as u64,
        }
    }
}

impl SectionHeaderGen {
    /// The offset of the section's name inside the string-table section.
    pub fn name_off(&self) -> (r: u32)
        ensures
            r == self.sh_name,
    {
        self.sh_name
    }

    /// The decoded section type.
    pub fn sh_type(&self) -> (r: SectionType)
        ensures
            r == spec_section_type(self.sh_type),
    {
        SectionType::from(self.sh_type)
    }

    /// The attribute bits, every raw bit preserved.
    pub fn flags(&self) -> (r: SectionHeaderFlags)
        ensures
            r.bits == self.sh_flags,
    {
        SectionHeaderFlags { bits: self.sh_flags }
    }

    /// The virtual address of the section, widened to 64 bits.
    pub fn addr(&self) -> (r: u64)
        ensures
            r == self.sh_addr,
    {
        self.sh_addr
    }

    /// The file offset of the section's bytes, widened to 64 bits.
    pub fn offset(&self) -> (r: u64)
        ensures
            r == self.sh_offset,
    {
        self.sh_offset
    }

    /// The size of the section's bytes, widened to 64 bits.
    pub fn size(&self) -> (r: u64)
        ensures
            r == self.sh_size,
    {
        self.sh_size
    }

    /// The section-header index or table this section links to.
    pub fn link(&self) -> (r: u32)
        ensures
            r == self.sh_link,
    {
        self.sh_link
    }

    /// Extra type-dependent information.
    pub fn info(&self) -> (r: u32)
        ensures
            r == self.sh_info,
    {
        self.sh_info
    }

    /// The alignment demanded for the section, widened to 64 bits.
    pub fn addralign(&self) -> (r: u64)
        ensures
            r == self.sh_addralign,
    {
        self.sh_addralign
    }

    /// The size of one table entry for table-shaped sections, widened to 64
    /// bits.
    pub fn entsize(&self) -> (r: u64)
        ensures
            r == self.sh_entsize,
    {
        self.sh_entsize
    }
}

/// The position of the first NUL byte of `t` at or after offset `i`, if
/// there is one.
pub open spec fn find_nul(t: Seq<u8>, i: int) -> Option<int>
    decreases t.len() - i,
{
    if i < 0 || i >= t.len() {
        None
    } else if t[i] == 0 {
        Some(i)
    } else {
        find_nul(t, i + 1)
    }
}

/// The NUL-terminated string starting at offset `off` of string table `t`:
/// the bytes up to, and not including, the first NUL at or after `off`.
/// Absent when no NUL lies between `off` and the table's end — also when
/// `off` sits at or past that end.
pub open spec fn spec_name_in_table(t: Seq<u8>, off: int) -> Option<Seq<u8>> {
    match find_nul(t, off) {
        Some(k) => Some(t.subrange(off, k)),
        None => None,
    }
}

/// The resolved name for name offset `name_off`: the NUL-terminated string
/// at that offset of the section-name string table. Absent whenever the
/// string table itself, or the terminated string inside it, is not there.
pub open spec fn spec_section_name(s: Seq<u8>, c: ElfClass, name_off: int) -> Option<Seq<u8>> {
    match spec_shstr_section(s, c) {
        Some(t) => spec_name_in_table(t, name_off),
        None => None,
    }
}

/// One section-header entry together with the file it came from, so the
/// section's bytes and its name can be reached through bounds-checked
/// views.
pub struct SectionHeader<'a> {
    pub elf: ElfGen<'a>,
    pub sh: SectionHeaderGen,
}

impl<'a> SectionHeader<'a> {
    /// Name resolution walks the file again, so it relies on the
    /// construction-time invariant of the file this entry came from.
    pub open spec fn wf(&self) -> bool {
        self.elf.wf()
    }

    /// The section's bytes at `[offset, offset + size)`, or absent when
    /// that range overflows or leaves the buffer — never a fault and never
    /// a silently clipped slice.
    pub fn content(&self) -> (r: Option<&'a [u8]>)
        ensures
            match r {
                Some(seg) => {
                    &&& self.sh.sh_offset + self.sh.sh_size <= self.elf.buf@.len()
                    &&& seg@ == self.elf.buf@.subrange(
                        self.sh.sh_offset as int,
                        self.sh.sh_offset + self.sh.sh_size,
                    )
                },
                None => self.sh.sh_offset + self.sh.sh_size > self.elf.buf@.len(),
            },
    {
        let n = self.elf.buf.len();
        let off = self.sh.sh_offset;
        let end = match off.checked_add(self.sh.sh_size) {
            Some(e) => e,
            None => {
                return None;
            },
        };
        if end > n as u64 {
            return None;
        }
        Some(vstd::slice::slice_subrange(self.elf.buf, off as usize, end as usize))
    }

    /// The same bounds-checked view as [`Self::content`].
    pub fn segment(&self) -> (r: Option<&'a [u8]>)
        ensures
            match r {
                Some(seg) => {
                    &&& self.sh.sh_offset + self.sh.sh_size <= self.elf.buf@.len()
                    &&& seg@ == self.elf.buf@.subrange(
                        self.sh.sh_offset as int,
                        self.sh.sh_offset + self.sh.sh_size,
                    )
                },
                None => self.sh.sh_offset + self.sh.sh_size > self.elf.buf@.len(),
            },
    {
        self.content()
    }

    /// The section's name: the NUL-terminated bytes its name offset points
    /// at inside the section-name string table. Absent when the string
    /// table is unavailable, the offset lies at or past the table's end, or
    /// no NUL terminator follows before that end.
    pub fn section_name(&self) -> (r: Option<&'a [u8]>)
        requires
            self.wf(),
        ensures
            match spec_section_name(self.elf.buf@, self.elf.class, self.sh.sh_name as int) {
                Some(t) => r matches Some(b) && b@ == t,
                None => r is None,
            },
    {
        let table = match self.elf.shstr_section() {
            Some(t) => t,
            None => {
                return None;
            },
        };
        let name_off = self.sh.sh_name as usize;
        let tlen = table.len();
        let mut j = name_off;
        while j < tlen
            invariant
                spec_shstr_section(self.elf.buf@, self.elf.class) matches Some(t) && t == table@,
                name_off == self.sh.sh_name,
                tlen == table@.len(),
                name_off <= j,
                find_nul(table@, name_off as int) == find_nul(table@, j as int),
            decreases tlen - j,
        {
            if table[j] == 0 {
                proof {
                    assert(find_nul(table@, name_off as int) == Some(j as int));
                }
                return Some(vstd::slice::slice_subrange(table, name_off, j));
            }
            j = j + 1;
        }
        None
    }
}

/// A lazy, restartable walk of the section-header table in index order.
/// It stops cleanly at the declared count or at the first absent entry.
pub struct SectionHeaderIter<'a> {
    pub elf: ElfGen<'a>,
    pub index: usize,
}

impl<'a> SectionHeaderIter<'a> {
    /// The iterator is usable as long as the file it walks is valid.
    pub open spec fn wf(&self) -> bool {
        self.elf.wf()
    }

    /// A fresh iterator over `elf`'s section-header table.
    pub fn new(elf: &ElfGen<'a>) -> (it: Self)
        ensures
            it.elf == *elf,
            it.index == 0,
    {
        SectionHeaderIter { elf: *elf, index: 0 }
    }

    /// The next entry, advancing the iterator, or absent — without
    /// advancing — once the table is exhausted or runs past the buffer.
    pub fn next(&mut self) -> (r: Option<SectionHeader<'a>>)
        requires
            old(self).wf(),
        ensures
            match r {
                Some(e) => {
                    &&& sh_nth_present(
                        old(self).elf.buf@,
                        old(self).elf.class,
                        old(self).index as int,
                    )
                    &&& e.elf == old(self).elf
                    &&& e.sh == spec_sh_nth(
                        old(self).elf.buf@,
                        old(self).elf.class,
                        old(self).index as int,
                    )
                    &&& final(self).elf == old(self).elf
                    &&& final(self).index == old(self).index + 1
                },
                None => {
                    &&& !sh_nth_present(
                        old(self).elf.buf@,
                        old(self).elf.class,
                        old(self).index as int,
                    )
                    &&& *final(self) == *old(self)
                },
            },
    {
        match self.elf.section_header_nth(self.index) {
            Some(e) => {
                self.index = self.index + 1;
                Some(e)
            },
            None => None,
        }
    }
}

} // verus!
