//! Program headers: the segment-type enumeration, the decoded record, the
//! bounds-checked segment view and the lazy table iterator.

use vstd::prelude::*;

use crate::elf::{ph_nth_present, spec_ph_nth, ElfGen};
use crate::elf_header::ElfClass;
use crate::word::{le32_at, le64_at};

verus! {

/// The kind of one program-header entry, with the OS- and processor-reserved
/// ranges kept as open variants carrying the raw code.
#[derive(Copy, Clone, Debug, PartialEq, Eq, Structural)]
pub enum ProgramType {
    NULL,
    LOAD,
    DYNAMIC,
    INTERP,
    NOTE,
    SHLIB,
    PHDR,
    GNU_STACK,
    OsSpecific(u32),
    ProcessorSpecific(u32),
    Unknown(u32),
}

/// The decoding of the 32-bit segment-type field.
pub open spec fn spec_program_type(n: u32) -> ProgramType {
    if n == 0x0 {
        ProgramType::NULL
    } else if n == 0x1 {
        ProgramType::LOAD
    } else if n == 0x2 {
        ProgramType::DYNAMIC
    } else if n == 0x3 {
        ProgramType::INTERP
    } else if n == 0x4 {
        ProgramType::NOTE
    } else if n == 0x5 {
        ProgramType::SHLIB
    } else if n == 0x6 {
        ProgramType::PHDR
    } else if n == 0x6474e551 {
        ProgramType::GNU_STACK
    } else if 0x60000000 <= n && n <= 0x6fffffff {
        ProgramType::OsSpecific(n)
    } else if 0x70000000 <= n && n <= 0x7fffffff {
        ProgramType::ProcessorSpecific(n)
    } else {
        ProgramType::Unknown(n)
    }
}

impl From<u32> for ProgramType {
    fn from(n: u32) -> (r: Self) {
        match n {
            0x0 => ProgramType::NULL,
            0x1 => ProgramType::LOAD,
            0x2 => ProgramType::DYNAMIC,
            0x3 => ProgramType::INTERP,
            0x4 => ProgramType::NOTE,
            0x5 => ProgramType::SHLIB,
            0x6 => ProgramType::PHDR,
            0x6474e551 => ProgramType::GNU_STACK,
            x if 0x60000000 <= x && x <= 0x6fffffff => ProgramType::OsSpecific(x),
            x if 0x70000000 <= x && x <= 0x7fffffff => ProgramType::ProcessorSpecific(x),
            n => ProgramType::Unknown(n),
        }
    }
}

impl vstd::std_specs::convert::FromSpecImpl<u32> for ProgramType {
    open spec fn obeys_from_spec() -> bool {
        true
    }

    open spec fn from_spec(n: u32) -> Self {
        spec_program_type(n)
    }
}

/// The size in bytes of one on-disk program-header record for class `c`.
pub open spec fn ph_entry_size_of(c: ElfClass) -> int {
    if c is Elf64 {
        56
    } else {
        32
    }
}

/// One decoded program-header record, with class-width fields widened to 64
/// bits.
#[derive(Copy, Clone, Debug, PartialEq, Eq, Structural)]
pub struct ProgramHeaderGen {
    pub p_type: u32,
    pub p_flags: u32,
    pub p_offset: u64,
    pub p_vaddr: u64,
    pub p_paddr: u64,
    pub p_filesz: u64,
    pub p_memsz: u64,
    pub p_align: u64,
}

/// The program-header record of class `c` stored at byte offset `off` of
/// `s`. The two classes order the fields differently: the 64-bit layout puts
/// the flags word second, the 32-bit layout puts it next to last.
pub open spec fn spec_ph_at(s: Seq<u8>, c: ElfClass, off: int) -> ProgramHeaderGen {
    if c is Elf64 {
        ProgramHeaderGen {
            p_type: le32_at(s, off),
            p_flags: le32_at(s, off + 4),
            p_offset: le64_at(s, off + 8),
            p_vaddr: le64_at(s, off + 16),
            p_paddr: le64_at(s, off + 24),
            p_filesz: le64_at(s, off + 32),
            p_memsz: le64_at(s, off + 40),
            p_align: le64_at(s, off + 48),
        }
    } else {
        ProgramHeaderGen {
            p_type: le32_at(s, off),
            p_offset: le32_at(s, off + 4) as u64,
            p_vaddr: le32_at(s, off + 8) as u64,
            p_paddr: le32_at(s, off + 12) as u64,
            p_filesz: le32_at(s, off + 16) as u64,
            p_memsz: le32_at(s, off + 20) as u64,
            p_flags: le32_at(s, off + 24),
            p_align: le32_at(s, off + 28) as u64,
        }
    }
}

/// Decodes the program-header record of class `c` at byte offset `off`.
pub(crate) fn decode_ph(buf: &[u8], c: ElfClass, off: usize) -> (ph: ProgramHeaderGen)
    requires
        c is Elf32 || c is Elf64,
        off + ph_entry_size_of(c) <= buf@.len(),
    ensures
        ph == spec_ph_at(buf@, c, off as int),
{
    let _n = buf.len();
    if matches!(c, ElfClass::Elf64) {
        ProgramHeaderGen {
            p_type: crate::word::read_u32(buf, off),
            p_flags: crate::word::read_u32(buf, off + 4),
            p_offset: crate::word::read_u64(buf, off + 8),
            p_vaddr: crate::word::read_u64(buf, off + 16),
            p_paddr: crate::word::read_u64(buf, off + 24),
            p_filesz: crate::word::read_u64(buf, off + 32),
            p_memsz: crate::word::read_u64(buf, off + 40),
            p_align: crate::word::read_u64(buf, off + 48),
        }
    } else {
        ProgramHeaderGen {
            p_type: crate::word::read_u32(buf, off),
            p_offset: crate::word::read_u32(buf, off + 4) as u64,
            p_vaddr: crate::word::read_u32(buf, off + 8) as u64,
            p_paddr: crate::word::read_u32(buf, off + 12) as u64,
            p_filesz: crate::word::read_u32(buf, off + 16) as u64,
            p_memsz: crate::word::read_u32(buf, off + 20) as u64,
            p_flags: crate::word::read_u32(buf, off + 24),
            p_align: crate::word::read_u32(buf, off + 28) as u64,
        }
    }
}

impl ProgramHeaderGen {
    /// The decoded segment type.
    pub fn ph_type(&self) -> (r: ProgramType)
        ensures
            r == spec_program_type(self.p_type),
    {
        ProgramType::from(self.p_type)
    }

    /// The permission-flags word.
    pub fn flags(&self) -> (r: u32)
        ensures
            r == self.p_flags,
    {
        self.p_flags
    }

    /// The file offset of the segment's bytes, widened to 64 bits.
    pub fn offset(&self) -> (r: u64)
        ensures
            r == self.p_offset,
    {
        self.p_offset
    }

    /// The virtual load address, widened to 64 bits.
    pub fn vaddr(&self) -> (r: u64)
        ensures
            r == self.p_vaddr,
    {
        self.p_vaddr
    }

    /// The physical load address, widened to 64 bits.
    pub fn paddr(&self) -> (r: u64)
        ensures
            r == self.p_paddr,
    {
        self.p_paddr
    }

    /// The size of the segment's bytes in the file, widened to 64 bits.
    pub fn filesz(&self) -> (r: u64)
        ensures
            r == self.p_filesz,
    {
        self.p_filesz
    }

    /// The size of the segment in memory, widened to 64 bits.
    pub fn memsz(&self) -> (r: u64)
        ensures
            r == self.p_memsz,
    {
        self.p_memsz
    }

    /// The alignment demanded for the segment, widened to 64 bits.
    pub fn align(&self) -> (r: u64)
        ensures
            r == self.p_align,
    {
        self.p_align
    }
}

/// One program-header entry together with the file it came from, so the
/// segment's bytes can be reached through a bounds-checked view.
pub struct ProgramHeader<'a> {
    pub elf: ElfGen<'a>,
    pub ph: ProgramHeaderGen,
}

impl<'a> ProgramHeader<'a> {
    /// The segment's bytes at `[offset, offset + filesz)`, or absent when
    /// that range overflows or leaves the buffer — never a fault and never
    /// a silently clipped slice.
    pub fn content(&self) -> (r: Option<&'a [u8]>)
        ensures
            match r {
                Some(seg) => {
                    &&& self.ph.p_offset + self.ph.p_filesz <= self.elf.buf@.len()
                    &&& seg@ == self.elf.buf@.subrange(
                        self.ph.p_offset as int,
                        self.ph.p_offset + self.ph.p_filesz,
                    )
                },
                None => self.ph.p_offset + self.ph.p_filesz > self.elf.buf@.len(),
            },
    {
        let n = self.elf.buf.len();
        let off = self.ph.p_offset;
        let end = match off.checked_add(self.ph.p_filesz) {
            Some(e) => e,
            None => {
                return None;
            },
        };
        if end > n as u64 {
            return None;
        }
        Some(vstd::slice::slice_subrange(self.elf.buf, off as usize, end as usize))
    }

    /// The same bounds-checked view as [`Self::content`].
    pub fn segment(&self) -> (r: Option<&'a [u8]>)
        ensures
            match r {
                Some(seg) => {
                    &&& self.ph.p_offset + self.ph.p_filesz <= self.elf.buf@.len()
                    &&& seg@ == self.elf.buf@.subrange(
                        self.ph.p_offset as int,
                        self.ph.p_offset + self.ph.p_filesz,
                    )
                },
                None => self.ph.p_offset + self.ph.p_filesz > self.elf.buf@.len(),
            },
    {
        self.content()
    }
}

/// A lazy, restartable walk of the program-header table in index order.
/// It stops cleanly at the declared count or at the first absent entry.
pub struct ProgramHeaderIter<'a> {
    pub elf: ElfGen<'a>,
    pub index: usize,
}

impl<'a> ProgramHeaderIter<'a> {
    /// The iterator is usable as long as the file it walks is valid.
    pub open spec fn wf(&self) -> bool {
        self.elf.wf()
    }

    /// A fresh iterator over `elf`'s program-header table.
    pub fn new(elf: &ElfGen<'a>) -> (it: Self)
        ensures
            it.elf == *elf,
            it.index == 0,
    {
        ProgramHeaderIter { elf: *elf, index: 0 }
    }

    /// The next entry, advancing the iterator, or absent — without
    /// advancing — once the table is exhausted or runs past the buffer.
    pub fn next(&mut self) -> (r: Option<ProgramHeader<'a>>)
        requires
            old(self).wf(),
        ensures
            match r {
                Some(e) => {
                    &&& ph_nth_present(
                        old(self).elf.buf@,
                        old(self).elf.class,
                        old(self).index as int,
                    )
                    &&& e.elf == old(self).elf
                    &&& e.ph == spec_ph_nth(
                        old(self).elf.buf@,
                        old(self).elf.class,
                        old(self).index as int,
                    )
                    &&& final(self).elf == old(self).elf
                    &&& final(self).index == old(self).index + 1
                },
                None => {
                    &&& !ph_nth_present(
                        old(self).elf.buf@,
                        old(self).elf.class,
                        old(self).index as int,
                    )
                    &&& *final(self) == *old(self)
                },
            },
    {
        match self.elf.program_header_nth(self.index) {
            Some(e) => {
                self.index = self.index + 1;
                Some(e)
            },
            None => None,
        }
    }
}

} // verus!
