//! A zero-copy decoder for ELF object files.
//!
//! A caller hands `Elf::from_bytes` a byte buffer; after validation it
//! receives a class-tagged handle (32-bit or 64-bit) exposing bounds-checked
//! views of the file header, the program-header table and the section-header
//! table, including section-name resolution through the string-table section.

#![allow(non_camel_case_types)]

use vstd::prelude::*;

pub mod elf;
pub mod elf_header;
pub mod program_header;
pub mod section_header;
pub mod word;

pub use elf::ElfGen;
pub use elf_header::{ElfAbi, ElfClass, ElfEndian, ElfHeaderGen, ElfMachine, ElfType};
pub use program_header::{ProgramHeader, ProgramHeaderGen, ProgramHeaderIter, ProgramType};
pub use section_header::{
    SectionHeader, SectionHeaderFlags, SectionHeaderGen, SectionHeaderIter, SectionType,
};

use elf_header::{magic_ok, spec_header};

verus! {

/// The ways construction of an [`Elf`] handle can fail. Every anomaly found
/// after construction is reported as an absent value instead.
#[derive(Copy, Clone, Debug, PartialEq, Eq, Structural)]
pub enum Error {
    /// The buffer is shorter than the smallest header layout, or shorter
    /// than the header's self-reported size.
    BufferTooShort,
    /// The buffer does not begin with the four ELF magic bytes.
    InvalidMagic,
    /// The class byte names neither the 32-bit nor the 64-bit layout.
    InvalidClass,
}

/// What validating a buffer yields: the class to decode it under, or the
/// first of the construction errors, checked in this order — the buffer
/// holds the smaller header layout; the magic is in place; the class byte
/// is decodable; the buffer holds the whole fixed header of that class and
/// at least the header's self-reported size.
pub open spec fn spec_from_bytes(s: Seq<u8>) -> Result<ElfClass, Error> {
    if s.len() < 52 {
        Err(Error::BufferTooShort)
    } else if !magic_ok(s) {
        Err(Error::InvalidMagic)
    } else if s[4] == 1 {
        if spec_header(s, ElfClass::Elf32).ehsize <= s.len() {
            Ok(ElfClass::Elf32)
        } else {
            Err(Error::BufferTooShort)
        }
    } else if s[4] == 2 {
        if s.len() < 64 {
            Err(Error::BufferTooShort)
        } else if spec_header(s, ElfClass::Elf64).ehsize <= s.len() {
            Ok(ElfClass::Elf64)
        } else {
            Err(Error::BufferTooShort)
        }
    } else {
        Err(Error::InvalidClass)
    }
}

/// A validated ELF file: the class-tagged handle construction returns.
/// Class-agnostic callers reach every capability through the shared
/// [`ElfGen`] inside either variant.
pub enum Elf<'a> {
    Elf32(ElfGen<'a>),
    Elf64(ElfGen<'a>),
}

impl<'a> Elf<'a> {
    /// The container inside either variant.
    pub open spec fn spec_gen(&self) -> ElfGen<'a> {
        match self {
            Elf::Elf32(e) => *e,
            Elf::Elf64(e) => *e,
        }
    }

    /// The handle is valid and its variant agrees with the class tag of
    /// the container it carries.
    pub open spec fn wf(&self) -> bool {
        match self {
            Elf::Elf32(e) => e.wf() && e.class is Elf32,
            Elf::Elf64(e) => e.wf() && e.class is Elf64,
        }
    }

    /// Validates `buf` as an ELF file and returns the class-tagged handle,
    /// or says exactly what disqualified the buffer. Validation happens
    /// only here; every later anomaly is an absent value, not an error.
    pub fn from_bytes(buf: &'a [u8]) -> (r: Result<Self, Error>)
        ensures
            match r {
                Ok(elf) => {
                    &&& spec_from_bytes(buf@) matches Ok(c) && elf.spec_gen().class == c
                    &&& elf.spec_gen().buf@ == buf@
                    &&& elf.wf()
                },
                Err(e) => spec_from_bytes(buf@) matches Err(e2) && e == e2,
            },
    {
        let n = buf.len();
        if n < 52 {
            return Err(Error::BufferTooShort);
        }
        if !(buf[0] == 0x7f && buf[1] == 0x45 && buf[2] == 0x4c && buf[3] == 0x46) {
            return Err(Error::InvalidMagic);
        }
        if buf[4] == 1 {
            let ehsize = word::read_u16(buf, 40);
            if n < ehsize as usize {
                Err(Error::BufferTooShort)
            } else {
                Ok(Elf::Elf32(ElfGen::new(buf, ElfClass::Elf32)))
            }
        } else if buf[4] == 2 {
            if n < 64 {
                return Err(Error::BufferTooShort);
            }
            let ehsize = word::read_u16(buf, 52);
            if n < ehsize as usize {
                Err(Error::BufferTooShort)
            } else {
                Ok(Elf::Elf64(ElfGen::new(buf, ElfClass::Elf64)))
            }
        } else {
            Err(Error::InvalidClass)
        }
    }

    /// The whole underlying buffer.
    pub fn content(&self) -> (r: &'a [u8])
        ensures
            r@ == self.spec_gen().buf@,
    {
        match self {
            Elf::Elf32(e) => e.as_bytes(),
            Elf::Elf64(e) => e.as_bytes(),
        }
    }
}

} // verus!
