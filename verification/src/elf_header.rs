//! The file header: open enumerations for its coded fields and a typed,
//! decoded view of the whole record. Every enumeration keeps a variant for
//! raw values it does not know, so vendor extensions never make an otherwise
//! valid file unreadable.

use vstd::prelude::*;

use crate::word::{le16_at, le32_at, le64_at};

verus! {

/// Whether `s` begins with the four ELF magic bytes.
pub open spec fn magic_ok(s: Seq<u8>) -> bool {
    &&& s.len() >= 4
    &&& s[0] == 0x7fu8
    &&& s[1] == 0x45u8
    &&& s[2] == 0x4cu8
    &&& s[3] == 0x46u8
}

/// The word width a file's structural fields use.
#[derive(Copy, Clone, Debug, PartialEq, Eq, Structural)]
pub enum ElfClass {
    Elf32,
    Elf64,
    Unknown(u8),
}

/// The decoding of the class byte: 1 is 32-bit, 2 is 64-bit.
pub open spec fn spec_elf_class(n: u8) -> ElfClass {
    if n == 1 {
        ElfClass::Elf32
    } else if n == 2 {
        ElfClass::Elf64
    } else {
        ElfClass::Unknown(n)
    }
}

impl From<u8> for ElfClass {
    fn from(n: u8) -> (r: Self) {
        match n {
            1 => ElfClass::Elf32,
            2 => ElfClass::Elf64,
            n => ElfClass::Unknown(n),
        }
    }
}

impl vstd::std_specs::convert::FromSpecImpl<u8> for ElfClass {
    open spec fn obeys_from_spec() -> bool {
        true
    }

    open spec fn from_spec(n: u8) -> Self {
        spec_elf_class(n)
    }
}

/// The byte order a file declares for its multi-byte fields.
#[derive(Copy, Clone, Debug, PartialEq, Eq, Structural)]
pub enum ElfEndian {
    LittleEndian,
    BigEndian,
    Unknown(u8),
}

/// The decoding of the endianness byte: 1 is little, 2 is big.
pub open spec fn spec_elf_endian(n: u8) -> ElfEndian {
    if n == 1 {
        ElfEndian::LittleEndian
    } else if n == 2 {
        ElfEndian::BigEndian
    } else {
        ElfEndian::Unknown(n)
    }
}

impl From<u8> for ElfEndian {
    fn from(n: u8) -> (r: Self) {
        match n {
            1 => ElfEndian::LittleEndian,
            2 => ElfEndian::BigEndian,
            n => ElfEndian::Unknown(n),
        }
    }
}

impl vstd::std_specs::convert::FromSpecImpl<u8> for ElfEndian {
    open spec fn obeys_from_spec() -> bool {
        true
    }

    open spec fn from_spec(n: u8) -> Self {
        spec_elf_endian(n)
    }
}

/// The OS or ABI a file targets.
#[derive(Copy, Clone, Debug, PartialEq, Eq, Structural)]
pub enum ElfAbi {
    SystemV,
    HPUX,
    NetBSD,
    Linux,
    Hurd,
    Solaris,
    AIX,
    IRIX,
    FreeBSD,
    Tru64,
    NovellModesto,
    OpenBSD,
    OpenVMS,
    NonStopKernel,
    AROS,
    FenixOS,
    CloudABI,
    Unknown(u8),
}

/// The decoding of the OS/ABI byte.
pub open spec fn spec_elf_abi(n: u8) -> ElfAbi {
    if n == 0x00 {
        ElfAbi::SystemV
    } else if n == 0x01 {
        ElfAbi::HPUX
    } else if n == 0x02 {
        ElfAbi::NetBSD
    } else if n == 0x03 {
        ElfAbi::Linux
    } else if n == 0x04 {
        ElfAbi::Hurd
    } else if n == 0x06 {
        ElfAbi::Solaris
    } else if n == 0x07 {
        ElfAbi::AIX
    } else if n == 0x08 {
        ElfAbi::IRIX
    } else if n == 0x09 {
        ElfAbi::FreeBSD
    } else if n == 0x0a {
        ElfAbi::Tru64
    } else if n == 0x0b {
        ElfAbi::NovellModesto
    } else if n == 0x0c {
        ElfAbi::OpenBSD
    } else if n == 0x0d {
        ElfAbi::OpenVMS
    } else if n == 0x0e {
        ElfAbi::NonStopKernel
    } else if n == 0x0f {
        ElfAbi::AROS
    } else if n == 0x10 {
        ElfAbi::FenixOS
    } else if n == 0x11 {
        ElfAbi::CloudABI
    } else {
        ElfAbi::Unknown(n)
    }
}

impl From<u8> for ElfAbi {
    fn from(n: u8) -> (r: Self) {
        match n {
            0x00 => ElfAbi::SystemV,
            0x01 => ElfAbi::HPUX,
            0x02 => ElfAbi::NetBSD,
            0x03 => ElfAbi::Linux,
            0x04 => ElfAbi::Hurd,
            0x06 => ElfAbi::Solaris,
            0x07 => ElfAbi::AIX,
            0x08 => ElfAbi::IRIX,
            0x09 => ElfAbi::FreeBSD,
            0x0a => ElfAbi::Tru64,
            0x0b => ElfAbi::NovellModesto,
            0x0c => ElfAbi::OpenBSD,
            0x0d => ElfAbi::OpenVMS,
            0x0e => ElfAbi::NonStopKernel,
            0x0f => ElfAbi::AROS,
            0x10 => ElfAbi::FenixOS,
            0x11 => ElfAbi::CloudABI,
            n => ElfAbi::Unknown(n),
        }
    }
}

impl vstd::std_specs::convert::FromSpecImpl<u8> for ElfAbi {
    open spec fn obeys_from_spec() -> bool {
        true
    }

    open spec fn from_spec(n: u8) -> Self {
        spec_elf_abi(n)
    }
}

/// The object kind of a file, with the OS- and processor-reserved ranges
/// kept as open variants carrying the raw code.
#[derive(Copy, Clone, Debug, PartialEq, Eq, Structural)]
pub enum ElfType {
    ET_NONE,
    ET_REL,
    ET_EXEC,
    ET_DYN,
    ET_CORE,
    OsSpecific(u16),
    ProcessorSpecific(u16),
    Unknown(u16),
}

/// The decoding of the 16-bit object-type field.
pub open spec fn spec_elf_type(n: u16) -> ElfType {
    if n == 0x00 {
        ElfType::ET_NONE
    } else if n == 0x01 {
        ElfType::ET_REL
    } else if n == 0x02 {
        ElfType::ET_EXEC
    } else if n == 0x03 {
        ElfType::ET_DYN
    } else if n == 0x04 {
        ElfType::ET_CORE
    } else if 0xfe00 <= n && n <= 0xfeff {
        ElfType::OsSpecific(n)
    } else if 0xff00 <= n {
        ElfType::ProcessorSpecific(n)
    } else {
        ElfType::Unknown(n)
    }
}

impl From<u16> for ElfType {
    fn from(n: u16) -> (r: Self) {
        match n {
            0x00 => ElfType::ET_NONE,
            0x01 => ElfType::ET_REL,
            0x02 => ElfType::ET_EXEC,
            0x03 => ElfType::ET_DYN,
            0x04 => ElfType::ET_CORE,
            x if 0xfe00 <= x && x <= 0xfeff => ElfType::OsSpecific(x),
            x if 0xff00 <= x => ElfType::ProcessorSpecific(x),
            n => ElfType::Unknown(n),
        }
    }
}

impl vstd::std_specs::convert::FromSpecImpl<u16> for ElfType {
    open spec fn obeys_from_spec() -> bool {
        true
    }

    open spec fn from_spec(n: u16) -> Self {
        spec_elf_type(n)
    }
}

/// The instruction-set architecture a file targets.
#[derive(Copy, Clone, Debug, PartialEq, Eq, Structural)]
pub enum ElfMachine {
    Unknown,
    SPARC,
    x86,
    MIPS,
    PowerPC,
    S390,
    ARM,
    SuperH,
    IA_64,
    x86_64,
    AArch64,
    RISC_V,
    MachineUnknown(u16),
}

/// The decoding of the 16-bit machine field.
pub open spec fn spec_elf_machine(n: u16) -> ElfMachine {
    if n == 0x00 {
        ElfMachine::Unknown
    } else if n == 0x02 {
        ElfMachine::SPARC
    } else if n == 0x03 {
        ElfMachine::x86
    } else if n == 0x08 {
        ElfMachine::MIPS
    } else if n == 0x14 {
        ElfMachine::PowerPC
    } else if n == 0x16 {
        ElfMachine::S390
    } else if n == 0x28 {
        ElfMachine::ARM
    } else if n == 0x2a {
        ElfMachine::SuperH
    } else if n == 0x32 {
        ElfMachine::IA_64
    } else if n == 0x3e {
        ElfMachine::x86_64
    } else if n == 0xb7 {
        ElfMachine::AArch64
    } else if n == 0xf3 {
        ElfMachine::RISC_V
    } else {
        ElfMachine::MachineUnknown(n)
    }
}

impl From<u16> for ElfMachine {
    fn from(n: u16) -> (r: Self) {
        match n {
            0x00 => ElfMachine::Unknown,
            0x02 => ElfMachine::SPARC,
            0x03 => ElfMachine::x86,
            0x08 => ElfMachine::MIPS,
            0x14 => ElfMachine::PowerPC,
            0x16 => ElfMachine::S390,
            0x28 => ElfMachine::ARM,
            0x2a => ElfMachine::SuperH,
            0x32 => ElfMachine::IA_64,
            0x3e => ElfMachine::x86_64,
            0xb7 => ElfMachine::AArch64,
            0xf3 => ElfMachine::RISC_V,
            n => ElfMachine::MachineUnknown(n),
        }
    }
}

impl vstd::std_specs::convert::FromSpecImpl<u16> for ElfMachine {
    open spec fn obeys_from_spec() -> bool {
        true
    }

    open spec fn from_spec(n: u16) -> Self {
        spec_elf_machine(n)
    }
}

/// The size in bytes of the file-header record for class `c`.
pub open spec fn header_size_of(c: ElfClass) -> int {
    if c is Elf64 {
        64
    } else {
        52
    }
}

/// The byte offset of the header's self-reported size field for class `c`.
pub open spec fn ehsize_off(c: ElfClass) -> int {
    if c is Elf64 {
        52
    } else {
        40
    }
}

/// The decoded file header: every coded field of the on-disk record, with
/// class-width fields widened to 64 bits.
#[derive(Copy, Clone, Debug, PartialEq, Eq, Structural)]
pub struct ElfHeaderGen {
    pub class: u8,
    pub endianness: u8,
    pub header_version: u8,
    pub abi: u8,
    pub abi_version: u8,
    pub elftype: u16,
    pub machine: u16,
    pub elf_version: u32,
    pub entry: u64,
    pub phoff: u64,
    pub shoff: u64,
    pub flags: u32,
    pub ehsize: u16,
    pub phentsize: u16,
    pub phnum: u16,
    pub shentsize: u16,
    pub shnum: u16,
    pub shstrndx: u16,
}

/// The file header that a buffer of class `c` holds, field by field.
/// The first sixteen identification bytes are shared by both classes; the
/// fields after the version field sit at class-dependent offsets.
pub open spec fn spec_header(s: Seq<u8>, c: ElfClass) -> ElfHeaderGen {
    if c is Elf64 {
        ElfHeaderGen {
            class: s[4],
            endianness: s[5],
            header_version: s[6],
            abi: s[7],
            abi_version: s[8],
            elftype: le16_at(s, 16),
            machine: le16_at(s, 18),
            elf_version: le32_at(s, 20),
            entry: le64_at(s, 24),
            phoff: le64_at(s, 32),
            shoff: le64_at(s, 40),
            flags: le32_at(s, 48),
            ehsize: le16_at(s, 52),
            phentsize: le16_at(s, 54),
            phnum: le16_at(s, 56),
            shentsize: le16_at(s, 58),
            shnum: le16_at(s, 60),
            shstrndx: le16_at(s, 62),
        }
    } else {
        ElfHeaderGen {
            class: s[4],
            endianness: s[5],
            header_version: s[6],
            abi: s[7],
            abi_version: s[8],
            elftype: le16_at(s, 16),
            machine: le16_at(s, 18),
            elf_version: le32_at(s, 20),
            entry: le32_at(s, 24) as u64,
            phoff: le32_at(s, 28) as u64,
            shoff: le32_at(s, 32) as u64,
            flags: le32_at(s, 36),
            ehsize: le16_at(s, 40),
            phentsize: le16_at(s, 42),
            phnum: le16_at(s, 44),
            shentsize: le16_at(s, 46),
            shnum: le16_at(s, 48),
            shstrndx: le16_at(s, 50),
        }
    }
}

/// Decodes the file header out of `buf`, which must be long enough for the
/// record of class `c`.
pub(crate) fn decode_header(buf: &[u8], c: ElfClass) -> (h: ElfHeaderGen)
    requires
        c is Elf32 || c is Elf64,
        buf@.len() >= header_size_of(c),
    ensures
        h == spec_header(buf@, c),
{
    let class = buf[4];
    let endianness = buf[5];
    let header_version = buf[6];
    let abi = buf[7];
    let abi_version = buf[8];
    let elftype = crate::word::read_u16(buf, 16);
    let machine = crate::word::read_u16(buf, 18);
    let elf_version = crate::word::read_u32(buf, 20);
    if matches!(c, ElfClass::Elf64) {
        ElfHeaderGen {
            class,
            endianness,
            header_version,
            abi,
            abi_version,
            elftype,
            machine,
            elf_version,
            entry: crate::word::read_u64(buf, 24),
            phoff: crate::word::read_u64(buf, 32),
            shoff: crate::word::read_u64(buf, 40),
            flags: crate::word::read_u32(buf, 48),
            ehsize: crate::word::read_u16(buf, 52),
            phentsize: crate::word::read_u16(buf, 54),
            phnum: crate::word::read_u16(buf, 56),
            shentsize: crate::word::read_u16(buf, 58),
            shnum: crate::word::read_u16(buf, 60),
            shstrndx: crate::word::read_u16(buf, 62),
        }
    } else {
        ElfHeaderGen {
            class,
            endianness,
            header_version,
            abi,
            abi_version,
            elftype,
            machine,
            elf_version,
            entry: crate::word::read_u32(buf, 24) as u64,
            phoff: crate::word::read_u32(buf, 28) as u64,
            shoff: crate::word::read_u32(buf, 32) as u64,
            flags: crate::word::read_u32(buf, 36),
            ehsize: crate::word::read_u16(buf, 40),
            phentsize: crate::word::read_u16(buf, 42),
            phnum: crate::word::read_u16(buf, 44),
            shentsize: crate::word::read_u16(buf, 46),
            shnum: crate::word::read_u16(buf, 48),
            shstrndx: crate::word::read_u16(buf, 50),
        }
    }
}

impl ElfHeaderGen {
    /// The decoded class byte.
    pub fn class(&self) -> (r: ElfClass)
        ensures
            r == spec_elf_class(self.class),
    {
        ElfClass::from(self.class)
    }

    /// The decoded endianness byte.
    pub fn endianness(&self) -> (r: ElfEndian)
        ensures
            r == spec_elf_endian(self.endianness),
    {
        ElfEndian::from(self.endianness)
    }

    /// The header-format version byte.
    pub fn header_version(&self) -> (r: u8)
        ensures
            r == self.header_version,
    {
        self.header_version
    }

    /// The decoded OS/ABI byte.
    pub fn abi(&self) -> (r: ElfAbi)
        ensures
            r == spec_elf_abi(self.abi),
    {
        ElfAbi::from(self.abi)
    }

    /// The ABI-version byte.
    pub fn abi_version(&self) -> (r: u8)
        ensures
            r == self.abi_version,
    {
        self.abi_version
    }

    /// The decoded object type.
    pub fn elftype(&self) -> (r: ElfType)
        ensures
            r == spec_elf_type(self.elftype),
    {
        ElfType::from(self.elftype)
    }

    /// The decoded target machine.
    pub fn machine(&self) -> (r: ElfMachine)
        ensures
            r == spec_elf_machine(self.machine),
    {
        ElfMachine::from(self.machine)
    }

    /// The 32-bit format version field.
    pub fn elf_version(&self) -> (r: u32)
        ensures
            r == self.elf_version,
    {
        self.elf_version
    }

    /// The entry point, widened to 64 bits.
    pub fn entry_point(&self) -> (r: u64)
        ensures
            r == self.entry,
    {
        self.entry
    }

    /// The file offset of the program-header table, widened to 64 bits.
    pub fn program_header_offset(&self) -> (r: u64)
        ensures
            r == self.phoff,
    {
        self.phoff
    }

    /// The file offset of the section-header table, widened to 64 bits.
    pub fn section_header_offset(&self) -> (r: u64)
        ensures
            r == self.shoff,
    {
        self.shoff
    }

    /// The processor-specific flags word.
    pub fn flags(&self) -> (r: u32)
        ensures
            r == self.flags,
    {
        self.flags
    }

    /// The header's self-reported size.
    pub fn elf_header_size(&self) -> (r: u16)
        ensures
            r == self.ehsize,
    {
        self.ehsize
    }

    /// The self-reported size of one program-header record.
    pub fn program_header_entry_size(&self) -> (r: u16)
        ensures
            r == self.phentsize,
    {
        self.phentsize
    }

    /// The number of program-header records.
    pub fn program_header_entry_num(&self) -> (r: u16)
        ensures
            r == self.phnum,
    {
        self.phnum
    }

    /// The self-reported size of one section-header record.
    pub fn section_header_entry_size(&self) -> (r: u16)
        ensures
            r == self.shentsize,
    {
        self.shentsize
    }

    /// The number of section-header records.
    pub fn section_header_entry_num(&self) -> (r: u16)
        ensures
            r == self.shnum,
    {
        self.shnum
    }

    /// The index of the section holding the section-name string table.
    pub fn shstr_index(&self) -> (r: u16)
        ensures
            r == self.shstrndx,
    {
        self.shstrndx
    }
}

} // verus!
