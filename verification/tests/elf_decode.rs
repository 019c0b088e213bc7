use elf_rs::{Elf, ElfClass, Error};

fn w16(b: &mut [u8], off: usize, v: u16) {
    b[off..off + 2].copy_from_slice(&v.to_le_bytes());
}

fn w32(b: &mut [u8], off: usize, v: u32) {
    b[off..off + 4].copy_from_slice(&v.to_le_bytes());
}

fn w64(b: &mut [u8], off: usize, v: u64) {
    b[off..off + 8].copy_from_slice(&v.to_le_bytes());
}

/// A 64-bit file header at the front of `b` with sane fixed fields.
fn write_header64(b: &mut [u8]) {
    b[0] = 0x7f;
    b[1] = b'E';
    b[2] = b'L';
    b[3] = b'F';
    b[4] = 2; // class: 64-bit
    b[5] = 1; // endianness: little
    b[6] = 1; // header version
    b[7] = 0; // ABI: System V
    b[8] = 0; // ABI version
    w16(b, 16, 2); // type: ET_EXEC
    w16(b, 18, 0x3e); // machine: x86-64
    w32(b, 20, 1); // format version
    w16(b, 52, 64); // self-reported header size
    w16(b, 54, 56); // program-header entry size
    w16(b, 58, 64); // section-header entry size
}

/// A 32-bit file header at the front of `b` with sane fixed fields.
fn write_header32(b: &mut [u8]) {
    b[0] = 0x7f;
    b[1] = b'E';
    b[2] = b'L';
    b[3] = b'F';
    b[4] = 1; // class: 32-bit
    b[5] = 1; // endianness: little
    b[6] = 1; // header version
    b[7] = 3; // ABI: Linux
    b[8] = 0; // ABI version
    w16(b, 16, 1); // type: ET_REL
    w16(b, 18, 0x28); // machine: ARM
    w32(b, 20, 1); // format version
    w16(b, 40, 52); // self-reported header size
    w16(b, 42, 32); // program-header entry size
    w16(b, 46, 40); // section-header entry size
}

/// A minimal 64-bit file: one null section, one `.text` section holding
/// four bytes, and the section-name string table, with the section-header
/// table at offset 88.
fn sample_elf64() -> Vec<u8> {
    let mut b = vec![0u8; 280];
    write_header64(&mut b);
    w64(&mut b, 40, 88); // section-header table offset
    w16(&mut b, 60, 3); // section count
    w16(&mut b, 62, 2); // string-table section index
    // .text content
    b[64] = 0xaa;
    b[65] = 0xbb;
    b[66] = 0xcc;
    b[67] = 0xdd;
    // string table: "\0.text\0.shstrtab\0"
    let names = b"\0.text\0.shstrtab\0";
    b[68..68 + names.len()].copy_from_slice(names);
    // section 1: .text, PROGBITS, at [64, 68)
    let s1 = 88 + 64;
    w32(&mut b, s1, 1); // name offset of ".text"
    w32(&mut b, s1 + 4, 1); // type: PROGBITS
    w64(&mut b, s1 + 8, 0x6); // flags: alloc + execinstr
    w64(&mut b, s1 + 16, 0x401000); // addr
    w64(&mut b, s1 + 24, 64); // offset
    w64(&mut b, s1 + 32, 4); // size
    w64(&mut b, s1 + 48, 16); // addralign
    // section 2: .shstrtab, STRTAB, at [68, 85)
    let s2 = 88 + 128;
    w32(&mut b, s2, 7); // name offset of ".shstrtab"
    w32(&mut b, s2 + 4, 3); // type: STRTAB
    w64(&mut b, s2 + 24, 68); // offset
    w64(&mut b, s2 + 32, 17); // size
    b
}

fn elf64_of(buf: &[u8]) -> elf_rs::ElfGen<'_> {
    match Elf::from_bytes(buf) {
        Ok(Elf::Elf64(e)) => e,
        other => panic!("expected a 64-bit handle, got {:?}", other.is_ok()),
    }
}

#[test]
fn from_bytes_empty_buffer() {
    assert_eq!(Elf::from_bytes(&[]).err(), Some(Error::BufferTooShort));
}

#[test]
fn from_bytes_sixteen_zero_bytes() {
    let b = [0u8; 16];
    assert_eq!(Elf::from_bytes(&b).err(), Some(Error::BufferTooShort));
}

#[test]
fn from_bytes_one_byte_under_minimum() {
    let mut b = vec![0u8; 52];
    write_header32(&mut b);
    b.truncate(51);
    assert_eq!(Elf::from_bytes(&b).err(), Some(Error::BufferTooShort));
}

#[test]
fn from_bytes_bad_magic() {
    let mut b = vec![0u8; 64];
    write_header64(&mut b);
    b[1] = b'F';
    assert_eq!(Elf::from_bytes(&b).err(), Some(Error::InvalidMagic));
    // a buffer of garbage with the right length is rejected the same way
    let g = vec![0x41u8; 200];
    assert_eq!(Elf::from_bytes(&g).err(), Some(Error::InvalidMagic));
}

#[test]
fn from_bytes_class_three() {
    // the magic followed by class byte 3, padded to the 64-bit header size
    let mut b = vec![0u8; 64];
    write_header64(&mut b);
    b[4] = 3;
    assert_eq!(Elf::from_bytes(&b).err(), Some(Error::InvalidClass));
    // the same verdict already at the smaller layout's size
    let mut c = vec![0u8; 52];
    write_header32(&mut c);
    c[4] = 3;
    assert_eq!(Elf::from_bytes(&c).err(), Some(Error::InvalidClass));
    // class byte 0 is just as undecodable
    let mut d = vec![0u8; 64];
    write_header64(&mut d);
    d[4] = 0;
    assert_eq!(Elf::from_bytes(&d).err(), Some(Error::InvalidClass));
}

#[test]
fn from_bytes_64bit_buffer_under_its_header_size() {
    // valid magic and class 2, but only the 32-bit minimum of bytes
    let mut b = vec![0u8; 52];
    write_header32(&mut b);
    b[4] = 2;
    assert_eq!(Elf::from_bytes(&b).err(), Some(Error::BufferTooShort));
}

#[test]
fn from_bytes_self_reported_size_exceeds_buffer() {
    let mut b = vec![0u8; 64];
    write_header64(&mut b);
    w16(&mut b, 52, 100); // claims a 100-byte header in a 64-byte buffer
    assert_eq!(Elf::from_bytes(&b).err(), Some(Error::BufferTooShort));
}

#[test]
fn from_bytes_minimal_64bit() {
    let mut b = vec![0u8; 64];
    write_header64(&mut b);
    let elf = Elf::from_bytes(&b).unwrap();
    assert!(matches!(elf, Elf::Elf64(_)));
    assert_eq!(elf.content().len(), 64);
}

#[test]
fn from_bytes_minimal_32bit() {
    let mut b = vec![0u8; 52];
    write_header32(&mut b);
    let elf = Elf::from_bytes(&b).unwrap();
    assert!(matches!(elf, Elf::Elf32(_)));
}

#[test]
fn header_fields_64bit_exact() {
    let mut b = vec![0u8; 64];
    write_header64(&mut b);
    w64(&mut b, 24, 0x0011_2233_4455_6677); // entry point
    w64(&mut b, 32, 0x40); // program-header table offset
    w64(&mut b, 40, 0); // section-header table offset
    w32(&mut b, 48, 0xdead_beef); // flags
    w16(&mut b, 56, 7); // program-header count
    w16(&mut b, 60, 0); // section-header count
    w16(&mut b, 62, 0); // string-table index
    let e = elf64_of(&b);
    let h = e.header();
    assert_eq!(h.class(), ElfClass::Elf64);
    assert_eq!(h.endianness(), elf_rs::ElfEndian::LittleEndian);
    assert_eq!(h.header_version(), 1);
    assert_eq!(h.abi(), elf_rs::ElfAbi::SystemV);
    assert_eq!(h.abi_version(), 0);
    assert_eq!(h.elftype(), elf_rs::ElfType::ET_EXEC);
    assert_eq!(h.machine(), elf_rs::ElfMachine::x86_64);
    assert_eq!(h.elf_version(), 1);
    assert_eq!(h.entry_point(), 0x0011_2233_4455_6677);
    assert_eq!(h.program_header_offset(), 0x40);
    assert_eq!(h.section_header_offset(), 0);
    assert_eq!(h.flags(), 0xdead_beef);
    assert_eq!(h.elf_header_size(), 64);
    assert_eq!(h.program_header_entry_size(), 56);
    assert_eq!(h.program_header_entry_num(), 7);
    assert_eq!(h.section_header_entry_size(), 64);
    assert_eq!(h.section_header_entry_num(), 0);
    assert_eq!(h.shstr_index(), 0);
    assert_eq!(e.entry_point(), 0x0011_2233_4455_6677);
}

#[test]
fn header_fields_32bit_exact() {
    let mut b = vec![0u8; 52];
    write_header32(&mut b);
    w32(&mut b, 24, 0x8000); // entry point
    w32(&mut b, 28, 52); // program-header table offset
    w32(&mut b, 32, 0); // section-header table offset
    w32(&mut b, 36, 5); // flags
    w16(&mut b, 44, 0); // program-header count
    w16(&mut b, 48, 0); // section-header count
    w16(&mut b, 50, 0); // string-table index
    let elf = Elf::from_bytes(&b).unwrap();
    let e = match elf {
        Elf::Elf32(e) => e,
        Elf::Elf64(_) => panic!("expected a 32-bit handle"),
    };
    let h = e.header();
    assert_eq!(h.class(), ElfClass::Elf32);
    assert_eq!(h.abi(), elf_rs::ElfAbi::Linux);
    assert_eq!(h.elftype(), elf_rs::ElfType::ET_REL);
    assert_eq!(h.machine(), elf_rs::ElfMachine::ARM);
    assert_eq!(h.entry_point(), 0x8000);
    assert_eq!(h.program_header_offset(), 52);
    assert_eq!(h.elf_header_size(), 52);
    assert_eq!(h.program_header_entry_size(), 32);
    assert_eq!(h.flags(), 5);
}

#[test]
fn program_header_iter_roundtrip() {
    // three program headers right after the file header
    let mut b = vec![0u8; 64 + 3 * 56];
    write_header64(&mut b);
    w64(&mut b, 32, 64); // program-header table offset
    w16(&mut b, 56, 3); // program-header count
    for i in 0..3u64 {
        let p = (64 + i * 56) as usize;
        w32(&mut b, p, 1); // type: LOAD
        w32(&mut b, p + 4, (4 + i) as u32); // flags
        w64(&mut b, p + 8, 0x1000 * (i + 1)); // offset
        w64(&mut b, p + 16, 0x400000 + 0x1000 * i); // vaddr
        w64(&mut b, p + 24, 0x500000 + 0x1000 * i); // paddr
        w64(&mut b, p + 32, 0x10 + i); // filesz
        w64(&mut b, p + 40, 0x20 + i); // memsz
        w64(&mut b, p + 48, 0x1000); // align
    }
    let e = elf64_of(&b);
    let mut it = e.program_header_iter();
    let mut seen: u64 = 0;
    while let Some(p) = it.next() {
        let i = seen;
        assert_eq!(p.ph.ph_type(), elf_rs::ProgramType::LOAD);
        assert_eq!(p.ph.flags(), (4 + i) as u32);
        assert_eq!(p.ph.offset(), 0x1000 * (i + 1));
        assert_eq!(p.ph.vaddr(), 0x400000 + 0x1000 * i);
        assert_eq!(p.ph.paddr(), 0x500000 + 0x1000 * i);
        assert_eq!(p.ph.filesz(), 0x10 + i);
        assert_eq!(p.ph.memsz(), 0x20 + i);
        assert_eq!(p.ph.align(), 0x1000);
        seen += 1;
    }
    assert_eq!(seen, 3);
    // indexed access agrees with the iterator and ends exactly at the count
    assert!(e.program_header_nth(2).is_some());
    assert!(e.program_header_nth(3).is_none());
}

#[test]
fn program_header_table_past_buffer_is_absent() {
    let mut b = vec![0u8; 64];
    write_header64(&mut b);
    w64(&mut b, 32, 64); // table starts at the end of the buffer
    w16(&mut b, 56, 2); // claims two entries that are not there
    let e = elf64_of(&b);
    assert!(e.program_header_nth(0).is_none());
    let mut it = e.program_header_iter();
    assert!(it.next().is_none());
}

#[test]
fn program_header_offset_overflow_is_absent() {
    let mut b = vec![0u8; 64];
    write_header64(&mut b);
    w64(&mut b, 32, u64::MAX - 8); // offset + one entry overflows
    w16(&mut b, 56, 1);
    let e = elf64_of(&b);
    assert!(e.program_header_nth(0).is_none());
}

#[test]
fn program_header_32bit_field_order() {
    // the 32-bit record keeps the flags word next to last, not second
    let mut b = vec![0u8; 52 + 32 + 4];
    write_header32(&mut b);
    w32(&mut b, 28, 52); // program-header table offset
    w16(&mut b, 44, 1); // program-header count
    let p = 52;
    w32(&mut b, p, 1); // type: LOAD
    w32(&mut b, p + 4, 84); // offset
    w32(&mut b, p + 8, 0x1000); // vaddr
    w32(&mut b, p + 12, 0x2000); // paddr
    w32(&mut b, p + 16, 4); // filesz
    w32(&mut b, p + 20, 8); // memsz
    w32(&mut b, p + 24, 5); // flags
    w32(&mut b, p + 28, 4); // align
    b[84] = 1;
    b[85] = 2;
    b[86] = 3;
    b[87] = 4;
    let elf = Elf::from_bytes(&b).unwrap();
    let e = match elf {
        Elf::Elf32(e) => e,
        Elf::Elf64(_) => panic!("expected a 32-bit handle"),
    };
    let p = e.program_header_nth(0).unwrap();
    assert_eq!(p.ph.ph_type(), elf_rs::ProgramType::LOAD);
    assert_eq!(p.ph.offset(), 84);
    assert_eq!(p.ph.vaddr(), 0x1000);
    assert_eq!(p.ph.paddr(), 0x2000);
    assert_eq!(p.ph.filesz(), 4);
    assert_eq!(p.ph.memsz(), 8);
    assert_eq!(p.ph.flags(), 5);
    assert_eq!(p.ph.align(), 4);
    assert_eq!(p.segment().unwrap(), &[1, 2, 3, 4]);
    assert_eq!(p.content().unwrap(), &[1, 2, 3, 4]);
}

#[test]
fn lookup_text_section_end_to_end() {
    let b = sample_elf64();
    let e = elf64_of(&b);
    let sec = e.lookup_section(b".text").expect("the .text section is there");
    assert_eq!(sec.section_name().unwrap(), b".text");
    assert_eq!(sec.sh.sh_type(), elf_rs::SectionType::SHT_PROGBITS);
    assert_eq!(sec.sh.addr(), 0x401000);
    assert_eq!(sec.sh.flags().bits(), 0x6);
    assert!(sec.sh.flags().contains(elf_rs::section_header::SHF_ALLOC));
    assert_eq!(sec.sh.offset(), 64);
    assert_eq!(sec.sh.size(), 4);
    assert_eq!(sec.sh.addralign(), 16);
    assert_eq!(sec.content().unwrap(), &[0xaa, 0xbb, 0xcc, 0xdd]);
    assert_eq!(sec.segment().unwrap(), &b[64..68]);
    assert!(e.lookup_section(b".data").is_none());
    // the string-table section resolves its own name through itself
    let tab = e.lookup_section(b".shstrtab").unwrap();
    assert_eq!(tab.section_name().unwrap(), b".shstrtab");
    assert_eq!(tab.sh.sh_type(), elf_rs::SectionType::SHT_STRTAB);
}

#[test]
fn repeated_reads_return_equal_views() {
    let b = sample_elf64();
    let before = b.clone();
    let e = elf64_of(&b);
    let first = e.section_header_nth(1).unwrap();
    let second = e.section_header_nth(1).unwrap();
    assert_eq!(first.sh, second.sh);
    assert_eq!(first.section_name().unwrap(), second.section_name().unwrap());
    assert_eq!(first.content().unwrap(), second.content().unwrap());
    let l1 = e.lookup_section(b".text").unwrap();
    let l2 = e.lookup_section(b".text").unwrap();
    assert_eq!(l1.sh, l2.sh);
    // two fresh iterators replay the same walk
    let mut ia = e.section_header_iter();
    let mut ib = e.section_header_iter();
    while let Some(x) = ia.next() {
        let y = ib.next().unwrap();
        assert_eq!(x.sh, y.sh);
    }
    assert!(ib.next().is_none());
    // no read sequence mutated the buffer
    assert_eq!(b, before);
    assert_eq!(e.as_bytes(), &before[..]);
}

#[test]
fn section_content_out_of_range_is_absent() {
    let mut b = sample_elf64();
    // grow the .text size past the end of the buffer
    let s1 = 88 + 64;
    w64(&mut b, s1 + 32, 1000);
    let e = elf64_of(&b);
    let sec = e.section_header_nth(1).unwrap();
    assert_eq!(sec.sh.size(), 1000);
    assert!(sec.content().is_none());
    assert!(sec.segment().is_none());
}

#[test]
fn section_content_offset_overflow_is_absent() {
    let mut b = sample_elf64();
    let s1 = 88 + 64;
    w64(&mut b, s1 + 24, u64::MAX); // offset
    w64(&mut b, s1 + 32, 2); // size: offset + size overflows
    let e = elf64_of(&b);
    let sec = e.section_header_nth(1).unwrap();
    assert!(sec.content().is_none());
}

#[test]
fn name_offset_at_table_end_is_absent() {
    let mut b = sample_elf64();
    // the string table spans [68, 85); its length is 17
    let s1 = 88 + 64;
    w32(&mut b, s1, 17); // name offset exactly at the table's end
    let e = elf64_of(&b);
    let sec = e.section_header_nth(1).unwrap();
    assert!(sec.section_name().is_none());
    // one past the end is just as absent
    let mut b2 = sample_elf64();
    w32(&mut b2, s1, 18);
    let e2 = elf64_of(&b2);
    assert!(e2.section_header_nth(1).unwrap().section_name().is_none());
}

#[test]
fn name_without_terminator_is_absent() {
    let mut b = sample_elf64();
    // shrink the string table so ".text" loses its NUL terminator
    let s2 = 88 + 128;
    w64(&mut b, s2 + 32, 6); // table is now "\0.text" with no NUL after it
    let e = elf64_of(&b);
    let sec = e.section_header_nth(1).unwrap();
    assert!(sec.section_name().is_none());
    assert!(e.lookup_section(b".text").is_none());
}

#[test]
fn string_table_index_out_of_range_is_absent() {
    let mut b = sample_elf64();
    w16(&mut b, 62, 9); // string-table index past the section count
    let e = elf64_of(&b);
    assert!(e.shstr_section().is_none());
    assert!(e.section_header_nth(1).unwrap().section_name().is_none());
    assert!(e.lookup_section(b".text").is_none());
}

#[test]
fn shstr_section_bytes() {
    let b = sample_elf64();
    let e = elf64_of(&b);
    assert_eq!(e.shstr_section().unwrap(), b"\0.text\0.shstrtab\0");
}

#[test]
fn lookup_returns_first_of_equal_names() {
    // four sections; indices 1 and 3 both resolve to ".text"
    let mut b = vec![0u8; 88 + 4 * 64];
    write_header64(&mut b);
    w64(&mut b, 40, 88); // section-header table offset
    w16(&mut b, 60, 4); // section count
    w16(&mut b, 62, 2); // string-table section index
    b[64] = 0x11;
    b[65] = 0x22;
    b[66] = 0x33;
    b[67] = 0x44;
    let names = b"\0.text\0.shstrtab\0";
    b[68..68 + names.len()].copy_from_slice(names);
    for (idx, off, size) in [(1usize, 64u64, 2u64), (3, 66, 2)] {
        let s = 88 + idx * 64;
        w32(&mut b, s, 1); // name offset of ".text"
        w32(&mut b, s + 4, 1); // type: PROGBITS
        w64(&mut b, s + 24, off);
        w64(&mut b, s + 32, size);
    }
    let s2 = 88 + 2 * 64;
    w32(&mut b, s2, 7); // name offset of ".shstrtab"
    w32(&mut b, s2 + 4, 3); // type: STRTAB
    w64(&mut b, s2 + 24, 68);
    w64(&mut b, s2 + 32, 17);
    let e = elf64_of(&b);
    let hit = e.lookup_section(b".text").unwrap();
    // the scan lands on index 1, the earlier of the two equal names
    assert_eq!(hit.sh, e.section_header_nth(1).unwrap().sh);
    assert_eq!(hit.sh.offset(), 64);
    assert_eq!(hit.content().unwrap(), &[0x11, 0x22]);
}

#[test]
fn section_iter_stops_at_count() {
    let b = sample_elf64();
    let e = elf64_of(&b);
    let mut it = e.section_header_iter();
    let mut seen = 0;
    while let Some(sec) = it.next() {
        if seen == 0 {
            assert_eq!(sec.sh.sh_type(), elf_rs::SectionType::SHT_NULL);
        }
        seen += 1;
    }
    assert_eq!(seen, 3);
    assert!(e.section_header_nth(3).is_none());
}
