//! The container: a class-tagged, validated view over a borrowed byte
//! buffer. Every table access goes through the indexed lookups here, the one
//! choke point where offsets and counts taken from the file are checked
//! against the buffer with overflow-safe arithmetic.

use vstd::prelude::*;

use crate::elf_header::{
    header_size_of, magic_ok, spec_elf_class, spec_header, ElfClass, ElfHeaderGen,
};
use crate::program_header::{ph_entry_size_of, spec_ph_at, ProgramHeader, ProgramHeaderIter};
use crate::section_header::{
    sh_entry_size_of, spec_sh_at, spec_section_name, SectionHeader, SectionHeaderIter,
};

verus! {

/// What construction establishes and every later access relies on: the
/// class is one of the two decodable ones and matches the class byte, the
/// buffer holds the whole fixed-size header of that class, the magic is in
/// place, and the header's self-reported size fits the buffer.
pub open spec fn valid_elf(s: Seq<u8>, c: ElfClass) -> bool {
    &&& c is Elf32 || c is Elf64
    &&& s.len() >= header_size_of(c)
    &&& magic_ok(s)
    &&& spec_elf_class(s[4]) == c
    &&& spec_header(s, c).ehsize <= s.len()
}

/// The file offset of the program-header table.
pub open spec fn ph_table_off(s: Seq<u8>, c: ElfClass) -> int {
    spec_header(s, c).phoff as int
}

/// The number of program-header entries the header declares.
pub open spec fn ph_count(s: Seq<u8>, c: ElfClass) -> int {
    spec_header(s, c).phnum as int
}

/// The file offset of program-header entry `i`.
pub open spec fn ph_nth_off(s: Seq<u8>, c: ElfClass, i: int) -> int {
    ph_table_off(s, c) + i * ph_entry_size_of(c)
}

/// Whether program-header entry `i` exists: the index is below the declared
/// count and the entry's byte range lies inside the buffer.
pub open spec fn ph_nth_present(s: Seq<u8>, c: ElfClass, i: int) -> bool {
    &&& 0 <= i < ph_count(s, c)
    &&& ph_nth_off(s, c, i) + ph_entry_size_of(c) <= s.len()
}

/// The decoded program-header entry `i`.
pub open spec fn spec_ph_nth(s: Seq<u8>, c: ElfClass, i: int) -> crate::program_header::ProgramHeaderGen {
    spec_ph_at(s, c, ph_nth_off(s, c, i))
}

/// The file offset of the section-header table.
pub open spec fn sh_table_off(s: Seq<u8>, c: ElfClass) -> int {
    spec_header(s, c).shoff as int
}

/// The number of section-header entries the header declares.
pub open spec fn sh_count(s: Seq<u8>, c: ElfClass) -> int {
    spec_header(s, c).shnum as int
}

/// The file offset of section-header entry `i`.
pub open spec fn sh_nth_off(s: Seq<u8>, c: ElfClass, i: int) -> int {
    sh_table_off(s, c) + i * sh_entry_size_of(c)
}

/// Whether section-header entry `i` exists: the index is below the declared
/// count and the entry's byte range lies inside the buffer.
pub open spec fn sh_nth_present(s: Seq<u8>, c: ElfClass, i: int) -> bool {
    &&& 0 <= i < sh_count(s, c)
    &&& sh_nth_off(s, c, i) + sh_entry_size_of(c) <= s.len()
}

/// The decoded section-header entry `i`.
pub open spec fn spec_sh_nth(s: Seq<u8>, c: ElfClass, i: int) -> crate::section_header::SectionHeaderGen {
    spec_sh_at(s, c, sh_nth_off(s, c, i))
}

/// The bytes of the section-name string table: the content range of the
/// section named by the header's string-table index, absent when that entry
/// or its content range is out of bounds.
pub open spec fn spec_shstr_section(s: Seq<u8>, c: ElfClass) -> Option<Seq<u8>> {
    let i = spec_header(s, c).shstrndx as int;
    if sh_nth_present(s, c, i) {
        let sh = spec_sh_nth(s, c, i);
        if sh.sh_offset + sh.sh_size <= s.len() {
            Some(s.subrange(sh.sh_offset as int, sh.sh_offset + sh.sh_size))
        } else {
            None
        }
    } else {
        None
    }
}

/// The index of the first section, at or after `i`, whose resolved name is
/// `name`. The scan stops at the declared count or at the first absent
/// entry, whichever comes first.
pub open spec fn spec_lookup_from(s: Seq<u8>, c: ElfClass, name: Seq<u8>, i: int) -> Option<int>
    decreases sh_count(s, c) - i,
{
    if i < 0 || i >= sh_count(s, c) {
        None
    } else if !sh_nth_present(s, c, i) {
        None
    } else if spec_section_name(s, c, spec_sh_nth(s, c, i).sh_name as int) == Some(name) {
        Some(i)
    } else {
        spec_lookup_from(s, c, name, i + 1)
    }
}

/// The index of the first section whose resolved name is `name`.
pub open spec fn spec_lookup_section(s: Seq<u8>, c: ElfClass, name: Seq<u8>) -> Option<int> {
    spec_lookup_from(s, c, name, 0)
}

/// A table that lies inside the buffer is walked in full: when the whole
/// program-header table of a valid file is in range, every index below the
/// declared count is present, so a fresh iterator yields exactly that many
/// entries, in index order, each decoded from its own record.
pub proof fn lemma_program_header_table_complete(s: Seq<u8>, c: ElfClass)
    requires
        valid_elf(s, c),
        ph_table_off(s, c) + ph_count(s, c) * ph_entry_size_of(c) <= s.len(),
    ensures
        forall|i: int| 0 <= i < ph_count(s, c) ==> ph_nth_present(s, c, i),
{
    assert forall|i: int| 0 <= i < ph_count(s, c) implies ph_nth_present(s, c, i) by {
        let e = ph_entry_size_of(c);
        assert(i * e + e == (i + 1) * e) by (nonlinear_arith);
        assert((i + 1) * e <= ph_count(s, c) * e) by (nonlinear_arith)
            requires
                i + 1 <= ph_count(s, c),
                0 <= e,
        ;
    }
}

/// The same holds of the section-header table.
pub proof fn lemma_section_header_table_complete(s: Seq<u8>, c: ElfClass)
    requires
        valid_elf(s, c),
        sh_table_off(s, c) + sh_count(s, c) * sh_entry_size_of(c) <= s.len(),
    ensures
        forall|i: int| 0 <= i < sh_count(s, c) ==> sh_nth_present(s, c, i),
{
    assert forall|i: int| 0 <= i < sh_count(s, c) implies sh_nth_present(s, c, i) by {
        let e = sh_entry_size_of(c);
        assert(i * e + e == (i + 1) * e) by (nonlinear_arith);
        assert((i + 1) * e <= sh_count(s, c) * e) by (nonlinear_arith)
            requires
                i + 1 <= sh_count(s, c),
                0 <= e,
        ;
    }
}

proof fn lemma_lookup_from_step(s: Seq<u8>, c: ElfClass, name: Seq<u8>, i: int, k: int)
    requires
        0 <= i,
        spec_lookup_from(s, c, name, i) == Some(k),
    ensures
        i <= k < sh_count(s, c),
        forall|j: int| i <= j <= k ==> spec_lookup_from(s, c, name, j) == Some(k),
    decreases sh_count(s, c) - i,
{
    if spec_section_name(s, c, spec_sh_nth(s, c, i).sh_name as int) != Some(name) {
        lemma_lookup_from_step(s, c, name, i + 1, k);
    }
}

/// The name scan finds the first match: when the lookup names index `k`,
/// entry `k` is present and resolves to `name`, and starting the scan at
/// any index up to `k` still lands on `k` — no earlier entry is a present
/// match.
pub proof fn lemma_lookup_section_first_match(s: Seq<u8>, c: ElfClass, name: Seq<u8>, k: int)
    requires
        spec_lookup_section(s, c, name) == Some(k),
    ensures
        0 <= k < sh_count(s, c),
        sh_nth_present(s, c, k),
        spec_section_name(s, c, spec_sh_nth(s, c, k).sh_name as int) == Some(name),
        forall|j: int| 0 <= j <= k ==> spec_lookup_from(s, c, name, j) == Some(k),
{
    lemma_lookup_from_step(s, c, name, 0, k);
    assert(spec_lookup_from(s, c, name, k) == Some(k));
    if spec_section_name(s, c, spec_sh_nth(s, c, k).sh_name as int) != Some(name) {
        lemma_lookup_from_step(s, c, name, k + 1, k);
    }
}

/// Reading never writes: every indexed lookup and every name lookup is a
/// pure function of the borrowed bytes and the class tag, so two handles
/// over equal bytes — in particular one handle read twice — answer alike.
pub proof fn lemma_lookups_idempotent<'a, 'b>(
    a: ElfGen<'a>,
    b: ElfGen<'b>,
    i: int,
    name: Seq<u8>,
)
    requires
        a.buf@ == b.buf@,
        a.class == b.class,
    ensures
        sh_nth_present(a.buf@, a.class, i) == sh_nth_present(b.buf@, b.class, i),
        spec_sh_nth(a.buf@, a.class, i) == spec_sh_nth(b.buf@, b.class, i),
        ph_nth_present(a.buf@, a.class, i) == ph_nth_present(b.buf@, b.class, i),
        spec_ph_nth(a.buf@, a.class, i) == spec_ph_nth(b.buf@, b.class, i),
        spec_lookup_section(a.buf@, a.class, name) == spec_lookup_section(b.buf@, b.class, name),
{
}

/// Whether `a` and `b` hold the same bytes.
fn bytes_eq(a: &[u8], b: &[u8]) -> (r: bool)
    ensures
        r <==> a@ == b@,
{
    let n = a.len();
    if n != b.len() {
        return false;
    }
    let mut i: usize = 0;
    while i < n
        invariant
            i <= n,
            n == a@.len(),
            n == b@.len(),
            forall|j: int| 0 <= j < i ==> a@[j] == b@[j],
        decreases n - i,
    {
        if a[i] != b[i] {
            return false;
        }
        i = i + 1;
    }
    proof {
        assert(a@ =~= b@);
    }
    true
}

/// A validated ELF file of either class: a borrowed buffer together with
/// the class tag that fixes which record layouts interpret it.
#[derive(Clone, Copy)]
pub struct ElfGen<'a> {
    pub buf: &'a [u8],
    pub class: ElfClass,
}

impl<'a> ElfGen<'a> {
    /// The construction-time invariant; every accessor relies on it.
    pub open spec fn wf(&self) -> bool {
        valid_elf(self.buf@, self.class)
    }

    /// Wraps an already validated buffer. `Elf::from_bytes` is the path
    /// that performs the validation.
    pub fn new(buf: &'a [u8], class: ElfClass) -> (r: Self)
        requires
            valid_elf(buf@, class),
        ensures
            r.buf@ == buf@,
            r.class == class,
            r.wf(),
    {
        ElfGen { buf, class }
    }

    /// The whole underlying buffer.
    pub fn as_bytes(&self) -> (r: &'a [u8])
        ensures
            r@ == self.buf@,
    {
        self.buf
    }

    /// The decoded file header.
    pub fn header(&self) -> (h: ElfHeaderGen)
        requires
            self.wf(),
        ensures
            h == spec_header(self.buf@, self.class),
    {
        crate::elf_header::decode_header(self.buf, self.class)
    }

    /// The entry point, widened to 64 bits.
    pub fn entry_point(&self) -> (r: u64)
        requires
            self.wf(),
        ensures
            r == spec_header(self.buf@, self.class).entry,
    {
        self.header().entry_point()
    }

    /// Program-header entry `index`, or absent when the index is at or past
    /// the declared count or the entry's byte range leaves the buffer.
    pub fn program_header_nth(&self, index: usize) -> (r: Option<ProgramHeader<'a>>)
        requires
            self.wf(),
        ensures
            match r {
                Some(p) => {
                    &&& ph_nth_present(self.buf@, self.class, index as int)
                    &&& p.elf == *self
                    &&& p.ph == spec_ph_nth(self.buf@, self.class, index as int)
                },
                None => !ph_nth_present(self.buf@, self.class, index as int),
            },
    {
        let h = self.header();
        if index >= h.program_header_entry_num() as usize {
            return None;
        }
        let esize: u64 = if matches!(self.class, ElfClass::Elf64) {
            56
        } else {
            32
        };
        proof {
            assert((index + 1) * esize == index * esize + esize) by (nonlinear_arith);
            assert(index * esize <= 0xffff * 56) by (nonlinear_arith)
                requires
                    0 <= index < 0x10000,
                    0 <= esize <= 56,
            ;
        }
        let end_rel: u64 = (index as u64 + 1) * esize;
        let phoff = h.program_header_offset();
        let n = self.buf.len();
        let end = match phoff.checked_add(end_rel) {
            Some(e) => e,
            None => {
                return None;
            },
        };
        if end > n as u64 {
            return None;
        }
        let off = (phoff + index as u64 * esize) as usize;
        let ph = crate::program_header::decode_ph(self.buf, self.class, off);
        Some(ProgramHeader { elf: *self, ph })
    }

    /// A fresh lazy iterator over the program-header table, starting at
    /// entry 0.
    pub fn program_header_iter(&self) -> (it: ProgramHeaderIter<'a>)
        ensures
            it.elf == *self,
            it.index == 0,
    {
        ProgramHeaderIter::new(self)
    }

    /// Section-header entry `index`, or absent when the index is at or past
    /// the declared count or the entry's byte range leaves the buffer.
    pub fn section_header_nth(&self, index: usize) -> (r: Option<SectionHeader<'a>>)
        requires
            self.wf(),
        ensures
            match r {
                Some(p) => {
                    &&& sh_nth_present(self.buf@, self.class, index as int)
                    &&& p.elf == *self
                    &&& p.sh == spec_sh_nth(self.buf@, self.class, index as int)
                },
                None => !sh_nth_present(self.buf@, self.class, index as int),
            },
    {
        let h = self.header();
        if index >= h.section_header_entry_num() as usize {
            return None;
        }
        let esize: u64 = if matches!(self.class, ElfClass::Elf64) {
            64
        } else {
            40
        };
        proof {
            assert((index + 1) * esize == index * esize + esize) by (nonlinear_arith);
            assert(index * esize <= 0xffff * 64) by (nonlinear_arith)
                requires
                    0 <= index < 0x10000,
                    0 <= esize <= 64,
            ;
        }
        let end_rel: u64 = (index as u64 + 1) * esize;
        let shoff = h.section_header_offset();
        let n = self.buf.len();
        let end = match shoff.checked_add(end_rel) {
            Some(e) => e,
            None => {
                return None;
            },
        };
        if end > n as u64 {
            return None;
        }
        let off = (shoff + index as u64 * esize) as usize;
        let sh = crate::section_header::decode_sh(self.buf, self.class, off);
        Some(SectionHeader { elf: *self, sh })
    }

    /// A fresh lazy iterator over the section-header table, starting at
    /// entry 0.
    pub fn section_header_iter(&self) -> (it: SectionHeaderIter<'a>)
        ensures
            it.elf == *self,
            it.index == 0,
    {
        SectionHeaderIter::new(self)
    }

    /// The bytes of the section-name string table, or absent when the
    /// string-table section or its content range is out of bounds.
    pub fn shstr_section(&self) -> (r: Option<&'a [u8]>)
        requires
            self.wf(),
        ensures
            match spec_shstr_section(self.buf@, self.class) {
                Some(t) => r matches Some(b) && b@ == t,
                None => r is None,
            },
    {
        let h = self.header();
        let idx = h.shstr_index();
        match self.section_header_nth(idx as usize) {
            Some(sh) => sh.content(),
            None => None,
        }
    }

    /// The first section whose resolved name is `name`, by a linear scan of
    /// the section-header table in index order.
    pub fn lookup_section(&self, name: &[u8]) -> (r: Option<SectionHeader<'a>>)
        requires
            self.wf(),
        ensures
            match spec_lookup_section(self.buf@, self.class, name@) {
                Some(i) => {
                    r matches Some(sh) && sh.elf == *self && sh.sh == spec_sh_nth(
                        self.buf@,
                        self.class,
                        i,
                    )
                },
                None => r is None,
            },
    {
        let h = self.header();
        let count = h.section_header_entry_num() as usize;
        let mut i: usize = 0;
        while i < count
            invariant
                self.wf(),
                i <= count,
                count == sh_count(self.buf@, self.class),
                spec_lookup_from(self.buf@, self.class, name@, 0) == spec_lookup_from(
                    self.buf@,
                    self.class,
                    name@,
                    i as int,
                ),
            decreases count - i,
        {
            match self.section_header_nth(i) {
                None => {
                    return None;
                },
                Some(sh) => {
                    match sh.section_name() {
                        Some(nm) => {
                            if bytes_eq(nm, name) {
                                return Some(sh);
                            }
                        },
                        None => {},
                    }
                },
            }
            i = i + 1;
        }
        None
    }
}

} // verus!
