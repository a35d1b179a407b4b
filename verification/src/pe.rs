//! The container model: one linear parse of the image's headers over a
//! seekable stream, plus address resolution between relative virtual
//! addresses, section indices, and file offsets.

use crate::dos_hdr::dos_header_wf;
use crate::dos_hdr::DosHeader;
use crate::dos_hdr::DOS_HEADER_SIZE;
use crate::err::Error;
use crate::nt_hdr::data_directory_wf;
use crate::nt_hdr::dir_entry;
use crate::nt_hdr::nt_header_wf;
use crate::nt_hdr::DataDirectory;
use crate::nt_hdr::DataDirectories;
use crate::nt_hdr::NtHeader;
use crate::nt_hdr::NT_HEADER_SIZE;
use crate::reloc::relocations_parse_ok;
use crate::reloc::relocations_wf;
use crate::reloc::Relocations;
use crate::sec_hdr::section_header_wf;
use crate::sec_hdr::SectionHeader;
use crate::stream::u16_le_at;
use crate::stream::u32_le_at;
use crate::stream::ByteStream;
use vstd::prelude::*;

verus! {

/// A fully decoded image: the DOS header, the new-style header with its
/// populated data-directory slots, the section table in on-disk order, the
/// base-relocation block when its directory entry is present, and the
/// stream the fields were decoded from and write back into.
#[derive(Debug)]
pub struct PeHeader {
    pub dos_hdr: DosHeader,
    pub nt_hdr: NtHeader,
    pub sec_hdrs: Vec<SectionHeader>,
    pub relocs: Option<Relocations>,
    pub rwbuf: ByteStream,
}

/// Whether the virtual range `[virt_addr, virt_addr + virt_size)` of
/// section `s` contains `va`.
pub open spec fn sec_contains(s: SectionHeader, va: u32) -> bool {
    s.virt_addr.val <= va < s.virt_addr.val + s.virt_size.val
}

/// The index of the first section at or after `i` whose virtual range
/// contains `va`: the table is scanned in order and the first match wins.
pub open spec fn spec_find_sec_from(secs: Seq<SectionHeader>, va: u32, i: int) -> Option<int>
    decreases secs.len() - i,
{
    if i < 0 || i >= secs.len() {
        None
    } else if sec_contains(secs[i], va) {
        Some(i)
    } else {
        spec_find_sec_from(secs, va, i + 1)
    }
}

/// The index of the first section whose virtual range contains `va`.
pub open spec fn spec_find_sec(secs: Seq<SectionHeader>, va: u32) -> Option<int> {
    spec_find_sec_from(secs, va, 0)
}

/// A found index lies in the table at or after the scan's start, and its
/// section's range contains the address looked for.
pub proof fn lemma_find_sec_from_props(secs: Seq<SectionHeader>, va: u32, i: int)
    ensures
        match spec_find_sec_from(secs, va, i) {
            Some(j) => i <= j < secs.len() && sec_contains(secs[j], va),
            None => true,
        },
    decreases secs.len() - i,
{
    if 0 <= i < secs.len() && !sec_contains(secs[i], va) {
        lemma_find_sec_from_props(secs, va, i + 1);
    }
}

/// The file offset that section `s` assigns to `rva`:
/// `(rva - virt_addr) + ptr_to_raw_data`, as an unbounded integer.
pub open spec fn spec_rva_offset(s: SectionHeader, rva: u32) -> int {
    rva - s.virt_addr.val + s.ptr_to_raw_data.val
}

impl PeHeader {
    /// Scans the section table in table order; the first section whose
    /// virtual range contains `rva` yields `(rva - virt_addr) +
    /// ptr_to_raw_data`. Fails when no section matches, or when the first
    /// match places the offset beyond `u32`'s range; sections are assumed
    /// but not verified to be non-overlapping, so first-match wins.
    pub fn rva_to_file_offset(sec_hdrs: &Vec<SectionHeader>, rva: u32) -> (r: Result<u32, Error>)
        ensures
            match r {
                Ok(off) => {
                    &&& spec_find_sec(sec_hdrs@, rva) is Some
                    &&& off == spec_rva_offset(
                        sec_hdrs@[spec_find_sec(sec_hdrs@, rva)->Some_0],
                        rva,
                    )
                },
                Err(e) => {
                    &&& e == (Error::SectionNotFound { rva })
                    &&& match spec_find_sec(sec_hdrs@, rva) {
                        Some(i) => spec_rva_offset(sec_hdrs@[i], rva) > u32::MAX,
                        None => true,
                    }
                },
            },
    {
        let n: usize = sec_hdrs.len();
        let mut i: usize = 0;
        while i < n
            invariant
                0 <= i <= n,
                n == sec_hdrs@.len(),
                spec_find_sec(sec_hdrs@, rva) == spec_find_sec_from(sec_hdrs@, rva, i as int),
            decreases n - i,
        {
            let s: &SectionHeader = &sec_hdrs[i];
            let va: u32 = s.virt_addr.val;
            if va <= rva && rva - va < s.virt_size.val {
                let rel: u32 = rva - va;
                return match rel.checked_add(s.ptr_to_raw_data.val) {
                    Some(off) => Ok(off),
                    None => Err(Error::SectionNotFound { rva }),
                };
            }
            i = i + 1;
        }
        Err(Error::SectionNotFound { rva })
    }

    /// The index of the first section whose virtual range contains
    /// `section_va`; fails when no section's range does.
    pub fn virt_addr_to_sec_index(&self, section_va: u32) -> (r: Result<usize, Error>)
        ensures
            match r {
                Ok(i) => spec_find_sec(self.sec_hdrs@, section_va) == Some(i as int),
                Err(e) => {
                    &&& spec_find_sec(self.sec_hdrs@, section_va) is None
                    &&& e == (Error::SectionNotFound { rva: section_va })
                },
            },
    {
        let n: usize = self.sec_hdrs.len();
        let mut i: usize = 0;
        while i < n
            invariant
                0 <= i <= n,
                n == self.sec_hdrs@.len(),
                spec_find_sec(self.sec_hdrs@, section_va) == spec_find_sec_from(
                    self.sec_hdrs@,
                    section_va,
                    i as int,
                ),
            decreases n - i,
        {
            let s: &SectionHeader = &self.sec_hdrs[i];
            let va: u32 = s.virt_addr.val;
            if va <= section_va && section_va - va < s.virt_size.val {
                return Ok(i);
            }
            i = i + 1;
        }
        Err(Error::SectionNotFound { rva: section_va })
    }
}

impl PeHeader {
    /// The index of the section containing the entry point, if any.
    pub open spec fn spec_entry_sec(self) -> Option<int> {
        spec_find_sec(self.sec_hdrs@, self.nt_hdr.opt_hdr.addr_of_entrypoint.val)
    }

    /// The index of the section containing the entry point; fails when no
    /// section's virtual range contains it.
    pub fn entry_sec_index(&self) -> (r: Result<usize, Error>)
        ensures
            match r {
                Ok(i) => self.spec_entry_sec() == Some(i as int),
                Err(e) => self.spec_entry_sec() is None && e == (Error::SectionNotFound {
                    rva: self.nt_hdr.opt_hdr.addr_of_entrypoint.val,
                }),
            },
    {
        self.virt_addr_to_sec_index(self.nt_hdr.opt_hdr.addr_of_entrypoint.val)
    }

    /// A reference to the section containing the entry point.
    pub fn entry_sec_ref(&self) -> (r: Result<&SectionHeader, Error>)
        ensures
            match r {
                Ok(sec) => {
                    &&& self.spec_entry_sec() is Some
                    &&& *sec == self.sec_hdrs@[self.spec_entry_sec()->Some_0]
                },
                Err(e) => self.spec_entry_sec() is None && e == (Error::SectionNotFound {
                    rva: self.nt_hdr.opt_hdr.addr_of_entrypoint.val,
                }),
            },
    {
        let i: usize = self.entry_sec_index()?;
        proof {
            lemma_find_sec_from_props(
                self.sec_hdrs@,
                self.nt_hdr.opt_hdr.addr_of_entrypoint.val,
                0,
            );
        }
        Ok(&self.sec_hdrs[i])
    }

    /// The entry point's offset from the start of its section:
    /// `addr_of_entrypoint - virt_addr`.
    pub fn entry_rel_sec_offset(&self) -> (r: Result<usize, Error>)
        ensures
            match r {
                Ok(off) => {
                    &&& self.spec_entry_sec() is Some
                    &&& off == self.nt_hdr.opt_hdr.addr_of_entrypoint.val
                        - self.sec_hdrs@[self.spec_entry_sec()->Some_0].virt_addr.val
                },
                Err(e) => self.spec_entry_sec() is None && e == (Error::SectionNotFound {
                    rva: self.nt_hdr.opt_hdr.addr_of_entrypoint.val,
                }),
            },
    {
        let ep: u32 = self.nt_hdr.opt_hdr.addr_of_entrypoint.val;
        let sec: &SectionHeader = self.entry_sec_ref()?;
        proof {
            lemma_find_sec_from_props(self.sec_hdrs@, ep, 0);
        }
        Ok((ep - sec.virt_addr.val) as usize)
    }

    /// The entry point's virtual instruction pointer once the image is
    /// loaded at its preferred base: `image_base + virt_addr` of the entry
    /// section.
    pub fn entry_sec_virt_ip(&self) -> (r: Result<u64, Error>)
        requires
            self.spec_entry_sec() is Some ==> self.nt_hdr.opt_hdr.image_base.val
                + self.sec_hdrs@[self.spec_entry_sec()->Some_0].virt_addr.val <= u64::MAX,
        ensures
            match r {
                Ok(ip) => {
                    &&& self.spec_entry_sec() is Some
                    &&& ip == self.nt_hdr.opt_hdr.image_base.val
                        + self.sec_hdrs@[self.spec_entry_sec()->Some_0].virt_addr.val
                },
                Err(e) => self.spec_entry_sec() is None && e == (Error::SectionNotFound {
                    rva: self.nt_hdr.opt_hdr.addr_of_entrypoint.val,
                }),
            },
    {
        let base: u64 = self.nt_hdr.opt_hdr.image_base.val;
        let sec: &SectionHeader = self.entry_sec_ref()?;
        Ok(base + sec.virt_addr.val as u64)
    }

    /// The entry point's on-disk offset: the entry section's
    /// `ptr_to_raw_data` plus the entry point's offset within the section.
    pub fn entry_disk_offset(&self) -> (r: Result<usize, Error>)
        requires
            self.spec_entry_sec() is Some
                ==> self.sec_hdrs@[self.spec_entry_sec()->Some_0].ptr_to_raw_data.val
                + self.nt_hdr.opt_hdr.addr_of_entrypoint.val
                - self.sec_hdrs@[self.spec_entry_sec()->Some_0].virt_addr.val <= usize::MAX,
        ensures
            match r {
                Ok(off) => {
                    &&& self.spec_entry_sec() is Some
                    &&& off == self.sec_hdrs@[self.spec_entry_sec()->Some_0].ptr_to_raw_data.val
                        + self.nt_hdr.opt_hdr.addr_of_entrypoint.val
                        - self.sec_hdrs@[self.spec_entry_sec()->Some_0].virt_addr.val
                },
                Err(e) => self.spec_entry_sec() is None && e == (Error::SectionNotFound {
                    rva: self.nt_hdr.opt_hdr.addr_of_entrypoint.val,
                }),
            },
    {
        let rel: usize = self.entry_rel_sec_offset()?;
        let sec: &SectionHeader = self.entry_sec_ref()?;
        Ok(sec.ptr_to_raw_data.val as usize + rel)
    }

    /// The entry section's virtual size rounded up by one full page:
    /// `(size_of_raw_data / page + 1) * page` with a fixed page of 0x1000.
    /// The rounding adds a page even on an exact multiple; that behavior is
    /// deliberate and pinned by the contract.
    pub fn entry_sec_virt_size(&self) -> (r: Result<u32, Error>)
        requires
            self.spec_entry_sec() is Some
                ==> (self.sec_hdrs@[self.spec_entry_sec()->Some_0].size_of_raw_data.val / 0x1000
                + 1) * 0x1000 <= u32::MAX,
        ensures
            match r {
                Ok(sz) => {
                    &&& self.spec_entry_sec() is Some
                    &&& sz == (self.sec_hdrs@[self.spec_entry_sec()->Some_0].size_of_raw_data.val
                        / 0x1000 + 1) * 0x1000
                },
                Err(e) => self.spec_entry_sec() is None && e == (Error::SectionNotFound {
                    rva: self.nt_hdr.opt_hdr.addr_of_entrypoint.val,
                }),
            },
    {
        let sec: &SectionHeader = self.entry_sec_ref()?;
        Ok((sec.size_of_raw_data.val / 0x1000 + 1) * 0x1000)
    }
}

/// The file offset of the new-style header: the last field of the DOS
/// header at offset 0x3C.
pub open spec fn spec_nt_pos(data: Seq<u8>) -> int {
    u32_le_at(data, 0x3C) as int
}

/// How many of the 16 data-directory slots are meaningful:
/// `num_of_rva_and_sizes`, capped at 16.
pub open spec fn spec_num_dirs(data: Seq<u8>, nt: int) -> int {
    let n = u32_le_at(data, nt + 132);
    if n > 16 {
        16
    } else {
        n as int
    }
}

/// Where the section table starts: just past the directory entries read.
pub open spec fn spec_sec_base(data: Seq<u8>, nt: int) -> int {
    nt + NT_HEADER_SIZE + 8 * spec_num_dirs(data, nt)
}

/// The section count from the file header.
pub open spec fn spec_num_secs(data: Seq<u8>, nt: int) -> int {
    u16_le_at(data, nt + 6) as int
}

/// The on-disk virtual address of directory slot `i`.
pub open spec fn spec_dir_va(data: Seq<u8>, nt: int, i: int) -> u32 {
    u32_le_at(data, nt + NT_HEADER_SIZE + 8 * i)
}

/// The on-disk size of directory slot `i`.
pub open spec fn spec_dir_size(data: Seq<u8>, nt: int, i: int) -> u32 {
    u32_le_at(data, nt + NT_HEADER_SIZE + 8 * i + 4)
}

/// Whether the base-relocation directory entry (slot 5) is present: its
/// slot was among those read, and its on-disk pair is not the zero/zero
/// sentinel for "absent".
pub open spec fn spec_base_reloc_present(data: Seq<u8>, nt: int) -> bool {
    &&& spec_num_dirs(data, nt) > 5
    &&& !(spec_dir_va(data, nt, 5) == 0 && spec_dir_size(data, nt, 5) == 0)
}

/// Slot `i` of `d` holds its on-disk pair translated into the
/// optional-value convention: the zero/zero sentinel becomes absent,
/// anything else present.
pub open spec fn dir_entry_populated(d: DataDirectories, data: Seq<u8>, nt: int, i: int) -> bool {
    if spec_dir_va(data, nt, i) == 0 && spec_dir_size(data, nt, i) == 0 {
        dir_entry(d, i) is None
    } else {
        &&& dir_entry(d, i) is Some
        &&& data_directory_wf(dir_entry(d, i)->Some_0, data, nt + NT_HEADER_SIZE + 8 * i)
    }
}

/// The first `spec_num_dirs` slots of `d` hold their on-disk pairs
/// translated into the optional-value convention; the rest are absent.
pub open spec fn dirs_populated(d: DataDirectories, data: Seq<u8>, nt: int) -> bool {
    &&& forall|i: int|
        0 <= i < spec_num_dirs(data, nt) ==> #[trigger] dir_entry_populated(d, data, nt, i)
    &&& forall|i: int| spec_num_dirs(data, nt) <= i < 16 ==> #[trigger] dir_entry(d, i) is None
}

/// The virtual address of the section-table entry at index `i`.
pub open spec fn spec_sec_va_at(data: Seq<u8>, sb: int, i: int) -> u32 {
    u32_le_at(data, sb + 40 * i + 12)
}

/// The virtual size of the section-table entry at index `i`.
pub open spec fn spec_sec_vs_at(data: Seq<u8>, sb: int, i: int) -> u32 {
    u32_le_at(data, sb + 40 * i + 8)
}

/// The raw-data pointer of the section-table entry at index `i`.
pub open spec fn spec_sec_ptr_at(data: Seq<u8>, sb: int, i: int) -> u32 {
    u32_le_at(data, sb + 40 * i + 20)
}

/// Whether the on-disk section-table entry at index `i` contains `rva`.
pub open spec fn spec_sec_contains_at(data: Seq<u8>, sb: int, i: int, rva: u32) -> bool {
    spec_sec_va_at(data, sb, i) <= rva < spec_sec_va_at(data, sb, i) + spec_sec_vs_at(data, sb, i)
}

/// First-match scan of the on-disk section table, starting at index `i`.
pub open spec fn spec_find_sec_at(data: Seq<u8>, sb: int, count: int, rva: u32, i: int) -> Option<
    int,
>
    decreases count - i,
{
    if i < 0 || i >= count {
        None
    } else if spec_sec_contains_at(data, sb, i, rva) {
        Some(i)
    } else {
        spec_find_sec_at(data, sb, count, rva, i + 1)
    }
}

/// The file offset the on-disk section-table entry at index `i` assigns to
/// `rva`, as an unbounded integer.
pub open spec fn spec_rva_offset_at(data: Seq<u8>, sb: int, i: int, rva: u32) -> int {
    rva - spec_sec_va_at(data, sb, i) + spec_sec_ptr_at(data, sb, i)
}

/// The file offset of the base-relocation block: the resolution of its
/// directory entry's address through the on-disk section table.
pub open spec fn spec_reloc_off(data: Seq<u8>, nt: int) -> int {
    let sb = spec_sec_base(data, nt);
    let ns = spec_num_secs(data, nt);
    let rva = spec_dir_va(data, nt, 5);
    spec_rva_offset_at(data, sb, spec_find_sec_at(data, sb, ns, rva, 0)->Some_0, rva)
}

/// The base-relocation block can be located and decoded: its address lies
/// in some section, the file offset that section assigns it fits in `u32`
/// and in the stream, and a whole block is there.
pub open spec fn spec_reloc_reachable(data: Seq<u8>, nt: int) -> bool {
    let sb = spec_sec_base(data, nt);
    let ns = spec_num_secs(data, nt);
    let rva = spec_dir_va(data, nt, 5);
    match spec_find_sec_at(data, sb, ns, rva, 0) {
        Some(j) => {
            let off = spec_rva_offset_at(data, sb, j, rva);
            &&& off <= u32::MAX
            &&& off <= data.len()
            &&& relocations_parse_ok(data, off)
        },
        None => false,
    }
}

/// The whole linear parse succeeds on `data`: every step of the pipeline
/// finds the bytes it needs, and, when the base-relocation directory entry
/// is present, its block can be located and decoded.
pub open spec fn pe_parse_ok(data: Seq<u8>) -> bool {
    let nt = spec_nt_pos(data);
    let nd = spec_num_dirs(data, nt);
    let sb = spec_sec_base(data, nt);
    let ns = spec_num_secs(data, nt);
    &&& DOS_HEADER_SIZE <= data.len()
    &&& nt <= data.len()
    &&& nt + NT_HEADER_SIZE <= data.len()
    &&& nt + NT_HEADER_SIZE + 8 * nd <= data.len()
    &&& sb + 40 * ns <= data.len()
    &&& (spec_base_reloc_present(data, nt) ==> spec_reloc_reachable(data, nt))
}

/// A decoded section table and the on-disk one it was decoded from agree
/// on first-match resolution.
pub proof fn lemma_find_sec_agrees(
    secs: Seq<SectionHeader>,
    data: Seq<u8>,
    sb: int,
    rva: u32,
    i: int,
)
    requires
        forall|j: int|
            0 <= j < secs.len() ==> section_header_wf(#[trigger] secs[j], data, sb + 40 * j),
    ensures
        spec_find_sec_from(secs, rva, i) == spec_find_sec_at(data, sb, secs.len() as int, rva, i),
    decreases secs.len() - i,
{
    if 0 <= i < secs.len() {
        assert(sec_contains(secs[i], rva) == spec_sec_contains_at(data, sb, i, rva));
        if !sec_contains(secs[i], rva) {
            lemma_find_sec_agrees(secs, data, sb, rva, i + 1);
        }
    }
}

impl PeHeader {
    /// Runs the linear parse over `buf`: the DOS header at offset 0, a seek
    /// to the new-style header, the new-style header, the meaningful
    /// data-directory entries (translating the zero/zero sentinel into an
    /// absent slot), exactly `num_of_secs` section headers, and, when the
    /// base-relocation entry is present, the relocation block at the file
    /// offset its address resolves to. Fail-fast: the first failing step
    /// aborts the whole parse, and no partial result is returned.
    pub fn new(buf: Vec<u8>) -> (r: Result<PeHeader, Error>)
        ensures
            match r {
                Ok(p) => {
                    let data = buf@;
                    let nt = spec_nt_pos(data);
                    &&& pe_parse_ok(data)
                    &&& p.rwbuf.bytes() == data
                    &&& dos_header_wf(p.dos_hdr, data, 0)
                    &&& nt_header_wf(p.nt_hdr, data, nt)
                    &&& dirs_populated(p.nt_hdr.opt_hdr.data_dirs, data, nt)
                    &&& p.sec_hdrs@.len() == spec_num_secs(data, nt)
                    &&& forall|i: int|
                        0 <= i < p.sec_hdrs@.len() ==> section_header_wf(
                            #[trigger] p.sec_hdrs@[i],
                            data,
                            spec_sec_base(data, nt) + 40 * i,
                        )
                    &&& match p.relocs {
                        Some(rl) => spec_base_reloc_present(data, nt) && relocations_wf(
                            rl,
                            data,
                            spec_reloc_off(data, nt),
                        ),
                        None => !spec_base_reloc_present(data, nt),
                    }
                },
                Err(e) => {
                    let data = buf@;
                    let nt = spec_nt_pos(data);
                    let nd = spec_num_dirs(data, nt);
                    let sb = spec_sec_base(data, nt);
                    let ns = spec_num_secs(data, nt);
                    &&& !pe_parse_ok(data)
                    &&& (e is ReadFailure || e is SeekFailure || e is SectionNotFound)
                    &&& (data.len() < DOS_HEADER_SIZE ==> e is ReadFailure)
                    &&& (DOS_HEADER_SIZE <= data.len() && nt > data.len() ==> e == (
                        Error::SeekFailure { offset: u32_le_at(data, 0x3C) as usize }
                    ))
                    &&& (nt <= data.len() && nt + NT_HEADER_SIZE > data.len() ==> e
                        is ReadFailure)
                    &&& (nt + NT_HEADER_SIZE <= data.len() && nt + NT_HEADER_SIZE + 8 * nd
                        > data.len() ==> e is ReadFailure)
                    &&& (nt + NT_HEADER_SIZE + 8 * nd <= data.len() && sb + 40 * ns > data.len()
                        ==> e is ReadFailure)
                    &&& (sb + 40 * ns <= data.len() && DOS_HEADER_SIZE <= data.len()
                        && spec_base_reloc_present(data, nt) && spec_find_sec_at(
                        data,
                        sb,
                        ns,
                        spec_dir_va(data, nt, 5),
                        0,
                    ) is None ==> e == (Error::SectionNotFound { rva: spec_dir_va(data, nt, 5) }))
                },
            },
    {
        let ghost data = buf@;
        let mut rwbuf = ByteStream::new(buf);
        let dos_hdr: DosHeader = DosHeader::new(&mut rwbuf)?;
        let nt_pos: usize = *dos_hdr.addr_of_new_exe_hdr.get_ref() as usize;
        rwbuf.seek(nt_pos)?;
        let mut nt_hdr: NtHeader = NtHeader::new(&mut rwbuf)?;
        proof {
            assert(nt_pos as int == spec_nt_pos(data));
        }

        let nd32: u32 = *nt_hdr.opt_hdr.num_of_rva_and_sizes.get_ref();
        let num_dirs: usize = if nd32 > 16 {
            16
        } else {
            nd32 as usize
        };
        let mut i: usize = 0;
        while i < num_dirs
            invariant
                data == buf@,
                rwbuf.bytes() == data,
                rwbuf.pos() == nt_pos + NT_HEADER_SIZE + 8 * i,
                0 <= i <= num_dirs,
                num_dirs == spec_num_dirs(data, nt_pos as int),
                nt_pos as int == spec_nt_pos(data),
                nt_pos + NT_HEADER_SIZE + 8 * i <= data.len(),
                nt_header_wf(nt_hdr, data, nt_pos as int),
                dos_header_wf(dos_hdr, data, 0),
                DOS_HEADER_SIZE <= data.len(),
                nt_pos + NT_HEADER_SIZE <= data.len(),
                forall|j: int|
                    0 <= j < i ==> #[trigger] dir_entry_populated(
                        nt_hdr.opt_hdr.data_dirs,
                        data,
                        nt_pos as int,
                        j,
                    ),
                forall|j: int|
                    i <= j < 16 ==> #[trigger] dir_entry(nt_hdr.opt_hdr.data_dirs, j) is None,
            decreases num_dirs - i,
        {
            let dd: DataDirectory = DataDirectory::new(&mut rwbuf)?;
            let va: u32 = *dd.virt_addr.get_ref();
            let sz: u32 = *dd.size.get_ref();
            let entry: Option<DataDirectory> = if va == 0 && sz == 0 {
                None
            } else {
                Some(dd)
            };
            let ghost old_dirs = nt_hdr.opt_hdr.data_dirs;
            nt_hdr.opt_hdr.data_dirs.set_entry(i, entry);
            proof {
                assert(va == spec_dir_va(data, nt_pos as int, i as int));
                assert(sz == spec_dir_size(data, nt_pos as int, i as int));
                assert(dir_entry(nt_hdr.opt_hdr.data_dirs, i as int) == entry);
                assert(dir_entry_populated(nt_hdr.opt_hdr.data_dirs, data, nt_pos as int, i as int));
                assert forall|j: int|
                    0 <= j < i + 1 implies #[trigger] dir_entry_populated(
                        nt_hdr.opt_hdr.data_dirs,
                        data,
                        nt_pos as int,
                        j,
                    ) by {
                    if j < i {
                        assert(dir_entry(nt_hdr.opt_hdr.data_dirs, j) == dir_entry(old_dirs, j));
                        assert(dir_entry_populated(old_dirs, data, nt_pos as int, j));
                    }
                }
                assert forall|j: int|
                    i + 1 <= j < 16 implies #[trigger] dir_entry(
                        nt_hdr.opt_hdr.data_dirs,
                        j,
                    ) is None by {
                    assert(dir_entry(nt_hdr.opt_hdr.data_dirs, j) == dir_entry(old_dirs, j));
                }
            }
            i = i + 1;
        }

        let ns16: u16 = *nt_hdr.file_hdr.num_of_secs.get_ref();
        let num_secs: usize = ns16 as usize;
        let ghost sb = spec_sec_base(data, nt_pos as int);
        let mut sec_hdrs: Vec<SectionHeader> = Vec::new();
        let mut k: usize = 0;
        while k < num_secs
            invariant
                data == buf@,
                rwbuf.bytes() == data,
                rwbuf.pos() == sb + 40 * k,
                0 <= k <= num_secs,
                num_secs == spec_num_secs(data, nt_pos as int),
                nt_pos as int == spec_nt_pos(data),
                sb == spec_sec_base(data, nt_pos as int),
                sb + 40 * k <= data.len(),
                sec_hdrs@.len() == k,
                forall|j: int|
                    0 <= j < k ==> section_header_wf(#[trigger] sec_hdrs@[j], data, sb + 40 * j),
            decreases num_secs - k,
        {
            let sh: SectionHeader = SectionHeader::new(&mut rwbuf)?;
            sec_hdrs.push(sh);
            k = k + 1;
        }

        let relocs: Option<Relocations> = match &nt_hdr.opt_hdr.data_dirs.base_reloc {
            Some(br) => {
                let reloc_rva: u32 = *br.virt_addr.get_ref();
                proof {
                    let ghost nt = nt_pos as int;
                    assert(dir_entry(nt_hdr.opt_hdr.data_dirs, 5)
                        == nt_hdr.opt_hdr.data_dirs.base_reloc);
                    if spec_num_dirs(data, nt) <= 5 {
                        assert(dir_entry(nt_hdr.opt_hdr.data_dirs, 5) is None);
                    }
                    assert(dir_entry_populated(nt_hdr.opt_hdr.data_dirs, data, nt, 5));
                    assert(spec_base_reloc_present(data, nt));
                    assert(reloc_rva == spec_dir_va(data, nt, 5));
                    lemma_find_sec_agrees(sec_hdrs@, data, sb, reloc_rva, 0);
                    lemma_find_sec_from_props(sec_hdrs@, reloc_rva, 0);
                }
                let off: u32 = Self::rva_to_file_offset(&sec_hdrs, reloc_rva)?;
                rwbuf.seek(off as usize)?;
                let rl: Relocations = Relocations::new(&mut rwbuf)?;
                Some(rl)
            },
            None => {
                proof {
                    let ghost nt = nt_pos as int;
                    assert(dir_entry(nt_hdr.opt_hdr.data_dirs, 5)
                        == nt_hdr.opt_hdr.data_dirs.base_reloc);
                    if spec_num_dirs(data, nt) > 5 {
                        assert(dir_entry_populated(nt_hdr.opt_hdr.data_dirs, data, nt, 5));
                    }
                    assert(!spec_base_reloc_present(data, nt));
                }
                None
            },
        };

        Ok(PeHeader { dos_hdr, nt_hdr, sec_hdrs, relocs, rwbuf })
    }
}

} // verus!
