//! The container model: parsing a synthetic image and resolving addresses
//! between virtual ranges, section indices, and file offsets.

use zordon::err::Error;
use zordon::pe::PeHeader;

fn w16(buf: &mut Vec<u8>, off: usize, v: u16) {
    buf[off..off + 2].copy_from_slice(&v.to_le_bytes());
}

fn w32(buf: &mut Vec<u8>, off: usize, v: u32) {
    buf[off..off + 4].copy_from_slice(&v.to_le_bytes());
}

fn w64(buf: &mut Vec<u8>, off: usize, v: u64) {
    buf[off..off + 8].copy_from_slice(&v.to_le_bytes());
}

/// A minimal image: DOS header at 0, new-style header at 0x40, all 16
/// directory slots read (and zero, hence absent), and two sections.
///
/// Layout: directories at 0x40 + 136 = 0xC8, sections at 0xC8 + 128 =
/// 0x148; section 0 covers virtual [0x1000, 0x2000) with raw data at
/// 0x400, section 1 covers [0x2000, 0x3000) with raw data at 0x1400.
fn build_test_pe() -> Vec<u8> {
    let mut buf: Vec<u8> = vec![0; 0x500];
    w16(&mut buf, 0x00, 0x5A4D); // "MZ"
    w32(&mut buf, 0x3C, 0x40); // offset of the new-style header

    let nt = 0x40;
    w32(&mut buf, nt, 0x0000_4550); // "PE\0\0"
    w16(&mut buf, nt + 4, 0x8664); // machine
    w16(&mut buf, nt + 6, 2); // number of sections
    w16(&mut buf, nt + 20, 0xF0); // optional-header size
    let opt = nt + 24;
    w16(&mut buf, opt, 0x20B); // PE32+ magic
    w32(&mut buf, opt + 16, 0x1500); // address of entry point
    w64(&mut buf, opt + 24, 0x1_4000_0000); // image base
    w32(&mut buf, opt + 108, 16); // number of directory slots

    let sec = 0x148;
    buf[sec..sec + 6].copy_from_slice(b".text\0");
    w32(&mut buf, sec + 8, 0x1000); // virtual size
    w32(&mut buf, sec + 12, 0x1000); // virtual address
    w32(&mut buf, sec + 16, 0x442); // size of raw data
    w32(&mut buf, sec + 20, 0x400); // pointer to raw data

    let sec = 0x148 + 40;
    buf[sec..sec + 6].copy_from_slice(b".data\0");
    w32(&mut buf, sec + 8, 0x1000);
    w32(&mut buf, sec + 12, 0x2000);
    w32(&mut buf, sec + 16, 0x1000);
    w32(&mut buf, sec + 20, 0x1400);

    buf
}

/// The same image with the base-relocation directory entry present: its
/// address resolves through section 0 to file offset 0x400, where a block
/// with two entries sits.
fn build_test_pe_with_relocs() -> Vec<u8> {
    let mut buf = build_test_pe();
    let dirs = 0x40 + 136;
    w32(&mut buf, dirs + 8 * 5, 0x1000); // base-relocation address
    w32(&mut buf, dirs + 8 * 5 + 4, 0x0C); // base-relocation size

    let block = 0x400;
    w32(&mut buf, block, 0x1000); // page address
    w32(&mut buf, block + 4, 0x0C); // block size, header included
    w16(&mut buf, block + 8, 0x3017);
    w16(&mut buf, block + 10, 0x301F);
    buf
}

fn parse_test_pe() -> PeHeader {
    PeHeader::new(build_test_pe()).unwrap()
}

#[test]
fn virt_addr_to_sec_index() {
    let mut pe_hdr = parse_test_pe();

    pe_hdr.sec_hdrs[0].virt_addr.set(&mut pe_hdr.rwbuf, 0x1000).unwrap();
    pe_hdr.sec_hdrs[0].virt_size.set(&mut pe_hdr.rwbuf, 0x1000).unwrap();
    pe_hdr.sec_hdrs[1].virt_addr.set(&mut pe_hdr.rwbuf, 0x2000).unwrap();
    pe_hdr.sec_hdrs[1].virt_size.set(&mut pe_hdr.rwbuf, 0x1000).unwrap();

    assert_eq!(pe_hdr.virt_addr_to_sec_index(0x0).ok(), None);
    assert_eq!(pe_hdr.virt_addr_to_sec_index(0x1000).ok(), Some(0));
    assert_eq!(pe_hdr.virt_addr_to_sec_index(0x1500).ok(), Some(0));
    assert_eq!(pe_hdr.virt_addr_to_sec_index(0x2000).ok(), Some(1));
}

#[test]
fn entry_sec_index() {
    let mut pe_hdr = parse_test_pe();

    let new_entry_va = pe_hdr.sec_hdrs[0].virt_addr.val();
    pe_hdr.nt_hdr.opt_hdr.addr_of_entrypoint.set(&mut pe_hdr.rwbuf, new_entry_va).unwrap();

    assert_eq!(pe_hdr.entry_sec_index().ok(), Some(0));
}

#[test]
fn entry_rel_sec_offset() {
    let mut pe_hdr = parse_test_pe();

    let target = pe_hdr.sec_hdrs[0].virt_addr.val() + 0x100;
    pe_hdr.nt_hdr.opt_hdr.addr_of_entrypoint.set(&mut pe_hdr.rwbuf, target).unwrap();

    assert_eq!(pe_hdr.entry_rel_sec_offset().ok(), Some(0x100));

    pe_hdr.nt_hdr.opt_hdr.addr_of_entrypoint.set(&mut pe_hdr.rwbuf, 0).unwrap();

    assert_eq!(pe_hdr.entry_rel_sec_offset().ok(), None);
}

#[test]
fn entry_sec_ref() {
    let mut pe_hdr = parse_test_pe();

    pe_hdr.nt_hdr.opt_hdr.addr_of_entrypoint.set(&mut pe_hdr.rwbuf, 0x1500).unwrap();
    pe_hdr.sec_hdrs[0].virt_addr.set(&mut pe_hdr.rwbuf, 0x1000).unwrap();
    pe_hdr.sec_hdrs[0].virt_size.set(&mut pe_hdr.rwbuf, 0x1000).unwrap();

    assert_eq!(*pe_hdr.entry_sec_ref().unwrap(), pe_hdr.sec_hdrs[0]);
}

#[test]
fn entry_sec_virt_ip() {
    let mut pe_hdr = parse_test_pe();

    pe_hdr.nt_hdr.opt_hdr.addr_of_entrypoint.set(&mut pe_hdr.rwbuf, 0x1000).unwrap();
    pe_hdr.sec_hdrs[0].virt_addr.set(&mut pe_hdr.rwbuf, 0x1000).unwrap();
    pe_hdr.nt_hdr.opt_hdr.image_base.set(&mut pe_hdr.rwbuf, 0x500000).unwrap();

    assert_eq!(pe_hdr.entry_sec_virt_ip().unwrap(), 0x501000);
}

#[test]
fn entry_disk_offset() {
    let mut pe_hdr = parse_test_pe();

    pe_hdr.nt_hdr.opt_hdr.addr_of_entrypoint.set(&mut pe_hdr.rwbuf, 0x1500).unwrap();
    pe_hdr.sec_hdrs[0].virt_addr.set(&mut pe_hdr.rwbuf, 0x1000).unwrap();
    pe_hdr.sec_hdrs[0].virt_size.set(&mut pe_hdr.rwbuf, 0x1000).unwrap();
    pe_hdr.sec_hdrs[0].ptr_to_raw_data.set(&mut pe_hdr.rwbuf, 0x400).unwrap();

    assert_eq!(pe_hdr.entry_disk_offset().unwrap(), 0x900);
}

#[test]
fn entry_sec_virt_size() {
    let mut pe_hdr = parse_test_pe();

    pe_hdr.nt_hdr.opt_hdr.addr_of_entrypoint.set(&mut pe_hdr.rwbuf, 0x1500).unwrap();
    pe_hdr.sec_hdrs[0].virt_addr.set(&mut pe_hdr.rwbuf, 0x1000).unwrap();
    pe_hdr.sec_hdrs[0].size_of_raw_data.set(&mut pe_hdr.rwbuf, 0x442).unwrap();

    assert_eq!(pe_hdr.entry_sec_virt_size().unwrap(), 0x1000);

    pe_hdr.sec_hdrs[0].size_of_raw_data.set(&mut pe_hdr.rwbuf, 0x0).unwrap();

    assert_eq!(pe_hdr.entry_sec_virt_size().unwrap(), 0x1000);

    pe_hdr.sec_hdrs[0].size_of_raw_data.set(&mut pe_hdr.rwbuf, 0x1001).unwrap();

    assert_eq!(pe_hdr.entry_sec_virt_size().unwrap(), 0x2000);
}

#[test]
fn parse_reads_every_header() {
    let pe_hdr = parse_test_pe();

    assert_eq!(pe_hdr.dos_hdr.mz_sig.val(), 0x5A4D);
    assert_eq!(pe_hdr.dos_hdr.addr_of_new_exe_hdr.val(), 0x40);
    assert_eq!(pe_hdr.nt_hdr.sig.val(), 0x0000_4550);
    assert_eq!(pe_hdr.nt_hdr.file_hdr.machine.val(), 0x8664);
    assert_eq!(pe_hdr.nt_hdr.file_hdr.num_of_secs.val(), 2);
    assert_eq!(pe_hdr.nt_hdr.opt_hdr.magic.val(), 0x20B);
    assert_eq!(pe_hdr.nt_hdr.opt_hdr.addr_of_entrypoint.val(), 0x1500);
    assert_eq!(pe_hdr.nt_hdr.opt_hdr.image_base.val(), 0x1_4000_0000);
    assert_eq!(pe_hdr.nt_hdr.opt_hdr.num_of_rva_and_sizes.val(), 16);
    assert_eq!(pe_hdr.sec_hdrs.len(), 2);
    assert_eq!(pe_hdr.sec_hdrs[0].name.get_ref()[0..6], *b".text\0");
    assert_eq!(pe_hdr.sec_hdrs[0].virt_addr.val(), 0x1000);
    assert_eq!(pe_hdr.sec_hdrs[1].virt_addr.val(), 0x2000);
    assert_eq!(pe_hdr.sec_hdrs[1].ptr_to_raw_data.val(), 0x1400);
    // Zero/zero directory pairs are translated into absent slots.
    assert!(pe_hdr.nt_hdr.opt_hdr.data_dirs.base_reloc.is_none());
    assert!(pe_hdr.nt_hdr.opt_hdr.data_dirs.export.is_none());
    assert!(pe_hdr.relocs.is_none());
}

#[test]
fn parse_decodes_reloc_block() {
    let pe_hdr = PeHeader::new(build_test_pe_with_relocs()).unwrap();

    let dir = pe_hdr.nt_hdr.opt_hdr.data_dirs.base_reloc.as_ref().unwrap();
    assert_eq!(dir.virt_addr.val(), 0x1000);
    assert_eq!(dir.size.val(), 0x0C);

    let relocs = pe_hdr.relocs.as_ref().unwrap();
    assert_eq!(relocs.virt_addr.val(), 0x1000);
    assert_eq!(relocs.size_of_block.val(), 0x0C);
    assert_eq!(relocs.block.len(), 2);
    assert_eq!(relocs.block[0].val(), 0x3017);
    assert_eq!(relocs.block[1].val(), 0x301F);
    // The header fields remember where in the file they were read from.
    assert_eq!(relocs.virt_addr.offset, 0x400);
    assert_eq!(relocs.block[0].offset, 0x408);
}

#[test]
fn rva_to_file_offset() {
    let pe_hdr = parse_test_pe();

    assert_eq!(PeHeader::rva_to_file_offset(&pe_hdr.sec_hdrs, 0x1000).unwrap(), 0x400);
    assert_eq!(PeHeader::rva_to_file_offset(&pe_hdr.sec_hdrs, 0x2500).unwrap(), 0x1900);
    assert_eq!(
        PeHeader::rva_to_file_offset(&pe_hdr.sec_hdrs, 0x0).unwrap_err(),
        Error::SectionNotFound { rva: 0x0 }
    );
}

#[test]
fn parse_truncated_image_fails() {
    let r = PeHeader::new(vec![0x4D, 0x5A, 0x90, 0x00]);
    assert_eq!(r.unwrap_err(), Error::ReadFailure { offset: 4 });
}

#[test]
fn parse_header_offset_past_end_fails() {
    let mut buf = build_test_pe();
    w32(&mut buf, 0x3C, 0xFFFF_0000);
    let r = PeHeader::new(buf);
    assert_eq!(r.unwrap_err(), Error::SeekFailure { offset: 0xFFFF_0000 });
}

#[test]
fn parse_unresolvable_reloc_directory_fails() {
    let mut buf = build_test_pe();
    let dirs = 0x40 + 136;
    w32(&mut buf, dirs + 8 * 5, 0x9000); // outside every section's range
    w32(&mut buf, dirs + 8 * 5 + 4, 0x0C);
    let r = PeHeader::new(buf);
    assert_eq!(r.unwrap_err(), Error::SectionNotFound { rva: 0x9000 });
}
