//! Decoding the fixed composite headers field by field from a stream.

use zordon::dos_hdr::DosHeader;
use zordon::err::Error;
use zordon::imports::ImportDescriptor;
use zordon::nt_hdr::NtHeader;
use zordon::stream::ByteStream;

#[test]
fn dos_header_fields_in_declaration_order() {
    let mut bytes: Vec<u8> = vec![0; 64];
    bytes[0] = 0x4D;
    bytes[1] = 0x5A;
    bytes[0x12] = 0x34; // checksum
    bytes[0x13] = 0x12;
    bytes[0x3C] = 0x80; // offset of the new-style header
    let mut s = ByteStream::new(bytes);

    let h = DosHeader::new(&mut s).unwrap();
    assert_eq!(h.mz_sig.val(), 0x5A4D);
    assert_eq!(h.mz_sig.offset, 0);
    assert_eq!(h.checksum.val(), 0x1234);
    assert_eq!(h.checksum.offset, 0x12);
    assert_eq!(h.reserved_0.get_ref().len(), 8);
    assert_eq!(h.reserved_1.get_ref().len(), 20);
    assert_eq!(h.addr_of_new_exe_hdr.val(), 0x80);
    assert_eq!(h.addr_of_new_exe_hdr.offset, 0x3C);
    assert_eq!(s.position(), 64);
}

#[test]
fn dos_header_too_short_fails() {
    let mut s = ByteStream::new(vec![0x4D, 0x5A]);
    let r = DosHeader::new(&mut s);
    assert_eq!(r.unwrap_err(), Error::ReadFailure { offset: 2 });
}

#[test]
fn nt_header_consumes_its_bytes_and_leaves_dirs_absent() {
    let mut bytes: Vec<u8> = vec![0; 200];
    bytes[0] = 0x50; // "PE\0\0"
    bytes[1] = 0x45;
    bytes[6] = 3; // number of sections
    let mut s = ByteStream::new(bytes);

    let h = NtHeader::new(&mut s).unwrap();
    assert_eq!(h.sig.val(), 0x0000_4550);
    assert_eq!(h.file_hdr.num_of_secs.val(), 3);
    assert_eq!(h.file_hdr.num_of_secs.offset, 6);
    assert!(h.opt_hdr.data_dirs.export.is_none());
    assert!(h.opt_hdr.data_dirs.reserved.is_none());
    assert_eq!(s.position(), 136);
}

#[test]
fn import_descriptor_fields_in_declaration_order() {
    let mut bytes: Vec<u8> = vec![0; 16];
    bytes[0] = 0x11;
    bytes[4] = 0x22;
    bytes[8] = 0x33;
    bytes[12] = 0x44;
    let mut s = ByteStream::new(bytes);

    let d = ImportDescriptor::new(&mut s).unwrap();
    assert_eq!(d.original_first_thunk.val(), 0x11);
    assert_eq!(d.time_data_stamp.val(), 0x22);
    assert_eq!(d.forwarder_chain.val(), 0x33);
    assert_eq!(d.first_thunk.val(), 0x44);
    assert_eq!(d.first_thunk.offset, 12);
    assert_eq!(s.position(), 16);
}
