//! The offset-tracked value engine: reading scalars and arrays from a
//! seekable stream, writing them back in place, and the relocation block
//! built on top of it.

use zordon::err::Error;
use zordon::reloc::RelocationType;
use zordon::reloc::Relocations;
use zordon::stream::ArrayVal;
use zordon::stream::ByteStream;
use zordon::stream::GenVal;
use zordon::stream::SimpleVal;

#[test]
fn genval_new_records_offset_and_value() {
    let mut s = ByteStream::new(vec![0xAA, 0x34, 0x12, 0xBB]);
    s.seek(1).unwrap();
    let v: GenVal<u16> = GenVal::new(&mut s).unwrap();
    assert_eq!(v.val(), 0x1234);
    assert_eq!(v.offset, 1);
    assert_eq!(s.position(), 3);
}

#[test]
fn genval_set_writes_back_in_place() {
    let mut s = ByteStream::new(vec![0xAA, 0x34, 0x12, 0xBB]);
    s.seek(1).unwrap();
    let mut v: GenVal<u16> = GenVal::new(&mut s).unwrap();
    s.seek(0).unwrap();

    v.set(&mut s, 0xBEEF).unwrap();

    // Re-reading the stream at the recorded offset yields the new value,
    // and bytes outside the value's window are unchanged.
    assert_eq!(v.val(), 0xBEEF);
    assert_eq!(s.get_ref(), &vec![0xAA, 0xEF, 0xBE, 0xBB]);
    assert_eq!(s.position(), 3);
    s.seek(1).unwrap();
    let back: GenVal<u16> = GenVal::new(&mut s).unwrap();
    assert_eq!(back.val(), 0xBEEF);
}

#[test]
fn genval_add_matches_set_of_sum() {
    let mut s1 = ByteStream::new(vec![0x10, 0x00]);
    let mut a: GenVal<u16> = GenVal::new(&mut s1).unwrap();
    a.add(&mut s1, 0x25).unwrap();

    let mut s2 = ByteStream::new(vec![0x10, 0x00]);
    let mut b: GenVal<u16> = GenVal::new(&mut s2).unwrap();
    let sum = b.val().wrapping_add(0x25);
    b.set(&mut s2, sum).unwrap();

    assert_eq!(s1.get_ref(), s2.get_ref());
    assert_eq!(a.val(), 0x35);
    assert_eq!(*a.get_ref(), 0x35);
}

#[test]
fn genval_signed_scalars() {
    let mut s = ByteStream::new(vec![0xFE, 0xFF, 0x80]);
    let v16: SimpleVal<i16> = SimpleVal::new(&mut s).unwrap();
    let v8: SimpleVal<i8> = SimpleVal::new(&mut s).unwrap();
    assert_eq!(v16.val(), -2);
    assert_eq!(v8.val(), -128);
}

#[test]
fn genval_read_past_end_fails() {
    let mut s = ByteStream::new(vec![0x01]);
    let r: Result<GenVal<u32>, Error> = GenVal::new(&mut s);
    assert_eq!(r.unwrap_err(), Error::ReadFailure { offset: 0 });
    assert_eq!(s.position(), 0);
}

#[test]
fn genval_write_past_end_fails() {
    let mut long = ByteStream::new(vec![0; 8]);
    long.seek(4).unwrap();
    let mut v: GenVal<u32> = GenVal::new(&mut long).unwrap();

    // The same value written back through a shorter stream cannot reach
    // its recorded offset.
    let mut short = ByteStream::new(vec![0; 4]);
    let r = v.set(&mut short, 7);
    assert_eq!(r.unwrap_err(), Error::WriteFailure { offset: 4 });
    assert_eq!(short.get_ref(), &vec![0; 4]);
}

#[test]
fn seek_past_end_fails() {
    let mut s = ByteStream::new(vec![0; 4]);
    assert!(s.seek(4).is_ok());
    assert_eq!(s.seek(5).unwrap_err(), Error::SeekFailure { offset: 5 });
    assert_eq!(s.position(), 4);
    assert_eq!(s.len(), 4);
    assert_eq!(s.into_inner(), vec![0; 4]);
}

#[test]
fn arrayval_reads_and_writes_in_place() {
    let mut s = ByteStream::new(vec![0xAA, 1, 2, 3, 0xBB]);
    s.seek(1).unwrap();
    let mut a: ArrayVal<3> = ArrayVal::new(&mut s).unwrap();
    assert_eq!(a.get_ref(), &vec![1, 2, 3]);
    assert_eq!(s.position(), 4);

    a.set(&mut s, &[7, 8, 9]).unwrap();
    assert_eq!(a.get_ref(), &vec![7, 8, 9]);
    assert_eq!(s.get_ref(), &vec![0xAA, 7, 8, 9, 0xBB]);
    assert_eq!(s.position(), 4);
}

#[test]
fn arrayval_add_is_unimplemented() {
    let mut s = ByteStream::new(vec![1, 2]);
    let mut a: ArrayVal<2> = ArrayVal::new(&mut s).unwrap();
    let r = a.add(&mut s, &[1, 1]);
    assert_eq!(r.unwrap_err(), Error::UnimplementedArrayArithmetic);
    assert_eq!(a.get_ref(), &vec![1, 2]);
}

#[test]
fn relocations_new() {
    let reloc_data: Vec<u8> =
        vec![0, 0x10, 0, 0, 0x0C, 0, 0, 0, 0x17, 0x30, 0x1F, 0x30, 0, 0, 0, 0];
    let mut buf = ByteStream::new(reloc_data);

    let relocs = Relocations::new(&mut buf).unwrap();

    assert_eq!(relocs.virt_addr.val(), 0x1000);
    assert_eq!(relocs.size_of_block.val(), 0x0C);
    assert_eq!(relocs.block[0].val(), 0x3017);
    assert_eq!(relocs.block[1].val(), 0x301F);

    assert_eq!(
        Relocations::to_type(relocs.block[0].val()),
        RelocationType::ImageRelBasedHighLow
    );
    assert_eq!(
        Relocations::to_type(relocs.block[1].val()),
        RelocationType::ImageRelBasedHighLow
    );

    assert_eq!(Relocations::to_offset(relocs.block[0].val()), 0x17);
    assert_eq!(Relocations::to_offset(relocs.block[1].val()), 0x1F);
}

#[test]
fn relocations_block_size_below_header_fails() {
    // The declared block size (4) is smaller than the 8-byte header.
    let mut buf = ByteStream::new(vec![0, 0x10, 0, 0, 0x04, 0, 0, 0]);
    let r = Relocations::new(&mut buf);
    assert_eq!(r.unwrap_err(), Error::ReadFailure { offset: 4 });
}

#[test]
fn relocation_type_selectors() {
    assert_eq!(RelocationType::new(0), RelocationType::ImageRelBasedAbsolute);
    assert_eq!(RelocationType::new(1), RelocationType::ImageRelBasedHigh);
    assert_eq!(RelocationType::new(2), RelocationType::ImageRelBasedLow);
    assert_eq!(RelocationType::new(3), RelocationType::ImageRelBasedHighLow);
    assert_eq!(RelocationType::new(4), RelocationType::ImageRelBasedHighAdj);
    assert_eq!(RelocationType::new(5), RelocationType::ImageRelBasedMipsJmpAddr);
}
