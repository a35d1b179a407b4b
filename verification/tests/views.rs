//! The view engine over a mutable byte buffer: claiming windows, reading
//! and writing values of every width and both byte orders, and the
//! compound-assignment forms.

use zordon::types::ArrayView;
use zordon::types::BigEnd;
use zordon::types::ByteView;
use zordon::types::LitEnd;
use zordon::types::ModByteView;
use zordon::types::ModMulByteView;
use zordon::types::MulByteView;
use zordon::types::Span;

const U8_RESULT: u8 = 0x01;
const U16_BE_RESULT: u16 = 0x0203;
const U32_BE_RESULT: u32 = 0x04050607;
const U64_BE_RESULT: u64 = 0x08090A0B_0C0D0E0F;
const U128_BE_RESULT: u128 = 0x10111213_14151617_18191A1B_1C1D1E1F;

const I8_RESULT: i8 = 0x01;
const I16_BE_RESULT: i16 = 0x0203;
const I32_BE_RESULT: i32 = 0x04050607;
const I64_BE_RESULT: i64 = 0x08090A0B_0C0D0E0F;
const I128_BE_RESULT: i128 = 0x10111213_14151617_18191A1B_1C1D1E1F;

const MULBYTEVAL_TESTDATA: [u8; 30] = [
    2, 3, 4, 5, 6, 7, 8, 9, 0xA, 0xB, 0xC, 0xD, 0xE, 0xF, 0x10, 0x11, 0x12, 0x13, 0x14, 0x15,
    0x16, 0x17, 0x18, 0x19, 0x1A, 0x1B, 0x1C, 0x1D, 0x1E, 0x1F,
];

#[test]
fn byteval_val() {
    let buf: Vec<u8> = vec![U8_RESULT];

    let (b, _) = ByteView::<u8>::mut_view(Span::whole(&buf));
    assert_eq!(b.val(&buf), U8_RESULT);

    let (b, _) = ByteView::<i8>::mut_view(Span::whole(&buf));
    assert_eq!(b.val(&buf), I8_RESULT);
}

#[test]
fn byteval_set() {
    let mut buf: Vec<u8> = vec![0];

    let (mut b, _) = ByteView::<u8>::mut_view(Span::whole(&buf));
    b.set(&mut buf, U8_RESULT);
    assert_eq!(buf[0], U8_RESULT);

    let (mut b, _) = ByteView::<i8>::mut_view(Span::whole(&buf));
    b.set(&mut buf, I8_RESULT);
    assert_eq!(buf[0], I8_RESULT as u8);
}

#[test]
fn mulbyteval_val() {
    let buf: Vec<u8> = MULBYTEVAL_TESTDATA.to_vec();
    let w = Span::whole(&buf);
    let (u16_f, w) = MulByteView::<u16, LitEnd>::mut_view(w);
    let (u32_f, w) = MulByteView::<u32, LitEnd>::mut_view(w);
    let (u64_f, w) = MulByteView::<u64, LitEnd>::mut_view(w);
    let (u128_f, _) = MulByteView::<u128, LitEnd>::mut_view(w);

    assert_eq!(u16_f.val(&buf), U16_BE_RESULT.swap_bytes());
    assert_eq!(u32_f.val(&buf), U32_BE_RESULT.swap_bytes());
    assert_eq!(u64_f.val(&buf), U64_BE_RESULT.swap_bytes());
    assert_eq!(u128_f.val(&buf), U128_BE_RESULT.swap_bytes());

    let buf: Vec<u8> = MULBYTEVAL_TESTDATA.to_vec();
    let w = Span::whole(&buf);
    let (u16_f, w) = MulByteView::<u16, BigEnd>::mut_view(w);
    let (u32_f, w) = MulByteView::<u32, BigEnd>::mut_view(w);
    let (u64_f, w) = MulByteView::<u64, BigEnd>::mut_view(w);
    let (u128_f, _) = MulByteView::<u128, BigEnd>::mut_view(w);

    assert_eq!(u16_f.val(&buf), U16_BE_RESULT);
    assert_eq!(u32_f.val(&buf), U32_BE_RESULT);
    assert_eq!(u64_f.val(&buf), U64_BE_RESULT);
    assert_eq!(u128_f.val(&buf), U128_BE_RESULT);

    let buf: Vec<u8> = MULBYTEVAL_TESTDATA.to_vec();
    let w = Span::whole(&buf);
    let (i16_f, w) = MulByteView::<i16, LitEnd>::mut_view(w);
    let (i32_f, w) = MulByteView::<i32, LitEnd>::mut_view(w);
    let (i64_f, w) = MulByteView::<i64, LitEnd>::mut_view(w);
    let (i128_f, _) = MulByteView::<i128, LitEnd>::mut_view(w);

    assert_eq!(i16_f.val(&buf), I16_BE_RESULT.swap_bytes());
    assert_eq!(i32_f.val(&buf), I32_BE_RESULT.swap_bytes());
    assert_eq!(i64_f.val(&buf), I64_BE_RESULT.swap_bytes());
    assert_eq!(i128_f.val(&buf), I128_BE_RESULT.swap_bytes());

    let buf: Vec<u8> = MULBYTEVAL_TESTDATA.to_vec();
    let w = Span::whole(&buf);
    let (i16_f, w) = MulByteView::<i16, BigEnd>::mut_view(w);
    let (i32_f, w) = MulByteView::<i32, BigEnd>::mut_view(w);
    let (i64_f, w) = MulByteView::<i64, BigEnd>::mut_view(w);
    let (i128_f, _) = MulByteView::<i128, BigEnd>::mut_view(w);

    assert_eq!(i16_f.val(&buf), I16_BE_RESULT);
    assert_eq!(i32_f.val(&buf), I32_BE_RESULT);
    assert_eq!(i64_f.val(&buf), I64_BE_RESULT);
    assert_eq!(i128_f.val(&buf), I128_BE_RESULT);
}

#[test]
fn mulbyteval_set() {
    let mut buf: Vec<u8> = vec![0; 30];
    let w = Span::whole(&buf);
    let (mut u16_f, w) = MulByteView::<u16, LitEnd>::mut_view(w);
    let (mut u32_f, w) = MulByteView::<u32, LitEnd>::mut_view(w);
    let (mut u64_f, w) = MulByteView::<u64, LitEnd>::mut_view(w);
    let (mut u128_f, _) = MulByteView::<u128, LitEnd>::mut_view(w);

    u16_f.set(&mut buf, U16_BE_RESULT);
    u32_f.set(&mut buf, U32_BE_RESULT);
    u64_f.set(&mut buf, U64_BE_RESULT);
    u128_f.set(&mut buf, U128_BE_RESULT);

    assert_eq!(buf[0..2], U16_BE_RESULT.to_le_bytes());
    assert_eq!(buf[2..6], U32_BE_RESULT.to_le_bytes());
    assert_eq!(buf[6..14], U64_BE_RESULT.to_le_bytes());
    assert_eq!(buf[14..30], U128_BE_RESULT.to_le_bytes());

    let mut buf: Vec<u8> = vec![0; 30];
    let w = Span::whole(&buf);
    let (mut u16_f, w) = MulByteView::<u16, BigEnd>::mut_view(w);
    let (mut u32_f, w) = MulByteView::<u32, BigEnd>::mut_view(w);
    let (mut u64_f, w) = MulByteView::<u64, BigEnd>::mut_view(w);
    let (mut u128_f, _) = MulByteView::<u128, BigEnd>::mut_view(w);

    u16_f.set(&mut buf, U16_BE_RESULT);
    u32_f.set(&mut buf, U32_BE_RESULT);
    u64_f.set(&mut buf, U64_BE_RESULT);
    u128_f.set(&mut buf, U128_BE_RESULT);

    assert_eq!(buf[0..2], U16_BE_RESULT.to_be_bytes());
    assert_eq!(buf[2..6], U32_BE_RESULT.to_be_bytes());
    assert_eq!(buf[6..14], U64_BE_RESULT.to_be_bytes());
    assert_eq!(buf[14..30], U128_BE_RESULT.to_be_bytes());

    let mut buf: Vec<u8> = vec![0; 30];
    let w = Span::whole(&buf);
    let (mut i16_f, w) = MulByteView::<i16, LitEnd>::mut_view(w);
    let (mut i32_f, w) = MulByteView::<i32, LitEnd>::mut_view(w);
    let (mut i64_f, w) = MulByteView::<i64, LitEnd>::mut_view(w);
    let (mut i128_f, _) = MulByteView::<i128, LitEnd>::mut_view(w);

    i16_f.set(&mut buf, I16_BE_RESULT);
    i32_f.set(&mut buf, I32_BE_RESULT);
    i64_f.set(&mut buf, I64_BE_RESULT);
    i128_f.set(&mut buf, I128_BE_RESULT);

    assert_eq!(buf[0..2], I16_BE_RESULT.to_le_bytes());
    assert_eq!(buf[2..6], I32_BE_RESULT.to_le_bytes());
    assert_eq!(buf[6..14], I64_BE_RESULT.to_le_bytes());
    assert_eq!(buf[14..30], I128_BE_RESULT.to_le_bytes());
}

#[test]
fn negative_values_round_trip() {
    let mut buf: Vec<u8> = vec![0; 2];
    let (mut v, _) = MulByteView::<i16, LitEnd>::mut_view(Span::whole(&buf));
    v.set(&mut buf, -2);
    assert_eq!(buf, vec![0xFE, 0xFF]);
    assert_eq!(v.val(&buf), -2);

    let mut buf: Vec<u8> = vec![0; 2];
    let (mut v, _) = MulByteView::<i16, BigEnd>::mut_view(Span::whole(&buf));
    v.set(&mut buf, -2);
    assert_eq!(buf, vec![0xFF, 0xFE]);
    assert_eq!(v.val(&buf), -2);

    let mut buf: Vec<u8> = vec![0];
    let (mut v, _) = ByteView::<i8>::mut_view(Span::whole(&buf));
    v.set(&mut buf, -128);
    assert_eq!(buf[0], 0x80);
    assert_eq!(v.val(&buf), -128);
}

#[test]
fn extreme_values_round_trip() {
    let mut buf: Vec<u8> = vec![0; 16];
    let (mut v, _) = MulByteView::<i128, LitEnd>::mut_view(Span::whole(&buf));
    v.set(&mut buf, i128::MIN);
    let mut expected: Vec<u8> = vec![0; 16];
    expected[15] = 0x80;
    assert_eq!(buf, expected);
    assert_eq!(v.val(&buf), i128::MIN);

    let mut buf: Vec<u8> = vec![0; 16];
    let (mut v, _) = MulByteView::<u128, BigEnd>::mut_view(Span::whole(&buf));
    v.set(&mut buf, u128::MAX - 1);
    assert_eq!(buf[15], 0xFE);
    assert_eq!(buf[0..15], [0xFF; 15]);
    assert_eq!(v.val(&buf), u128::MAX - 1);

    let mut buf: Vec<u8> = vec![0; 16];
    let (mut v, _) = MulByteView::<i128, BigEnd>::mut_view(Span::whole(&buf));
    v.set(&mut buf, -2);
    assert_eq!(buf[15], 0xFE);
    assert_eq!(buf[0..15], [0xFF; 15]);
    assert_eq!(v.val(&buf), -2);
}

#[test]
fn arrayval_deref() {
    let arr = [0x1, 0x2, 0x3, 0x4];
    let buf: Vec<u8> = arr.to_vec();
    let (t, _) = ArrayView::<[u8; 4]>::mut_view(Span::whole(&buf));

    assert_eq!(t.as_ref(&buf), &arr);
}

#[test]
fn arrayval_deref_mut() {
    let mut buf: Vec<u8> = vec![0];
    let (t, _) = ArrayView::<[u8; 1]>::mut_view(Span::whole(&buf));

    t.as_mut_ref(&mut buf, 0, 0xA);

    assert_eq!(t.as_ref(&buf), &[0xA]);
}

#[test]
fn arrayval_set() {
    let mut buf: Vec<u8> = vec![0; 4];
    let (mut t, _) = ArrayView::<[u8; 4]>::mut_view(Span::whole(&buf));

    let new_data = [0x4, 0x3, 0x2, 0x1];
    t.set(&mut buf, &new_data);
    assert_eq!(buf[0..4], new_data);
}

#[test]
fn arrayval_rc_clone_shares_window() {
    let mut buf: Vec<u8> = vec![0; 3];
    let (t, _) = ArrayView::<[u8; 3]>::mut_view(Span::whole(&buf));
    let other = t.rc_clone();

    other.as_mut_ref(&mut buf, 1, 0x7F);
    assert_eq!(t.as_ref(&buf), &[0, 0x7F, 0]);
}

#[test]
fn composite_fields_consume_left_to_right() {
    let buf: Vec<u8> = vec![0x00, 0x01, 0x02, 0x03, 0x04, 0x05];
    let w = Span::whole(&buf);
    let (u8_f, w) = ByteView::<u8>::mut_view(w);
    let (u16_f, w) = MulByteView::<u16, BigEnd>::mut_view(w);
    let (arr_f, rest) = ArrayView::<[u8; 3]>::mut_view(w);

    assert_eq!(u8_f.val(&buf), 0x00);
    assert_eq!(u16_f.val(&buf), 0x0102);
    assert_eq!(arr_f.as_ref(&buf), &[0x03, 0x04, 0x05]);
    assert_eq!(rest.len(), 0);
}

#[test]
fn endian_duality_over_fixed_bytes() {
    let fwd: [u8; 16] = [1, 2, 3, 4, 5, 6, 7, 8, 9, 10, 11, 12, 13, 14, 15, 16];
    let rev: Vec<u8> = fwd.iter().rev().copied().collect();
    let fwd: Vec<u8> = fwd.to_vec();

    let (le16, _) = MulByteView::<u16, LitEnd>::mut_view(Span::whole(&fwd));
    let (be16, _) = MulByteView::<u16, BigEnd>::mut_view(Span::whole(&fwd));
    assert_eq!(le16.val(&fwd), be16.val(&fwd).swap_bytes());

    let (le32, _) = MulByteView::<u32, LitEnd>::mut_view(Span::whole(&fwd));
    let (be32, _) = MulByteView::<u32, BigEnd>::mut_view(Span::whole(&fwd));
    assert_eq!(le32.val(&fwd), be32.val(&fwd).swap_bytes());

    let (le64, _) = MulByteView::<u64, LitEnd>::mut_view(Span::whole(&fwd));
    let (be64, _) = MulByteView::<u64, BigEnd>::mut_view(Span::whole(&fwd));
    assert_eq!(le64.val(&fwd), be64.val(&fwd).swap_bytes());

    // Full-width check: the little-endian reading of the bytes equals the
    // big-endian reading of the reversed bytes.
    let (le128, _) = MulByteView::<u128, LitEnd>::mut_view(Span::whole(&fwd));
    let (be128, _) = MulByteView::<u128, BigEnd>::mut_view(Span::whole(&rev));
    assert_eq!(le128.val(&fwd), be128.val(&rev));
}

#[test]
fn set_changes_only_the_owned_window() {
    let mut buf: Vec<u8> = vec![0xAA; 8];
    let w = Span::whole(&buf);
    let (_skip, w) = ByteView::<u8>::mut_view(w);
    let (mut mid, _) = MulByteView::<u32, LitEnd>::mut_view(w);

    mid.set(&mut buf, 0x01020304);
    assert_eq!(buf, vec![0xAA, 0x04, 0x03, 0x02, 0x01, 0xAA, 0xAA, 0xAA]);
}

#[test]
fn mulbyte_val_addassign() {
    let mut buf: Vec<u8> = vec![2; 30];
    let w = Span::whole(&buf);
    let (mut u16_f, w) = MulByteView::<u16, LitEnd>::mut_view(w);
    let (mut u32_f, w) = MulByteView::<u32, LitEnd>::mut_view(w);
    let (mut u64_f, _) = MulByteView::<u64, LitEnd>::mut_view(w);

    u16_f.add_assign(&mut buf, 2);
    u32_f.add_assign(&mut buf, 2);
    u64_f.add_assign(&mut buf, 2);

    let result = [4, 2, 4, 2, 2, 2, 4, 2, 2, 2, 2, 2, 2, 2];
    assert_eq!(buf[0..2], result[0..2]);
    assert_eq!(buf[2..6], result[2..6]);
    assert_eq!(buf[6..14], result[6..14]);
}

#[test]
fn mulbyte_val_subassign() {
    let mut buf: Vec<u8> = vec![2; 30];
    let w = Span::whole(&buf);
    let (mut u16_f, w) = MulByteView::<u16, LitEnd>::mut_view(w);
    let (mut u32_f, w) = MulByteView::<u32, LitEnd>::mut_view(w);
    let (mut u64_f, _) = MulByteView::<u64, LitEnd>::mut_view(w);

    u16_f.sub_assign(&mut buf, 2);
    u32_f.sub_assign(&mut buf, 2);
    u64_f.sub_assign(&mut buf, 2);

    let result = [0, 2, 0, 2, 2, 2, 0, 2, 2, 2, 2, 2, 2, 2];
    assert_eq!(buf[0..2], result[0..2]);
    assert_eq!(buf[2..6], result[2..6]);
    assert_eq!(buf[6..14], result[6..14]);
}

#[test]
fn mulbyte_val_mulassign() {
    let mut buf: Vec<u8> = vec![2; 30];
    let w = Span::whole(&buf);
    let (mut u16_f, w) = MulByteView::<u16, LitEnd>::mut_view(w);
    let (mut u32_f, w) = MulByteView::<u32, LitEnd>::mut_view(w);
    let (mut u64_f, _) = MulByteView::<u64, LitEnd>::mut_view(w);

    u16_f.mul_assign(&mut buf, 2);
    u32_f.mul_assign(&mut buf, 2);
    u64_f.mul_assign(&mut buf, 2);

    let result = [4, 4, 4, 4, 4, 4, 4, 4, 4, 4, 4, 4, 4, 4];
    assert_eq!(buf[0..2], result[0..2]);
    assert_eq!(buf[2..6], result[2..6]);
    assert_eq!(buf[6..14], result[6..14]);
}

#[test]
fn mulbyte_val_divassign() {
    let mut buf: Vec<u8> = vec![2; 30];
    let w = Span::whole(&buf);
    let (mut u16_f, w) = MulByteView::<u16, LitEnd>::mut_view(w);
    let (mut u32_f, w) = MulByteView::<u32, LitEnd>::mut_view(w);
    let (mut u64_f, _) = MulByteView::<u64, LitEnd>::mut_view(w);

    u16_f.div_assign(&mut buf, 2);
    u32_f.div_assign(&mut buf, 2);
    u64_f.div_assign(&mut buf, 2);

    let result = [1, 1, 1, 1, 1, 1, 1, 1, 1, 1, 1, 1, 1, 1];
    assert_eq!(buf[0..2], result[0..2]);
    assert_eq!(buf[2..6], result[2..6]);
    assert_eq!(buf[6..14], result[6..14]);
}

#[test]
fn compound_assign_matches_set_of_sum() {
    let mut via_add: Vec<u8> = vec![0xFE, 0xFF, 0x55];
    let mut via_set: Vec<u8> = vec![0xFE, 0xFF, 0x55];

    let (mut a, _) = MulByteView::<u16, LitEnd>::mut_view(Span::whole(&via_add));
    a.add_assign(&mut via_add, 5);

    let (mut s, _) = MulByteView::<u16, LitEnd>::mut_view(Span::whole(&via_set));
    let sum = s.val(&via_set).wrapping_add(5);
    s.set(&mut via_set, sum);

    assert_eq!(via_add, via_set);
    assert_eq!(via_add, vec![0x03, 0x00, 0x55]);
}
