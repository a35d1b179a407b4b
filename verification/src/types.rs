//! Typed, endian-aware views over a mutable byte buffer.
//!
//! A buffer is an owned `Vec<u8>`; a view is a window of `sizeof(T)` bytes
//! into it, held as an offset range rather than a borrow so that every
//! access is bounds-checked against the owning buffer. `mut_view` claims a
//! window from the front of a [`Span`] and returns the untouched remainder
//! for the next field, so composite records consume their bytes strictly
//! left to right.

use crate::codec::be_to_nat;
use crate::codec::from_signed;
use crate::codec::lemma_reverse_involutive;
use crate::codec::DivOps;
use crate::codec::WrappingOps;
use crate::codec::le_to_nat;
use crate::codec::lemma_be_to_nat_bound;
use crate::codec::lemma_le_to_nat_bound;
use crate::codec::lemma_nat_to_be_len;
use crate::codec::lemma_nat_to_be_to_nat;
use crate::codec::lemma_nat_to_le_len;
use crate::codec::lemma_nat_to_le_to_nat;
use crate::codec::lemma_pow256_values;
use crate::codec::lemma_signed_roundtrip;
use crate::codec::lemma_to_signed_range;
use crate::codec::nat_to_be;
use crate::codec::nat_to_le;
use crate::codec::read_be_bytes;
use crate::codec::read_le_bytes;
use crate::codec::to_signed;
use crate::codec::write_be_bytes;
use crate::codec::write_le_bytes;
use core::marker::PhantomData;
use vstd::prelude::*;

verus! {

/// The unclaimed part of a buffer: the byte range `[start, end)`. Claiming a
/// view consumes bytes from the front and leaves a shorter span behind.
pub struct Span {
    pub start: usize,
    pub end: usize,
}

impl Span {
    pub open spec fn wf(&self) -> bool {
        self.start <= self.end
    }

    pub open spec fn len_spec(&self) -> int {
        self.end - self.start
    }

    /// The span covering all of `buf`.
    pub fn whole(buf: &Vec<u8>) -> (r: Span)
        ensures
            r.start == 0,
            r.end == buf@.len(),
            r.wf(),
    {
        Span { start: 0, end: buf.len() }
    }

    pub fn len(&self) -> (r: usize)
        requires
            self.wf(),
        ensures
            r == self.len_spec(),
    {
        self.end - self.start
    }
}

/// Marker selecting the little-endian reading of a [`MulByteView`].
pub struct LitEnd;

/// Marker selecting the big-endian reading of a [`MulByteView`].
pub struct BigEnd;

/// Getting and setting single-byte values through a [`ByteView`].
pub trait ModByteView<T>: Sized {
    /// The value a one-byte window holds.
    spec fn decode(bytes: Seq<u8>) -> T;

    /// The one-byte window holding `v`.
    spec fn encode(v: T) -> Seq<u8>;

    /// The buffer offset of the view's window.
    spec fn start_spec(&self) -> int;

    /// Encoding is one byte wide and decoding inverts it.
    proof fn lemma_codec(v: T)
        ensures
            Self::encode(v).len() == 1,
            Self::decode(Self::encode(v)) == v,
    ;

    /// Returns a copy of the underlying value.
    fn val(&self, buf: &Vec<u8>) -> (r: T)
        requires
            0 <= self.start_spec(),
            self.start_spec() + 1 <= buf@.len(),
        ensures
            r == Self::decode(buf@.subrange(self.start_spec(), self.start_spec() + 1)),
    ;

    /// Sets the underlying value, touching no byte outside the view's window.
    fn set(&mut self, buf: &mut Vec<u8>, v: T)
        requires
            0 <= old(self).start_spec(),
            old(self).start_spec() + 1 <= old(buf)@.len(),
        ensures
            final(self).start_spec() == old(self).start_spec(),
            final(buf)@.len() == old(buf)@.len(),
            final(buf)@.subrange(old(self).start_spec(), old(self).start_spec() + 1)
                == Self::encode(v),
            forall|k: int|
                0 <= k < final(buf)@.len() && k != old(self).start_spec() ==> final(buf)@[k]
                    == old(buf)@[k],
    ;
}

/// Getting and setting multi-byte values through a [`MulByteView`]. The `E`
/// parameter fixes the byte order at the type level: little- and big-endian
/// views over the same bytes are distinct, non-interchangeable types.
pub trait ModMulByteView<T, E>: Sized {
    /// The width of the view's window in bytes: `sizeof(T)`.
    spec fn width() -> int;

    /// The value a window of `width` bytes holds, read in the byte order
    /// that `E` selects.
    spec fn decode(bytes: Seq<u8>) -> T;

    /// The window of `width` bytes holding `v` in the byte order that `E`
    /// selects.
    spec fn encode(v: T) -> Seq<u8>;

    /// The buffer offset of the view's window.
    spec fn start_spec(&self) -> int;

    /// Encoding is `width` bytes wide and decoding inverts it.
    proof fn lemma_codec(v: T)
        ensures
            Self::encode(v).len() == Self::width(),
            Self::decode(Self::encode(v)) == v,
    ;

    proof fn lemma_width()
        ensures
            2 <= Self::width() <= 16,
    ;

    fn width_exec() -> (n: usize)
        ensures
            n as int == Self::width(),
    ;

    /// Returns a copy of the underlying value.
    fn val(&self, buf: &Vec<u8>) -> (r: T)
        requires
            0 <= self.start_spec(),
            self.start_spec() + Self::width() <= buf@.len(),
        ensures
            r == Self::decode(
                buf@.subrange(self.start_spec(), self.start_spec() + Self::width()),
            ),
    ;

    /// Sets the underlying value, touching no byte outside the view's window.
    fn set(&mut self, buf: &mut Vec<u8>, v: T)
        requires
            0 <= old(self).start_spec(),
            old(self).start_spec() + Self::width() <= old(buf)@.len(),
        ensures
            final(self).start_spec() == old(self).start_spec(),
            final(buf)@.len() == old(buf)@.len(),
            final(buf)@.subrange(old(self).start_spec(), old(self).start_spec() + Self::width())
                == Self::encode(v),
            forall|k: int|
                0 <= k < final(buf)@.len() && !(old(self).start_spec() <= k < old(
                    self,
                ).start_spec() + Self::width()) ==> final(buf)@[k] == old(buf)@[k],
    ;
}

/// A mutable byte view for type T where the length of the view is always 1.
pub struct ByteView<T> {
    pub start: usize,
    pub marker: PhantomData<T>,
}

impl<T> ByteView<T> {
    /// Claims the first byte of `w` and returns the view over it together
    /// with the remainder of the span.
    pub fn mut_view(w: Span) -> (r: (ByteView<T>, Span))
        requires
            w.wf(),
            w.len_spec() >= 1,
        ensures
            r.0.start == w.start,
            r.1.start == w.start + 1,
            r.1.end == w.end,
            r.1.wf(),
            r.1.len_spec() == w.len_spec() - 1,
    {
        (ByteView { start: w.start, marker: PhantomData }, Span { start: w.start + 1, end: w.end })
    }
}

impl ModByteView<u8> for ByteView<u8> {
    open spec fn decode(bytes: Seq<u8>) -> u8 {
        bytes[0]
    }

    open spec fn encode(v: u8) -> Seq<u8> {
        seq![v]
    }

    open spec fn start_spec(&self) -> int {
        self.start as int
    }

    proof fn lemma_codec(v: u8) {
    }

    fn val(&self, buf: &Vec<u8>) -> (r: u8) {
        buf[self.start]
    }

    fn set(&mut self, buf: &mut Vec<u8>, v: u8) {
        proof {
            assert(self.start < buf.len());
        }
        buf.set(self.start, v);
        proof {
            assert(buf@.subrange(self.start as int, self.start + 1) =~= seq![v]);
        }
    }
}

impl ModByteView<i8> for ByteView<i8> {
    open spec fn decode(bytes: Seq<u8>) -> i8 {
        to_signed(bytes[0] as nat, 1) as i8
    }

    open spec fn encode(v: i8) -> Seq<u8> {
        seq![from_signed(v as int, 1) as u8]
    }

    open spec fn start_spec(&self) -> int {
        self.start as int
    }

    proof fn lemma_codec(v: i8) {
        lemma_pow256_values();
        lemma_signed_roundtrip(v as int, 1);
    }

    fn val(&self, buf: &Vec<u8>) -> (r: i8) {
        proof {
            lemma_pow256_values();
        }
        let b: u8 = buf[self.start];
        if b < 128 {
            b as i8
        } else {
            ((b as i16) - 256) as i8
        }
    }

    fn set(&mut self, buf: &mut Vec<u8>, v: i8) {
        proof {
            assert(self.start < buf.len());
            lemma_pow256_values();
        }
        let b: u8 = if v >= 0 {
            v as u8
        } else {
            ((v as i16) + 256) as u8
        };
        buf.set(self.start, b);
        proof {
            assert(buf@.subrange(self.start as int, self.start + 1) =~= seq![b]);
        }
    }
}

/// A mutable multi byte view for type T where the length of the view is
/// `sizeof(T)` and the byte order is fixed by the marker type E.
pub struct MulByteView<T, E> {
    pub start: usize,
    pub t_marker: PhantomData<T>,
    pub e_marker: PhantomData<E>,
}

impl<T, E> MulByteView<T, E> where MulByteView<T, E>: ModMulByteView<T, E> {
    /// Claims the first `sizeof(T)` bytes of `w` and returns the view over
    /// them together with the remainder of the span.
    pub fn mut_view(w: Span) -> (r: (MulByteView<T, E>, Span))
        requires
            w.wf(),
            w.len_spec() >= <MulByteView<T, E> as ModMulByteView<T, E>>::width(),
        ensures
            r.0.start == w.start,
            r.1.start == w.start + <MulByteView<T, E> as ModMulByteView<T, E>>::width(),
            r.1.end == w.end,
            r.1.wf(),
            r.1.len_spec() == w.len_spec() - <MulByteView<T, E> as ModMulByteView<T, E>>::width(),
    {
        let n: usize = Self::width_exec();
        (
            MulByteView { start: w.start, t_marker: PhantomData, e_marker: PhantomData },
            Span { start: w.start + n, end: w.end },
        )
    }
}

impl ModMulByteView<u16, LitEnd> for MulByteView<u16, LitEnd> {
    open spec fn width() -> int {
        2
    }

    open spec fn decode(bytes: Seq<u8>) -> u16 {
        le_to_nat(bytes) as u16
    }

    open spec fn encode(v: u16) -> Seq<u8> {
        nat_to_le(v as nat, 2)
    }

    open spec fn start_spec(&self) -> int {
        self.start as int
    }

    proof fn lemma_codec(v: u16) {
        lemma_pow256_values();
        lemma_nat_to_le_len(v as nat, 2);
        lemma_nat_to_le_to_nat(v as nat, 2);
    }

    proof fn lemma_width() {
    }

    fn width_exec() -> usize {
        2
    }

    fn val(&self, buf: &Vec<u8>) -> (r: u16) {
        proof {
            lemma_pow256_values();
            lemma_le_to_nat_bound(buf@.subrange(self.start as int, self.start + 2));
        }
        let x: u128 = read_le_bytes(buf, self.start, 2);
        x as u16
    }

    fn set(&mut self, buf: &mut Vec<u8>, v: u16) {
        proof {
            lemma_pow256_values();
        }
        write_le_bytes(buf, self.start, 2, v as u128);
    }
}

impl ModMulByteView<u16, BigEnd> for MulByteView<u16, BigEnd> {
    open spec fn width() -> int {
        2
    }

    open spec fn decode(bytes: Seq<u8>) -> u16 {
        be_to_nat(bytes) as u16
    }

    open spec fn encode(v: u16) -> Seq<u8> {
        nat_to_be(v as nat, 2)
    }

    open spec fn start_spec(&self) -> int {
        self.start as int
    }

    proof fn lemma_codec(v: u16) {
        lemma_pow256_values();
        lemma_nat_to_be_len(v as nat, 2);
        lemma_nat_to_be_to_nat(v as nat, 2);
    }

    proof fn lemma_width() {
    }

    fn width_exec() -> usize {
        2
    }

    fn val(&self, buf: &Vec<u8>) -> (r: u16) {
        proof {
            lemma_pow256_values();
            lemma_be_to_nat_bound(buf@.subrange(self.start as int, self.start + 2));
        }
        let x: u128 = read_be_bytes(buf, self.start, 2);
        x as u16
    }

    fn set(&mut self, buf: &mut Vec<u8>, v: u16) {
        proof {
            lemma_pow256_values();
        }
        write_be_bytes(buf, self.start, 2, v as u128);
    }
}

impl ModMulByteView<u32, LitEnd> for MulByteView<u32, LitEnd> {
    open spec fn width() -> int {
        4
    }

    open spec fn decode(bytes: Seq<u8>) -> u32 {
        le_to_nat(bytes) as u32
    }

    open spec fn encode(v: u32) -> Seq<u8> {
        nat_to_le(v as nat, 4)
    }

    open spec fn start_spec(&self) -> int {
        self.start as int
    }

    proof fn lemma_codec(v: u32) {
        lemma_pow256_values();
        lemma_nat_to_le_len(v as nat, 4);
        lemma_nat_to_le_to_nat(v as nat, 4);
    }

    proof fn lemma_width() {
    }

    fn width_exec() -> usize {
        4
    }

    fn val(&self, buf: &Vec<u8>) -> (r: u32) {
        proof {
            lemma_pow256_values();
            lemma_le_to_nat_bound(buf@.subrange(self.start as int, self.start + 4));
        }
        let x: u128 = read_le_bytes(buf, self.start, 4);
        x as u32
    }

    fn set(&mut self, buf: &mut Vec<u8>, v: u32) {
        proof {
            lemma_pow256_values();
        }
        write_le_bytes(buf, self.start, 4, v as u128);
    }
}

impl ModMulByteView<u32, BigEnd> for MulByteView<u32, BigEnd> {
    open spec fn width() -> int {
        4
    }

    open spec fn decode(bytes: Seq<u8>) -> u32 {
        be_to_nat(bytes) as u32
    }

    open spec fn encode(v: u32) -> Seq<u8> {
        nat_to_be(v as nat, 4)
    }

    open spec fn start_spec(&self) -> int {
        self.start as int
    }

    proof fn lemma_codec(v: u32) {
        lemma_pow256_values();
        lemma_nat_to_be_len(v as nat, 4);
        lemma_nat_to_be_to_nat(v as nat, 4);
    }

    proof fn lemma_width() {
    }

    fn width_exec() -> usize {
        4
    }

    fn val(&self, buf: &Vec<u8>) -> (r: u32) {
        proof {
            lemma_pow256_values();
            lemma_be_to_nat_bound(buf@.subrange(self.start as int, self.start + 4));
        }
        let x: u128 = read_be_bytes(buf, self.start, 4);
        x as u32
    }

    fn set(&mut self, buf: &mut Vec<u8>, v: u32) {
        proof {
            lemma_pow256_values();
        }
        write_be_bytes(buf, self.start, 4, v as u128);
    }
}

impl ModMulByteView<u64, LitEnd> for MulByteView<u64, LitEnd> {
    open spec fn width() -> int {
        8
    }

    open spec fn decode(bytes: Seq<u8>) -> u64 {
        le_to_nat(bytes) as u64
    }

    open spec fn encode(v: u64) -> Seq<u8> {
        nat_to_le(v as nat, 8)
    }

    open spec fn start_spec(&self) -> int {
        self.start as int
    }

    proof fn lemma_codec(v: u64) {
        lemma_pow256_values();
        lemma_nat_to_le_len(v as nat, 8);
        lemma_nat_to_le_to_nat(v as nat, 8);
    }

    proof fn lemma_width() {
    }

    fn width_exec() -> usize {
        8
    }

    fn val(&self, buf: &Vec<u8>) -> (r: u64) {
        proof {
            lemma_pow256_values();
            lemma_le_to_nat_bound(buf@.subrange(self.start as int, self.start + 8));
        }
        let x: u128 = read_le_bytes(buf, self.start, 8);
        x as u64
    }

    fn set(&mut self, buf: &mut Vec<u8>, v: u64) {
        proof {
            lemma_pow256_values();
        }
        write_le_bytes(buf, self.start, 8, v as u128);
    }
}

impl ModMulByteView<u64, BigEnd> for MulByteView<u64, BigEnd> {
    open spec fn width() -> int {
        8
    }

    open spec fn decode(bytes: Seq<u8>) -> u64 {
        be_to_nat(bytes) as u64
    }

    open spec fn encode(v: u64) -> Seq<u8> {
        nat_to_be(v as nat, 8)
    }

    open spec fn start_spec(&self) -> int {
        self.start as int
    }

    proof fn lemma_codec(v: u64) {
        lemma_pow256_values();
        lemma_nat_to_be_len(v as nat, 8);
        lemma_nat_to_be_to_nat(v as nat, 8);
    }

    proof fn lemma_width() {
    }

    fn width_exec() -> usize {
        8
    }

    fn val(&self, buf: &Vec<u8>) -> (r: u64) {
        proof {
            lemma_pow256_values();
            lemma_be_to_nat_bound(buf@.subrange(self.start as int, self.start + 8));
        }
        let x: u128 = read_be_bytes(buf, self.start, 8);
        x as u64
    }

    fn set(&mut self, buf: &mut Vec<u8>, v: u64) {
        proof {
            lemma_pow256_values();
        }
        write_be_bytes(buf, self.start, 8, v as u128);
    }
}

impl ModMulByteView<u128, LitEnd> for MulByteView<u128, LitEnd> {
    open spec fn width() -> int {
        16
    }

    open spec fn decode(bytes: Seq<u8>) -> u128 {
        le_to_nat(bytes) as u128
    }

    open spec fn encode(v: u128) -> Seq<u8> {
        nat_to_le(v as nat, 16)
    }

    open spec fn start_spec(&self) -> int {
        self.start as int
    }

    proof fn lemma_codec(v: u128) {
        lemma_pow256_values();
        lemma_nat_to_le_len(v as nat, 16);
        lemma_nat_to_le_to_nat(v as nat, 16);
    }

    proof fn lemma_width() {
    }

    fn width_exec() -> usize {
        16
    }

    fn val(&self, buf: &Vec<u8>) -> (r: u128) {
        proof {
            lemma_pow256_values();
            lemma_le_to_nat_bound(buf@.subrange(self.start as int, self.start + 16));
        }
        let x: u128 = read_le_bytes(buf, self.start, 16);
        x
    }

    fn set(&mut self, buf: &mut Vec<u8>, v: u128) {
        proof {
            lemma_pow256_values();
        }
        write_le_bytes(buf, self.start, 16, v as u128);
    }
}

impl ModMulByteView<u128, BigEnd> for MulByteView<u128, BigEnd> {
    open spec fn width() -> int {
        16
    }

    open spec fn decode(bytes: Seq<u8>) -> u128 {
        be_to_nat(bytes) as u128
    }

    open spec fn encode(v: u128) -> Seq<u8> {
        nat_to_be(v as nat, 16)
    }

    open spec fn start_spec(&self) -> int {
        self.start as int
    }

    proof fn lemma_codec(v: u128) {
        lemma_pow256_values();
        lemma_nat_to_be_len(v as nat, 16);
        lemma_nat_to_be_to_nat(v as nat, 16);
    }

    proof fn lemma_width() {
    }

    fn width_exec() -> usize {
        16
    }

    fn val(&self, buf: &Vec<u8>) -> (r: u128) {
        proof {
            lemma_pow256_values();
            lemma_be_to_nat_bound(buf@.subrange(self.start as int, self.start + 16));
        }
        let x: u128 = read_be_bytes(buf, self.start, 16);
        x
    }

    fn set(&mut self, buf: &mut Vec<u8>, v: u128) {
        proof {
            lemma_pow256_values();
        }
        write_be_bytes(buf, self.start, 16, v as u128);
    }
}

impl ModMulByteView<i16, LitEnd> for MulByteView<i16, LitEnd> {
    open spec fn width() -> int {
        2
    }

    open spec fn decode(bytes: Seq<u8>) -> i16 {
        to_signed(le_to_nat(bytes), 2) as i16
    }

    open spec fn encode(v: i16) -> Seq<u8> {
        nat_to_le(from_signed(v as int, 2), 2)
    }

    open spec fn start_spec(&self) -> int {
        self.start as int
    }

    proof fn lemma_codec(v: i16) {
        lemma_pow256_values();
        lemma_signed_roundtrip(v as int, 2);
        lemma_nat_to_le_len(from_signed(v as int, 2), 2);
        lemma_nat_to_le_to_nat(from_signed(v as int, 2), 2);
    }

    proof fn lemma_width() {
    }

    fn width_exec() -> usize {
        2
    }

    fn val(&self, buf: &Vec<u8>) -> (r: i16) {
        proof {
            lemma_pow256_values();
            lemma_le_to_nat_bound(buf@.subrange(self.start as int, self.start + 2));
            lemma_to_signed_range(
                le_to_nat(buf@.subrange(self.start as int, self.start + 2)),
                2,
            );
        }
        let x: u128 = read_le_bytes(buf, self.start, 2);
        if x < 0x8000u128 {
            x as i16
        } else {
            ((x as i32) - 0x1_0000) as i16
        }
    }

    fn set(&mut self, buf: &mut Vec<u8>, v: i16) {
        proof {
            lemma_pow256_values();
            lemma_signed_roundtrip(v as int, 2);
        }
        let u: u128 = if v >= 0 {
            v as u128
        } else {
            ((v as i32) + 0x1_0000) as u128
        };
        write_le_bytes(buf, self.start, 2, u);
    }
}

impl ModMulByteView<i16, BigEnd> for MulByteView<i16, BigEnd> {
    open spec fn width() -> int {
        2
    }

    open spec fn decode(bytes: Seq<u8>) -> i16 {
        to_signed(be_to_nat(bytes), 2) as i16
    }

    open spec fn encode(v: i16) -> Seq<u8> {
        nat_to_be(from_signed(v as int, 2), 2)
    }

    open spec fn start_spec(&self) -> int {
        self.start as int
    }

    proof fn lemma_codec(v: i16) {
        lemma_pow256_values();
        lemma_signed_roundtrip(v as int, 2);
        lemma_nat_to_be_len(from_signed(v as int, 2), 2);
        lemma_nat_to_be_to_nat(from_signed(v as int, 2), 2);
    }

    proof fn lemma_width() {
    }

    fn width_exec() -> usize {
        2
    }

    fn val(&self, buf: &Vec<u8>) -> (r: i16) {
        proof {
            lemma_pow256_values();
            lemma_be_to_nat_bound(buf@.subrange(self.start as int, self.start + 2));
            lemma_to_signed_range(
                be_to_nat(buf@.subrange(self.start as int, self.start + 2)),
                2,
            );
        }
        let x: u128 = read_be_bytes(buf, self.start, 2);
        if x < 0x8000u128 {
            x as i16
        } else {
            ((x as i32) - 0x1_0000) as i16
        }
    }

    fn set(&mut self, buf: &mut Vec<u8>, v: i16) {
        proof {
            lemma_pow256_values();
            lemma_signed_roundtrip(v as int, 2);
        }
        let u: u128 = if v >= 0 {
            v as u128
        } else {
            ((v as i32) + 0x1_0000) as u128
        };
        write_be_bytes(buf, self.start, 2, u);
    }
}

impl ModMulByteView<i32, LitEnd> for MulByteView<i32, LitEnd> {
    open spec fn width() -> int {
        4
    }

    open spec fn decode(bytes: Seq<u8>) -> i32 {
        to_signed(le_to_nat(bytes), 4) as i32
    }

    open spec fn encode(v: i32) -> Seq<u8> {
        nat_to_le(from_signed(v as int, 4), 4)
    }

    open spec fn start_spec(&self) -> int {
        self.start as int
    }

    proof fn lemma_codec(v: i32) {
        lemma_pow256_values();
        lemma_signed_roundtrip(v as int, 4);
        lemma_nat_to_le_len(from_signed(v as int, 4), 4);
        lemma_nat_to_le_to_nat(from_signed(v as int, 4), 4);
    }

    proof fn lemma_width() {
    }

    fn width_exec() -> usize {
        4
    }

    fn val(&self, buf: &Vec<u8>) -> (r: i32) {
        proof {
            lemma_pow256_values();
            lemma_le_to_nat_bound(buf@.subrange(self.start as int, self.start + 4));
            lemma_to_signed_range(
                le_to_nat(buf@.subrange(self.start as int, self.start + 4)),
                4,
            );
        }
        let x: u128 = read_le_bytes(buf, self.start, 4);
        if x < 0x8000_0000u128 {
            x as i32
        } else {
            ((x as i64) - 0x1_0000_0000) as i32
        }
    }

    fn set(&mut self, buf: &mut Vec<u8>, v: i32) {
        proof {
            lemma_pow256_values();
            lemma_signed_roundtrip(v as int, 4);
        }
        let u: u128 = if v >= 0 {
            v as u128
        } else {
            ((v as i64) + 0x1_0000_0000) as u128
        };
        write_le_bytes(buf, self.start, 4, u);
    }
}

impl ModMulByteView<i32, BigEnd> for MulByteView<i32, BigEnd> {
    open spec fn width() -> int {
        4
    }

    open spec fn decode(bytes: Seq<u8>) -> i32 {
        to_signed(be_to_nat(bytes), 4) as i32
    }

    open spec fn encode(v: i32) -> Seq<u8> {
        nat_to_be(from_signed(v as int, 4), 4)
    }

    open spec fn start_spec(&self) -> int {
        self.start as int
    }

    proof fn lemma_codec(v: i32) {
        lemma_pow256_values();
        lemma_signed_roundtrip(v as int, 4);
        lemma_nat_to_be_len(from_signed(v as int, 4), 4);
        lemma_nat_to_be_to_nat(from_signed(v as int, 4), 4);
    }

    proof fn lemma_width() {
    }

    fn width_exec() -> usize {
        4
    }

    fn val(&self, buf: &Vec<u8>) -> (r: i32) {
        proof {
            lemma_pow256_values();
            lemma_be_to_nat_bound(buf@.subrange(self.start as int, self.start + 4));
            lemma_to_signed_range(
                be_to_nat(buf@.subrange(self.start as int, self.start + 4)),
                4,
            );
        }
        let x: u128 = read_be_bytes(buf, self.start, 4);
        if x < 0x8000_0000u128 {
            x as i32
        } else {
            ((x as i64) - 0x1_0000_0000) as i32
        }
    }

    fn set(&mut self, buf: &mut Vec<u8>, v: i32) {
        proof {
            lemma_pow256_values();
            lemma_signed_roundtrip(v as int, 4);
        }
        let u: u128 = if v >= 0 {
            v as u128
        } else {
            ((v as i64) + 0x1_0000_0000) as u128
        };
        write_be_bytes(buf, self.start, 4, u);
    }
}

impl ModMulByteView<i64, LitEnd> for MulByteView<i64, LitEnd> {
    open spec fn width() -> int {
        8
    }

    open spec fn decode(bytes: Seq<u8>) -> i64 {
        to_signed(le_to_nat(bytes), 8) as i64
    }

    open spec fn encode(v: i64) -> Seq<u8> {
        nat_to_le(from_signed(v as int, 8), 8)
    }

    open spec fn start_spec(&self) -> int {
        self.start as int
    }

    proof fn lemma_codec(v: i64) {
        lemma_pow256_values();
        lemma_signed_roundtrip(v as int, 8);
        lemma_nat_to_le_len(from_signed(v as int, 8), 8);
        lemma_nat_to_le_to_nat(from_signed(v as int, 8), 8);
    }

    proof fn lemma_width() {
    }

    fn width_exec() -> usize {
        8
    }

    fn val(&self, buf: &Vec<u8>) -> (r: i64) {
        proof {
            lemma_pow256_values();
            lemma_le_to_nat_bound(buf@.subrange(self.start as int, self.start + 8));
            lemma_to_signed_range(
                le_to_nat(buf@.subrange(self.start as int, self.start + 8)),
                8,
            );
        }
        let x: u128 = read_le_bytes(buf, self.start, 8);
        if x < 0x8000_0000_0000_0000u128 {
            x as i64
        } else {
            ((x as i128) - 0x1_0000_0000_0000_0000) as i64
        }
    }

    fn set(&mut self, buf: &mut Vec<u8>, v: i64) {
        proof {
            lemma_pow256_values();
            lemma_signed_roundtrip(v as int, 8);
        }
        let u: u128 = if v >= 0 {
            v as u128
        } else {
            ((v as i128) + 0x1_0000_0000_0000_0000) as u128
        };
        write_le_bytes(buf, self.start, 8, u);
    }
}

impl ModMulByteView<i64, BigEnd> for MulByteView<i64, BigEnd> {
    open spec fn width() -> int {
        8
    }

    open spec fn decode(bytes: Seq<u8>) -> i64 {
        to_signed(be_to_nat(bytes), 8) as i64
    }

    open spec fn encode(v: i64) -> Seq<u8> {
        nat_to_be(from_signed(v as int, 8), 8)
    }

    open spec fn start_spec(&self) -> int {
        self.start as int
    }

    proof fn lemma_codec(v: i64) {
        lemma_pow256_values();
        lemma_signed_roundtrip(v as int, 8);
        lemma_nat_to_be_len(from_signed(v as int, 8), 8);
        lemma_nat_to_be_to_nat(from_signed(v as int, 8), 8);
    }

    proof fn lemma_width() {
    }

    fn width_exec() -> usize {
        8
    }

    fn val(&self, buf: &Vec<u8>) -> (r: i64) {
        proof {
            lemma_pow256_values();
            lemma_be_to_nat_bound(buf@.subrange(self.start as int, self.start + 8));
            lemma_to_signed_range(
                be_to_nat(buf@.subrange(self.start as int, self.start + 8)),
                8,
            );
        }
        let x: u128 = read_be_bytes(buf, self.start, 8);
        if x < 0x8000_0000_0000_0000u128 {
            x as i64
        } else {
            ((x as i128) - 0x1_0000_0000_0000_0000) as i64
        }
    }

    fn set(&mut self, buf: &mut Vec<u8>, v: i64) {
        proof {
            lemma_pow256_values();
            lemma_signed_roundtrip(v as int, 8);
        }
        let u: u128 = if v >= 0 {
            v as u128
        } else {
            ((v as i128) + 0x1_0000_0000_0000_0000) as u128
        };
        write_be_bytes(buf, self.start, 8, u);
    }
}

impl ModMulByteView<i128, LitEnd> for MulByteView<i128, LitEnd> {
    open spec fn width() -> int {
        16
    }

    open spec fn decode(bytes: Seq<u8>) -> i128 {
        to_signed(le_to_nat(bytes), 16) as i128
    }

    open spec fn encode(v: i128) -> Seq<u8> {
        nat_to_le(from_signed(v as int, 16), 16)
    }

    open spec fn start_spec(&self) -> int {
        self.start as int
    }

    proof fn lemma_codec(v: i128) {
        lemma_pow256_values();
        lemma_signed_roundtrip(v as int, 16);
        lemma_nat_to_le_len(from_signed(v as int, 16), 16);
        lemma_nat_to_le_to_nat(from_signed(v as int, 16), 16);
    }

    proof fn lemma_width() {
    }

    fn width_exec() -> usize {
        16
    }

    fn val(&self, buf: &Vec<u8>) -> (r: i128) {
        proof {
            lemma_pow256_values();
            lemma_le_to_nat_bound(buf@.subrange(self.start as int, self.start + 16));
            lemma_to_signed_range(
                le_to_nat(buf@.subrange(self.start as int, self.start + 16)),
                16,
            );
        }
        let x: u128 = read_le_bytes(buf, self.start, 16);
        if x < 0x8000_0000_0000_0000_0000_0000_0000_0000u128 {
            x as i128
        } else {
            ((x - 0x8000_0000_0000_0000_0000_0000_0000_0000u128) as i128) + i128::MIN
        }
    }

    fn set(&mut self, buf: &mut Vec<u8>, v: i128) {
        proof {
            lemma_pow256_values();
            lemma_signed_roundtrip(v as int, 16);
        }
        let u: u128 = if v >= 0 {
            v as u128
        } else {
            ((v - i128::MIN) as u128) + 0x8000_0000_0000_0000_0000_0000_0000_0000u128
        };
        write_le_bytes(buf, self.start, 16, u);
    }
}

impl ModMulByteView<i128, BigEnd> for MulByteView<i128, BigEnd> {
    open spec fn width() -> int {
        16
    }

    open spec fn decode(bytes: Seq<u8>) -> i128 {
        to_signed(be_to_nat(bytes), 16) as i128
    }

    open spec fn encode(v: i128) -> Seq<u8> {
        nat_to_be(from_signed(v as int, 16), 16)
    }

    open spec fn start_spec(&self) -> int {
        self.start as int
    }

    proof fn lemma_codec(v: i128) {
        lemma_pow256_values();
        lemma_signed_roundtrip(v as int, 16);
        lemma_nat_to_be_len(from_signed(v as int, 16), 16);
        lemma_nat_to_be_to_nat(from_signed(v as int, 16), 16);
    }

    proof fn lemma_width() {
    }

    fn width_exec() -> usize {
        16
    }

    fn val(&self, buf: &Vec<u8>) -> (r: i128) {
        proof {
            lemma_pow256_values();
            lemma_be_to_nat_bound(buf@.subrange(self.start as int, self.start + 16));
            lemma_to_signed_range(
                be_to_nat(buf@.subrange(self.start as int, self.start + 16)),
                16,
            );
        }
        let x: u128 = read_be_bytes(buf, self.start, 16);
        if x < 0x8000_0000_0000_0000_0000_0000_0000_0000u128 {
            x as i128
        } else {
            ((x - 0x8000_0000_0000_0000_0000_0000_0000_0000u128) as i128) + i128::MIN
        }
    }

    fn set(&mut self, buf: &mut Vec<u8>, v: i128) {
        proof {
            lemma_pow256_values();
            lemma_signed_roundtrip(v as int, 16);
        }
        let u: u128 = if v >= 0 {
            v as u128
        } else {
            ((v - i128::MIN) as u128) + 0x8000_0000_0000_0000_0000_0000_0000_0000u128
        };
        write_be_bytes(buf, self.start, 16, u);
    }
}

/// A mutable array view for type [u8; L]: a fixed-length window that more
/// than one handle may read and write. The window is an offset range into
/// the owning buffer, so every handle returned by [`ArrayView::rc_clone`]
/// names the same bytes.
pub struct ArrayView<T> {
    pub start: usize,
    pub marker: PhantomData<T>,
}

impl<const L: usize> ArrayView<[u8; L]> {
    /// Claims the first `L` bytes of `w` and returns the view over them
    /// together with the remainder of the span.
    pub fn mut_view(w: Span) -> (r: (ArrayView<[u8; L]>, Span))
        requires
            w.wf(),
            w.len_spec() >= L,
        ensures
            r.0.start == w.start,
            r.1.start == w.start + L,
            r.1.end == w.end,
            r.1.wf(),
            r.1.len_spec() == w.len_spec() - L,
    {
        (
            ArrayView { start: w.start, marker: PhantomData },
            Span { start: w.start + L, end: w.end },
        )
    }

    /// Returns a reference to the window's bytes.
    pub fn as_ref<'a>(&self, buf: &'a Vec<u8>) -> (r: &'a [u8])
        requires
            self.start + L <= buf@.len(),
        ensures
            r@ == buf@.subrange(self.start as int, self.start + L),
    {
        proof {
            assert(self.start + L <= buf.len());
        }
        vstd::slice::slice_subrange(buf.as_slice(), self.start, self.start + L)
    }

    /// Writes byte `i` of the window: the bounds-checked arena accessor that
    /// stands in for handing out a mutable reference into shared bytes.
    pub fn as_mut_ref(&self, buf: &mut Vec<u8>, i: usize, v: u8)
        requires
            self.start + L <= old(buf)@.len(),
            i < L,
        ensures
            final(buf)@.len() == old(buf)@.len(),
            final(buf)@[self.start + i] == v,
            forall|k: int|
                0 <= k < final(buf)@.len() && k != self.start + i ==> final(buf)@[k]
                    == old(buf)@[k],
    {
        proof {
            assert(self.start + L <= buf.len());
        }
        buf.set(self.start + i, v);
    }

    /// Returns another handle over the same window.
    pub fn rc_clone(&self) -> (r: ArrayView<[u8; L]>)
        ensures
            r.start == self.start,
    {
        ArrayView { start: self.start, marker: PhantomData }
    }

    /// Copies the first `L` bytes of `src` into the window byte for byte,
    /// touching no byte outside it.
    pub fn set(&mut self, buf: &mut Vec<u8>, src: &[u8])
        requires
            old(self).start + L <= old(buf)@.len(),
            src@.len() >= L,
        ensures
            final(self).start == old(self).start,
            final(buf)@.len() == old(buf)@.len(),
            final(buf)@.subrange(old(self).start as int, old(self).start + L) == src@.take(
                L as int,
            ),
            forall|k: int|
                0 <= k < final(buf)@.len() && !(old(self).start <= k < old(self).start + L)
                    ==> final(buf)@[k] == old(buf)@[k],
    {
        let mut i: usize = 0;
        while i < L
            invariant
                0 <= i <= L,
                self.start + L <= buf@.len(),
                buf@.len() == old(buf)@.len(),
                self == old(self),
                src@.len() >= L,
                forall|k: int| 0 <= k < i ==> #[trigger] buf@[self.start + k] == src@[k],
                forall|k: int|
                    0 <= k < buf@.len() && !(self.start <= k < self.start + i) ==> buf@[k]
                        == old(buf)@[k],
            decreases L - i,
        {
            proof {
                assert(self.start + L <= buf.len());
                assert(i < src.len());
            }
            buf.set(self.start + i, src[i]);
            i = i + 1;
        }
        proof {
            let win = buf@.subrange(self.start as int, self.start + L);
            assert forall|k: int| 0 <= k < L implies win[k] == src@.take(L as int)[k] by {
                assert(win[k] == buf@[self.start + k]);
            }
            assert(win =~= src@.take(L as int));
        }
    }
}

impl<T: WrappingOps, E> MulByteView<T, E> where MulByteView<T, E>: ModMulByteView<T, E> {
    /// Adds `rhs` to the stored value with wrapping overflow semantics:
    /// stores exactly the bytes that `set(val() + rhs)` would store.
    pub fn add_assign(&mut self, buf: &mut Vec<u8>, rhs: T)
        requires
            0 <= old(self).start_spec(),
            old(self).start_spec() + Self::width() <= old(buf)@.len(),
        ensures
            final(self).start_spec() == old(self).start_spec(),
            final(buf)@.len() == old(buf)@.len(),
            final(buf)@.subrange(old(self).start_spec(), old(self).start_spec() + Self::width())
                == Self::encode(T::wrap_add(Self::decode(old(buf)@.subrange(old(self).start_spec(), old(self).start_spec() + Self::width())), rhs)),
            forall|k: int|
                0 <= k < final(buf)@.len()
                    && !(old(self).start_spec() <= k < old(self).start_spec() + Self::width())
                    ==> final(buf)@[k] == old(buf)@[k],
    {
        let cur: T = self.val(buf);
        self.set(buf, T::wrap_add_exec(cur, rhs));
    }

    /// Subtracts `rhs` from the stored value with wrapping semantics:
    /// stores exactly the bytes that `set(val() - rhs)` would store.
    pub fn sub_assign(&mut self, buf: &mut Vec<u8>, rhs: T)
        requires
            0 <= old(self).start_spec(),
            old(self).start_spec() + Self::width() <= old(buf)@.len(),
        ensures
            final(self).start_spec() == old(self).start_spec(),
            final(buf)@.len() == old(buf)@.len(),
            final(buf)@.subrange(old(self).start_spec(), old(self).start_spec() + Self::width())
                == Self::encode(T::wrap_sub(Self::decode(old(buf)@.subrange(old(self).start_spec(), old(self).start_spec() + Self::width())), rhs)),
            forall|k: int|
                0 <= k < final(buf)@.len()
                    && !(old(self).start_spec() <= k < old(self).start_spec() + Self::width())
                    ==> final(buf)@[k] == old(buf)@[k],
    {
        let cur: T = self.val(buf);
        self.set(buf, T::wrap_sub_exec(cur, rhs));
    }

    /// Multiplies the stored value by `rhs` with wrapping semantics:
    /// stores exactly the bytes that `set(val() * rhs)` would store.
    pub fn mul_assign(&mut self, buf: &mut Vec<u8>, rhs: T)
        requires
            0 <= old(self).start_spec(),
            old(self).start_spec() + Self::width() <= old(buf)@.len(),
        ensures
            final(self).start_spec() == old(self).start_spec(),
            final(buf)@.len() == old(buf)@.len(),
            final(buf)@.subrange(old(self).start_spec(), old(self).start_spec() + Self::width())
                == Self::encode(T::wrap_mul(Self::decode(old(buf)@.subrange(old(self).start_spec(), old(self).start_spec() + Self::width())), rhs)),
            forall|k: int|
                0 <= k < final(buf)@.len()
                    && !(old(self).start_spec() <= k < old(self).start_spec() + Self::width())
                    ==> final(buf)@[k] == old(buf)@[k],
    {
        let cur: T = self.val(buf);
        self.set(buf, T::wrap_mul_exec(cur, rhs));
    }

}

impl<T: DivOps, E> MulByteView<T, E> where MulByteView<T, E>: ModMulByteView<T, E> {
    /// Divides the stored value by `rhs`: stores exactly the bytes that
    /// `set(val() / rhs)` would store. Division by zero is excluded, as the
    /// underlying primitive's division panics on it.
    pub fn div_assign(&mut self, buf: &mut Vec<u8>, rhs: T)
        requires
            0 <= old(self).start_spec(),
            old(self).start_spec() + Self::width() <= old(buf)@.len(),
            T::div_ok(Self::decode(old(buf)@.subrange(old(self).start_spec(), old(self).start_spec() + Self::width())), rhs),
        ensures
            final(self).start_spec() == old(self).start_spec(),
            final(buf)@.len() == old(buf)@.len(),
            final(buf)@.subrange(old(self).start_spec(), old(self).start_spec() + Self::width())
                == Self::encode(T::divide(Self::decode(old(buf)@.subrange(old(self).start_spec(), old(self).start_spec() + Self::width())), rhs)),
            forall|k: int|
                0 <= k < final(buf)@.len()
                    && !(old(self).start_spec() <= k < old(self).start_spec() + Self::width())
                    ==> final(buf)@[k] == old(buf)@[k],
    {
        let cur: T = self.val(buf);
        self.set(buf, T::divide_exec(cur, rhs));
    }
}

/// Law: after `set(v)` on a multi-byte view, `val()` returns `v` again, and
/// the stored window is exactly `width` bytes of the view's encoding.
pub proof fn lemma_mul_view_set_val_roundtrip<T, E, V: ModMulByteView<T, E>>(v: T)
    ensures
        V::decode(V::encode(v)) == v,
        V::encode(v).len() == V::width(),
{
    V::lemma_codec(v);
}

/// Law: after `set(v)` on a single-byte view, `val()` returns `v` again,
/// and the stored window is exactly one byte.
pub proof fn lemma_byte_view_set_val_roundtrip<T, V: ModByteView<T>>(v: T)
    ensures
        V::decode(V::encode(v)) == v,
        V::encode(v).len() == 1,
{
    V::lemma_codec(v);
}

/// Law: over fixed raw bytes, the little-endian view of `u16` decodes to
/// the value that the big-endian view decodes from the reversed bytes.
pub proof fn lemma_endian_duality_u16(b: Seq<u8>)
    ensures
        <MulByteView<u16, LitEnd> as ModMulByteView<u16, LitEnd>>::decode(b)
            == <MulByteView<u16, BigEnd> as ModMulByteView<u16, BigEnd>>::decode(b.reverse()),
{
    lemma_reverse_involutive(b);
}

/// Law: over fixed raw bytes, the little-endian view of `u32` decodes to
/// the value that the big-endian view decodes from the reversed bytes.
pub proof fn lemma_endian_duality_u32(b: Seq<u8>)
    ensures
        <MulByteView<u32, LitEnd> as ModMulByteView<u32, LitEnd>>::decode(b)
            == <MulByteView<u32, BigEnd> as ModMulByteView<u32, BigEnd>>::decode(b.reverse()),
{
    lemma_reverse_involutive(b);
}

/// Law: over fixed raw bytes, the little-endian view of `u64` decodes to
/// the value that the big-endian view decodes from the reversed bytes.
pub proof fn lemma_endian_duality_u64(b: Seq<u8>)
    ensures
        <MulByteView<u64, LitEnd> as ModMulByteView<u64, LitEnd>>::decode(b)
            == <MulByteView<u64, BigEnd> as ModMulByteView<u64, BigEnd>>::decode(b.reverse()),
{
    lemma_reverse_involutive(b);
}

/// Law: over fixed raw bytes, the little-endian view of `u128` decodes to
/// the value that the big-endian view decodes from the reversed bytes.
pub proof fn lemma_endian_duality_u128(b: Seq<u8>)
    ensures
        <MulByteView<u128, LitEnd> as ModMulByteView<u128, LitEnd>>::decode(b)
            == <MulByteView<u128, BigEnd> as ModMulByteView<u128, BigEnd>>::decode(b.reverse()),
{
    lemma_reverse_involutive(b);
}

/// Law: over fixed raw bytes, the little-endian view of `i16` decodes to
/// the value that the big-endian view decodes from the reversed bytes.
pub proof fn lemma_endian_duality_i16(b: Seq<u8>)
    ensures
        <MulByteView<i16, LitEnd> as ModMulByteView<i16, LitEnd>>::decode(b)
            == <MulByteView<i16, BigEnd> as ModMulByteView<i16, BigEnd>>::decode(b.reverse()),
{
    lemma_reverse_involutive(b);
}

/// Law: over fixed raw bytes, the little-endian view of `i32` decodes to
/// the value that the big-endian view decodes from the reversed bytes.
pub proof fn lemma_endian_duality_i32(b: Seq<u8>)
    ensures
        <MulByteView<i32, LitEnd> as ModMulByteView<i32, LitEnd>>::decode(b)
            == <MulByteView<i32, BigEnd> as ModMulByteView<i32, BigEnd>>::decode(b.reverse()),
{
    lemma_reverse_involutive(b);
}

/// Law: over fixed raw bytes, the little-endian view of `i64` decodes to
/// the value that the big-endian view decodes from the reversed bytes.
pub proof fn lemma_endian_duality_i64(b: Seq<u8>)
    ensures
        <MulByteView<i64, LitEnd> as ModMulByteView<i64, LitEnd>>::decode(b)
            == <MulByteView<i64, BigEnd> as ModMulByteView<i64, BigEnd>>::decode(b.reverse()),
{
    lemma_reverse_involutive(b);
}

/// Law: over fixed raw bytes, the little-endian view of `i128` decodes to
/// the value that the big-endian view decodes from the reversed bytes.
pub proof fn lemma_endian_duality_i128(b: Seq<u8>)
    ensures
        <MulByteView<i128, LitEnd> as ModMulByteView<i128, LitEnd>>::decode(b)
            == <MulByteView<i128, BigEnd> as ModMulByteView<i128, BigEnd>>::decode(b.reverse()),
{
    lemma_reverse_involutive(b);
}

impl<T: WrappingOps> ByteView<T> where ByteView<T>: ModByteView<T> {
    /// Adds `rhs` to the stored value with wrapping overflow semantics:
    /// stores exactly the byte that `set(val() + rhs)` would store.
    pub fn add_assign(&mut self, buf: &mut Vec<u8>, rhs: T)
        requires
            0 <= old(self).start_spec(),
            old(self).start_spec() + 1 <= old(buf)@.len(),
        ensures
            final(self).start_spec() == old(self).start_spec(),
            final(buf)@.len() == old(buf)@.len(),
            final(buf)@.subrange(old(self).start_spec(), old(self).start_spec() + 1)
                == Self::encode(T::wrap_add(Self::decode(old(buf)@.subrange(old(self).start_spec(), old(self).start_spec() + 1)), rhs)),
            forall|k: int|
                0 <= k < final(buf)@.len() && k != old(self).start_spec()
                    ==> final(buf)@[k] == old(buf)@[k],
    {
        let cur: T = self.val(buf);
        self.set(buf, T::wrap_add_exec(cur, rhs));
    }

    /// Subtracts `rhs` from the stored value with wrapping semantics:
    /// stores exactly the byte that `set(val() - rhs)` would store.
    pub fn sub_assign(&mut self, buf: &mut Vec<u8>, rhs: T)
        requires
            0 <= old(self).start_spec(),
            old(self).start_spec() + 1 <= old(buf)@.len(),
        ensures
            final(self).start_spec() == old(self).start_spec(),
            final(buf)@.len() == old(buf)@.len(),
            final(buf)@.subrange(old(self).start_spec(), old(self).start_spec() + 1)
                == Self::encode(T::wrap_sub(Self::decode(old(buf)@.subrange(old(self).start_spec(), old(self).start_spec() + 1)), rhs)),
            forall|k: int|
                0 <= k < final(buf)@.len() && k != old(self).start_spec()
                    ==> final(buf)@[k] == old(buf)@[k],
    {
        let cur: T = self.val(buf);
        self.set(buf, T::wrap_sub_exec(cur, rhs));
    }

    /// Multiplies the stored value by `rhs` with wrapping semantics:
    /// stores exactly the byte that `set(val() * rhs)` would store.
    pub fn mul_assign(&mut self, buf: &mut Vec<u8>, rhs: T)
        requires
            0 <= old(self).start_spec(),
            old(self).start_spec() + 1 <= old(buf)@.len(),
        ensures
            final(self).start_spec() == old(self).start_spec(),
            final(buf)@.len() == old(buf)@.len(),
            final(buf)@.subrange(old(self).start_spec(), old(self).start_spec() + 1)
                == Self::encode(T::wrap_mul(Self::decode(old(buf)@.subrange(old(self).start_spec(), old(self).start_spec() + 1)), rhs)),
            forall|k: int|
                0 <= k < final(buf)@.len() && k != old(self).start_spec()
                    ==> final(buf)@[k] == old(buf)@[k],
    {
        let cur: T = self.val(buf);
        self.set(buf, T::wrap_mul_exec(cur, rhs));
    }

}

impl<T: DivOps> ByteView<T> where ByteView<T>: ModByteView<T> {
    /// Divides the stored value by `rhs`: stores exactly the byte that
    /// `set(val() / rhs)` would store. Division by zero is excluded, as the
    /// underlying primitive's division panics on it.
    pub fn div_assign(&mut self, buf: &mut Vec<u8>, rhs: T)
        requires
            0 <= old(self).start_spec(),
            old(self).start_spec() + 1 <= old(buf)@.len(),
            T::div_ok(Self::decode(old(buf)@.subrange(old(self).start_spec(), old(self).start_spec() + 1)), rhs),
        ensures
            final(self).start_spec() == old(self).start_spec(),
            final(buf)@.len() == old(buf)@.len(),
            final(buf)@.subrange(old(self).start_spec(), old(self).start_spec() + 1)
                == Self::encode(T::divide(Self::decode(old(buf)@.subrange(old(self).start_spec(), old(self).start_spec() + 1)), rhs)),
            forall|k: int|
                0 <= k < final(buf)@.len() && k != old(self).start_spec()
                    ==> final(buf)@[k] == old(buf)@[k],
    {
        let cur: T = self.val(buf);
        self.set(buf, T::divide_exec(cur, rhs));
    }
}

/// Law: a compound assignment produces the same stored bytes as `set` of
/// the operated value. Any two post-buffers that `add_assign(rhs)` and
/// `set(val() + rhs)` allow over one starting buffer are equal, byte for
/// byte: both contracts pin every byte of the result.
pub proof fn lemma_compound_assign_equals_set<T: WrappingOps, E, V: ModMulByteView<T, E>>(
    pre: Seq<u8>,
    post_add: Seq<u8>,
    post_set: Seq<u8>,
    s: int,
    rhs: T,
)
    requires
        0 <= s,
        s + V::width() <= pre.len(),
        post_add.len() == pre.len(),
        post_set.len() == pre.len(),
        post_add.subrange(s, s + V::width()) == V::encode(
            T::wrap_add(V::decode(pre.subrange(s, s + V::width())), rhs),
        ),
        post_set.subrange(s, s + V::width()) == V::encode(
            T::wrap_add(V::decode(pre.subrange(s, s + V::width())), rhs),
        ),
        forall|k: int| 0 <= k < post_add.len() && !(s <= k < s + V::width()) ==> post_add[k] == pre[k],
        forall|k: int| 0 <= k < post_set.len() && !(s <= k < s + V::width()) ==> post_set[k] == pre[k],
    ensures
        post_add == post_set,
{
    let w = V::width();
    V::lemma_codec(T::wrap_add(V::decode(pre.subrange(s, s + w)), rhs));
    assert forall|k: int| 0 <= k < post_add.len() implies post_add[k] == post_set[k] by {
        if s <= k < s + w {
            assert(post_add[k] == post_add.subrange(s, s + w)[k - s]);
            assert(post_set[k] == post_set.subrange(s, s + w)[k - s]);
        }
    }
    assert(post_add =~= post_set);
}

} // verus!
