//! The offset-tracked value engine: a seekable byte stream, and values
//! decoded from it that remember the exact offset they were read from, so a
//! later mutation can be written back in place without disturbing the rest
//! of the stream. Every scalar here is little-endian by convention; no
//! big-endian variant exists at this layer because the container format
//! modeled is fixed little-endian.

use crate::codec::le_to_nat;
use crate::codec::lemma_le_to_nat_bound;
use crate::codec::lemma_nat_to_le_len;
use crate::codec::lemma_nat_to_le_to_nat;
use crate::codec::lemma_pow256_values;
use crate::codec::lemma_signed_roundtrip;
use crate::codec::lemma_to_signed_range;
use crate::codec::from_signed;
use crate::codec::nat_to_le;
use crate::codec::read_le_bytes;
use crate::codec::to_signed;
use crate::codec::write_le_bytes;
use crate::codec::WrappingOps;
use crate::err::Error;
use vstd::prelude::*;

verus! {

/// An owned, seekable byte source and sink: a byte vector with a cursor.
/// Reads and writes stay within the existing bytes; neither grows the
/// stream.
#[derive(Debug)]
pub struct ByteStream {
    data: Vec<u8>,
    pos: usize,
}

impl ByteStream {
    /// The stream's bytes.
    pub closed spec fn bytes(&self) -> Seq<u8> {
        self.data@
    }

    /// The cursor position.
    pub closed spec fn pos(&self) -> int {
        self.pos as int
    }

    /// Wraps `data` as a stream with the cursor at the start.
    pub fn new(data: Vec<u8>) -> (r: ByteStream)
        ensures
            r.bytes() == data@,
            r.pos() == 0,
    {
        ByteStream { data, pos: 0 }
    }

    /// Moves the cursor to `to`; fails, leaving the stream unchanged, when
    /// `to` lies past the end.
    pub fn seek(&mut self, to: usize) -> (r: Result<(), Error>)
        ensures
            final(self).bytes() == old(self).bytes(),
            r is Ok <==> to <= old(self).bytes().len(),
            r is Ok ==> final(self).pos() == to,
            r is Err ==> final(self).pos() == old(self).pos(),
            r is Err ==> r->Err_0 == (Error::SeekFailure { offset: to }),
    {
        if to <= self.data.len() {
            self.pos = to;
            Ok(())
        } else {
            Err(Error::SeekFailure { offset: to })
        }
    }

    /// The current cursor position.
    pub fn position(&self) -> (r: usize)
        ensures
            r == self.pos(),
    {
        self.pos
    }

    /// The stream's length in bytes.
    pub fn len(&self) -> (r: usize)
        ensures
            r == self.bytes().len(),
    {
        self.data.len()
    }

    /// A reference to the stream's bytes.
    pub fn get_ref(&self) -> (r: &Vec<u8>)
        ensures
            r@ == self.bytes(),
    {
        &self.data
    }

    /// Unwraps the stream, returning its bytes.
    pub fn into_inner(self) -> (r: Vec<u8>)
        ensures
            r@ == self.bytes(),
    {
        self.data
    }
}

/// The per-primitive-type rules by which the stream engine decodes and
/// encodes a scalar: its width, its little-endian byte form, and verified
/// buffer accessors.
pub trait ScalarCodec: WrappingOps {
    /// The scalar's width in bytes: `sizeof(Self)`.
    spec fn width() -> int;

    /// The value `width` little-endian bytes hold.
    spec fn decode(bytes: Seq<u8>) -> Self;

    /// The `width` little-endian bytes holding `v`.
    spec fn encode(v: Self) -> Seq<u8>;

    /// Encoding is `width` bytes wide and decoding inverts it.
    proof fn lemma_codec(v: Self)
        ensures
            Self::encode(v).len() == Self::width(),
            Self::decode(Self::encode(v)) == v,
    ;

    proof fn lemma_width()
        ensures
            1 <= Self::width() <= 8,
    ;

    fn width_exec() -> (n: usize)
        ensures
            n as int == Self::width(),
    ;

    /// Decodes one value from `buf` at `off`.
    fn read_at(buf: &Vec<u8>, off: usize) -> (r: Self)
        requires
            off + Self::width() <= buf@.len(),
        ensures
            r == Self::decode(buf@.subrange(off as int, off + Self::width())),
    ;

    /// Encodes `v` into `buf` at `off`, touching no byte outside the
    /// value's window.
    fn write_at(buf: &mut Vec<u8>, off: usize, v: Self)
        requires
            off + Self::width() <= old(buf)@.len(),
        ensures
            final(buf)@.len() == old(buf)@.len(),
            final(buf)@.subrange(off as int, off + Self::width()) == Self::encode(v),
            forall|k: int|
                0 <= k < final(buf)@.len() && !(off <= k < off + Self::width())
                    ==> final(buf)@[k] == old(buf)@[k],
    ;
}

impl ScalarCodec for u8 {
    open spec fn width() -> int {
        1
    }

    open spec fn decode(bytes: Seq<u8>) -> u8 {
        le_to_nat(bytes) as u8
    }

    open spec fn encode(v: u8) -> Seq<u8> {
        nat_to_le(v as nat, 1)
    }

    proof fn lemma_codec(v: u8) {
        lemma_pow256_values();
        lemma_nat_to_le_len(v as nat, 1);
        lemma_nat_to_le_to_nat(v as nat, 1);
    }

    proof fn lemma_width() {
    }

    fn width_exec() -> usize {
        1
    }

    fn read_at(buf: &Vec<u8>, off: usize) -> (r: u8) {
        proof {
            lemma_pow256_values();
            lemma_le_to_nat_bound(buf@.subrange(off as int, off + 1));
        }
        let x: u128 = read_le_bytes(buf, off, 1);
        x as u8
    }

    fn write_at(buf: &mut Vec<u8>, off: usize, v: u8) {
        proof {
            lemma_pow256_values();
        }
        write_le_bytes(buf, off, 1, v as u128);
    }
}

impl ScalarCodec for u16 {
    open spec fn width() -> int {
        2
    }

    open spec fn decode(bytes: Seq<u8>) -> u16 {
        le_to_nat(bytes) as u16
    }

    open spec fn encode(v: u16) -> Seq<u8> {
        nat_to_le(v as nat, 2)
    }

    proof fn lemma_codec(v: u16) {
        lemma_pow256_values();
        lemma_nat_to_le_len(v as nat, 2);
        lemma_nat_to_le_to_nat(v as nat, 2);
    }

    proof fn lemma_width() {
    }

    fn width_exec() -> usize {
        2
    }

    fn read_at(buf: &Vec<u8>, off: usize) -> (r: u16) {
        proof {
            lemma_pow256_values();
            lemma_le_to_nat_bound(buf@.subrange(off as int, off + 2));
        }
        let x: u128 = read_le_bytes(buf, off, 2);
        x as u16
    }

    fn write_at(buf: &mut Vec<u8>, off: usize, v: u16) {
        proof {
            lemma_pow256_values();
        }
        write_le_bytes(buf, off, 2, v as u128);
    }
}

impl ScalarCodec for u32 {
    open spec fn width() -> int {
        4
    }

    open spec fn decode(bytes: Seq<u8>) -> u32 {
        le_to_nat(bytes) as u32
    }

    open spec fn encode(v: u32) -> Seq<u8> {
        nat_to_le(v as nat, 4)
    }

    proof fn lemma_codec(v: u32) {
        lemma_pow256_values();
        lemma_nat_to_le_len(v as nat, 4);
        lemma_nat_to_le_to_nat(v as nat, 4);
    }

    proof fn lemma_width() {
    }

    fn width_exec() -> usize {
        4
    }

    fn read_at(buf: &Vec<u8>, off: usize) -> (r: u32) {
        proof {
            lemma_pow256_values();
            lemma_le_to_nat_bound(buf@.subrange(off as int, off + 4));
        }
        let x: u128 = read_le_bytes(buf, off, 4);
        x as u32
    }

    fn write_at(buf: &mut Vec<u8>, off: usize, v: u32) {
        proof {
            lemma_pow256_values();
        }
        write_le_bytes(buf, off, 4, v as u128);
    }
}

impl ScalarCodec for u64 {
    open spec fn width() -> int {
        8
    }

    open spec fn decode(bytes: Seq<u8>) -> u64 {
        le_to_nat(bytes) as u64
    }

    open spec fn encode(v: u64) -> Seq<u8> {
        nat_to_le(v as nat, 8)
    }

    proof fn lemma_codec(v: u64) {
        lemma_pow256_values();
        lemma_nat_to_le_len(v as nat, 8);
        lemma_nat_to_le_to_nat(v as nat, 8);
    }

    proof fn lemma_width() {
    }

    fn width_exec() -> usize {
        8
    }

    fn read_at(buf: &Vec<u8>, off: usize) -> (r: u64) {
        proof {
            lemma_pow256_values();
            lemma_le_to_nat_bound(buf@.subrange(off as int, off + 8));
        }
        let x: u128 = read_le_bytes(buf, off, 8);
        x as u64
    }

    fn write_at(buf: &mut Vec<u8>, off: usize, v: u64) {
        proof {
            lemma_pow256_values();
        }
        write_le_bytes(buf, off, 8, v as u128);
    }
}

impl ScalarCodec for i8 {
    open spec fn width() -> int {
        1
    }

    open spec fn decode(bytes: Seq<u8>) -> i8 {
        to_signed(le_to_nat(bytes), 1) as i8
    }

    open spec fn encode(v: i8) -> Seq<u8> {
        nat_to_le(from_signed(v as int, 1), 1)
    }

    proof fn lemma_codec(v: i8) {
        lemma_pow256_values();
        lemma_signed_roundtrip(v as int, 1);
        lemma_nat_to_le_len(from_signed(v as int, 1), 1);
        lemma_nat_to_le_to_nat(from_signed(v as int, 1), 1);
    }

    proof fn lemma_width() {
    }

    fn width_exec() -> usize {
        1
    }

    fn read_at(buf: &Vec<u8>, off: usize) -> (r: i8) {
        proof {
            lemma_pow256_values();
            lemma_le_to_nat_bound(buf@.subrange(off as int, off + 1));
            lemma_to_signed_range(le_to_nat(buf@.subrange(off as int, off + 1)), 1);
        }
        let x: u128 = read_le_bytes(buf, off, 1);
        if x < 0x80u128 {
            x as i8
        } else {
            ((x as i16) - 0x100) as i8
        }
    }

    fn write_at(buf: &mut Vec<u8>, off: usize, v: i8) {
        proof {
            lemma_pow256_values();
            lemma_signed_roundtrip(v as int, 1);
        }
        let u: u128 = if v >= 0 {
            v as u128
        } else {
            ((v as i16) + 0x100) as u128
        };
        write_le_bytes(buf, off, 1, u);
    }
}

impl ScalarCodec for i16 {
    open spec fn width() -> int {
        2
    }

    open spec fn decode(bytes: Seq<u8>) -> i16 {
        to_signed(le_to_nat(bytes), 2) as i16
    }

    open spec fn encode(v: i16) -> Seq<u8> {
        nat_to_le(from_signed(v as int, 2), 2)
    }

    proof fn lemma_codec(v: i16) {
        lemma_pow256_values();
        lemma_signed_roundtrip(v as int, 2);
        lemma_nat_to_le_len(from_signed(v as int, 2), 2);
        lemma_nat_to_le_to_nat(from_signed(v as int, 2), 2);
    }

    proof fn lemma_width() {
    }

    fn width_exec() -> usize {
        2
    }

    fn read_at(buf: &Vec<u8>, off: usize) -> (r: i16) {
        proof {
            lemma_pow256_values();
            lemma_le_to_nat_bound(buf@.subrange(off as int, off + 2));
            lemma_to_signed_range(le_to_nat(buf@.subrange(off as int, off + 2)), 2);
        }
        let x: u128 = read_le_bytes(buf, off, 2);
        if x < 0x8000u128 {
            x as i16
        } else {
            ((x as i32) - 0x1_0000) as i16
        }
    }

    fn write_at(buf: &mut Vec<u8>, off: usize, v: i16) {
        proof {
            lemma_pow256_values();
            lemma_signed_roundtrip(v as int, 2);
        }
        let u: u128 = if v >= 0 {
            v as u128
        } else {
            ((v as i32) + 0x1_0000) as u128
        };
        write_le_bytes(buf, off, 2, u);
    }
}

impl ScalarCodec for i32 {
    open spec fn width() -> int {
        4
    }

    open spec fn decode(bytes: Seq<u8>) -> i32 {
        to_signed(le_to_nat(bytes), 4) as i32
    }

    open spec fn encode(v: i32) -> Seq<u8> {
        nat_to_le(from_signed(v as int, 4), 4)
    }

    proof fn lemma_codec(v: i32) {
        lemma_pow256_values();
        lemma_signed_roundtrip(v as int, 4);
        lemma_nat_to_le_len(from_signed(v as int, 4), 4);
        lemma_nat_to_le_to_nat(from_signed(v as int, 4), 4);
    }

    proof fn lemma_width() {
    }

    fn width_exec() -> usize {
        4
    }

    fn read_at(buf: &Vec<u8>, off: usize) -> (r: i32) {
        proof {
            lemma_pow256_values();
            lemma_le_to_nat_bound(buf@.subrange(off as int, off + 4));
            lemma_to_signed_range(le_to_nat(buf@.subrange(off as int, off + 4)), 4);
        }
        let x: u128 = read_le_bytes(buf, off, 4);
        if x < 0x8000_0000u128 {
            x as i32
        } else {
            ((x as i64) - 0x1_0000_0000) as i32
        }
    }

    fn write_at(buf: &mut Vec<u8>, off: usize, v: i32) {
        proof {
            lemma_pow256_values();
            lemma_signed_roundtrip(v as int, 4);
        }
        let u: u128 = if v >= 0 {
            v as u128
        } else {
            ((v as i64) + 0x1_0000_0000) as u128
        };
        write_le_bytes(buf, off, 4, u);
    }
}

impl ScalarCodec for i64 {
    open spec fn width() -> int {
        8
    }

    open spec fn decode(bytes: Seq<u8>) -> i64 {
        to_signed(le_to_nat(bytes), 8) as i64
    }

    open spec fn encode(v: i64) -> Seq<u8> {
        nat_to_le(from_signed(v as int, 8), 8)
    }

    proof fn lemma_codec(v: i64) {
        lemma_pow256_values();
        lemma_signed_roundtrip(v as int, 8);
        lemma_nat_to_le_len(from_signed(v as int, 8), 8);
        lemma_nat_to_le_to_nat(from_signed(v as int, 8), 8);
    }

    proof fn lemma_width() {
    }

    fn width_exec() -> usize {
        8
    }

    fn read_at(buf: &Vec<u8>, off: usize) -> (r: i64) {
        proof {
            lemma_pow256_values();
            lemma_le_to_nat_bound(buf@.subrange(off as int, off + 8));
            lemma_to_signed_range(le_to_nat(buf@.subrange(off as int, off + 8)), 8);
        }
        let x: u128 = read_le_bytes(buf, off, 8);
        if x < 0x8000_0000_0000_0000u128 {
            x as i64
        } else {
            ((x as i128) - 0x1_0000_0000_0000_0000) as i64
        }
    }

    fn write_at(buf: &mut Vec<u8>, off: usize, v: i64) {
        proof {
            lemma_pow256_values();
            lemma_signed_roundtrip(v as int, 8);
        }
        let u: u128 = if v >= 0 {
            v as u128
        } else {
            ((v as i128) + 0x1_0000_0000_0000_0000) as u128
        };
        write_le_bytes(buf, off, 8, u);
    }
}

/// A value decoded once from a seekable stream, together with the absolute
/// stream offset it was read from. The value may be mutated any number of
/// times afterwards; each mutation seeks the stream to the recorded offset
/// and overwrites exactly the value's own bytes.
#[derive(Debug, Clone, Copy, PartialEq, Eq)]
pub struct GenVal<T> {
    /// The decoded value.
    pub val: T,
    /// The absolute stream offset the value was read from.
    pub offset: usize,
}

/// The name composite headers declare their scalar fields with.
pub type SimpleVal<T> = GenVal<T>;

impl<T: ScalarCodec> GenVal<T> {
    /// Records the stream's position, reads exactly `sizeof(T)` bytes, and
    /// leaves the cursor just past them. Fails, leaving the stream
    /// unchanged, when fewer than `sizeof(T)` bytes remain.
    pub fn new(s: &mut ByteStream) -> (r: Result<GenVal<T>, Error>)
        ensures
            final(s).bytes() == old(s).bytes(),
            r is Ok <==> old(s).pos() + T::width() <= old(s).bytes().len(),
            r is Ok ==> final(s).pos() == old(s).pos() + T::width(),
            r is Ok ==> r->Ok_0.offset == old(s).pos(),
            r is Ok ==> r->Ok_0.val == T::decode(
                old(s).bytes().subrange(old(s).pos(), old(s).pos() + T::width()),
            ),
            r is Err ==> final(s).pos() == old(s).pos(),
            r is Err ==> r->Err_0 == (Error::ReadFailure { offset: old(s).pos() as usize }),
    {
        let w: usize = T::width_exec();
        proof {
            T::lemma_width();
        }
        if w <= s.data.len() && s.pos <= s.data.len() - w {
            let off: usize = s.pos;
            let v: T = T::read_at(&s.data, off);
            proof {
                assert(off + w <= s.data.len());
            }
            s.pos = off + w;
            Ok(GenVal { val: v, offset: off })
        } else {
            Err(Error::ReadFailure { offset: s.pos })
        }
    }

    /// Returns a copy of the decoded value without touching the stream.
    pub fn val(&self) -> (r: T)
        ensures
            r == self.val,
    {
        self.val
    }

    /// Returns a reference to the decoded value without touching the stream.
    pub fn get_ref(&self) -> (r: &T)
        ensures
            *r == self.val,
    {
        &self.val
    }

    /// Assigns `v`, seeks the stream to the recorded offset, overwrites
    /// exactly `sizeof(T)` bytes, and leaves the cursor just past them.
    /// Bytes outside the value's own window are untouched. Fails, changing
    /// nothing, when the window lies past the end of the stream.
    pub fn set(&mut self, s: &mut ByteStream, v: T) -> (r: Result<(), Error>)
        ensures
            final(self).offset == old(self).offset,
            final(s).bytes().len() == old(s).bytes().len(),
            r is Ok <==> old(self).offset + T::width() <= old(s).bytes().len(),
            r is Ok ==> final(self).val == v,
            r is Ok ==> final(s).pos() == old(self).offset + T::width(),
            r is Ok ==> final(s).bytes().subrange(
                old(self).offset as int,
                old(self).offset + T::width(),
            ) == T::encode(v),
            r is Ok ==> forall|k: int|
                0 <= k < final(s).bytes().len()
                    && !(old(self).offset <= k < old(self).offset + T::width())
                    ==> final(s).bytes()[k] == old(s).bytes()[k],
            r is Err ==> final(self).val == old(self).val,
            r is Err ==> final(s).bytes() == old(s).bytes() && final(s).pos() == old(s).pos(),
            r is Err ==> r->Err_0 == (Error::WriteFailure { offset: old(self).offset }),
    {
        let w: usize = T::width_exec();
        proof {
            T::lemma_width();
        }
        if w <= s.data.len() && self.offset <= s.data.len() - w {
            self.val = v;
            T::write_at(&mut s.data, self.offset, v);
            proof {
                assert(self.offset + w <= s.data.len());
            }
            s.pos = self.offset + w;
            Ok(())
        } else {
            Err(Error::WriteFailure { offset: self.offset })
        }
    }

    /// `val += v` with wrapping semantics, then the same seek-and-write as
    /// [`GenVal::set`]: the stream ends up exactly as `set(val() + v)`
    /// would leave it. Defined only for integer scalar types.
    pub fn add(&mut self, s: &mut ByteStream, v: T) -> (r: Result<(), Error>)
        ensures
            final(self).offset == old(self).offset,
            final(s).bytes().len() == old(s).bytes().len(),
            r is Ok <==> old(self).offset + T::width() <= old(s).bytes().len(),
            r is Ok ==> final(self).val == T::wrap_add(old(self).val, v),
            r is Ok ==> final(s).pos() == old(self).offset + T::width(),
            r is Ok ==> final(s).bytes().subrange(
                old(self).offset as int,
                old(self).offset + T::width(),
            ) == T::encode(T::wrap_add(old(self).val, v)),
            r is Ok ==> forall|k: int|
                0 <= k < final(s).bytes().len()
                    && !(old(self).offset <= k < old(self).offset + T::width())
                    ==> final(s).bytes()[k] == old(s).bytes()[k],
            r is Err ==> final(self).val == old(self).val,
            r is Err ==> final(s).bytes() == old(s).bytes() && final(s).pos() == old(s).pos(),
            r is Err ==> r->Err_0 == (Error::WriteFailure { offset: old(self).offset }),
    {
        let sum: T = T::wrap_add_exec(self.val, v);
        self.set(s, sum)
    }
}

/// A fixed-length byte array decoded from a stream with no byte-order
/// interpretation, together with the offset it was read from.
#[derive(Debug, Clone, PartialEq, Eq)]
pub struct ArrayVal<const L: usize> {
    bytes: Vec<u8>,
    offset: usize,
}

impl<const L: usize> ArrayVal<L> {
    /// The decoded bytes.
    pub closed spec fn bytes_spec(&self) -> Seq<u8> {
        self.bytes@
    }

    /// The absolute stream offset the bytes were read from.
    pub closed spec fn offset_spec(&self) -> int {
        self.offset as int
    }

    /// The decoded bytes are exactly `L` long. Construction establishes
    /// this and every method preserves it.
    pub open spec fn wf(&self) -> bool {
        self.bytes_spec().len() == L
    }

    /// Records the stream's position, reads exactly `L` bytes, and leaves
    /// the cursor just past them. Fails, leaving the stream unchanged, when
    /// fewer than `L` bytes remain.
    pub fn new(s: &mut ByteStream) -> (r: Result<ArrayVal<L>, Error>)
        ensures
            final(s).bytes() == old(s).bytes(),
            r is Ok <==> old(s).pos() + L <= old(s).bytes().len(),
            r is Ok ==> final(s).pos() == old(s).pos() + L,
            r is Ok ==> r->Ok_0.wf(),
            r is Ok ==> r->Ok_0.offset_spec() == old(s).pos(),
            r is Ok ==> r->Ok_0.bytes_spec() == old(s).bytes().subrange(
                old(s).pos(),
                old(s).pos() + L,
            ),
            r is Err ==> final(s).pos() == old(s).pos(),
            r is Err ==> r->Err_0 == (Error::ReadFailure { offset: old(s).pos() as usize }),
    {
        if L <= s.data.len() && s.pos <= s.data.len() - L {
            let off: usize = s.pos;
            proof {
                assert(off + L <= s.data.len());
            }
            let win: &[u8] = vstd::slice::slice_subrange(s.data.as_slice(), off, off + L);
            let bytes: Vec<u8> = vstd::slice::slice_to_vec(win);
            s.pos = off + L;
            Ok(ArrayVal { bytes, offset: off })
        } else {
            Err(Error::ReadFailure { offset: s.pos })
        }
    }

    /// Returns a reference to the decoded bytes without touching the stream.
    pub fn get_ref(&self) -> (r: &Vec<u8>)
        ensures
            r@ == self.bytes_spec(),
    {
        &self.bytes
    }

    /// Assigns the first `L` bytes of `src`, seeks the stream to the
    /// recorded offset, overwrites exactly `L` bytes, and leaves the cursor
    /// just past them. Bytes outside the window are untouched. Fails,
    /// changing nothing, when the window lies past the end of the stream.
    pub fn set(&mut self, s: &mut ByteStream, src: &[u8]) -> (r: Result<(), Error>)
        requires
            src@.len() >= L,
        ensures
            final(self).offset_spec() == old(self).offset_spec(),
            final(s).bytes().len() == old(s).bytes().len(),
            r is Ok <==> old(self).offset_spec() + L <= old(s).bytes().len(),
            r is Ok ==> final(self).wf(),
            r is Ok ==> final(self).bytes_spec() == src@.take(L as int),
            r is Ok ==> final(s).pos() == old(self).offset_spec() + L,
            r is Ok ==> final(s).bytes().subrange(
                old(self).offset_spec(),
                old(self).offset_spec() + L,
            ) == src@.take(L as int),
            r is Ok ==> forall|k: int|
                0 <= k < final(s).bytes().len()
                    && !(old(self).offset_spec() <= k < old(self).offset_spec() + L)
                    ==> final(s).bytes()[k] == old(s).bytes()[k],
            r is Err ==> final(self).bytes_spec() == old(self).bytes_spec(),
            r is Err ==> final(s).bytes() == old(s).bytes() && final(s).pos() == old(s).pos(),
            r is Err ==> r->Err_0 == (Error::WriteFailure { offset: old(self).offset_spec() as usize }),
    {
        if L <= s.data.len() && self.offset <= s.data.len() - L {
            let head: &[u8] = vstd::slice::slice_subrange(src, 0, L);
            self.bytes = vstd::slice::slice_to_vec(head);
            proof {
                assert(head@ =~= src@.take(L as int));
                assert(self.offset + L <= s.data.len());
            }
            let mut i: usize = 0;
            while i < L
                invariant
                    0 <= i <= L,
                    self.offset + L <= s.data@.len(),
                    s.data@.len() == old(s).bytes().len(),
                    self.bytes@ == src@.take(L as int),
                    src@.len() >= L,
                    self.offset == old(self).offset,
                    forall|k: int|
                        0 <= k < i ==> #[trigger] s.data@[self.offset + k] == src@[k],
                    forall|k: int|
                        0 <= k < s.data@.len() && !(self.offset <= k < self.offset + i)
                            ==> s.data@[k] == old(s).bytes()[k],
                decreases L - i,
            {
                proof {
                    assert(self.offset + L <= s.data.len());
                    assert(i < src.len());
                }
                let b: u8 = src[i];
                s.data.set(self.offset + i, b);
                i = i + 1;
            }
            proof {
                let win = s.data@.subrange(self.offset as int, self.offset + L);
                assert forall|k: int| 0 <= k < L implies win[k] == src@.take(L as int)[k] by {
                    assert(win[k] == s.data@[self.offset + k]);
                }
                assert(win =~= src@.take(L as int));
            }
            s.pos = self.offset + L;
            Ok(())
        } else {
            Err(Error::WriteFailure { offset: self.offset })
        }
    }

    /// Arithmetic write-back is reachable but not defined for array values:
    /// the call fails and changes neither the value nor the stream.
    pub fn add(&mut self, s: &mut ByteStream, _v: &[u8]) -> (r: Result<(), Error>)
        ensures
            final(self).bytes_spec() == old(self).bytes_spec(),
            final(self).offset_spec() == old(self).offset_spec(),
            final(s).bytes() == old(s).bytes(),
            final(s).pos() == old(s).pos(),
            r is Err,
            r->Err_0 == Error::UnimplementedArrayArithmetic,
    {
        Err(Error::UnimplementedArrayArithmetic)
    }
}

/// Law: after `set(stream, v)` on a stream value, re-reading the stream at
/// the recorded offset yields `v` again, and the window holds exactly
/// `sizeof(T)` bytes of its encoding.
pub proof fn lemma_stream_set_reread_roundtrip<T: ScalarCodec>(v: T)
    ensures
        T::decode(T::encode(v)) == v,
        T::encode(v).len() == T::width(),
{
    T::lemma_codec(v);
}

/// The stream-value `g` was decoded from `data` at offset `off`: its
/// recorded offset is `off` and its value is the decoding of its window.
pub open spec fn gen_val_wf<T: ScalarCodec>(g: GenVal<T>, data: Seq<u8>, off: int) -> bool {
    &&& g.offset == off
    &&& g.val == T::decode(data.subrange(off, off + T::width()))
}

/// The array value `a` was decoded from `data` at offset `off`: its
/// recorded offset is `off` and it holds a copy of its window.
pub open spec fn array_val_wf<const L: usize>(a: ArrayVal<L>, data: Seq<u8>, off: int) -> bool {
    &&& a.offset_spec() == off
    &&& a.bytes_spec() == data.subrange(off, off + L)
}

/// The `u16` that `data` holds little-endian at `off`.
pub open spec fn u16_le_at(data: Seq<u8>, off: int) -> u16 {
    <u16 as ScalarCodec>::decode(data.subrange(off, off + 2))
}

/// The `u32` that `data` holds little-endian at `off`.
pub open spec fn u32_le_at(data: Seq<u8>, off: int) -> u32 {
    <u32 as ScalarCodec>::decode(data.subrange(off, off + 4))
}

/// The `u64` that `data` holds little-endian at `off`.
pub open spec fn u64_le_at(data: Seq<u8>, off: int) -> u64 {
    <u64 as ScalarCodec>::decode(data.subrange(off, off + 8))
}

} // verus!
