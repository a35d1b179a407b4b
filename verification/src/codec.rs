//! Per-primitive-type read/write rules: little- and big-endian byte
//! sequences as mathematical numbers, and verified buffer accessors.

use vstd::prelude::*;

verus! {

/// 256 raised to the power `n`: the number of values representable in `n` bytes.
pub open spec fn pow256(n: nat) -> nat
    decreases n,
{
    if n == 0 {
        1
    } else {
        256 * pow256((n - 1) as nat)
    }
}

/// The number encoded by `bytes` read little-endian: the first byte is the
/// least significant.
pub open spec fn le_to_nat(bytes: Seq<u8>) -> nat
    decreases bytes.len(),
{
    if bytes.len() == 0 {
        0
    } else {
        (bytes[0] + 256 * le_to_nat(bytes.skip(1))) as nat
    }
}

/// The `n`-byte little-endian encoding of `v` (modulo `pow256(n)`).
pub open spec fn nat_to_le(v: nat, n: nat) -> Seq<u8>
    decreases n,
{
    if n == 0 {
        Seq::empty()
    } else {
        seq![(v % 256) as u8] + nat_to_le(v / 256, (n - 1) as nat)
    }
}

/// The number encoded by `bytes` read big-endian: the byte order is the
/// reverse of the little-endian one.
pub open spec fn be_to_nat(bytes: Seq<u8>) -> nat {
    le_to_nat(bytes.reverse())
}

/// The `n`-byte big-endian encoding of `v`.
pub open spec fn nat_to_be(v: nat, n: nat) -> Seq<u8> {
    nat_to_le(v, n).reverse()
}

/// Half of `pow256(n)`: the first value whose top bit is set in `n` bytes.
pub open spec fn half256(n: nat) -> nat
    recommends
        n >= 1,
{
    128 * pow256((n - 1) as nat)
}

/// Two's-complement reading of an `n`-byte unsigned value `v`.
pub open spec fn to_signed(v: nat, n: nat) -> int
    recommends
        n >= 1,
{
    if v < half256(n) {
        v as int
    } else {
        v - pow256(n)
    }
}

/// Two's-complement unsigned representation of `i` in `n` bytes.
pub open spec fn from_signed(i: int, n: nat) -> nat {
    if i >= 0 {
        i as nat
    } else {
        (i + pow256(n)) as nat
    }
}

pub proof fn lemma_pow256_pos(n: nat)
    ensures
        pow256(n) >= 1,
    decreases n,
{
    if n > 0 {
        lemma_pow256_pos((n - 1) as nat);
    }
}

pub proof fn lemma_pow256_mono(a: nat, b: nat)
    requires
        a <= b,
    ensures
        pow256(a) <= pow256(b),
    decreases b,
{
    if a < b {
        lemma_pow256_mono(a, (b - 1) as nat);
        lemma_pow256_pos((b - 1) as nat);
    }
}

pub proof fn lemma_pow256_values()
    ensures
        pow256(1) == 0x100,
        pow256(2) == 0x1_0000,
        pow256(4) == 0x1_0000_0000,
        pow256(8) == 0x1_0000_0000_0000_0000,
        pow256(16) == 0x1_0000_0000_0000_0000_0000_0000_0000_0000,
{
    assert(pow256(0) == 1);
    assert(pow256(1) == 0x100);
    assert(pow256(2) == 0x1_0000);
    assert(pow256(3) == 0x100_0000);
    assert(pow256(4) == 0x1_0000_0000);
    assert(pow256(5) == 0x100_0000_0000);
    assert(pow256(6) == 0x1_0000_0000_0000);
    assert(pow256(7) == 0x100_0000_0000_0000);
    assert(pow256(8) == 0x1_0000_0000_0000_0000);
    assert(pow256(9) == 0x100_0000_0000_0000_0000);
    assert(pow256(10) == 0x1_0000_0000_0000_0000_0000);
    assert(pow256(11) == 0x100_0000_0000_0000_0000_0000);
    assert(pow256(12) == 0x1_0000_0000_0000_0000_0000_0000);
    assert(pow256(13) == 0x100_0000_0000_0000_0000_0000_0000);
    assert(pow256(14) == 0x1_0000_0000_0000_0000_0000_0000_0000);
    assert(pow256(15) == 0x100_0000_0000_0000_0000_0000_0000_0000);
    assert(pow256(16) == 0x1_0000_0000_0000_0000_0000_0000_0000_0000);
}

/// A `len`-byte sequence encodes a number below `pow256(len)`.
pub proof fn lemma_le_to_nat_bound(bytes: Seq<u8>)
    ensures
        le_to_nat(bytes) < pow256(bytes.len()),
    decreases bytes.len(),
{
    if bytes.len() == 0 {
    } else {
        lemma_le_to_nat_bound(bytes.skip(1));
    }
}

pub proof fn lemma_nat_to_le_len(v: nat, n: nat)
    ensures
        nat_to_le(v, n).len() == n,
    decreases n,
{
    if n > 0 {
        lemma_nat_to_le_len(v / 256, (n - 1) as nat);
    }
}

/// Prepending a byte shifts the rest up by one place.
pub proof fn lemma_le_to_nat_cons(x: u8, s: Seq<u8>)
    ensures
        le_to_nat(seq![x] + s) == x + 256 * le_to_nat(s),
{
    let c = seq![x] + s;
    assert(c[0] == x);
    assert(c.skip(1) =~= s);
}

/// Decoding inverts encoding for every value the width can hold.
pub proof fn lemma_nat_to_le_to_nat(v: nat, n: nat)
    requires
        v < pow256(n),
    ensures
        le_to_nat(nat_to_le(v, n)) == v,
    decreases n,
{
    if n > 0 {
        let rest = nat_to_le(v / 256, (n - 1) as nat);
        assert(v / 256 < pow256((n - 1) as nat)) by {
            lemma_pow256_pos((n - 1) as nat);
            assert(v < 256 * pow256((n - 1) as nat));
        };
        lemma_nat_to_le_to_nat(v / 256, (n - 1) as nat);
        lemma_le_to_nat_cons((v % 256) as u8, rest);
    }
}

/// Reversing a sequence twice gives the sequence back.
pub proof fn lemma_reverse_involutive(s: Seq<u8>)
    ensures
        s.reverse().reverse() == s,
{
    assert(s.reverse().reverse() =~= s);
}

pub proof fn lemma_be_to_nat_bound(bytes: Seq<u8>)
    ensures
        be_to_nat(bytes) < pow256(bytes.len()),
{
    assert(bytes.reverse().len() == bytes.len());
    lemma_le_to_nat_bound(bytes.reverse());
}

pub proof fn lemma_nat_to_be_len(v: nat, n: nat)
    ensures
        nat_to_be(v, n).len() == n,
{
    lemma_nat_to_le_len(v, n);
    assert(nat_to_le(v, n).reverse().len() == n);
}

/// Big-endian decoding inverts big-endian encoding.
pub proof fn lemma_nat_to_be_to_nat(v: nat, n: nat)
    requires
        v < pow256(n),
    ensures
        be_to_nat(nat_to_be(v, n)) == v,
{
    lemma_reverse_involutive(nat_to_le(v, n));
    lemma_nat_to_le_to_nat(v, n);
}

/// The signed reading of an in-range value's two's-complement form is the
/// value itself.
pub proof fn lemma_signed_roundtrip(i: int, n: nat)
    requires
        n >= 1,
        -(half256(n) as int) <= i < half256(n),
    ensures
        from_signed(i, n) < pow256(n),
        to_signed(from_signed(i, n), n) == i,
{
    lemma_pow256_pos((n - 1) as nat);
}

/// The two's-complement form of an unsigned value's signed reading is the
/// value itself, and the reading is in range.
pub proof fn lemma_to_signed_range(v: nat, n: nat)
    requires
        n >= 1,
        v < pow256(n),
    ensures
        -(half256(n) as int) <= to_signed(v, n) < half256(n),
        from_signed(to_signed(v, n), n) == v,
{
    lemma_pow256_pos((n - 1) as nat);
}

/// Reads the `n`-byte little-endian number starting at `off`.
pub fn read_le_bytes(buf: &Vec<u8>, off: usize, n: usize) -> (r: u128)
    requires
        off + n <= buf@.len(),
        n <= 16,
    ensures
        r as nat == le_to_nat(buf@.subrange(off as int, off + n)),
{
    proof {
        lemma_pow256_values();
    }
    let mut acc: u128 = 0;
    let mut j: usize = n;
    while j > 0
        invariant
            0 <= j <= n,
            n <= 16,
            off + n <= buf@.len(),
            acc as nat == le_to_nat(buf@.subrange(off + j, off + n)),
            acc < pow256((n - j) as nat),
            pow256(16) == 0x1_0000_0000_0000_0000_0000_0000_0000_0000,
        decreases j,
    {
        j = j - 1;
        let sub = Ghost(buf@.subrange(off + j, off + n));
        proof {
            assert(off + n <= buf.len());
            assert(sub@.skip(1) =~= buf@.subrange(off + j + 1, off + n));
            assert(le_to_nat(sub@) == sub@[0] + 256 * le_to_nat(sub@.skip(1)));
            lemma_pow256_mono((n - j - 1) as nat, 15);
            assert(256 * acc + 255 < 256 * pow256((n - j - 1) as nat)) by (nonlinear_arith)
                requires
                    acc < pow256((n - j - 1) as nat),
            ;
            lemma_pow256_mono((n - j) as nat, 16);
        }
        acc = acc * 256 + (buf[off + j] as u128);
    }
    assert(buf@.subrange(off as int, off + n) == buf@.subrange(off + 0, off + n));
    acc
}

/// Builds the `n`-byte little-endian encoding of `v` as a fresh vector.
pub fn le_bytes_vec(v: u128, n: usize) -> (r: Vec<u8>)
    requires
        n <= 16,
        (v as nat) < pow256(n as nat),
    ensures
        r@ == nat_to_le(v as nat, n as nat),
        r@.len() == n,
{
    proof {
        lemma_nat_to_le_len(v as nat, n as nat);
    }
    let mut r: Vec<u8> = Vec::new();
    let mut w: u128 = v;
    let mut i: usize = 0;
    while i < n
        invariant
            0 <= i <= n,
            r@.len() == i,
            r@ + nat_to_le(w as nat, (n - i) as nat) == nat_to_le(v as nat, n as nat),
        decreases n - i,
    {
        let ghost prefix = r@;
        let ghost rest = nat_to_le(w as nat, (n - i) as nat);
        proof {
            assert(rest == seq![(w as nat % 256) as u8] + nat_to_le(w as nat / 256, (n - i - 1) as nat));
            assert((w % 256) as nat == w as nat % 256);
            assert((w / 256) as nat == w as nat / 256);
            assert(prefix + rest =~= prefix.push((w % 256) as u8) + nat_to_le(
                w as nat / 256,
                (n - i - 1) as nat,
            ));
        }
        r.push((w % 256) as u8);
        w = w / 256;
        i = i + 1;
    }
    assert(r@ =~= r@ + nat_to_le(w as nat, 0));
    r
}

/// Writes the `n`-byte little-endian encoding of `v` at `off`, leaving every
/// byte outside `[off, off + n)` unchanged.
pub fn write_le_bytes(buf: &mut Vec<u8>, off: usize, n: usize, v: u128)
    requires
        off + n <= old(buf)@.len(),
        n <= 16,
        (v as nat) < pow256(n as nat),
    ensures
        final(buf)@.len() == old(buf)@.len(),
        final(buf)@.subrange(off as int, off + n) == nat_to_le(v as nat, n as nat),
        forall|k: int|
            0 <= k < final(buf)@.len() && !(off <= k < off + n) ==> final(buf)@[k] == old(buf)@[k],
{
    let tmp = le_bytes_vec(v, n);
    let mut i: usize = 0;
    while i < n
        invariant
            0 <= i <= n,
            off + n <= buf@.len(),
            buf@.len() == old(buf)@.len(),
            tmp@ == nat_to_le(v as nat, n as nat),
            tmp@.len() == n,
            forall|k: int| 0 <= k < i ==> buf@[off + k] == tmp@[k],
            forall|k: int| 0 <= k < buf@.len() && !(off <= k < off + i) ==> buf@[k] == old(buf)@[k],
        decreases n - i,
    {
        proof {
            assert(off + n <= buf.len());
        }
        buf.set(off + i, tmp[i]);
        i = i + 1;
    }
    assert(buf@.subrange(off as int, off + n) =~= tmp@);
}

/// Reads the `n`-byte big-endian number starting at `off`.
pub fn read_be_bytes(buf: &Vec<u8>, off: usize, n: usize) -> (r: u128)
    requires
        off + n <= buf@.len(),
        n <= 16,
    ensures
        r as nat == be_to_nat(buf@.subrange(off as int, off + n)),
{
    proof {
        lemma_pow256_values();
    }
    let mut acc: u128 = 0;
    let mut i: usize = 0;
    while i < n
        invariant
            0 <= i <= n,
            n <= 16,
            off + n <= buf@.len(),
            acc as nat == le_to_nat(buf@.subrange(off as int, off + i).reverse()),
            acc < pow256(i as nat),
            pow256(16) == 0x1_0000_0000_0000_0000_0000_0000_0000_0000,
        decreases n - i,
    {
        let ghost pre = buf@.subrange(off as int, off + i);
        proof {
            assert(off + n <= buf.len());
            let post = buf@.subrange(off as int, off + i + 1);
            assert(post.reverse() =~= seq![buf@[off + i]] + pre.reverse());
            lemma_le_to_nat_cons(buf@[off + i], pre.reverse());
            lemma_pow256_mono(i as nat, 15);
            assert(256 * acc + 255 < 256 * pow256(i as nat)) by (nonlinear_arith)
                requires
                    acc < pow256(i as nat),
            ;
            lemma_pow256_mono((i + 1) as nat, 16);
        }
        acc = acc * 256 + (buf[off + i] as u128);
        i = i + 1;
    }
    acc
}

/// Writes the `n`-byte big-endian encoding of `v` at `off`, leaving every
/// byte outside `[off, off + n)` unchanged.
pub fn write_be_bytes(buf: &mut Vec<u8>, off: usize, n: usize, v: u128)
    requires
        off + n <= old(buf)@.len(),
        n <= 16,
        (v as nat) < pow256(n as nat),
    ensures
        final(buf)@.len() == old(buf)@.len(),
        final(buf)@.subrange(off as int, off + n) == nat_to_be(v as nat, n as nat),
        forall|k: int|
            0 <= k < final(buf)@.len() && !(off <= k < off + n) ==> final(buf)@[k] == old(buf)@[k],
{
    let tmp = le_bytes_vec(v, n);
    let mut i: usize = 0;
    while i < n
        invariant
            0 <= i <= n,
            off + n <= buf@.len(),
            buf@.len() == old(buf)@.len(),
            tmp@ == nat_to_le(v as nat, n as nat),
            tmp@.len() == n,
            forall|k: int| 0 <= k < i ==> #[trigger] buf@[off + k] == tmp@[n - 1 - k],
            forall|k: int| 0 <= k < buf@.len() && !(off <= k < off + i) ==> buf@[k] == old(buf)@[k],
        decreases n - i,
    {
        proof {
            assert(off + n <= buf.len());
        }
        buf.set(off + i, tmp[n - 1 - i]);
        i = i + 1;
    }
    proof {
        let rev = tmp@.reverse();
        assert(rev.len() == n);
        assert forall|k: int| 0 <= k < n implies buf@.subrange(off as int, off + n)[k] == rev[k] by {
            assert(buf@.subrange(off as int, off + n)[k] == buf@[off + k]);
            assert(rev[k] == tmp@[n - 1 - k]);
        }
        assert(buf@.subrange(off as int, off + n) =~= rev);
    }
}

/// Wrapping arithmetic on the scalar types a view or stream value can hold.
/// Compound assignment on views uses these, so overflow wraps rather than
/// panics: the width-preserving choice for binary formats.
pub trait WrappingOps: Sized + Copy {
    spec fn wrap_add(a: Self, b: Self) -> Self;

    spec fn wrap_sub(a: Self, b: Self) -> Self;

    spec fn wrap_mul(a: Self, b: Self) -> Self;

    fn wrap_add_exec(a: Self, b: Self) -> (r: Self)
        ensures
            r == Self::wrap_add(a, b),
    ;

    fn wrap_sub_exec(a: Self, b: Self) -> (r: Self)
        ensures
            r == Self::wrap_sub(a, b),
    ;

    fn wrap_mul_exec(a: Self, b: Self) -> (r: Self)
        ensures
            r == Self::wrap_mul(a, b),
    ;
}

/// Division on the unsigned scalar types, for the compound divide-assign.
/// Division by zero is excluded by precondition, as the underlying
/// primitive's division panics on it.
pub trait DivOps: Sized + Copy {
    spec fn div_ok(a: Self, b: Self) -> bool;

    spec fn divide(a: Self, b: Self) -> Self;

    fn divide_exec(a: Self, b: Self) -> (r: Self)
        requires
            Self::div_ok(a, b),
        ensures
            r == Self::divide(a, b),
    ;
}

impl WrappingOps for u8 {
    open spec fn wrap_add(a: u8, b: u8) -> u8 {
        vstd::wrapping::u8_specs::wrapping_add(a, b)
    }

    open spec fn wrap_sub(a: u8, b: u8) -> u8 {
        vstd::wrapping::u8_specs::wrapping_sub(a, b)
    }

    open spec fn wrap_mul(a: u8, b: u8) -> u8 {
        vstd::wrapping::u8_specs::wrapping_mul(a, b)
    }

    fn wrap_add_exec(a: u8, b: u8) -> u8 {
        a.wrapping_add(b)
    }

    fn wrap_sub_exec(a: u8, b: u8) -> u8 {
        a.wrapping_sub(b)
    }

    fn wrap_mul_exec(a: u8, b: u8) -> u8 {
        a.wrapping_mul(b)
    }
}

impl WrappingOps for u16 {
    open spec fn wrap_add(a: u16, b: u16) -> u16 {
        vstd::wrapping::u16_specs::wrapping_add(a, b)
    }

    open spec fn wrap_sub(a: u16, b: u16) -> u16 {
        vstd::wrapping::u16_specs::wrapping_sub(a, b)
    }

    open spec fn wrap_mul(a: u16, b: u16) -> u16 {
        vstd::wrapping::u16_specs::wrapping_mul(a, b)
    }

    fn wrap_add_exec(a: u16, b: u16) -> u16 {
        a.wrapping_add(b)
    }

    fn wrap_sub_exec(a: u16, b: u16) -> u16 {
        a.wrapping_sub(b)
    }

    fn wrap_mul_exec(a: u16, b: u16) -> u16 {
        a.wrapping_mul(b)
    }
}

impl WrappingOps for u32 {
    open spec fn wrap_add(a: u32, b: u32) -> u32 {
        vstd::wrapping::u32_specs::wrapping_add(a, b)
    }

    open spec fn wrap_sub(a: u32, b: u32) -> u32 {
        vstd::wrapping::u32_specs::wrapping_sub(a, b)
    }

    open spec fn wrap_mul(a: u32, b: u32) -> u32 {
        vstd::wrapping::u32_specs::wrapping_mul(a, b)
    }

    fn wrap_add_exec(a: u32, b: u32) -> u32 {
        a.wrapping_add(b)
    }

    fn wrap_sub_exec(a: u32, b: u32) -> u32 {
        a.wrapping_sub(b)
    }

    fn wrap_mul_exec(a: u32, b: u32) -> u32 {
        a.wrapping_mul(b)
    }
}

impl WrappingOps for u64 {
    open spec fn wrap_add(a: u64, b: u64) -> u64 {
        vstd::wrapping::u64_specs::wrapping_add(a, b)
    }

    open spec fn wrap_sub(a: u64, b: u64) -> u64 {
        vstd::wrapping::u64_specs::wrapping_sub(a, b)
    }

    open spec fn wrap_mul(a: u64, b: u64) -> u64 {
        vstd::wrapping::u64_specs::wrapping_mul(a, b)
    }

    fn wrap_add_exec(a: u64, b: u64) -> u64 {
        a.wrapping_add(b)
    }

    fn wrap_sub_exec(a: u64, b: u64) -> u64 {
        a.wrapping_sub(b)
    }

    fn wrap_mul_exec(a: u64, b: u64) -> u64 {
        a.wrapping_mul(b)
    }
}

impl WrappingOps for u128 {
    open spec fn wrap_add(a: u128, b: u128) -> u128 {
        vstd::wrapping::u128_specs::wrapping_add(a, b)
    }

    open spec fn wrap_sub(a: u128, b: u128) -> u128 {
        vstd::wrapping::u128_specs::wrapping_sub(a, b)
    }

    open spec fn wrap_mul(a: u128, b: u128) -> u128 {
        vstd::wrapping::u128_specs::wrapping_mul(a, b)
    }

    fn wrap_add_exec(a: u128, b: u128) -> u128 {
        a.wrapping_add(b)
    }

    fn wrap_sub_exec(a: u128, b: u128) -> u128 {
        a.wrapping_sub(b)
    }

    fn wrap_mul_exec(a: u128, b: u128) -> u128 {
        a.wrapping_mul(b)
    }
}

impl WrappingOps for i8 {
    open spec fn wrap_add(a: i8, b: i8) -> i8 {
        vstd::wrapping::i8_specs::wrapping_add(a, b)
    }

    open spec fn wrap_sub(a: i8, b: i8) -> i8 {
        vstd::wrapping::i8_specs::wrapping_sub(a, b)
    }

    open spec fn wrap_mul(a: i8, b: i8) -> i8 {
        vstd::wrapping::i8_specs::wrapping_mul(a, b)
    }

    fn wrap_add_exec(a: i8, b: i8) -> i8 {
        a.wrapping_add(b)
    }

    fn wrap_sub_exec(a: i8, b: i8) -> i8 {
        a.wrapping_sub(b)
    }

    fn wrap_mul_exec(a: i8, b: i8) -> i8 {
        a.wrapping_mul(b)
    }
}

impl WrappingOps for i16 {
    open spec fn wrap_add(a: i16, b: i16) -> i16 {
        vstd::wrapping::i16_specs::wrapping_add(a, b)
    }

    open spec fn wrap_sub(a: i16, b: i16) -> i16 {
        vstd::wrapping::i16_specs::wrapping_sub(a, b)
    }

    open spec fn wrap_mul(a: i16, b: i16) -> i16 {
        vstd::wrapping::i16_specs::wrapping_mul(a, b)
    }

    fn wrap_add_exec(a: i16, b: i16) -> i16 {
        a.wrapping_add(b)
    }

    fn wrap_sub_exec(a: i16, b: i16) -> i16 {
        a.wrapping_sub(b)
    }

    fn wrap_mul_exec(a: i16, b: i16) -> i16 {
        a.wrapping_mul(b)
    }
}

impl WrappingOps for i32 {
    open spec fn wrap_add(a: i32, b: i32) -> i32 {
        vstd::wrapping::i32_specs::wrapping_add(a, b)
    }

    open spec fn wrap_sub(a: i32, b: i32) -> i32 {
        vstd::wrapping::i32_specs::wrapping_sub(a, b)
    }

    open spec fn wrap_mul(a: i32, b: i32) -> i32 {
        vstd::wrapping::i32_specs::wrapping_mul(a, b)
    }

    fn wrap_add_exec(a: i32, b: i32) -> i32 {
        a.wrapping_add(b)
    }

    fn wrap_sub_exec(a: i32, b: i32) -> i32 {
        a.wrapping_sub(b)
    }

    fn wrap_mul_exec(a: i32, b: i32) -> i32 {
        a.wrapping_mul(b)
    }
}

impl WrappingOps for i64 {
    open spec fn wrap_add(a: i64, b: i64) -> i64 {
        vstd::wrapping::i64_specs::wrapping_add(a, b)
    }

    open spec fn wrap_sub(a: i64, b: i64) -> i64 {
        vstd::wrapping::i64_specs::wrapping_sub(a, b)
    }

    open spec fn wrap_mul(a: i64, b: i64) -> i64 {
        vstd::wrapping::i64_specs::wrapping_mul(a, b)
    }

    fn wrap_add_exec(a: i64, b: i64) -> i64 {
        a.wrapping_add(b)
    }

    fn wrap_sub_exec(a: i64, b: i64) -> i64 {
        a.wrapping_sub(b)
    }

    fn wrap_mul_exec(a: i64, b: i64) -> i64 {
        a.wrapping_mul(b)
    }
}

impl WrappingOps for i128 {
    open spec fn wrap_add(a: i128, b: i128) -> i128 {
        vstd::wrapping::i128_specs::wrapping_add(a, b)
    }

    open spec fn wrap_sub(a: i128, b: i128) -> i128 {
        vstd::wrapping::i128_specs::wrapping_sub(a, b)
    }

    open spec fn wrap_mul(a: i128, b: i128) -> i128 {
        vstd::wrapping::i128_specs::wrapping_mul(a, b)
    }

    fn wrap_add_exec(a: i128, b: i128) -> i128 {
        a.wrapping_add(b)
    }

    fn wrap_sub_exec(a: i128, b: i128) -> i128 {
        a.wrapping_sub(b)
    }

    fn wrap_mul_exec(a: i128, b: i128) -> i128 {
        a.wrapping_mul(b)
    }
}

impl DivOps for u8 {
    open spec fn div_ok(a: u8, b: u8) -> bool {
        b != 0
    }

    open spec fn divide(a: u8, b: u8) -> u8 {
        a / b
    }

    fn divide_exec(a: u8, b: u8) -> u8 {
        a / b
    }
}

impl DivOps for u16 {
    open spec fn div_ok(a: u16, b: u16) -> bool {
        b != 0
    }

    open spec fn divide(a: u16, b: u16) -> u16 {
        a / b
    }

    fn divide_exec(a: u16, b: u16) -> u16 {
        a / b
    }
}

impl DivOps for u32 {
    open spec fn div_ok(a: u32, b: u32) -> bool {
        b != 0
    }

    open spec fn divide(a: u32, b: u32) -> u32 {
        a / b
    }

    fn divide_exec(a: u32, b: u32) -> u32 {
        a / b
    }
}

impl DivOps for u64 {
    open spec fn div_ok(a: u64, b: u64) -> bool {
        b != 0
    }

    open spec fn divide(a: u64, b: u64) -> u64 {
        a / b
    }

    fn divide_exec(a: u64, b: u64) -> u64 {
        a / b
    }
}

impl DivOps for u128 {
    open spec fn div_ok(a: u128, b: u128) -> bool {
        b != 0
    }

    open spec fn divide(a: u128, b: u128) -> u128 {
        a / b
    }

    fn divide_exec(a: u128, b: u128) -> u128 {
        a / b
    }
}

} // verus!
