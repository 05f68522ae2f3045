//! Width-tagged immediate operands.
//!
//! An immediate stores the canonical bit pattern of its target width;
//! construction from a narrower integer zero-extends unsigned sources
//! and sign-extends signed sources.  Emission appends the little-endian
//! byte image, described by [`le_bytes`], and [`lemma_le_bytes_roundtrip`]
//! shows that those bytes determine the stored pattern uniquely.

use vstd::arithmetic::div_mod::lemma_breakdown;
use vstd::arithmetic::div_mod::lemma_small_mod;
use vstd::prelude::*;

verus! {

/// The little-endian byte image of `v`, `n` bytes wide.
pub open spec fn le_bytes(v: nat, n: nat) -> Seq<u8>
    decreases n,
{
    if n == 0 {
        Seq::empty()
    } else {
        seq![(v % 256) as u8] + le_bytes(v / 256, (n - 1) as nat)
    }
}

/// The value encoded by a little-endian byte sequence.
pub open spec fn le_val(s: Seq<u8>) -> nat
    decreases s.len(),
{
    if s.len() == 0 {
        0
    } else {
        (s[0] + 256 * le_val(s.drop_first())) as nat
    }
}

/// `256^n`, the number of values of an `n`-byte immediate.
pub open spec fn pow256(n: nat) -> nat
    decreases n,
{
    if n == 0 {
        1
    } else {
        256 * pow256((n - 1) as nat)
    }
}

/// A little-endian image is as wide as requested.
pub proof fn lemma_le_bytes_len(v: nat, n: nat)
    ensures
        le_bytes(v, n).len() == n,
    decreases n,
{
    if n > 0 {
        lemma_le_bytes_len(v / 256, (n - 1) as nat);
    }
}

/// The width of an immediate is positive.
pub proof fn lemma_pow256_pos(n: nat)
    ensures
        pow256(n) >= 1,
    decreases n,
{
    if n > 0 {
        lemma_pow256_pos((n - 1) as nat);
    }
}

/// Decoding a little-endian image yields the encoded value reduced
/// modulo the width of the image.
pub proof fn lemma_le_bytes_val(v: nat, n: nat)
    ensures
        le_val(le_bytes(v, n)) == v % pow256(n),
    decreases n,
{
    if n == 0 {
        assert(pow256(0) == 1);
        assert(v % 1 == 0) by {
            vstd::arithmetic::div_mod::lemma_mod_multiples_basic(v as int, 1);
            assert((v as int) * 1 == v as int);
        }
    } else {
        let s = le_bytes(v, n);
        lemma_le_bytes_len(v, n);
        assert(s.drop_first() =~= le_bytes(v / 256, (n - 1) as nat));
        lemma_le_bytes_val(v / 256, (n - 1) as nat);
        lemma_pow256_pos((n - 1) as nat);
        lemma_breakdown(v as int, 256, pow256((n - 1) as nat) as int);
        assert(256 * pow256((n - 1) as nat) == pow256(n));
    }
}

/// Round trip: a value fitting the target width is reconstructed
/// exactly from its little-endian byte image.
pub proof fn lemma_le_bytes_roundtrip(v: nat, n: nat)
    requires
        v < pow256(n),
    ensures
        le_val(le_bytes(v, n)) == v,
{
    lemma_le_bytes_val(v, n);
    lemma_small_mod(v, pow256(n));
}

/// The 8-bit two's complement pattern of `v`.
pub open spec fn sext8(v: int) -> u8
    recommends
        -0x80 <= v < 0x100,
{
    if v >= 0 {
        v as u8
    } else {
        (v + 0x100) as u8
    }
}

/// The 16-bit two's complement pattern of `v`.
pub open spec fn sext16(v: int) -> u16
    recommends
        -0x8000 <= v < 0x10000,
{
    if v >= 0 {
        v as u16
    } else {
        (v + 0x10000) as u16
    }
}

/// The 32-bit two's complement pattern of `v`.
pub open spec fn sext32(v: int) -> u32
    recommends
        -0x8000_0000 <= v < 0x1_0000_0000,
{
    if v >= 0 {
        v as u32
    } else {
        (v + 0x1_0000_0000) as u32
    }
}

/// The 64-bit two's complement pattern of `v`.
pub open spec fn sext64(v: int) -> u64
    recommends
        -0x8000_0000_0000_0000 <= v < 0x1_0000_0000_0000_0000,
{
    if v >= 0 {
        v as u64
    } else {
        (v + 0x1_0000_0000_0000_0000) as u64
    }
}

/// The four little-endian bytes of the 32-bit two's complement
/// pattern of `d`; used for displacements and patched `rel32` values.
pub open spec fn le32(d: int) -> Seq<u8> {
    le_bytes((d % 0x1_0000_0000) as nat, 4)
}

/// The 32-bit two's complement pattern of a value in signed 32-bit
/// range, written without the modulus.
pub proof fn lemma_i32_pattern(d: int)
    requires
        -0x8000_0000 <= d < 0x8000_0000,
    ensures
        d % 0x1_0000_0000 == if d >= 0 {
            d
        } else {
            d + 0x1_0000_0000
        },
{
    if d >= 0 {
        lemma_small_mod(d as nat, 0x1_0000_0000);
    } else {
        vstd::arithmetic::div_mod::lemma_mod_add_multiples_vanish(d, 0x1_0000_0000);
        lemma_small_mod((d + 0x1_0000_0000) as nat, 0x1_0000_0000);
    }
}

/// Decoding the four bytes of a `rel32` image recovers the encoded
/// displacement: non-negative values directly, negative values offset
/// by `2^32`.
pub proof fn lemma_le32_val(d: int)
    requires
        -0x8000_0000 <= d < 0x8000_0000,
    ensures
        le_val(le32(d)) == if d >= 0 {
            d
        } else {
            d + 0x1_0000_0000
        },
{
    lemma_i32_pattern(d);
    assert(pow256(0) == 1);
    assert(pow256(1) == 256);
    assert(pow256(2) == 0x1_0000);
    assert(pow256(3) == 0x100_0000);
    assert(pow256(4) == 0x1_0000_0000);
    lemma_le_bytes_roundtrip((d % 0x1_0000_0000) as nat, 4);
}

/// Append the four bytes of the 32-bit two's complement pattern of `d`.
pub(crate) fn append_disp32(buf: &mut Vec<u8>, d: i32)
    ensures
        final(buf)@ == old(buf)@ + le32(d as int),
{
    let p: u32 = if d >= 0 {
        d as u32
    } else {
        0xffff_ffffu32 - ((-(d + 1)) as u32)
    };
    proof {
        lemma_i32_pattern(d as int);
    }
    append_le32(buf, p);
}

/// Interface of the four immediate widths: a spec-level little-endian
/// byte image and an executable emission routine producing exactly it.
pub trait Imm: Sized {
    /// The little-endian byte image of this immediate.
    spec fn sbytes(self) -> Seq<u8>;

    /// Append the byte image to `buf`.
    fn append_to(self, buf: &mut Vec<u8>)
        ensures
            final(buf)@ == old(buf)@ + self.sbytes(),
    ;
}

/// An 8-bit immediate operand, stored as its canonical bit pattern.
pub struct Imm8(pub u8);

/// A 16-bit immediate operand, stored as its canonical bit pattern.
pub struct Imm16(pub u16);

/// A 32-bit immediate operand, stored as its canonical bit pattern.
pub struct Imm32(pub u32);

/// A 64-bit immediate operand, stored as its canonical bit pattern.
pub struct Imm64(pub u64);

impl Imm for Imm8 {
    open spec fn sbytes(self) -> Seq<u8> {
        le_bytes(self.0 as nat, 1)
    }

    fn append_to(self, buf: &mut Vec<u8>) {
        let v = self.0;
        buf.push(v);
        proof {
            assert(le_bytes((v as nat) / 256, 0) =~= Seq::<u8>::empty());
            assert(le_bytes(v as nat, 1) =~= seq![v]);
            assert(buf@ =~= old(buf)@ + self.sbytes());
        }
    }
}

impl Imm for Imm16 {
    open spec fn sbytes(self) -> Seq<u8> {
        le_bytes(self.0 as nat, 2)
    }

    fn append_to(self, buf: &mut Vec<u8>) {
        let v = self.0;
        buf.push((v % 256) as u8);
        buf.push(((v / 256) % 256) as u8);
        proof {
            assert(le_bytes((v as nat) / 256 / 256, 0) =~= Seq::<u8>::empty());
            assert(le_bytes((v as nat) / 256, 1) =~= seq![(((v as nat) / 256) % 256) as u8]);
            assert(le_bytes(v as nat, 2) =~= seq![(v % 256) as u8] + le_bytes((v as nat) / 256, 1));
            assert(buf@ =~= old(buf)@ + self.sbytes());
        }
    }
}

impl Imm for Imm32 {
    open spec fn sbytes(self) -> Seq<u8> {
        le_bytes(self.0 as nat, 4)
    }

    fn append_to(self, buf: &mut Vec<u8>) {
        append_le32(buf, self.0);
        proof {
            assert(buf@ =~= old(buf)@ + self.sbytes());
        }
    }
}

impl Imm for Imm64 {
    open spec fn sbytes(self) -> Seq<u8> {
        le_bytes(self.0 as nat, 8)
    }

    fn append_to(self, buf: &mut Vec<u8>) {
        let v = self.0;
        let lo: u32 = (v % 0x1_0000_0000) as u32;
        let hi: u32 = (v / 0x1_0000_0000) as u32;
        append_le32(buf, lo);
        append_le32(buf, hi);
        proof {
            lemma_le_bytes_split(v as nat);
            assert(buf@ =~= old(buf)@ + self.sbytes());
        }
    }
}

impl core::convert::From<u8> for Imm8 {
    fn from(v: u8) -> (r: Imm8) {
        Imm8(v)
    }
}

impl vstd::std_specs::convert::FromSpecImpl<u8> for Imm8 {
    open spec fn obeys_from_spec() -> bool {
        true
    }

    open spec fn from_spec(v: u8) -> Imm8 {
        Imm8(v)
    }
}

impl core::convert::From<i8> for Imm8 {
    fn from(v: i8) -> (r: Imm8) {
        let w: i8 = v;
        if w >= 0 {
            Imm8(w as u8)
        } else {
            Imm8(0xffu8 - ((-(w + 1)) as u8))
        }
    }
}

impl vstd::std_specs::convert::FromSpecImpl<i8> for Imm8 {
    open spec fn obeys_from_spec() -> bool {
        true
    }

    open spec fn from_spec(v: i8) -> Imm8 {
        Imm8(sext8(v as int))
    }
}

impl core::convert::From<u16> for Imm16 {
    fn from(v: u16) -> (r: Imm16) {
        Imm16(v)
    }
}

impl vstd::std_specs::convert::FromSpecImpl<u16> for Imm16 {
    open spec fn obeys_from_spec() -> bool {
        true
    }

    open spec fn from_spec(v: u16) -> Imm16 {
        Imm16(v)
    }
}

impl core::convert::From<i16> for Imm16 {
    fn from(v: i16) -> (r: Imm16) {
        let w: i16 = v;
        if w >= 0 {
            Imm16(w as u16)
        } else {
            Imm16(0xffffu16 - ((-(w + 1)) as u16))
        }
    }
}

impl vstd::std_specs::convert::FromSpecImpl<i16> for Imm16 {
    open spec fn obeys_from_spec() -> bool {
        true
    }

    open spec fn from_spec(v: i16) -> Imm16 {
        Imm16(sext16(v as int))
    }
}

impl core::convert::From<u8> for Imm16 {
    fn from(v: u8) -> (r: Imm16) {
        Imm16(v as u16)
    }
}

impl vstd::std_specs::convert::FromSpecImpl<u8> for Imm16 {
    open spec fn obeys_from_spec() -> bool {
        true
    }

    open spec fn from_spec(v: u8) -> Imm16 {
        Imm16(v as u16)
    }
}

impl core::convert::From<i8> for Imm16 {
    fn from(v: i8) -> (r: Imm16) {
        let w: i16 = (v as i16);
        if w >= 0 {
            Imm16(w as u16)
        } else {
            Imm16(0xffffu16 - ((-(w + 1)) as u16))
        }
    }
}

impl vstd::std_specs::convert::FromSpecImpl<i8> for Imm16 {
    open spec fn obeys_from_spec() -> bool {
        true
    }

    open spec fn from_spec(v: i8) -> Imm16 {
        Imm16(sext16(v as int))
    }
}

impl core::convert::From<u32> for Imm32 {
    fn from(v: u32) -> (r: Imm32) {
        Imm32(v)
    }
}

impl vstd::std_specs::convert::FromSpecImpl<u32> for Imm32 {
    open spec fn obeys_from_spec() -> bool {
        true
    }

    open spec fn from_spec(v: u32) -> Imm32 {
        Imm32(v)
    }
}

impl core::convert::From<i32> for Imm32 {
    fn from(v: i32) -> (r: Imm32) {
        let w: i32 = v;
        if w >= 0 {
            Imm32(w as u32)
        } else {
            Imm32(0xffff_ffffu32 - ((-(w + 1)) as u32))
        }
    }
}

impl vstd::std_specs::convert::FromSpecImpl<i32> for Imm32 {
    open spec fn obeys_from_spec() -> bool {
        true
    }

    open spec fn from_spec(v: i32) -> Imm32 {
        Imm32(sext32(v as int))
    }
}

impl core::convert::From<u16> for Imm32 {
    fn from(v: u16) -> (r: Imm32) {
        Imm32(v as u32)
    }
}

impl vstd::std_specs::convert::FromSpecImpl<u16> for Imm32 {
    open spec fn obeys_from_spec() -> bool {
        true
    }

    open spec fn from_spec(v: u16) -> Imm32 {
        Imm32(v as u32)
    }
}

impl core::convert::From<i16> for Imm32 {
    fn from(v: i16) -> (r: Imm32) {
        let w: i32 = (v as i32);
        if w >= 0 {
            Imm32(w as u32)
        } else {
            Imm32(0xffff_ffffu32 - ((-(w + 1)) as u32))
        }
    }
}

impl vstd::std_specs::convert::FromSpecImpl<i16> for Imm32 {
    open spec fn obeys_from_spec() -> bool {
        true
    }

    open spec fn from_spec(v: i16) -> Imm32 {
        Imm32(sext32(v as int))
    }
}

impl core::convert::From<u8> for Imm32 {
    fn from(v: u8) -> (r: Imm32) {
        Imm32(v as u32)
    }
}

impl vstd::std_specs::convert::FromSpecImpl<u8> for Imm32 {
    open spec fn obeys_from_spec() -> bool {
        true
    }

    open spec fn from_spec(v: u8) -> Imm32 {
        Imm32(v as u32)
    }
}

impl core::convert::From<i8> for Imm32 {
    fn from(v: i8) -> (r: Imm32) {
        let w: i32 = (v as i32);
        if w >= 0 {
            Imm32(w as u32)
        } else {
            Imm32(0xffff_ffffu32 - ((-(w + 1)) as u32))
        }
    }
}

impl vstd::std_specs::convert::FromSpecImpl<i8> for Imm32 {
    open spec fn obeys_from_spec() -> bool {
        true
    }

    open spec fn from_spec(v: i8) -> Imm32 {
        Imm32(sext32(v as int))
    }
}

impl core::convert::From<u64> for Imm64 {
    fn from(v: u64) -> (r: Imm64) {
        Imm64(v)
    }
}

impl vstd::std_specs::convert::FromSpecImpl<u64> for Imm64 {
    open spec fn obeys_from_spec() -> bool {
        true
    }

    open spec fn from_spec(v: u64) -> Imm64 {
        Imm64(v)
    }
}

impl core::convert::From<i64> for Imm64 {
    fn from(v: i64) -> (r: Imm64) {
        let w: i64 = v;
        if w >= 0 {
            Imm64(w as u64)
        } else {
            Imm64(0xffff_ffff_ffff_ffffu64 - ((-(w + 1)) as u64))
        }
    }
}

impl vstd::std_specs::convert::FromSpecImpl<i64> for Imm64 {
    open spec fn obeys_from_spec() -> bool {
        true
    }

    open spec fn from_spec(v: i64) -> Imm64 {
        Imm64(sext64(v as int))
    }
}

impl core::convert::From<u32> for Imm64 {
    fn from(v: u32) -> (r: Imm64) {
        Imm64(v as u64)
    }
}

impl vstd::std_specs::convert::FromSpecImpl<u32> for Imm64 {
    open spec fn obeys_from_spec() -> bool {
        true
    }

    open spec fn from_spec(v: u32) -> Imm64 {
        Imm64(v as u64)
    }
}

impl core::convert::From<i32> for Imm64 {
    fn from(v: i32) -> (r: Imm64) {
        let w: i64 = (v as i64);
        if w >= 0 {
            Imm64(w as u64)
        } else {
            Imm64(0xffff_ffff_ffff_ffffu64 - ((-(w + 1)) as u64))
        }
    }
}

impl vstd::std_specs::convert::FromSpecImpl<i32> for Imm64 {
    open spec fn obeys_from_spec() -> bool {
        true
    }

    open spec fn from_spec(v: i32) -> Imm64 {
        Imm64(sext64(v as int))
    }
}

impl core::convert::From<u16> for Imm64 {
    fn from(v: u16) -> (r: Imm64) {
        Imm64(v as u64)
    }
}

impl vstd::std_specs::convert::FromSpecImpl<u16> for Imm64 {
    open spec fn obeys_from_spec() -> bool {
        true
    }

    open spec fn from_spec(v: u16) -> Imm64 {
        Imm64(v as u64)
    }
}

impl core::convert::From<i16> for Imm64 {
    fn from(v: i16) -> (r: Imm64) {
        let w: i64 = (v as i64);
        if w >= 0 {
            Imm64(w as u64)
        } else {
            Imm64(0xffff_ffff_ffff_ffffu64 - ((-(w + 1)) as u64))
        }
    }
}

impl vstd::std_specs::convert::FromSpecImpl<i16> for Imm64 {
    open spec fn obeys_from_spec() -> bool {
        true
    }

    open spec fn from_spec(v: i16) -> Imm64 {
        Imm64(sext64(v as int))
    }
}

impl core::convert::From<u8> for Imm64 {
    fn from(v: u8) -> (r: Imm64) {
        Imm64(v as u64)
    }
}

impl vstd::std_specs::convert::FromSpecImpl<u8> for Imm64 {
    open spec fn obeys_from_spec() -> bool {
        true
    }

    open spec fn from_spec(v: u8) -> Imm64 {
        Imm64(v as u64)
    }
}

impl core::convert::From<i8> for Imm64 {
    fn from(v: i8) -> (r: Imm64) {
        let w: i64 = (v as i64);
        if w >= 0 {
            Imm64(w as u64)
        } else {
            Imm64(0xffff_ffff_ffff_ffffu64 - ((-(w + 1)) as u64))
        }
    }
}

impl vstd::std_specs::convert::FromSpecImpl<i8> for Imm64 {
    open spec fn obeys_from_spec() -> bool {
        true
    }

    open spec fn from_spec(v: i8) -> Imm64 {
        Imm64(sext64(v as int))
    }
}
/// Law: the byte image of an 8-bit immediate decodes back to the
/// stored pattern, so construction and decoding round-trip.
pub proof fn lemma_imm8_roundtrip(i: Imm8)
    ensures
        le_val(i.sbytes()) == i.0,
{
    assert(pow256(0) == 1);
    assert(pow256(1) == 256);
    lemma_le_bytes_roundtrip(i.0 as nat, 1);
}

/// Law: the byte image of a 16-bit immediate decodes back to the
/// stored pattern, so construction and decoding round-trip.
pub proof fn lemma_imm16_roundtrip(i: Imm16)
    ensures
        le_val(i.sbytes()) == i.0,
{
    assert(pow256(0) == 1);
    assert(pow256(1) == 256);
    assert(pow256(2) == 0x1_0000);
    lemma_le_bytes_roundtrip(i.0 as nat, 2);
}

/// Law: the byte image of a 32-bit immediate decodes back to the
/// stored pattern, so construction and decoding round-trip.
pub proof fn lemma_imm32_roundtrip(i: Imm32)
    ensures
        le_val(i.sbytes()) == i.0,
{
    assert(pow256(0) == 1);
    assert(pow256(1) == 256);
    assert(pow256(2) == 0x1_0000);
    assert(pow256(3) == 0x100_0000);
    assert(pow256(4) == 0x1_0000_0000);
    lemma_le_bytes_roundtrip(i.0 as nat, 4);
}

/// Law: the byte image of a 64-bit immediate decodes back to the
/// stored pattern, so construction and decoding round-trip.  Via the
/// open `from` specifications this reconstructs any integer the
/// immediate was built from: unsigned sources directly, negative
/// signed sources as their two's complement pattern.
pub proof fn lemma_imm64_roundtrip(i: Imm64)
    ensures
        le_val(i.sbytes()) == i.0,
{
    assert(pow256(0) == 1);
    assert(pow256(1) == 256);
    assert(pow256(2) == 0x1_0000);
    assert(pow256(3) == 0x100_0000);
    assert(pow256(4) == 0x1_0000_0000);
    assert(pow256(5) == 0x100_0000_0000);
    assert(pow256(6) == 0x1_0000_0000_0000);
    assert(pow256(7) == 0x100_0000_0000_0000);
    assert(pow256(8) == 0x1_0000_0000_0000_0000);
    lemma_le_bytes_roundtrip(i.0 as nat, 8);
}

/// Append the four little-endian bytes of `v`.
pub(crate) fn append_le32(buf: &mut Vec<u8>, v: u32)
    ensures
        final(buf)@ == old(buf)@ + le_bytes(v as nat, 4),
{
    buf.push((v % 256) as u8);
    buf.push(((v / 256) % 256) as u8);
    buf.push(((v / 0x1_0000) % 256) as u8);
    buf.push(((v / 0x100_0000) % 256) as u8);
    proof {
        let n = v as nat;
        assert(le_bytes(n / 0x100_0000 / 256, 0) =~= Seq::<u8>::empty());
        assert(le_bytes(n / 0x100_0000, 1) =~= seq![((n / 0x100_0000) % 256) as u8]);
        assert(le_bytes(n / 0x1_0000, 2) =~= seq![((n / 0x1_0000) % 256) as u8] + le_bytes(
            n / 0x100_0000,
            1,
        ));
        assert(le_bytes(n / 256, 3) =~= seq![((n / 256) % 256) as u8] + le_bytes(n / 0x1_0000, 2));
        assert(le_bytes(n, 4) =~= seq![(n % 256) as u8] + le_bytes(n / 256, 3));
        assert(buf@ =~= old(buf)@ + le_bytes(n, 4));
    }
}

/// An eight-byte image splits into the images of the low and high
/// 32-bit halves.
proof fn lemma_le_bytes_split(v: nat)
    ensures
        le_bytes(v, 8) =~= le_bytes(v % 0x1_0000_0000, 4) + le_bytes(v / 0x1_0000_0000, 4),
{
    lemma_le_bytes_split_rec(v, 4);
    assert(pow256(0) == 1);
    assert(pow256(1) == 256);
    assert(pow256(2) == 0x1_0000);
    assert(pow256(3) == 0x100_0000);
    assert(pow256(4) == 0x1_0000_0000);
}

/// Peeling `k` bytes off a `k + 4` byte image leaves the image of the
/// value shifted right by `k` bytes; the first `k` bytes agree with the
/// image of the value reduced modulo `256^k`.
proof fn lemma_le_bytes_split_rec(v: nat, k: nat)
    ensures
        le_bytes(v, k + 4) =~= le_bytes(v % pow256(k), k) + le_bytes(v / pow256(k), 4),
    decreases k,
{
    lemma_pow256_pos(k);
    if k == 0 {
        assert(pow256(0) == 1);
        assert(v % 1 == 0) by {
            vstd::arithmetic::div_mod::lemma_mod_multiples_basic(v as int, 1);
            assert((v as int) * 1 == v as int);
        }
        assert(v / 1 == v) by {
            vstd::arithmetic::div_mod::lemma_div_basics(v as int);
        }
        assert(le_bytes(v % 1, 0) =~= Seq::<u8>::empty());
    } else {
        let km1 = (k - 1) as nat;
        let p = pow256(km1);
        lemma_pow256_pos(km1);
        lemma_le_bytes_split_rec(v / 256, km1);
        lemma_breakdown(v as int, 256, p as int);
        assert(256 * p == pow256(k));
        assert((v % pow256(k)) % 256 == v % 256) by {
            lemma_breakdown(v as int, 256, p as int);
            vstd::arithmetic::div_mod::lemma_mod_multiples_vanish(
                ((v as int / 256) % p as int),
                v as int % 256,
                256,
            );
            lemma_small_mod(v % 256, 256);
        }
        assert((v % pow256(k)) / 256 == (v / 256) % p) by {
            lemma_breakdown(v as int, 256, p as int);
            vstd::arithmetic::div_mod::lemma_div_multiples_vanish_fancy(
                ((v as int / 256) % p as int),
                v as int % 256,
                256,
            );
        }
        assert((v / 256) / p == v / pow256(k)) by {
            vstd::arithmetic::div_mod::lemma_div_denominator(v as int, 256, p as int);
        }
        assert(le_bytes(v % pow256(k), k) =~= seq![(v % 256) as u8] + le_bytes(
            (v / 256) % p,
            km1,
        ));
        assert(le_bytes(v, k + 4) =~= seq![(v % 256) as u8] + le_bytes(v / 256, km1 + 4));
    }
}

} // verus!
