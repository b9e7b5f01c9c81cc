//! Fixed-width byte layouts.
//!
//! Every value stored in a record occupies a fixed number of bytes, numbers in
//! little-endian order, and a composite value is the concatenation of its parts
//! in declaration order. The [`Layout`] trait states this for one type: what its
//! bytes are, how a value is read back from them, and that the two are inverse.

use crate::le::{
    get_le, le_bytes, le_value, lemma_le_bytes_len, lemma_le_bytes_of_value, lemma_le_bytes_zero,
    lemma_le_value_bound, lemma_le_value_of_bytes, lemma_pow256_values, put_le, zeros,
};
use vstd::prelude::*;

verus! {

/// A type whose values occupy a fixed number of bytes.
pub trait Layout: Sized {
    /// Number of bytes a value occupies.
    spec fn spec_size() -> nat;

    /// The bytes of a value.
    spec fn spec_encode(&self) -> Seq<u8>;

    /// The value held by `bytes`; meaningful when `bytes` has `spec_size()` bytes.
    spec fn spec_decode(bytes: Seq<u8>) -> Self;

    /// The value all of whose bytes are zero.
    spec fn spec_zeroed() -> Self;

    /// An encoding always has exactly `spec_size()` bytes.
    proof fn lemma_encode_len(&self)
        ensures
            self.spec_encode().len() == Self::spec_size(),
    ;

    /// Decoding the bytes of a value gives the value back.
    proof fn lemma_decode_encode(&self)
        ensures
            Self::spec_decode(self.spec_encode()) == *self,
    ;

    /// Every string of `spec_size()` bytes is the encoding of the value it decodes to.
    proof fn lemma_encode_decode(bytes: Seq<u8>)
        requires
            bytes.len() == Self::spec_size(),
        ensures
            Self::spec_decode(bytes).spec_encode() == bytes,
    ;

    /// The zero value is the one written as zero bytes.
    proof fn lemma_zeroed()
        ensures
            Self::spec_zeroed().spec_encode() == zeros(Self::spec_size()),
    ;

    /// The size as a machine number, where it fits in one.
    fn size() -> (n: usize)
        requires
            Self::spec_size() <= usize::MAX,
        ensures
            n == Self::spec_size(),
    ;

    /// The value all of whose bytes are zero.
    fn zeroed() -> (r: Self)
        ensures
            r == Self::spec_zeroed(),
    ;

    /// Appends the bytes of `self` to `out`.
    fn encode_into(&self, out: &mut Vec<u8>)
        ensures
            final(out)@ == old(out)@ + self.spec_encode(),
    ;

    /// Reads the value stored at offset `at` of `bytes`.
    fn decode_at(bytes: &[u8], at: usize) -> (r: Self)
        requires
            at + Self::spec_size() <= bytes@.len(),
        ensures
            r == Self::spec_decode(bytes@.subrange(at as int, at + Self::spec_size())),
    ;
}

impl Layout for u8 {
    open spec fn spec_size() -> nat {
        1
    }

    open spec fn spec_encode(&self) -> Seq<u8> {
        seq![*self]
    }

    open spec fn spec_decode(bytes: Seq<u8>) -> Self {
        bytes[0]
    }

    open spec fn spec_zeroed() -> Self {
        0
    }

    proof fn lemma_encode_len(&self) {
    }

    proof fn lemma_decode_encode(&self) {
    }

    proof fn lemma_encode_decode(bytes: Seq<u8>) {
        assert(Self::spec_decode(bytes).spec_encode() =~= bytes);
    }

    proof fn lemma_zeroed() {
        assert(seq![0u8] =~= zeros(1));
    }

    fn size() -> (n: usize) {
        1
    }

    fn zeroed() -> (r: Self) {
        0
    }

    fn encode_into(&self, out: &mut Vec<u8>) {
        out.push(*self);
    }

    fn decode_at(bytes: &[u8], at: usize) -> (r: Self) {
        bytes[at]
    }
}

impl Layout for u16 {
    open spec fn spec_size() -> nat {
        2
    }

    open spec fn spec_encode(&self) -> Seq<u8> {
        le_bytes(*self as nat, 2)
    }

    open spec fn spec_decode(bytes: Seq<u8>) -> Self {
        le_value(bytes) as u16
    }

    open spec fn spec_zeroed() -> Self {
        0
    }

    proof fn lemma_encode_len(&self) {
        lemma_le_bytes_len(*self as nat, 2);
    }

    proof fn lemma_decode_encode(&self) {
        lemma_pow256_values();
        lemma_le_value_of_bytes(*self as nat, 2);
    }

    proof fn lemma_encode_decode(bytes: Seq<u8>) {
        lemma_pow256_values();
        lemma_le_value_bound(bytes);
        lemma_le_bytes_of_value(bytes);
    }

    proof fn lemma_zeroed() {
        lemma_le_bytes_zero(2);
    }

    fn size() -> (n: usize) {
        2
    }

    fn zeroed() -> (r: Self) {
        0
    }

    fn encode_into(&self, out: &mut Vec<u8>) {
        put_le(out, *self as u128, 2);
    }

    fn decode_at(bytes: &[u8], at: usize) -> (r: Self) {
        proof {
            lemma_pow256_values();
            lemma_le_value_bound(bytes@.subrange(at as int, at + 2));
        }
        get_le(bytes, at, 2) as u16
    }
}

impl Layout for u32 {
    open spec fn spec_size() -> nat {
        4
    }

    open spec fn spec_encode(&self) -> Seq<u8> {
        le_bytes(*self as nat, 4)
    }

    open spec fn spec_decode(bytes: Seq<u8>) -> Self {
        le_value(bytes) as u32
    }

    open spec fn spec_zeroed() -> Self {
        0
    }

    proof fn lemma_encode_len(&self) {
        lemma_le_bytes_len(*self as nat, 4);
    }

    proof fn lemma_decode_encode(&self) {
        lemma_pow256_values();
        lemma_le_value_of_bytes(*self as nat, 4);
    }

    proof fn lemma_encode_decode(bytes: Seq<u8>) {
        lemma_pow256_values();
        lemma_le_value_bound(bytes);
        lemma_le_bytes_of_value(bytes);
    }

    proof fn lemma_zeroed() {
        lemma_le_bytes_zero(4);
    }

    fn size() -> (n: usize) {
        4
    }

    fn zeroed() -> (r: Self) {
        0
    }

    fn encode_into(&self, out: &mut Vec<u8>) {
        put_le(out, *self as u128, 4);
    }

    fn decode_at(bytes: &[u8], at: usize) -> (r: Self) {
        proof {
            lemma_pow256_values();
            lemma_le_value_bound(bytes@.subrange(at as int, at + 4));
        }
        get_le(bytes, at, 4) as u32
    }
}

impl Layout for u64 {
    open spec fn spec_size() -> nat {
        8
    }

    open spec fn spec_encode(&self) -> Seq<u8> {
        le_bytes(*self as nat, 8)
    }

    open spec fn spec_decode(bytes: Seq<u8>) -> Self {
        le_value(bytes) as u64
    }

    open spec fn spec_zeroed() -> Self {
        0
    }

    proof fn lemma_encode_len(&self) {
        lemma_le_bytes_len(*self as nat, 8);
    }

    proof fn lemma_decode_encode(&self) {
        lemma_pow256_values();
        lemma_le_value_of_bytes(*self as nat, 8);
    }

    proof fn lemma_encode_decode(bytes: Seq<u8>) {
        lemma_pow256_values();
        lemma_le_value_bound(bytes);
        lemma_le_bytes_of_value(bytes);
    }

    proof fn lemma_zeroed() {
        lemma_le_bytes_zero(8);
    }

    fn size() -> (n: usize) {
        8
    }

    fn zeroed() -> (r: Self) {
        0
    }

    fn encode_into(&self, out: &mut Vec<u8>) {
        put_le(out, *self as u128, 8);
    }

    fn decode_at(bytes: &[u8], at: usize) -> (r: Self) {
        proof {
            lemma_pow256_values();
            lemma_le_value_bound(bytes@.subrange(at as int, at + 8));
        }
        get_le(bytes, at, 8) as u64
    }
}

impl Layout for u128 {
    open spec fn spec_size() -> nat {
        16
    }

    open spec fn spec_encode(&self) -> Seq<u8> {
        le_bytes(*self as nat, 16)
    }

    open spec fn spec_decode(bytes: Seq<u8>) -> Self {
        le_value(bytes) as u128
    }

    open spec fn spec_zeroed() -> Self {
        0
    }

    proof fn lemma_encode_len(&self) {
        lemma_le_bytes_len(*self as nat, 16);
    }

    proof fn lemma_decode_encode(&self) {
        lemma_pow256_values();
        lemma_le_value_of_bytes(*self as nat, 16);
    }

    proof fn lemma_encode_decode(bytes: Seq<u8>) {
        lemma_pow256_values();
        lemma_le_value_bound(bytes);
        lemma_le_bytes_of_value(bytes);
    }

    proof fn lemma_zeroed() {
        lemma_le_bytes_zero(16);
    }

    fn size() -> (n: usize) {
        16
    }

    fn zeroed() -> (r: Self) {
        0
    }

    fn encode_into(&self, out: &mut Vec<u8>) {
        put_le(out, *self, 16);
    }

    fn decode_at(bytes: &[u8], at: usize) -> (r: Self) {
        get_le(bytes, at, 16)
    }
}

/// Values with the same bytes are the same value.
pub proof fn lemma_encode_injective<T: Layout>(a: T, b: T)
    requires
        a.spec_encode() == b.spec_encode(),
    ensures
        a == b,
{
    a.lemma_decode_encode();
    b.lemma_decode_encode();
}

/// Reading inside a window of `s` is reading `s` at the shifted offsets.
pub proof fn lemma_window(s: Seq<u8>, at: int, n: int)
    requires
        0 <= at,
        0 <= n,
        at + n <= s.len(),
    ensures
        forall|a: int, b: int|
            0 <= a <= b <= n ==> #[trigger] s.subrange(at, at + n).subrange(a, b) == s.subrange(
                at + a,
                at + b,
            ),
{
    assert forall|a: int, b: int| 0 <= a <= b <= n implies #[trigger] s.subrange(
        at,
        at + n,
    ).subrange(a, b) == s.subrange(at + a, at + b) by {
        assert(s.subrange(at, at + n).subrange(a, b) =~= s.subrange(at + a, at + b));
    }
}

/// The unsigned 64-bit number with the same bits as `v` (two's complement).
pub open spec fn twos_complement(v: i64) -> nat {
    if v < 0 {
        (v + 0x1_0000_0000_0000_0000) as nat
    } else {
        v as nat
    }
}

/// The signed number with the same bits as `u`, for `u` below `2^64`.
pub open spec fn from_twos_complement(u: nat) -> i64 {
    if u >= 0x8000_0000_0000_0000 {
        (u - 0x1_0000_0000_0000_0000) as i64
    } else {
        u as i64
    }
}

impl Layout for i64 {
    open spec fn spec_size() -> nat {
        8
    }

    open spec fn spec_encode(&self) -> Seq<u8> {
        le_bytes(twos_complement(*self), 8)
    }

    open spec fn spec_decode(bytes: Seq<u8>) -> Self {
        from_twos_complement(le_value(bytes))
    }

    open spec fn spec_zeroed() -> Self {
        0
    }

    proof fn lemma_encode_len(&self) {
        lemma_le_bytes_len(twos_complement(*self), 8);
    }

    proof fn lemma_decode_encode(&self) {
        lemma_pow256_values();
        lemma_le_value_of_bytes(twos_complement(*self), 8);
    }

    proof fn lemma_encode_decode(bytes: Seq<u8>) {
        lemma_pow256_values();
        lemma_le_value_bound(bytes);
        lemma_le_bytes_of_value(bytes);
    }

    proof fn lemma_zeroed() {
        lemma_le_bytes_zero(8);
    }

    fn size() -> (n: usize) {
        8
    }

    fn zeroed() -> (r: Self) {
        0
    }

    fn encode_into(&self, out: &mut Vec<u8>) {
        let v = *self;
        let u: u64 = if v < 0 {
            ((v + i64::MAX) + 1) as u64 + 0x8000_0000_0000_0000u64
        } else {
            v as u64
        };
        put_le(out, u as u128, 8);
    }

    fn decode_at(bytes: &[u8], at: usize) -> (r: Self) {
        proof {
            lemma_pow256_values();
            lemma_le_value_bound(bytes@.subrange(at as int, at + 8));
        }
        let u = get_le(bytes, at, 8) as u64;
        if u >= 0x8000_0000_0000_0000u64 {
            (u - 0x8000_0000_0000_0000u64) as i64 + i64::MIN
        } else {
            u as i64
        }
    }
}

} // verus!
