//! Account framing: a record stored in an account is preceded by the eight bytes
//! that identify its type.
//!
//! Decoding rejects an account whose reserved regions are not zero: such bytes
//! were not written by this layout version.

use crate::layout::Layout;
use crate::le::zeros;
use vstd::prelude::*;

verus! {

/// Number of bytes of the type discriminator at the front of an account.
pub const DISCRIMINATOR_LEN: usize = 8;

/// Why bytes could not be read as a record.
#[derive(Clone, Copy, Debug, PartialEq, Eq)]
pub enum CodecError {
    /// Wrong length, or the discriminator is that of another type.
    LayoutMismatch,
    /// A reserved region holds a non-zero byte.
    CorruptRecord,
}

/// Every element of `s` is `v`.
pub open spec fn filled_with<T>(s: Seq<T>, v: T) -> bool {
    forall|i: int| 0 <= i < s.len() ==> s[i] == v
}

/// A record type that is stored in an account of its own.
pub trait Record: Layout {
    /// The eight bytes that identify the type.
    spec fn spec_discriminator() -> Seq<u8>;

    /// Every reserved region of the record holds zero.
    spec fn padding_is_zero(&self) -> bool;

    /// A discriminator has eight bytes, not all of them zero.
    proof fn lemma_discriminator()
        ensures
            Self::spec_discriminator().len() == 8,
            Self::spec_discriminator() != zeros(8),
    ;

    /// The reserved regions of the zero record are zero.
    proof fn lemma_zeroed_padding()
        ensures
            Self::spec_zeroed().padding_is_zero(),
    ;

    fn discriminator() -> (d: [u8; 8])
        ensures
            d@ == Self::spec_discriminator(),
    ;

    fn has_zero_padding(&self) -> (b: bool)
        ensures
            b == self.padding_is_zero(),
    ;
}

/// The bytes of an account holding `r`: the discriminator, then the record.
pub open spec fn spec_encode_account<R: Record>(r: R) -> Seq<u8> {
    R::spec_discriminator() + r.spec_encode()
}

/// The bytes are as long as an account of `R` and start with its discriminator.
pub open spec fn is_framed<R: Record>(bytes: Seq<u8>) -> bool {
    &&& bytes.len() == 8 + R::spec_size()
    &&& bytes.subrange(0, 8) == R::spec_discriminator()
}

/// What reading `bytes` as an account of `R` gives.
pub open spec fn spec_decode_account<R: Record>(bytes: Seq<u8>) -> Result<R, CodecError> {
    if !is_framed::<R>(bytes) {
        Err(CodecError::LayoutMismatch)
    } else {
        let r = R::spec_decode(bytes.subrange(8, bytes.len() as int));
        if r.padding_is_zero() {
            Ok(r)
        } else {
            Err(CodecError::CorruptRecord)
        }
    }
}

/// Encoding then decoding gives the record back, provided its reserved regions are
/// zero; otherwise the decoder reports the record as corrupt.
pub proof fn lemma_account_round_trip<R: Record>(r: R)
    ensures
        r.padding_is_zero() ==> spec_decode_account::<R>(spec_encode_account(r)) == Ok::<
            R,
            CodecError,
        >(r),
        !r.padding_is_zero() ==> spec_decode_account::<R>(spec_encode_account(r)) == Err::<
            R,
            CodecError,
        >(CodecError::CorruptRecord),
{
    let bytes = spec_encode_account(r);
    R::lemma_discriminator();
    r.lemma_encode_len();
    r.lemma_decode_encode();
    assert(bytes.subrange(0, 8) =~= R::spec_discriminator());
    assert(bytes.subrange(8, bytes.len() as int) =~= r.spec_encode());
}

/// Bytes that decode to a record are exactly the encoding of that record.
pub proof fn lemma_decoded_bytes<R: Record>(bytes: Seq<u8>)
    requires
        spec_decode_account::<R>(bytes) is Ok,
    ensures
        spec_encode_account(spec_decode_account::<R>(bytes)->Ok_0) == bytes,
        spec_decode_account::<R>(bytes)->Ok_0.padding_is_zero(),
{
    let body = bytes.subrange(8, bytes.len() as int);
    R::lemma_encode_decode(body);
    assert(spec_encode_account(R::spec_decode(body)) =~= bytes);
}

/// Storage that still starts with eight zero bytes holds no record of any type.
pub proof fn lemma_blank_is_no_record<R: Record>(bytes: Seq<u8>)
    requires
        bytes.len() >= 8,
        bytes.subrange(0, 8) == zeros(8),
    ensures
        spec_decode_account::<R>(bytes) == Err::<R, CodecError>(CodecError::LayoutMismatch),
{
    R::lemma_discriminator();
}

/// The bytes of an account holding `r`.
pub fn encode_account<R: Record>(r: &R) -> (bytes: Vec<u8>)
    ensures
        bytes@ == spec_encode_account(*r),
{
    let d = R::discriminator();
    let mut bytes: Vec<u8> = Vec::new();
    let mut i: usize = 0;
    while i < 8
        invariant
            i <= 8,
            d@ == R::spec_discriminator(),
            d@.len() == 8,
            bytes@ == d@.take(i as int),
        decreases 8 - i,
    {
        bytes.push(d[i]);
        assert(bytes@ =~= d@.take(i + 1));
        i += 1;
    }
    assert(d@.take(8) =~= d@);
    r.encode_into(&mut bytes);
    bytes
}

/// Reads an account of `R`.
pub fn decode_account<R: Record>(bytes: &[u8]) -> (res: Result<R, CodecError>)
    requires
        8 + R::spec_size() <= usize::MAX,
    ensures
        res == spec_decode_account::<R>(bytes@),
{
    let size = R::size();
    if bytes.len() != 8 + size {
        return Err(CodecError::LayoutMismatch);
    }
    let d = R::discriminator();
    let mut i: usize = 0;
    while i < 8
        invariant
            i <= 8,
            bytes@.len() == 8 + size,
            d@ == R::spec_discriminator(),
            d@.len() == 8,
            forall|j: int| 0 <= j < i ==> bytes@[j] == d@[j],
        decreases 8 - i,
    {
        if bytes[i] != d[i] {
            assert(bytes@.subrange(0, 8)[i as int] != d@[i as int]);
            return Err(CodecError::LayoutMismatch);
        }
        i += 1;
    }
    assert(bytes@.subrange(0, 8) =~= d@);
    let r = R::decode_at(bytes, 8);
    if r.has_zero_padding() {
        Ok(r)
    } else {
        Err(CodecError::CorruptRecord)
    }
}

/// Whether every element is zero.
pub fn is_zero_u8<const N: usize>(a: &[u8; N]) -> (b: bool)
    ensures
        b == filled_with(a@, 0u8),
{
    let mut i: usize = 0;
    while i < N
        invariant
            i <= N,
            a@.len() == N,
            forall|j: int| 0 <= j < i ==> a@[j] == 0u8,
        decreases N - i,
    {
        if a[i] != 0 {
            return false;
        }
        i += 1;
    }
    true
}

/// Whether every element is zero.
pub fn is_zero_u64<const N: usize>(a: &[u64; N]) -> (b: bool)
    ensures
        b == filled_with(a@, 0u64),
{
    let mut i: usize = 0;
    while i < N
        invariant
            i <= N,
            a@.len() == N,
            forall|j: int| 0 <= j < i ==> a@[j] == 0u64,
        decreases N - i,
    {
        if a[i] != 0 {
            return false;
        }
        i += 1;
    }
    true
}

/// Whether every element is zero.
pub fn is_zero_u128<const N: usize>(a: &[u128; N]) -> (b: bool)
    ensures
        b == filled_with(a@, 0u128),
{
    let mut i: usize = 0;
    while i < N
        invariant
            i <= N,
            a@.len() == N,
            forall|j: int| 0 <= j < i ==> a@[j] == 0u128,
        decreases N - i,
    {
        if a[i] != 0 {
            return false;
        }
        i += 1;
    }
    true
}

} // verus!
