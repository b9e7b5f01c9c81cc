//! Account addresses.

use crate::arrays::{array_from, encode_seq, lemma_array_from_view};
use crate::layout::Layout;
use vstd::prelude::*;
use vstd::std_specs::cmp::PartialEqSpecImpl;

verus! {

/// Number of bytes in an address.
pub const ADDRESS_LEN: usize = 32;

/// The address of an account: 32 opaque bytes.
#[derive(Clone, Copy, Debug, Eq, Hash)]
pub struct Address {
    pub bytes: [u8; 32],
}

/// A sequence of bytes is its own encoding.
pub proof fn lemma_encode_bytes(s: Seq<u8>)
    ensures
        encode_seq(s) == s,
    decreases s.len(),
{
    if s.len() > 0 {
        lemma_encode_bytes(s.drop_last());
    }
    assert(encode_seq(s) =~= s);
}

impl Address {
    /// Two addresses with the same bytes are the same address.
    pub proof fn lemma_same_bytes(self, other: Address)
        requires
            self.bytes@ == other.bytes@,
        ensures
            self == other,
    {
        broadcast use vstd::array::group_array_axioms;

        assert(self.bytes =~= other.bytes);
    }

    /// The address with the given bytes.
    pub fn new(bytes: [u8; 32]) -> (r: Address)
        ensures
            r.bytes == bytes,
    {
        Address { bytes }
    }

    /// The bytes of the address as a vector.
    pub fn to_vec(&self) -> (v: Vec<u8>)
        ensures
            v@ == self.bytes@,
    {
        let mut v: Vec<u8> = Vec::new();
        self.encode_into(&mut v);
        assert(v@ =~= self.bytes@);
        v
    }
}

impl PartialEq for Address {
    fn eq(&self, other: &Address) -> (r: bool) {
        broadcast use vstd::array::group_array_axioms;

        let mut i: usize = 0;
        while i < 32
            invariant
                i <= 32,
                forall|j: int| 0 <= j < i ==> self.bytes[j] == other.bytes[j],
            decreases 32 - i,
        {
            if self.bytes[i] != other.bytes[i] {
                return false;
            }
            i += 1;
        }
        assert(self.bytes =~= other.bytes);
        true
    }
}

impl PartialEqSpecImpl for Address {
    open spec fn obeys_eq_spec() -> bool {
        true
    }

    open spec fn eq_spec(&self, other: &Address) -> bool {
        *self == *other
    }
}

impl Layout for Address {
    open spec fn spec_size() -> nat {
        32
    }

    open spec fn spec_encode(&self) -> Seq<u8> {
        self.bytes@
    }

    open spec fn spec_decode(bytes: Seq<u8>) -> Self {
        Address { bytes: array_from::<u8, 32>(bytes, 32) }
    }

    open spec fn spec_zeroed() -> Self {
        Address { bytes: <[u8; 32]>::spec_zeroed() }
    }

    proof fn lemma_encode_len(&self) {
        broadcast use vstd::array::group_array_axioms;

    }

    proof fn lemma_decode_encode(&self) {
        broadcast use vstd::array::group_array_axioms;

        lemma_array_from_view::<u8, 32>(self.bytes@);
        Self::spec_decode(self.spec_encode()).lemma_same_bytes(*self);
    }

    proof fn lemma_encode_decode(bytes: Seq<u8>) {
        lemma_array_from_view::<u8, 32>(bytes);
    }

    proof fn lemma_zeroed() {
        <[u8; 32]>::lemma_zeroed();
        lemma_encode_bytes(Self::spec_zeroed().bytes@);
    }

    fn size() -> (n: usize) {
        32
    }

    fn zeroed() -> (r: Self) {
        Address { bytes: <[u8; 32]>::zeroed() }
    }

    fn encode_into(&self, out: &mut Vec<u8>) {
        proof {
            lemma_encode_bytes(self.bytes@);
        }
        self.bytes.encode_into(out);
    }

    fn decode_at(bytes: &[u8], at: usize) -> (r: Self) {
        broadcast use vstd::array::group_array_axioms;

        let ghost field = bytes@.subrange(at as int, at + 32);
        let raw = <[u8; 32]>::decode_at(bytes, at);
        let r = Address { bytes: raw };
        proof {
            <[u8; 32]>::lemma_encode_decode(field);
            lemma_encode_bytes(raw@);
            lemma_array_from_view::<u8, 32>(field);
            r.lemma_same_bytes(Self::spec_decode(field));
        }
        r
    }
}

} // verus!
