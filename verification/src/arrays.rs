//! Layout of fixed-length arrays: the elements one after another.

use crate::layout::Layout;
use crate::le::zeros;
use vstd::array::{spec_array_fill_for_copy_type, spec_array_update};
use vstd::prelude::*;

verus! {

/// The bytes of the elements of `s`, in order.
pub open spec fn encode_seq<T: Layout>(s: Seq<T>) -> Seq<u8>
    decreases s.len(),
{
    if s.len() == 0 {
        Seq::empty()
    } else {
        encode_seq(s.drop_last()) + s.last().spec_encode()
    }
}

/// The `n` elements stored one after another at the start of `bytes`.
pub open spec fn decode_seq<T: Layout>(bytes: Seq<u8>, n: nat) -> Seq<T> {
    Seq::new(
        n,
        |i: int| T::spec_decode(bytes.subrange(i * T::spec_size(), (i + 1) * T::spec_size())),
    )
}

/// The array whose first `k` elements are those of `s`.
pub open spec fn array_from<T: Copy, const N: usize>(s: Seq<T>, k: nat) -> [T; N]
    decreases k,
{
    if k == 0 {
        spec_array_fill_for_copy_type::<T, N>(s[0])
    } else {
        spec_array_update(array_from::<T, N>(s, (k - 1) as nat), k - 1, s[k - 1])
    }
}

pub proof fn lemma_array_from<T: Copy, const N: usize>(s: Seq<T>, k: nat)
    requires
        k <= N,
    ensures
        forall|i: int| 0 <= i < k ==> array_from::<T, N>(s, k)@[i] == s[i],
    decreases k,
{
    broadcast use vstd::array::group_array_axioms;

    if k > 0 {
        lemma_array_from::<T, N>(s, (k - 1) as nat);
    }
}

/// An array built from all `N` elements of a sequence has that sequence as its view.
pub proof fn lemma_array_from_view<T: Copy, const N: usize>(s: Seq<T>)
    requires
        s.len() == N,
    ensures
        array_from::<T, N>(s, N as nat)@ == s,
{
    broadcast use vstd::array::group_array_axioms;

    lemma_array_from::<T, N>(s, N as nat);
    assert(array_from::<T, N>(s, N as nat)@ =~= s);
}

pub proof fn lemma_encode_seq_len<T: Layout>(s: Seq<T>)
    ensures
        encode_seq(s).len() == s.len() * T::spec_size(),
    decreases s.len(),
{
    if s.len() > 0 {
        lemma_encode_seq_len(s.drop_last());
        s.last().lemma_encode_len();
        assert((s.len() - 1) * T::spec_size() + T::spec_size() == s.len() * T::spec_size())
            by (nonlinear_arith);
    }
}

/// Element `i` occupies bytes `i * size .. (i + 1) * size` of the encoding.
pub proof fn lemma_encode_seq_element<T: Layout>(s: Seq<T>, i: int)
    requires
        0 <= i < s.len(),
    ensures
        0 <= i * T::spec_size() <= (i + 1) * T::spec_size() <= encode_seq(s).len(),
        encode_seq(s).subrange(i * T::spec_size(), (i + 1) * T::spec_size())
            == s[i].spec_encode(),
    decreases s.len(),
{
    let sz = T::spec_size() as int;
    let head = s.drop_last();
    lemma_encode_seq_len(s);
    lemma_encode_seq_len(head);
    s.last().lemma_encode_len();
    assert(0 <= i * sz && (i + 1) * sz == i * sz + sz && (i + 1) * sz <= s.len() * sz
        && (s.len() - 1) * sz + sz == s.len() * sz) by (nonlinear_arith)
        requires
            0 <= i < s.len(),
            sz >= 0,
    ;
    if i == s.len() - 1 {
        assert(encode_seq(s).subrange(i * sz, (i + 1) * sz) =~= s[i].spec_encode());
    } else {
        lemma_encode_seq_element(head, i);
        assert((i + 1) * sz <= (s.len() - 1) * sz) by (nonlinear_arith)
            requires
                i + 1 <= s.len() - 1,
                sz >= 0,
        ;
        assert(encode_seq(s).subrange(i * sz, (i + 1) * sz) =~= encode_seq(head).subrange(
            i * sz,
            (i + 1) * sz,
        ));
    }
}

/// Decoding the bytes of a sequence gives the sequence back.
pub proof fn lemma_decode_encode_seq<T: Layout>(s: Seq<T>)
    ensures
        decode_seq::<T>(encode_seq(s), s.len()) == s,
{
    let d = decode_seq::<T>(encode_seq(s), s.len());
    assert forall|i: int| 0 <= i < s.len() implies d[i] == s[i] by {
        lemma_encode_seq_element(s, i);
        s[i].lemma_decode_encode();
    }
    assert(d =~= s);
}

/// Any string of `n * size` bytes is the encoding of the `n` elements it decodes to.
pub proof fn lemma_encode_decode_seq<T: Layout>(bytes: Seq<u8>, n: nat)
    requires
        bytes.len() == n * T::spec_size(),
    ensures
        encode_seq(decode_seq::<T>(bytes, n)) == bytes,
    decreases n,
{
    let sz = T::spec_size() as int;
    let d = decode_seq::<T>(bytes, n);
    if n == 0 {
        assert(n * T::spec_size() == 0) by (nonlinear_arith)
            requires
                n == 0,
        ;
        assert(encode_seq(d) =~= bytes);
    } else {
        assert((n - 1) * sz + sz == n * sz && 0 <= (n - 1) * sz) by (nonlinear_arith)
            requires
                n >= 1,
                sz >= 0,
        ;
        let front = bytes.subrange(0, (n - 1) * sz);
        let back = bytes.subrange((n - 1) * sz, n * sz);
        let df = decode_seq::<T>(front, (n - 1) as nat);
        assert forall|i: int| 0 <= i < n - 1 implies d.drop_last()[i] == df[i] by {
            assert(0 <= i * sz && (i + 1) * sz == i * sz + sz && (i + 1) * sz <= (n - 1) * sz)
                by (nonlinear_arith)
                requires
                    0 <= i < n - 1,
                    sz >= 0,
            ;
            assert(front.subrange(i * sz, (i + 1) * sz) =~= bytes.subrange(
                i * sz,
                (i + 1) * sz,
            ));
        }
        assert(d.drop_last() =~= df);
        lemma_encode_decode_seq::<T>(front, (n - 1) as nat);
        T::lemma_encode_decode(back);
        assert(d.last() == T::spec_decode(back));
        assert(encode_seq(d) =~= bytes);
    }
}

/// Elements that are all zero bytes make an encoding of zero bytes.
pub proof fn lemma_encode_seq_zeros<T: Layout>(s: Seq<T>)
    requires
        forall|i: int| 0 <= i < s.len() ==> (#[trigger] s[i]).spec_encode() == zeros(T::spec_size()),
    ensures
        encode_seq(s) == zeros(s.len() * T::spec_size()),
    decreases s.len(),
{
    lemma_encode_seq_len(s);
    if s.len() > 0 {
        lemma_encode_seq_zeros(s.drop_last());
        lemma_encode_seq_len(s.drop_last());
        assert(s.last() == s[s.len() - 1]);
    }
    assert(encode_seq(s) =~= zeros(s.len() * T::spec_size()));
}

/// Every element of the zero array is the zero element.
pub proof fn lemma_zeroed_elements<T: Layout + Copy, const N: usize>()
    ensures
        forall|i: int| 0 <= i < N ==> (#[trigger] <[T; N]>::spec_zeroed()@[i]) == T::spec_zeroed(),
{
    lemma_array_from_view::<T, N>(Seq::new(N as nat, |i: int| T::spec_zeroed()));
}

impl<T: Layout + Copy, const N: usize> Layout for [T; N] {
    open spec fn spec_size() -> nat {
        N as nat * T::spec_size()
    }

    open spec fn spec_encode(&self) -> Seq<u8> {
        encode_seq(self@)
    }

    open spec fn spec_decode(bytes: Seq<u8>) -> Self {
        array_from::<T, N>(decode_seq::<T>(bytes, N as nat), N as nat)
    }

    open spec fn spec_zeroed() -> Self {
        array_from::<T, N>(Seq::new(N as nat, |i: int| T::spec_zeroed()), N as nat)
    }

    proof fn lemma_encode_len(&self) {
        broadcast use vstd::array::group_array_axioms;

        lemma_encode_seq_len(self@);
    }

    proof fn lemma_decode_encode(&self) {
        broadcast use vstd::array::group_array_axioms;

        lemma_decode_encode_seq(self@);
        lemma_array_from_view::<T, N>(self@);
        assert(Self::spec_decode(self.spec_encode()) =~= *self);
    }

    proof fn lemma_encode_decode(bytes: Seq<u8>) {
        lemma_array_from_view::<T, N>(decode_seq::<T>(bytes, N as nat));
        lemma_encode_decode_seq::<T>(bytes, N as nat);
    }

    proof fn lemma_zeroed() {
        let s = Seq::new(N as nat, |i: int| T::spec_zeroed());
        lemma_array_from_view::<T, N>(s);
        T::lemma_zeroed();
        lemma_encode_seq_zeros(s);
    }

    fn size() -> (n: usize) {
        if N == 0 {
            0
        } else {
            assert(T::spec_size() <= N * T::spec_size()) by (nonlinear_arith)
                requires
                    N >= 1,
            ;
            N * T::size()
        }
    }

    fn zeroed() -> (r: Self) {
        broadcast use vstd::array::group_array_axioms;

        let r = [T::zeroed();N];
        proof {
            lemma_array_from_view::<T, N>(Seq::new(N as nat, |i: int| T::spec_zeroed()));
            assert(r =~= Self::spec_zeroed());
        }
        r
    }

    fn encode_into(&self, out: &mut Vec<u8>) {
        broadcast use vstd::array::group_array_axioms;

        let mut i: usize = 0;
        assert(old(out)@ + encode_seq(self@.take(0)) =~= old(out)@);
        while i < N
            invariant
                i <= N,
                out@ == old(out)@ + encode_seq(self@.take(i as int)),
            decreases N - i,
        {
            self[i].encode_into(out);
            proof {
                let next = self@.take(i + 1);
                assert(next.drop_last() =~= self@.take(i as int));
                assert(next.last() == self@[i as int]);
                assert(old(out)@ + encode_seq(next) =~= old(out)@ + encode_seq(
                    self@.take(i as int),
                ) + self@[i as int].spec_encode());
            }
            i += 1;
        }
        assert(self@.take(N as int) =~= self@);
    }

    fn decode_at(bytes: &[u8], at: usize) -> (r: Self) {
        broadcast use vstd::array::group_array_axioms;

        let len = bytes.len();
        let ghost sz = T::spec_size() as int;
        let ghost field = bytes@.subrange(at as int, at + N * sz);
        let mut r = [T::zeroed();N];
        let mut i: usize = 0;
        let mut pos: usize = at;
        while i < N
            invariant
                i <= N,
                sz == T::spec_size(),
                len == bytes@.len(),
                at + N * sz <= len,
                pos == at + i * sz,
                field == bytes@.subrange(at as int, at + N * sz),
                forall|j: int|
                    0 <= j < i ==> r@[j] == T::spec_decode(
                        field.subrange(j * sz, (j + 1) * sz),
                    ),
            decreases N - i,
        {
            proof {
                assert(0 <= i * sz && (i + 1) * sz == i * sz + sz && (i + 1) * sz <= N * sz
                    && sz <= N * sz) by (nonlinear_arith)
                    requires
                        0 <= i < N,
                        sz >= 0,
                ;
                assert(field.subrange(i * sz, (i + 1) * sz) =~= bytes@.subrange(
                    pos as int,
                    pos + sz,
                ));
            }
            let v = T::decode_at(bytes, pos);
            r[i] = v;
            pos = pos + T::size();
            i += 1;
        }
        proof {
            lemma_array_from_view::<T, N>(decode_seq::<T>(field, N as nat));
            assert(r =~= Self::spec_decode(field));
        }
        r
    }
}

} // verus!
