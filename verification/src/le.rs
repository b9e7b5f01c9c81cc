//! Little-endian numbers as bytes.

use vstd::prelude::*;

verus! {

/// 256 to the power `n`.
pub open spec fn pow256(n: nat) -> nat
    decreases n,
{
    if n == 0 {
        1
    } else {
        256 * pow256((n - 1) as nat)
    }
}

/// The `n` low-order base-256 digits of `v`, least significant first.
pub open spec fn le_bytes(v: nat, n: nat) -> Seq<u8>
    decreases n,
{
    if n == 0 {
        Seq::empty()
    } else {
        seq![(v % 256) as u8] + le_bytes(v / 256, (n - 1) as nat)
    }
}

/// The number whose base-256 digits, least significant first, are `b`.
pub open spec fn le_value(b: Seq<u8>) -> nat
    decreases b.len(),
{
    if b.len() == 0 {
        0
    } else {
        b[0] as nat + 256 * le_value(b.drop_first())
    }
}

/// `n` zero bytes.
pub open spec fn zeros(n: nat) -> Seq<u8> {
    Seq::new(n, |i: int| 0u8)
}

/// The powers of 256 at the widths of the machine integers.
pub proof fn lemma_pow256_values()
    ensures
        pow256(1) == 0x100,
        pow256(2) == 0x1_0000,
        pow256(4) == 0x1_0000_0000,
        pow256(8) == 0x1_0000_0000_0000_0000,
        pow256(15) == 0x1_00_0000_0000_0000_0000_0000_0000_0000,
        pow256(16) == 0x1_0000_0000_0000_0000_0000_0000_0000_0000,
{
    reveal_with_fuel(pow256, 17);
}

/// A number is written with exactly as many digits as asked for.
pub proof fn lemma_le_bytes_len(v: nat, n: nat)
    ensures
        le_bytes(v, n).len() == n,
    decreases n,
{
    if n > 0 {
        lemma_le_bytes_len(v / 256, (n - 1) as nat);
    }
}

/// The value of `n` digits is below `256^n`.
pub proof fn lemma_le_value_bound(b: Seq<u8>)
    ensures
        le_value(b) < pow256(b.len()),
    decreases b.len(),
{
    if b.len() > 0 {
        lemma_le_value_bound(b.drop_first());
    }
}

/// A number below `256^n` is recovered from its `n` digits.
pub proof fn lemma_le_value_of_bytes(v: nat, n: nat)
    requires
        v < pow256(n),
    ensures
        le_value(le_bytes(v, n)) == v,
    decreases n,
{
    lemma_le_bytes_len(v, n);
    if n > 0 {
        let rest = le_bytes(v / 256, (n - 1) as nat);
        assert(le_bytes(v, n).drop_first() =~= rest);
        lemma_le_value_of_bytes(v / 256, (n - 1) as nat);
    }
}

/// Any byte string is the digit string of its value.
pub proof fn lemma_le_bytes_of_value(b: Seq<u8>)
    ensures
        le_bytes(le_value(b), b.len()) == b,
    decreases b.len(),
{
    if b.len() > 0 {
        let v = le_value(b);
        let tail = b.drop_first();
        lemma_le_bytes_of_value(tail);
        assert(v % 256 == b[0] as nat);
        assert(v / 256 == le_value(tail));
        assert(le_bytes(v, b.len()) =~= b);
    } else {
        assert(le_bytes(le_value(b), b.len()) =~= b);
    }
}

/// Zero is written as zero bytes.
pub proof fn lemma_le_bytes_zero(n: nat)
    ensures
        le_bytes(0, n) == zeros(n),
    decreases n,
{
    lemma_le_bytes_len(0, n);
    if n > 0 {
        lemma_le_bytes_zero((n - 1) as nat);
        assert(le_bytes(0, n) =~= zeros(n));
    } else {
        assert(le_bytes(0, n) =~= zeros(n));
    }
}

/// Powers of 256 grow with the exponent.
pub proof fn lemma_pow256_monotonic(a: nat, b: nat)
    requires
        a <= b,
    ensures
        pow256(a) <= pow256(b),
    decreases b,
{
    if a < b {
        lemma_pow256_monotonic(a, (b - 1) as nat);
    }
}

/// Appends the `n` low-order bytes of `v` to `out`, least significant first.
pub fn put_le(out: &mut Vec<u8>, v: u128, n: usize)
    ensures
        final(out)@ == old(out)@ + le_bytes(v as nat, n as nat),
{
    let mut rest: u128 = v;
    let mut k: usize = 0;
    while k < n
        invariant
            k <= n,
            old(out)@ + le_bytes(v as nat, n as nat) == out@ + le_bytes(rest as nat, (n - k) as nat),
        decreases n - k,
    {
        let ghost before = out@;
        out.push((rest % 256) as u8);
        proof {
            assert(before + le_bytes(rest as nat, (n - k) as nat) =~= out@ + le_bytes(
                (rest / 256) as nat,
                (n - k - 1) as nat,
            ));
        }
        rest = rest / 256;
        k += 1;
    }
    assert(out@ + le_bytes(rest as nat, 0) =~= out@);
}

/// Reads the `n`-byte number stored at offset `at` of `bytes`.
pub fn get_le(bytes: &[u8], at: usize, n: usize) -> (v: u128)
    requires
        n <= 16,
        at + n <= bytes@.len(),
    ensures
        v == le_value(bytes@.subrange(at as int, at + n)),
{
    let ghost field = bytes@.subrange(at as int, at + n);
    let len = bytes.len();
    let mut v: u128 = 0;
    let mut k: usize = n;
    assert(field.subrange(n as int, n as int) =~= Seq::<u8>::empty());
    while k > 0
        invariant
            k <= n <= 16,
            at + n <= bytes@.len() == len,
            field == bytes@.subrange(at as int, at + n),
            v == le_value(field.subrange(k as int, n as int)),
        decreases k,
    {
        let ghost upper = field.subrange(k as int, n as int);
        let ghost next = field.subrange(k - 1, n as int);
        proof {
            lemma_le_value_bound(upper);
            lemma_pow256_monotonic(upper.len(), 15);
            lemma_pow256_values();
            assert(next.drop_first() =~= upper);
        }
        k -= 1;
        v = v * 256 + bytes[at + k] as u128;
    }
    assert(field.subrange(0, n as int) =~= field);
    v
}

} // verus!
