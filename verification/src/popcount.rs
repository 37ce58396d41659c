//! The mathematical model of population counting: the bit count of a
//! natural number, its extension to sequences, and the laws the
//! counting kernel relies on.

use vstd::prelude::*;

verus! {

/// Number of one bits in the binary representation of `n`.
pub open spec fn pop_nat(n: nat) -> nat
    decreases n,
{
    if n == 0 {
        0
    } else {
        (n % 2) + pop_nat(n / 2)
    }
}

/// Total number of one bits across a sequence of bit patterns.
pub open spec fn pop_seq(s: Seq<nat>) -> nat
    decreases s.len(),
{
    if s.len() == 0 {
        0
    } else {
        pop_seq(s.drop_last()) + pop_nat(s.last())
    }
}

/// Counts the one bits of `x` by peeling them off the low end.
pub fn popcount_u64(x: u64) -> (r: u64)
    ensures
        r == pop_nat(x as nat),
{
    proof {
        vstd::arithmetic::power2::lemma2_to64();
        lemma_pop_nat_bound(x as nat, 64);
    }
    let mut n: u64 = x;
    let mut c: u64 = 0;
    while n != 0
        invariant
            c + pop_nat(n as nat) == pop_nat(x as nat),
            pop_nat(x as nat) <= 64,
        decreases n,
    {
        proof {
            assert(n & 1 == n % 2) by (bit_vector);
            assert(n >> 1 == n / 2) by (bit_vector);
        }
        c = c + (n & 1);
        n = n >> 1;
    }
    c
}

/// Law: the bit count distributes over concatenation. Splitting a
/// buffer anywhere and counting the two parts separately gives the
/// count of the whole, so chunked (and parallel) summation agrees
/// with sequential summation.
pub proof fn lemma_pop_seq_concat(a: Seq<nat>, b: Seq<nat>)
    ensures
        pop_seq(a + b) == pop_seq(a) + pop_seq(b),
    decreases b.len(),
{
    if b.len() == 0 {
        assert(a + b =~= a);
    } else {
        assert((a + b).drop_last() =~= a + b.drop_last());
        lemma_pop_seq_concat(a, b.drop_last());
    }
}

/// Total bit count of a partition, summed chunk by chunk.
pub open spec fn pop_chunks(cs: Seq<Seq<nat>>) -> nat
    decreases cs.len(),
{
    if cs.len() == 0 {
        0
    } else {
        pop_seq(cs.first()) + pop_chunks(cs.drop_first())
    }
}

/// Law: for any partition of a buffer into contiguous chunks, the sum
/// of the chunk counts equals the count of the whole buffer.
pub proof fn lemma_pop_seq_partition(cs: Seq<Seq<nat>>)
    ensures
        pop_seq(cs.flatten()) == pop_chunks(cs),
    decreases cs.len(),
{
    if cs.len() == 0 {
        assert(cs.flatten() =~= Seq::<nat>::empty());
    } else {
        lemma_pop_seq_partition(cs.drop_first());
        lemma_pop_seq_concat(cs.first(), cs.drop_first().flatten());
    }
}

/// Law: a sequence of all-zero patterns has bit count zero.
pub proof fn lemma_pop_seq_zero(s: Seq<nat>)
    requires
        forall|i: int| 0 <= i < s.len() ==> s[i] == 0,
    ensures
        pop_seq(s) == 0,
    decreases s.len(),
{
    if s.len() > 0 {
        lemma_pop_seq_zero(s.drop_last());
    }
}

/// A `w`-bit pattern with every bit set has exactly `w` one bits.
pub proof fn lemma_pop_nat_all_ones(w: nat)
    ensures
        pop_nat((vstd::arithmetic::power2::pow2(w) - 1) as nat) == w,
    decreases w,
{
    vstd::arithmetic::power2::lemma2_to64();
    if w > 0 {
        vstd::arithmetic::power2::lemma_pow2_unfold(w);
        vstd::arithmetic::power2::lemma_pow2_pos((w - 1) as nat);
        lemma_pop_nat_all_ones((w - 1) as nat);
    }
}

/// Law: a sequence of `n` patterns, each a `w`-bit pattern with every
/// bit set, has bit count `n * w`.
pub proof fn lemma_pop_seq_all_ones(s: Seq<nat>, w: nat)
    requires
        forall|i: int| 0 <= i < s.len() ==> s[i] == vstd::arithmetic::power2::pow2(w) - 1,
    ensures
        pop_seq(s) == s.len() * w,
    decreases s.len(),
{
    if s.len() == 0 {
    } else {
        lemma_pop_seq_all_ones(s.drop_last(), w);
        lemma_pop_nat_all_ones(w);
        assert((s.len() - 1) * w + w == s.len() * w) by (nonlinear_arith);
    }
}

/// A value below `pow2(w)` has at most `w` one bits.
pub proof fn lemma_pop_nat_bound(n: nat, w: nat)
    requires
        n < vstd::arithmetic::power2::pow2(w),
    ensures
        pop_nat(n) <= w,
    decreases w,
{
    if w == 0 {
        assert(vstd::arithmetic::power2::pow2(0) == 1) by {
            vstd::arithmetic::power2::lemma2_to64();
        }
    } else {
        vstd::arithmetic::power2::lemma_pow2_unfold(w);
        lemma_pop_nat_bound(n / 2, (w - 1) as nat);
    }
}

} // verus!
