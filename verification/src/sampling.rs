//! Picking from tables: uniform, weighted, and the hexadecimal identifiers
//! drawn from random bytes.
use rand_chacha::ChaCha8Rng;
use vstd::prelude::*;
use vstd::set_lib::*;
use vstd::utf8::is_ascii_chars;

use crate::rng::{gen_range_u32, gen_range_usize, random_bytes};
use crate::text::{hex_fixed, push_hex_fixed};

verus! {

/// `rng.gen_range(0..xs.len())`, then that element (panics on an empty slice).
pub fn pick<'a, T>(rng: &mut ChaCha8Rng, xs: &'a [T]) -> (r: &'a T)
    requires
        xs@.len() > 0,
    ensures
        exists|i: int| 0 <= i < xs@.len() && *r == xs@[i],
{
    let i = pick_index(rng, xs.len());
    &xs[i]
}

/// The index that `pick` picks from a slice of length `len`: one uniform
/// draw of `rng.gen_range(0..len)`. Which index comes out depends on the
/// generator's state, which Verus does not see, so the contract states what
/// holds of every draw.
pub fn pick_index(rng: &mut ChaCha8Rng, len: usize) -> (i: usize)
    requires
        len > 0,
    ensures
        i < len,
{
    gen_range_usize(rng, 0, len)
}

/// The sum of all weights.
pub open spec fn weight_total(w: Seq<u32>) -> nat
    decreases w.len(),
{
    if w.len() == 0 {
        0
    } else {
        weight_total(w.drop_last()) + w.last() as nat
    }
}

/// The draws `r` that select slot `i`: `[w[0] + .. + w[i-1], w[0] + .. + w[i])`.
pub open spec fn in_slot(w: Seq<u32>, i: int, r: int) -> bool {
    weight_total(w.take(i)) <= r < weight_total(w.take(i + 1))
}

pub proof fn lemma_weight_total_step(w: Seq<u32>, i: int)
    requires
        0 <= i < w.len(),
    ensures
        weight_total(w.take(i + 1)) == weight_total(w.take(i)) + w[i],
{
    assert(w.take(i + 1).drop_last() =~= w.take(i));
}

pub proof fn lemma_weight_total_mono(w: Seq<u32>, i: int, j: int)
    requires
        0 <= i <= j <= w.len(),
    ensures
        weight_total(w.take(i)) <= weight_total(w.take(j)),
    decreases j - i,
{
    if i < j {
        lemma_weight_total_mono(w, i, j - 1);
        lemma_weight_total_step(w, j - 1);
    }
}

/// The slot that draw `r` lands in, by walking the weights: the first `i`
/// with `r < w[0] + .. + w[i]`.
pub fn weighted_index(weights: &[u32], r: u32) -> (i: usize)
    requires
        r < weight_total(weights@),
    ensures
        i < weights@.len(),
        in_slot(weights@, i as int, r as int),
{
    let mut rem = r;
    let mut i: usize = 0;
    assert(weights@.take(weights@.len() as int) =~= weights@);
    while i < weights.len()
        invariant
            i <= weights@.len(),
            rem + weight_total(weights@.take(i as int)) == r,
            r < weight_total(weights@),
            weights@.take(weights@.len() as int) == weights@,
        decreases weights@.len() - i,
    {
        proof {
            lemma_weight_total_step(weights@, i as int);
        }
        if rem < weights[i] {
            return i;
        }
        rem = rem - weights[i];
        i = i + 1;
    }
    // Unreachable: the draw lies below the sum of all weights.
    assert(false);
    weights.len() - 1
}

/// Weighted pick: `weights[i]` is the relative probability of `xs[i]`.
/// The slices have one length and the weights a positive sum that fits in
/// `u32` (`gen_range` panics on an empty range).
pub fn weighted_pick<'a, T>(rng: &mut ChaCha8Rng, xs: &'a [T], weights: &[u32]) -> (r: &'a T)
    requires
        xs@.len() == weights@.len(),
        0 < weight_total(weights@) <= u32::MAX,
    ensures
        exists|d: int, i: int|
            0 <= d < weight_total(weights@) && 0 <= i < xs@.len() && in_slot(weights@, i, d)
                && *r == xs@[i],
{
    let i = weighted_pick_index(rng, weights);
    &xs[i]
}

/// The index that `weighted_pick` picks: a draw `d` below the weight total,
/// then the slot it lands in.
pub fn weighted_pick_index(rng: &mut ChaCha8Rng, weights: &[u32]) -> (i: usize)
    requires
        0 < weight_total(weights@) <= u32::MAX,
    ensures
        i < weights@.len(),
        exists|d: int| 0 <= d < weight_total(weights@) && in_slot(weights@, i as int, d),
{
    let total = weights_sum(weights);
    let d = gen_range_u32(rng, 0, total);
    weighted_index(weights, d)
}

/// `weights.iter().sum()`.
pub fn weights_sum(weights: &[u32]) -> (t: u32)
    requires
        weight_total(weights@) <= u32::MAX,
    ensures
        t == weight_total(weights@),
{
    let mut t: u32 = 0;
    let mut i: usize = 0;
    assert(weights@.take(weights@.len() as int) =~= weights@);
    while i < weights.len()
        invariant
            i <= weights@.len(),
            t == weight_total(weights@.take(i as int)),
            weight_total(weights@) <= u32::MAX,
            weights@.take(weights@.len() as int) == weights@,
        decreases weights@.len() - i,
    {
        proof {
            lemma_weight_total_step(weights@, i as int);
            lemma_weight_total_mono(weights@, i + 1, weights@.len() as int);
        }
        t = t + weights[i];
        i = i + 1;
    }
    t
}

/// Weights are shares: the slots of different entries do not overlap, and of
/// the `weight_total` equally likely draws exactly `w[i]` select entry `i`.
pub proof fn law_weighted_share(w: Seq<u32>, i: int)
    requires
        0 <= i < w.len(),
    ensures
        forall|j: int, r: int| 0 <= j < w.len() && in_slot(w, i, r) && in_slot(w, j, r) ==> j == i,
        forall|r: int| in_slot(w, i, r) ==> 0 <= r < weight_total(w),
        Set::new(|r: int| in_slot(w, i, r)).finite(),
        Set::new(|r: int| in_slot(w, i, r)).len() == w[i],
{
    assert forall|j: int, r: int| 0 <= j < w.len() && in_slot(w, i, r) && in_slot(w, j, r) implies j
        == i by {
        if j < i {
            lemma_weight_total_mono(w, j + 1, i);
        } else if i < j {
            lemma_weight_total_mono(w, i + 1, j);
        }
    }
    assert forall|r: int| in_slot(w, i, r) implies 0 <= r < weight_total(w) by {
        lemma_weight_total_mono(w, 0, i);
        lemma_weight_total_mono(w, i + 1, w.len() as int);
        assert(w.take(w.len() as int) =~= w);
        assert(w.take(0) =~= Seq::<u32>::empty());
    }
    let lo = weight_total(w.take(i));
    let hi = weight_total(w.take(i + 1));
    lemma_weight_total_step(w, i);
    assert(Set::new(|r: int| in_slot(w, i, r)) =~= set_int_range(lo as int, hi as int));
    lemma_int_range(lo as int, hi as int);
}

/// Two lowercase hex digits of byte `b` (`{:02x}`).
pub open spec fn hex_byte(b: u8) -> Seq<char> {
    hex_fixed(b as nat, 2)
}

/// The bytes of `bs` as lowercase hex, two digits each.
pub open spec fn hex_of_bytes(bs: Seq<u8>) -> Seq<char>
    decreases bs.len(),
{
    if bs.len() == 0 {
        Seq::empty()
    } else {
        hex_of_bytes(bs.drop_last()) + hex_byte(bs.last())
    }
}

pub proof fn lemma_hex_byte(b: u8)
    ensures
        hex_byte(b).len() == 2,
        is_ascii_chars(hex_byte(b)),
{
    reveal_with_fuel(hex_fixed, 3);
}

/// Hex text has two ASCII characters per byte.
pub proof fn lemma_hex_of_bytes(bs: Seq<u8>)
    ensures
        hex_of_bytes(bs).len() == 2 * bs.len(),
        is_ascii_chars(hex_of_bytes(bs)),
    decreases bs.len(),
{
    if bs.len() > 0 {
        lemma_hex_of_bytes(bs.drop_last());
        lemma_hex_byte(bs.last());
        let a = hex_of_bytes(bs.drop_last());
        let b = hex_byte(bs.last());
        assert forall|i: int| 0 <= i < (a + b).len() implies '\0' <= #[trigger] (a + b)[i] <= '\u{7f}' by {
            if i < a.len() {
                assert((a + b)[i] == a[i]);
            } else {
                assert((a + b)[i] == b[i - a.len()]);
            }
        }
    }
}

/// Appends `bs[from..to]` as lowercase hex.
pub fn push_hex_bytes(s: &mut String, bs: &[u8], from: usize, to: usize)
    requires
        from <= to <= bs@.len(),
    ensures
        final(s)@ == old(s)@ + hex_of_bytes(bs@.subrange(from as int, to as int)),
{
    let mut i = from;
    assert(bs@.subrange(from as int, from as int) =~= Seq::<u8>::empty());
    while i < to
        invariant
            from <= i <= to <= bs@.len(),
            s@ == old(s)@ + hex_of_bytes(bs@.subrange(from as int, i as int)),
        decreases to - i,
    {
        push_hex_fixed(s, bs[i] as u128, 2);
        assert(bs@.subrange(from as int, i + 1).drop_last() =~= bs@.subrange(from as int, i as int));
        i = i + 1;
        assert(s@ =~= old(s)@ + hex_of_bytes(bs@.subrange(from as int, i as int)));
    }
}

/// `bytes` random bytes as lowercase hex (`{:02x}` each).
pub fn hex_id(rng: &mut ChaCha8Rng, bytes: usize) -> (r: String)
    ensures
        exists|bs: Seq<u8>| bs.len() == bytes && r@ == hex_of_bytes(bs),
{
    let buf = random_bytes(rng, bytes);
    let mut s = String::new();
    push_hex_bytes(&mut s, buf.as_slice(), 0, buf.len());
    assert(buf@.subrange(0, buf@.len() as int) =~= buf@);
    assert(s@ =~= hex_of_bytes(buf@));
    s
}

} // verus!
