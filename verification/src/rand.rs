//! Weighted random choice over a list of integer weights.

use vstd::prelude::*;

verus! {

#[verifier::external_type_specification]
#[verifier::external_body]
pub struct ExChaCha8Rng(rand_chacha::ChaCha8Rng);

/// The sum of the first `k` weights.
pub open spec fn weight_prefix_sum(weights: Seq<usize>, k: int) -> int
    decreases k,
{
    if k <= 0 {
        0
    } else {
        weight_prefix_sum(weights, k - 1) + weights[k - 1]
    }
}

/// The sum of all weights.
pub open spec fn weight_total(weights: Seq<usize>) -> int {
    weight_prefix_sum(weights, weights.len() as int)
}

/// Prefix sums of non-negative weights never decrease.
pub proof fn lemma_prefix_sum_monotone(weights: Seq<usize>, k1: int, k2: int)
    requires
        0 <= k1 <= k2 <= weights.len(),
    ensures
        weight_prefix_sum(weights, k1) <= weight_prefix_sum(weights, k2),
    decreases k2,
{
    if k1 < k2 {
        lemma_prefix_sum_monotone(weights, k1, k2 - 1);
    }
}

/// Relies on rand::Rng::gen_range over an inclusive range: a uniformly drawn
/// value between the bounds. It panics on an empty range, which the
/// precondition rules out.
#[verifier::external_body]
fn draw_in_range(rng: &mut rand_chacha::ChaCha8Rng, lo: usize, hi: usize) -> (r: usize)
    requires
        lo <= hi,
    ensures
        lo <= r <= hi,
{
    rand::Rng::gen_range(rng, lo..=hi)
}

/// The index whose cumulative-weight bucket contains `r`: entry `i` owns the
/// values in (sum of weights below i, sum of weights through i].
pub fn pick_weighted_index(weights: &Vec<usize>, r: usize) -> (i: usize)
    requires
        weights@.len() >= 1,
        weight_total(weights@) <= usize::MAX as int,
        1 <= r <= weight_total(weights@),
    ensures
        i < weights@.len(),
        weight_prefix_sum(weights@, i as int) < r <= weight_prefix_sum(weights@, i as int + 1),
{
    let n = weights.len();
    let mut i: usize = 0;
    let mut acc: usize = weights[0];
    proof {
        assert(weight_prefix_sum(weights@, 0) == 0);
        assert(weight_prefix_sum(weights@, 1) == weights@[0] + weight_prefix_sum(weights@, 0));
    }
    while acc < r
        invariant
            n == weights@.len(),
            n >= 1,
            weight_total(weights@) <= usize::MAX as int,
            1 <= r <= weight_total(weights@),
            i < n,
            acc == weight_prefix_sum(weights@, i as int + 1),
            weight_prefix_sum(weights@, i as int) < r,
        decreases n - i,
    {
        proof {
            lemma_prefix_sum_monotone(weights@, i as int + 1, n as int);
            assert(i + 1 < n) by {
                if i + 1 == n {
                    assert(acc == weight_total(weights@));
                }
            }
            lemma_prefix_sum_monotone(weights@, i as int + 2, n as int);
        }
        i = i + 1;
        acc = acc + weights[i];
    }
    i
}

/// Draws a weighted random index: entry `i` is returned with probability
/// weight `i` over the total, so an entry of weight zero is never returned
/// (with a single entry no randomness is consumed, as in a degenerate draw).
pub fn rand_one_in_vec(probability: &Vec<usize>, rng: &mut rand_chacha::ChaCha8Rng) -> (i: usize)
    requires
        probability@.len() >= 1,
        weight_total(probability@) <= usize::MAX as int,
        probability@.len() >= 2 ==> weight_total(probability@) >= 1,
    ensures
        i < probability@.len(),
        probability@.len() >= 2 ==> probability@[i as int] > 0,
{
    let n = probability.len();
    if n == 1 {
        return 0;
    }
    let mut total: usize = 0;
    let mut k: usize = 0;
    while k < n
        invariant
            n == probability@.len(),
            k <= n,
            total == weight_prefix_sum(probability@, k as int),
            weight_total(probability@) <= usize::MAX as int,
        decreases n - k,
    {
        proof {
            lemma_prefix_sum_monotone(probability@, k as int + 1, n as int);
        }
        total = total + probability[k];
        k = k + 1;
    }
    let r = draw_in_range(rng, 1, total);
    pick_weighted_index(probability, r)
}

} // verus!
