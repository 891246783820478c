//! The global LP-weighting registry.
//!
//! It maps a vault's cache index to the weight used for target-debt
//! computation, and tracks the LP token supply those weights are shares of.

use vstd::prelude::*;

verus! {

/// The sum of all weights in the registry.
pub open spec fn sum_weights(s: Seq<u64>) -> int
    decreases s.len(),
{
    if s.len() == 0 {
        0
    } else {
        sum_weights(s.drop_last()) + s.last()
    }
}

/// A sum of unsigned weights is never negative.
pub proof fn lemma_sum_weights_nonneg(s: Seq<u64>)
    ensures
        sum_weights(s) >= 0,
    decreases s.len(),
{
    if s.len() > 0 {
        lemma_sum_weights_nonneg(s.drop_last());
    }
}

/// The sum of a prefix of the weights never exceeds the sum of them all.
pub proof fn lemma_sum_weights_take_le(s: Seq<u64>, i: int)
    requires
        0 <= i <= s.len(),
    ensures
        sum_weights(s.take(i)) <= sum_weights(s),
    decreases s.len() - i,
{
    if i == s.len() {
        assert(s.take(i) =~= s);
    } else {
        lemma_sum_weights_take_le(s, i + 1);
        assert(s.take(i + 1).drop_last() =~= s.take(i));
        assert(sum_weights(s.take(i + 1)) == sum_weights(s.take(i)) + s[i]);
    }
}

/// The weight a registry holds at an index: zero outside the registered
/// range.
pub open spec fn weight_spec(weights: Seq<u64>, index: int) -> u64 {
    if 0 <= index < weights.len() {
        weights[index]
    } else {
        0
    }
}

/// The global LP-weighting registry.
#[derive(Debug, PartialEq, Eq)]
pub struct Cache {
    /// The authority.
    pub authority: u64,
    /// The total supply of LP tokens across all vaults.
    pub lp_token_supply: u64,
    /// The target-debt weight of each vault, indexed by the vault's cache
    /// index.
    pub weights: Vec<u64>,
}

impl Cache {
    /// The target-debt weight of the vault with the given cache index.
    pub fn get_weight(&self, index: usize) -> (r: u64)
        ensures
            r == weight_spec(self.weights@, index as int),
    {
        if index < self.weights.len() {
            self.weights[index]
        } else {
            0
        }
    }

    /// The sum of all registered target-debt weights.
    pub fn get_total_token_weights(&self) -> (r: u64)
        requires
            sum_weights(self.weights@) <= u64::MAX,
        ensures
            r == sum_weights(self.weights@),
    {
        let n = self.weights.len();
        let mut total: u64 = 0;
        let mut i: usize = 0;
        while i < n
            invariant
                i <= n == self.weights@.len(),
                total == sum_weights(self.weights@.take(i as int)),
                sum_weights(self.weights@) <= u64::MAX,
            decreases n - i,
        {
            proof {
                lemma_sum_weights_take_le(self.weights@, i + 1);
                assert(self.weights@.take(i + 1).drop_last() =~= self.weights@.take(i as int));
                assert(sum_weights(self.weights@.take(i + 1)) == sum_weights(
                    self.weights@.take(i as int),
                ) + self.weights@[i as int]);
            }
            total = total + self.weights[i];
            i = i + 1;
        }
        proof {
            assert(self.weights@.take(n as int) =~= self.weights@);
        }
        total
    }
}

} // verus!
