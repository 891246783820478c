//! Powers of ten, the backbone of every decimal rescaling step.

use vstd::prelude::*;

verus! {

/// Ten raised to the `e`-th power, as a mathematical integer.
pub open spec fn pow10(e: nat) -> int
    decreases e,
{
    if e == 0 {
        1
    } else {
        10 * pow10((e - 1) as nat)
    }
}

/// Ten to any power is strictly positive.
pub proof fn lemma_pow10_positive(e: nat)
    ensures
        pow10(e) >= 1,
    decreases e,
{
    if e > 0 {
        lemma_pow10_positive((e - 1) as nat);
    }
}

/// Powers of ten grow (weakly) with the exponent.
pub proof fn lemma_pow10_increases(e1: nat, e2: nat)
    requires
        e1 <= e2,
    ensures
        pow10(e1) <= pow10(e2),
    decreases e2,
{
    if e1 < e2 {
        lemma_pow10_increases(e1, (e2 - 1) as nat);
        lemma_pow10_positive((e2 - 1) as nat);
    }
}

/// Every 128-bit value is smaller than ten to the thirty-ninth power.
pub proof fn lemma_u128_below_pow10_39()
    ensures
        u128::MAX < pow10(39),
{
    assert(u128::MAX < pow10(39)) by {
        reveal_with_fuel(pow10, 40);
    };
}

/// Ten to the `e`-th power as a 128-bit value, defined for every exponent
/// whose power fits.
pub fn pow10_u128(e: u32) -> (r: u128)
    requires
        e <= 38,
    ensures
        r == pow10(e as nat),
{
    proof {
        lemma_pow10_increases(e as nat, 38);
        assert(pow10(38nat) <= u128::MAX) by {
            reveal_with_fuel(pow10, 39);
        };
    }
    let mut r: u128 = 1;
    let mut i: u32 = 0;
    while i < e
        invariant
            i <= e <= 38,
            r == pow10(i as nat),
            pow10(e as nat) <= pow10(38nat) <= u128::MAX,
        decreases e - i,
    {
        proof {
            lemma_pow10_increases((i + 1) as nat, e as nat);
        }
        r = r * 10;
        i = i + 1;
    }
    r
}

} // verus!
