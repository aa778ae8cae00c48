//! How many mip levels a texture gets.

use vstd::prelude::*;
use crate::state::Interpolation;

verus! {

/// Two to the power `k`.
pub open spec fn pow2(k: nat) -> nat
    decreases k,
{
    if k == 0 {
        1
    } else {
        2 * pow2((k - 1) as nat)
    }
}

/// The largest `k` with `pow2(k) <= n`, and 0 for `n == 0`.
pub open spec fn floor_log2(n: nat) -> nat
    decreases n,
{
    if n <= 1 {
        0
    } else {
        1 + floor_log2(n / 2)
    }
}

/// The larger of two sizes.
pub open spec fn larger(a: nat, b: nat) -> nat {
    if a >= b {
        a
    } else {
        b
    }
}

/// The number of mip levels of a `width` by `height` image: one without mip
/// filtering, and otherwise one per halving until the larger side is 1.
pub open spec fn mip_levels(mip_filtered: bool, width: nat, height: nat) -> nat {
    if mip_filtered {
        floor_log2(larger(width, height)) + 1
    } else {
        1
    }
}

/// `floor_log2(n)` is the one exponent whose power of two is at most `n`
/// while the next power is above it.
pub proof fn lemma_floor_log2_brackets(n: nat)
    requires
        n >= 1,
    ensures
        pow2(floor_log2(n)) <= n < pow2(floor_log2(n) + 1),
    decreases n,
{
    if n > 1 {
        lemma_floor_log2_brackets(n / 2);
    }
}

/// An exponent that brackets `n` between two powers of two is `floor_log2(n)`.
pub proof fn lemma_floor_log2_unique(n: nat, k: nat)
    requires
        pow2(k) <= n < pow2(k + 1),
    ensures
        floor_log2(n) == k,
    decreases k,
{
    if k == 0 {
        assert(pow2(1) == 2 * pow2(0));
    } else {
        assert(pow2(k + 1) == 2 * pow2(k));
        lemma_floor_log2_unique(n / 2, (k - 1) as nat);
    }
}

/// A number below `pow2(k)` has a logarithm below `k`.
pub proof fn lemma_floor_log2_below(n: nat, k: nat)
    requires
        k >= 1,
        n < pow2(k),
    ensures
        floor_log2(n) < k,
    decreases k,
{
    if n > 1 {
        assert(pow2(1) == 2 * pow2(0));
        if k == 1 {
        } else {
            lemma_floor_log2_below(n / 2, (k - 1) as nat);
        }
    }
}

/// Two to the power 32 is one more than the largest `u32`.
pub proof fn lemma_pow2_of_32()
    ensures
        pow2(32) == 0x1_0000_0000,
{
    assert(pow2(8) == 0x100) by {
        reveal_with_fuel(pow2, 9);
    }
    assert(pow2(16) == 0x1_0000) by {
        reveal_with_fuel(pow2, 9);
    }
    assert(pow2(24) == 0x100_0000) by {
        reveal_with_fuel(pow2, 9);
    }
    assert(pow2(32) == 0x1_0000_0000) by {
        reveal_with_fuel(pow2, 9);
    }
}

/// The mip chain of a filtered texture ends exactly at the level whose larger
/// side is one texel: the last level is not smaller than 1 by 1, and one more
/// level would be.
pub proof fn lemma_mip_chain_ends_at_one(width: nat, height: nat)
    requires
        larger(width, height) >= 1,
    ensures
        pow2((mip_levels(true, width, height) - 1) as nat) <= larger(width, height),
        larger(width, height) < pow2(mip_levels(true, width, height)),
{
    lemma_floor_log2_brackets(larger(width, height));
}

/// Without mip filtering a texture has its base level only.
pub proof fn lemma_unfiltered_has_one_level(width: nat, height: nat)
    ensures
        mip_levels(false, width, height) == 1,
{
}

/// A texture whose sides are at most one texel has one level, filtered or not.
pub proof fn lemma_degenerate_has_one_level(mip_filtered: bool, width: nat, height: nat)
    requires
        width <= 1,
        height <= 1,
    ensures
        mip_levels(mip_filtered, width, height) == 1,
{
}

/// The integer part of the base-2 logarithm of `n`, and 0 for `n == 0`.
pub fn log2_floor(n: u32) -> (k: u32)
    ensures
        k == floor_log2(n as nat),
        k <= 31,
{
    let mut m: u32 = n;
    let mut k: u32 = 0;
    proof {
        lemma_pow2_of_32();
        lemma_floor_log2_below(n as nat, 32);
    }
    while m > 1
        invariant
            k + floor_log2(m as nat) == floor_log2(n as nat),
            floor_log2(n as nat) <= 31,
        decreases m,
    {
        m = m / 2;
        k = k + 1;
    }
    k
}

/// The number of mip levels of a texture that is created with the given mip
/// filter choice and size.
pub fn calculate_number_of_mip_maps(
    mip_map_filter: Option<Interpolation>,
    width: u32,
    height: u32,
) -> (levels: u32)
    ensures
        levels == mip_levels(mip_map_filter is Some, width as nat, height as nat),
        1 <= levels <= 32,
        mip_map_filter is None ==> levels == 1,
{
    if mip_map_filter.is_some() {
        let side: u32 = if width >= height {
            width
        } else {
            height
        };
        log2_floor(side) + 1
    } else {
        1
    }
}

} // verus!
