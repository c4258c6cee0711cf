//! The number of pages of a list.
//!
//! The front end computes with double-precision numbers, and the count
//! sent to it is the one it would compute itself: the quotient of the two
//! numbers as doubles, rounded up. Up to two to the power 53 items that is
//! the exact ceiling of the quotient; beyond, the rounding of the doubles
//! shows. The arithmetic here is in whole numbers throughout.

use vstd::prelude::*;

verus! {

/// Two to the power 53. Every whole number up to here is a double.
pub const EXACT_LIMIT: u64 = 0x20_0000_0000_0000;

/// `unit`, doubled once for each halving that brings `n` below two to the
/// power 53.
pub open spec fn doubled(unit: nat, n: nat) -> nat
    decreases n,
{
    if n < EXACT_LIMIT {
        unit
    } else {
        doubled(2 * unit, n / 2)
    }
}

/// The distance between the doubles around `n`.
pub open spec fn spacing(n: nat) -> nat {
    doubled(1, n)
}

/// The double nearest to the whole number `n`; of two equally near ones,
/// the one whose last binary digit is zero.
pub open spec fn nearest_double(n: nat) -> nat {
    let step = spacing(n);
    let rest = n % step;
    let below = (n - rest) as nat;
    if 2 * rest < step || (2 * rest == step && (n / step) % 2 == 0) {
        below
    } else {
        below + step
    }
}

/// `amount`, halved once for each halving that brings `k` down to one.
pub open spec fn halved(amount: nat, k: nat) -> nat
    decreases k,
{
    if k <= 1 {
        amount
    } else {
        halved(amount / 2, k / 2)
    }
}

/// For a whole number `k` from one up to two to the power 53: the number
/// `d` such that `k + 1/d` lies halfway between `k` and the next double.
pub open spec fn reach(k: nat) -> nat {
    halved(EXACT_LIMIT as nat, k)
}

/// The number of pages that `total` items fill at `page_size` items a page:
/// the quotient of the two as doubles, rounded up to a whole number and
/// held within the range of `u32`. With no items and a page size of zero
/// it is zero; with items and a page size of zero it is the largest count.
pub open spec fn page_count(total: u64, page_size: u32) -> u32 {
    if page_size == 0 {
        if total == 0 {
            0
        } else {
            u32::MAX
        }
    } else {
        let items = nearest_double(total as nat);
        let full = items / (page_size as nat);
        let rest = items % (page_size as nat);
        if full >= u32::MAX {
            u32::MAX
        } else if rest == 0 {
            full as u32
        } else if full >= 1 && rest * reach(full) <= page_size {
            full as u32
        } else {
            (full + 1) as u32
        }
    }
}

/// The quotient of `total` by `page_size`, rounded up.
pub open spec fn ceiling(total: nat, page_size: nat) -> nat {
    if total % page_size == 0 {
        total / page_size
    } else {
        total / page_size + 1
    }
}

fn nearest_double_of(total: u64) -> (items: u128)
    ensures
        items == nearest_double(total as nat),
        items <= total + 4096,
{
    let mut step: u64 = 1;
    let mut left: u64 = total;
    while left >= EXACT_LIMIT
        invariant
            doubled(step as nat, left as nat) == doubled(1, total as nat),
            1 <= step,
            left * step <= total,
            step == 1 || left >= 0x10_0000_0000_0000,
        decreases left,
    {
        assert((left / 2) * (2 * step) <= left * step) by (nonlinear_arith)
            requires
                1 <= step,
        ;
        assert(step <= 2048) by (nonlinear_arith)
            requires
                left >= 0x20_0000_0000_0000,
                left * step <= total,
                total <= 0xffff_ffff_ffff_ffff,
        ;
        left = left / 2;
        step = step * 2;
    }
    assert(step < 4096) by (nonlinear_arith)
        requires
            left * step <= total,
            total <= 0xffff_ffff_ffff_ffff,
            step == 1 || left >= 0x10_0000_0000_0000,
    ;
    let rest: u64 = total % step;
    let below: u128 = (total - rest) as u128;
    if 2 * rest < step || (2 * rest == step && (total / step) % 2 == 0) {
        below
    } else {
        below + step as u128
    }
}

fn reach_of(full: u64) -> (reach_of_full: u64)
    ensures
        reach_of_full == reach(full as nat),
        reach_of_full <= EXACT_LIMIT,
{
    let mut amount: u64 = EXACT_LIMIT;
    let mut left: u64 = full;
    while left > 1
        invariant
            halved(amount as nat, left as nat) == halved(EXACT_LIMIT as nat, full as nat),
            amount <= EXACT_LIMIT,
        decreases left,
    {
        amount = amount / 2;
        left = left / 2;
    }
    amount
}

/// The number of pages that `total` items fill at `page_size` items a page.
pub fn count_pages(total: u64, page_size: u32) -> (pages: u32)
    ensures
        pages == page_count(total, page_size),
{
    if page_size == 0 {
        return if total == 0 {
            0
        } else {
            u32::MAX
        };
    }
    let items: u128 = nearest_double_of(total);
    let size: u128 = page_size as u128;
    let full: u128 = items / size;
    let rest: u128 = items % size;
    if full >= u32::MAX as u128 {
        u32::MAX
    } else if rest == 0 {
        full as u32
    } else if full >= 1 {
        let reach_of_full: u128 = reach_of(full as u64) as u128;
        assert(rest * reach_of_full <= 0x1_0000_0000 * 0x20_0000_0000_0000) by (nonlinear_arith)
            requires
                rest < 0x1_0000_0000,
                reach_of_full <= 0x20_0000_0000_0000,
        ;
        if rest * reach_of_full <= size {
            full as u32
        } else {
            (full + 1) as u32
        }
    } else {
        (full + 1) as u32
    }
}

proof fn lemma_halved_covers(amount: nat, k: nat, exponent: nat)
    requires
        amount == vstd::arithmetic::power2::pow2(exponent),
        1 <= k < vstd::arithmetic::power2::pow2(exponent + 1),
    ensures
        halved(amount, k) * k >= amount,
    decreases k,
{
    vstd::arithmetic::power2::lemma_pow2_unfold(exponent + 1);
    if k <= 1 {
        assert(halved(amount, k) == amount);
        assert(halved(amount, k) * k >= amount) by (nonlinear_arith)
            requires
                halved(amount, k) == amount,
                k == 1,
        ;
    } else {
        if exponent == 0 {
            vstd::arithmetic::power2::lemma2_to64();
            assert(false);
        } else {
            vstd::arithmetic::power2::lemma_pow2_unfold(exponent);
            let e = (exponent - 1) as nat;
            assert(amount / 2 == vstd::arithmetic::power2::pow2(e));
            lemma_halved_covers(amount / 2, k / 2, e);
            let h = halved(amount / 2, k / 2);
            assert(h * k >= amount) by (nonlinear_arith)
                requires
                    h * (k / 2) >= amount / 2,
                    amount == 2 * (amount / 2),
                    k >= 2 * (k / 2),
                    h >= 0,
            ;
            assert(halved(amount, k) == h);
        }
    }
}

/// Up to two to the power 53 items the count is exact: the quotient of
/// `total` by `page_size` rounded up, or the largest count where that does
/// not fit.
pub proof fn law_page_count_is_ceiling(total: u64, page_size: u32)
    requires
        page_size > 0,
        total <= EXACT_LIMIT,
    ensures
        page_count(total, page_size) == if ceiling(total as nat, page_size as nat) >= u32::MAX {
            u32::MAX
        } else {
            ceiling(total as nat, page_size as nat) as u32
        },
{
    reveal_with_fuel(doubled, 3);
    assert(spacing(total as nat) == if total < EXACT_LIMIT {
        1nat
    } else {
        2nat
    });
    assert(nearest_double(total as nat) == total);
    let full = total as nat / (page_size as nat);
    let rest = total as nat % (page_size as nat);
    if full >= 1 && full < u32::MAX && rest > 0 {
        vstd::arithmetic::power2::lemma2_to64();
        vstd::arithmetic::power2::lemma2_to64_rest();
        lemma_halved_covers(EXACT_LIMIT as nat, full, 53);
        let d = reach(full);
        let size = page_size as nat;
        assert(total as nat == size * full + rest) by {
            vstd::arithmetic::div_mod::lemma_fundamental_div_mod(total as int, page_size as int);
        }
        assert(!(rest * d <= size)) by (nonlinear_arith)
            requires
                d * full >= 0x20_0000_0000_0000,
                total == size * full + rest,
                total <= 0x20_0000_0000_0000,
                rest >= 1,
                full >= 1,
                d >= 0,
        ;
    }
}

} // verus!
