//! Arithmetic underpinning the relayer ledger and the treasury: the
//! total stake held by a ledger, and basis-point shares computed with
//! integer floor division (the rounding remainder stays with the
//! protocol treasury).

use vstd::prelude::*;
use vstd::arithmetic::div_mod::{
    lemma_div_is_ordered, lemma_div_multiples_vanish, lemma_hoist_over_denominator,
};
use vstd::arithmetic::mul::{
    lemma_mul_inequality, lemma_mul_is_commutative, lemma_mul_is_distributive_add_other_way,
};
use vstd::set::group_set_axioms;
use crate::types::RelayerInfo;

verus! {

/// Basis points denominator: shares are expressed in parts per 10000.
pub const BPS_DENOMINATOR: u64 = 10000;

/// The basis-point share of an amount, with floor division:
/// `amount * bps / 10000`.
pub open spec fn bps_of(amount: u128, bps: u64) -> int {
    amount * bps / (BPS_DENOMINATOR as int)
}

/// Computes `amount * bps / 10000` without overflowing, by splitting
/// `amount` into its quotient and remainder modulo 10000.
pub fn bps_share(amount: u128, bps: u64) -> (r: u128)
    requires
        bps <= BPS_DENOMINATOR,
    ensures
        r == bps_of(amount, bps),
        r <= amount,
{
    let q: u128 = amount / (BPS_DENOMINATOR as u128);
    let rem: u128 = amount % (BPS_DENOMINATOR as u128);
    proof {
        lemma_bps_split(amount as int, bps as int);
        assert(q * bps <= q * (BPS_DENOMINATOR as int)) by {
            lemma_mul_inequality(bps as int, BPS_DENOMINATOR as int, q as int);
            lemma_mul_is_commutative(q as int, bps as int);
            lemma_mul_is_commutative(q as int, BPS_DENOMINATOR as int);
        }
        assert(q * (BPS_DENOMINATOR as int) <= amount) by {
            lemma_mul_is_commutative(q as int, BPS_DENOMINATOR as int);
        }
        assert(rem * bps < BPS_DENOMINATOR as int * (BPS_DENOMINATOR as int)) by {
            lemma_mul_inequality(rem as int, BPS_DENOMINATOR as int, bps as int);
            lemma_mul_inequality(bps as int, BPS_DENOMINATOR as int, BPS_DENOMINATOR as int);
            lemma_mul_is_commutative(rem as int, bps as int);
            lemma_mul_is_commutative(BPS_DENOMINATOR as int, bps as int);
        }
        lemma_bps_le_amount(amount, bps);
    }
    q * (bps as u128) + rem * (bps as u128) / (BPS_DENOMINATOR as u128)
}

/// Splitting the amount at the denominator computes the same share:
/// `amount * bps / 10000 == (amount / 10000) * bps + (amount % 10000) * bps / 10000`.
proof fn lemma_bps_split(amount: int, bps: int)
    requires
        amount >= 0,
        bps >= 0,
    ensures
        amount * bps / (BPS_DENOMINATOR as int) == (amount / (BPS_DENOMINATOR as int)) * bps + (
        amount % (BPS_DENOMINATOR as int)) * bps / (BPS_DENOMINATOR as int),
{
    let d = BPS_DENOMINATOR as int;
    let q = amount / d;
    let rem = amount % d;
    lemma_hoist_over_denominator(rem * bps, q * bps, BPS_DENOMINATOR as nat);
    assert(rem * bps + (q * bps) * d == amount * bps) by {
        assert((q * bps) * d == (q * d) * bps) by (nonlinear_arith);
        assert(q * d + rem == amount);
        lemma_mul_is_distributive_add_other_way(bps, q * d, rem);
    }
}

/// A basis-point share never exceeds the amount when the share is at
/// most the whole (`bps <= 10000`).
pub proof fn lemma_bps_le_amount(amount: u128, bps: u64)
    requires
        bps <= BPS_DENOMINATOR,
    ensures
        0 <= bps_of(amount, bps) <= amount,
{
    let d = BPS_DENOMINATOR as int;
    lemma_mul_inequality(bps as int, d, amount as int);
    lemma_mul_is_commutative(amount as int, bps as int);
    lemma_mul_is_commutative(amount as int, d);
    lemma_div_is_ordered(amount * bps, amount * d, d);
    lemma_div_multiples_vanish(amount as int, d);
    lemma_div_is_ordered(0, amount * bps, d);
}

/// Sum of the stakes of the relayer accounts at the addresses in `s`.
pub open spec fn sum_stakes_over(s: Set<u64>, m: Map<u64, RelayerInfo>) -> int
    decreases s.len(),
{
    if s.finite() && s.len() > 0 {
        let k = s.choose();
        m[k].stake + sum_stakes_over(s.remove(k), m)
    } else {
        0
    }
}

/// Total stake held by all relayer accounts of a ledger.
pub open spec fn stake_sum(m: Map<u64, RelayerInfo>) -> int {
    sum_stakes_over(m.dom(), m)
}

/// Any member's stake can be split off the sum, no matter which member
/// the recursion happens to peel first.
proof fn lemma_sum_over_remove(s: Set<u64>, m: Map<u64, RelayerInfo>, k: u64)
    requires
        s.finite(),
        s.contains(k),
    ensures
        sum_stakes_over(s, m) == m[k].stake + sum_stakes_over(s.remove(k), m),
    decreases s.len(),
{
    broadcast use group_set_axioms;

    let k0 = s.choose();
    if k0 == k {
    } else {
        lemma_sum_over_remove(s.remove(k0), m, k);
        lemma_sum_over_remove(s.remove(k), m, k0);
        assert(s.remove(k0).remove(k) =~= s.remove(k).remove(k0));
    }
}

/// The sum depends only on the stakes of the members of `s`.
proof fn lemma_sum_over_agree(s: Set<u64>, m1: Map<u64, RelayerInfo>, m2: Map<u64, RelayerInfo>)
    requires
        s.finite(),
        forall|k: u64| s.contains(k) ==> m1[k].stake == m2[k].stake,
    ensures
        sum_stakes_over(s, m1) == sum_stakes_over(s, m2),
    decreases s.len(),
{
    broadcast use group_set_axioms;

    if s.len() > 0 {
        let k = s.choose();
        lemma_sum_over_agree(s.remove(k), m1, m2);
    }
}

/// Stakes are unsigned, so the sum over any address set is nonnegative.
proof fn lemma_sum_over_nonneg(s: Set<u64>, m: Map<u64, RelayerInfo>)
    ensures
        sum_stakes_over(s, m) >= 0,
    decreases s.len(),
{
    broadcast use group_set_axioms;

    if s.finite() && s.len() > 0 {
        lemma_sum_over_nonneg(s.remove(s.choose()), m);
    }
}

/// The total stake of a ledger is nonnegative.
pub proof fn lemma_stake_sum_nonneg(m: Map<u64, RelayerInfo>)
    ensures
        stake_sum(m) >= 0,
{
    lemma_sum_over_nonneg(m.dom(), m);
}

/// No single account holds more than the ledger's total stake.
pub proof fn lemma_stake_sum_member_le(m: Map<u64, RelayerInfo>, k: u64)
    requires
        m.dom().finite(),
        m.dom().contains(k),
    ensures
        m[k].stake <= stake_sum(m),
{
    broadcast use group_set_axioms;

    lemma_sum_over_remove(m.dom(), m, k);
    lemma_sum_over_nonneg(m.dom().remove(k), m);
}

/// Writing one account changes the total stake by exactly the
/// difference between the new and the prior stake at that address.
pub proof fn lemma_stake_sum_insert(m: Map<u64, RelayerInfo>, k: u64, v: RelayerInfo)
    requires
        m.dom().finite(),
    ensures
        stake_sum(m.insert(k, v)) == stake_sum(m) + v.stake - (if m.dom().contains(k) {
            m[k].stake as int
        } else {
            0
        }),
{
    broadcast use group_set_axioms;

    let m2 = m.insert(k, v);
    assert(m2.dom() =~= m.dom().insert(k));
    lemma_sum_over_remove(m2.dom(), m2, k);
    if m.dom().contains(k) {
        lemma_sum_over_remove(m.dom(), m, k);
        assert(m2.dom().remove(k) =~= m.dom().remove(k));
        lemma_sum_over_agree(m.dom().remove(k), m, m2);
    } else {
        assert(m2.dom().remove(k) =~= m.dom());
        lemma_sum_over_agree(m.dom(), m, m2);
    }
}

} // verus!
