//! The arithmetic of shares, fees and caps, as mathematics.

use vstd::prelude::*;
use crate::pubkey::Pubkey;

verus! {

/// The part `pct / base` of `amount`, rounded down.
pub open spec fn pct_amount(amount: nat, pct: nat, base: nat) -> nat
    recommends
        base > 0,
{
    (amount * pct) / base
}

/// The most tickets one wallet may hold: `max_pct` percent of `total`,
/// rounded up, and never less than one.
pub open spec fn wallet_cap(total: nat, max_pct: nat) -> nat {
    let cap = (total * max_pct + 99) / 100;
    if cap < 1 {
        1
    } else {
        cap
    }
}

/// The sum of the shares.
pub open spec fn shares_sum(shares: Seq<u8>) -> nat
    decreases shares.len(),
{
    if shares.len() == 0 {
        0
    } else {
        shares_sum(shares.drop_last()) + shares.last() as nat
    }
}

/// No share is larger than the one before it.
pub open spec fn non_increasing(shares: Seq<u8>) -> bool {
    forall|i: int| 0 < i < shares.len() ==> shares[i] <= #[trigger] shares[i - 1]
}

/// Every share is at least one percent and at most a hundred.
pub open spec fn shares_in_range(shares: Seq<u8>) -> bool {
    forall|i: int| 0 <= i < shares.len() ==> 1 <= #[trigger] shares[i] <= 100
}

/// A schedule of winners' shares is valid when every share lies in
/// `[1, 100]`, no share exceeds the one before it, and together they make
/// exactly a hundred percent.
pub open spec fn valid_win_shares(shares: Seq<u8>) -> bool {
    &&& shares_in_range(shares)
    &&& non_increasing(shares)
    &&& shares_sum(shares) == 100
}

/// Some address occurs at two places of the list.
pub open spec fn has_duplicates(list: Seq<Pubkey>) -> bool {
    exists|i: int, j: int| 0 <= i < j < list.len() && list[i] == list[j]
}

/// Whether bit `index` of `pause_flags` is set.
pub open spec fn flag_set(pause_flags: u8, index: u8) -> bool {
    (pause_flags & (1u8 << index)) != 0
}

/// The fee taken from `revenue` at `fee_bps` basis points, rounded down.
pub open spec fn fee_of(revenue: nat, fee_bps: nat) -> nat {
    pct_amount(revenue, fee_bps, 10_000)
}

/// Whether `revenue` can be split at `fee_bps` basis points: the product of
/// revenue and rate fits in 64 bits, and the fee is no more than the revenue.
pub open spec fn split_defined(revenue: nat, fee_bps: nat) -> bool {
    revenue * fee_bps <= u64::MAX && fee_of(revenue, fee_bps) <= revenue
}

/// Splits `revenue` into the fee at `fee_bps` basis points, rounded down,
/// and the rest, which is the creator's. The two parts together are exactly
/// the revenue: nothing is lost at the split. There is no split where the
/// computation overflows or the fee would exceed the revenue.
pub fn split_revenue(revenue: u64, fee_bps: u16) -> (parts: Option<(u64, u64)>)
    ensures
        match parts {
            Some((fee, rest)) => {
                &&& split_defined(revenue as nat, fee_bps as nat)
                &&& fee == fee_of(revenue as nat, fee_bps as nat)
                &&& fee + rest == revenue
            },
            None => !split_defined(revenue as nat, fee_bps as nat),
        },
{
    match revenue.checked_mul(fee_bps as u64) {
        None => None,
        Some(product) => {
            let fee = product / 10_000;
            match revenue.checked_sub(fee) {
                Some(rest) => Some((fee, rest)),
                None => None,
            }
        },
    }
}

/// With no flag set no operation is switched off, and with all eight set
/// every one is.
pub proof fn flags_at_the_extremes(index: u8)
    requires
        index < 8,
    ensures
        !flag_set(0, index),
        flag_set(u8::MAX, index),
{
    assert((0u8 & (1u8 << index)) == 0) by (bit_vector);
    assert((0xffu8 & (1u8 << index)) != 0) by (bit_vector)
        requires
            index < 8,
    ;
}

/// The sum of a longer prefix is the sum of the shorter one and the next share.
pub proof fn shares_sum_step(shares: Seq<u8>, n: int)
    requires
        0 <= n < shares.len(),
    ensures
        shares_sum(shares.take(n + 1)) == shares_sum(shares.take(n)) + shares[n] as nat,
{
    assert(shares.take(n + 1).drop_last() =~= shares.take(n));
}

/// The sum of a prefix never exceeds the sum of a longer prefix.
pub proof fn shares_sum_monotone(shares: Seq<u8>, m: int, n: int)
    requires
        0 <= m <= n <= shares.len(),
    ensures
        shares_sum(shares.take(m)) <= shares_sum(shares.take(n)),
    decreases n - m,
{
    if m < n {
        shares_sum_step(shares, n - 1);
        shares_sum_monotone(shares, m, n - 1);
    }
}

/// A part of an amount is never rounded up: taken `base` times it does not
/// exceed the product of amount and rate, and it falls short of it by less
/// than `base`.
pub proof fn pct_amount_rounds_down(amount: nat, pct: nat, base: nat)
    requires
        base > 0,
    ensures
        pct_amount(amount, pct, base) * base <= amount * pct,
        amount * pct < (pct_amount(amount, pct, base) + 1) * base,
{
    let product = amount * pct;
    assert((product / base) * base <= product && product < (product / base + 1) * base)
        by (nonlinear_arith)
        requires
            base > 0,
    ;
}

/// Fee rounding: at a rate of at most the whole, the fee is no more than the
/// revenue, and fee and creator's part together are exactly the revenue.
/// Nothing is lost at the split.
pub proof fn fee_and_rest_make_revenue(revenue: nat, fee_bps: nat)
    requires
        fee_bps <= 10_000,
    ensures
        fee_of(revenue, fee_bps) <= revenue,
        fee_of(revenue, fee_bps) + (revenue - fee_of(revenue, fee_bps)) == revenue,
{
    pct_amount_bounds(revenue, fee_bps, 10_000);
}

/// The cap of one wallet is at least one ticket, and at least the named
/// share of all tickets.
pub proof fn wallet_cap_bounds(total: nat, max_pct: nat)
    ensures
        wallet_cap(total, max_pct) >= 1,
        wallet_cap(total, max_pct) * 100 >= total * max_pct,
{
    let product = total * max_pct;
    assert(((product + 99) / 100) * 100 >= product) by (nonlinear_arith);
}

/// A part of an amount at a rate of at most the whole is at most the amount.
pub proof fn pct_amount_bounds(amount: nat, pct: nat, base: nat)
    requires
        base > 0,
        pct <= base,
    ensures
        pct_amount(amount, pct, base) <= amount,
{
    assert(amount * pct <= amount * base) by (nonlinear_arith)
        requires
            pct <= base,
    ;
    assert((amount * pct) / base <= amount) by (nonlinear_arith)
        requires
            amount * pct <= amount * base,
            base > 0,
    ;
}

} // verus!
