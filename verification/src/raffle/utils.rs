//! Small computations that the raffle operations share.

use vstd::prelude::*;
use crate::math::{
    flag_set,
    has_duplicates,
    non_increasing,
    pct_amount,
    shares_in_range,
    shares_sum,
    shares_sum_monotone,
    shares_sum_step,
    valid_win_shares,
    wallet_cap,
};
use crate::pubkey::Pubkey;
use crate::raffle::constants::TOTAL_PCT;
use crate::raffle::errors::{RaffleError, RaffleStateErrors};

verus! {

/// Whether some address occurs twice in `list`.
pub fn has_duplicate_pubkeys(list: &[Pubkey]) -> (r: bool)
    ensures
        r == has_duplicates(list@),
{
    let n = list.len();
    let mut i: usize = 0;
    while i < n
        invariant
            n == list@.len(),
            i <= n,
            forall|a: int, b: int| 0 <= a < i && a < b < n ==> list@[a] != list@[b],
        decreases n - i,
    {
        let mut j: usize = i + 1;
        while j < n
            invariant
                n == list@.len(),
                i < n,
                i < j <= n,
                forall|a: int, b: int| 0 <= a < i && a < b < n ==> list@[a] != list@[b],
                forall|b: int| i < b < j ==> list@[i as int] != list@[b],
            decreases n - j,
        {
            if list[i].same(&list[j]) {
                assert(0 <= i < j < list@.len() && list@[i as int] == list@[j as int]);
                return true;
            }
            j += 1;
        }
        i += 1;
    }
    false
}

/// The most tickets one wallet may hold of a raffle with `total_tickets`
/// tickets: `max_per_wallet_pct` percent of them, rounded up, and at least
/// one. It fails with `Overflow` where that is more than a count of tickets
/// can say.
pub fn calculate_max_tickets(total_tickets: u16, max_per_wallet_pct: u8) -> (r: Result<
    u16,
    RaffleError,
>)
    ensures
        r == if wallet_cap(total_tickets as nat, max_per_wallet_pct as nat) > u16::MAX {
            Err::<u16, RaffleError>(RaffleError::State(RaffleStateErrors::Overflow))
        } else {
            Ok::<u16, RaffleError>(
                wallet_cap(total_tickets as nat, max_per_wallet_pct as nat) as u16,
            )
        },
{
    let total = total_tickets as u32;
    let pct = max_per_wallet_pct as u32;
    assert(total * pct <= 65535 * 255) by (nonlinear_arith)
        requires
            total <= 65535,
            pct <= 255,
    ;
    let product = total * pct;
    let max_tickets = (product + (TOTAL_PCT as u32 - 1)) / (TOTAL_PCT as u32);
    let cap = if max_tickets < 1 {
        1
    } else {
        max_tickets
    };
    if cap > u16::MAX as u32 {
        Err(RaffleError::State(RaffleStateErrors::Overflow))
    } else {
        Ok(cap as u16)
    }
}

/// The part `pct / base` of `amount`, rounded down. It fails with `Overflow`
/// where the product does not fit in 64 bits or `base` is zero.
pub fn get_pct_amount(amount: u64, pct: u64, base: u64) -> (r: Result<u64, RaffleError>)
    ensures
        r == if base == 0 || amount * pct > u64::MAX {
            Err::<u64, RaffleError>(RaffleError::State(RaffleStateErrors::Overflow))
        } else {
            Ok::<u64, RaffleError>(pct_amount(amount as nat, pct as nat, base as nat) as u64)
        },
        r is Ok ==> r->Ok_0 == pct_amount(amount as nat, pct as nat, base as nat),
{
    match amount.checked_mul(pct) {
        None => Err(RaffleError::State(RaffleStateErrors::Overflow)),
        Some(product) => {
            if base == 0 {
                Err(RaffleError::State(RaffleStateErrors::Overflow))
            } else {
                assert((amount * pct) / (base as int) <= amount * pct) by (nonlinear_arith)
                    requires
                        amount * pct >= 0,
                        base > 0,
                ;
                Ok(product / base)
            }
        },
    }
}

/// Whether the operation whose bit is `index` is switched off.
pub fn is_paused(pause_flags: u8, index: u8) -> (paused: bool)
    requires
        index < 8,
    ensures
        paused == flag_set(pause_flags, index),
{
    let mask: u8 = 1u8 << index;
    (pause_flags & mask) != 0
}

/// Whether `win_shares` is a valid schedule: every share lies in `[1, 100]`,
/// no share exceeds the one before it, and together they make exactly a
/// hundred.
pub fn validate_win_shares(win_shares: &[u8]) -> (r: bool)
    ensures
        r == valid_win_shares(win_shares@),
{
    let n = win_shares.len();
    let mut total: u16 = 0;
    let mut i: usize = 0;
    while i < n
        invariant
            n == win_shares@.len(),
            i <= n,
            total <= 100,
            total == shares_sum(win_shares@.take(i as int)),
            shares_in_range(win_shares@.take(i as int)),
            non_increasing(win_shares@.take(i as int)),
        decreases n - i,
    {
        let share = win_shares[i];
        if share == 0 || share > TOTAL_PCT {
            assert(!(1 <= win_shares@[i as int] <= 100));
            return false;
        }
        if i > 0 && share > win_shares[i - 1] {
            assert(!(win_shares@[i as int] <= win_shares@[i as int - 1]));
            return false;
        }
        proof {
            shares_sum_step(win_shares@, i as int);
        }
        total = total + share as u16;
        if total > 100 {
            proof {
                shares_sum_monotone(win_shares@, i as int + 1, n as int);
                assert(win_shares@.take(n as int) =~= win_shares@);
            }
            return false;
        }
        assert forall|k: int| 0 < k < i + 1 implies win_shares@.take(i as int + 1)[k]
            <= #[trigger] win_shares@.take(i as int + 1)[k - 1] by {
            if k < i {
                assert(win_shares@.take(i as int)[k] <= win_shares@.take(i as int)[k - 1]);
            }
        }
        assert forall|k: int| 0 <= k < i + 1 implies 1 <= #[trigger] win_shares@.take(
            i as int + 1,
        )[k] <= 100 by {
            if k < i {
                assert(1 <= win_shares@.take(i as int)[k] <= 100);
            }
        }
        i += 1;
    }
    assert(win_shares@.take(n as int) =~= win_shares@);
    total == 100
}

} // verus!
