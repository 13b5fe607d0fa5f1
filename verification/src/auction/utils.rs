//! Small computations that the auction operations share.

use vstd::prelude::*;
use crate::auction::errors::{AuctionError, AuctionStateErrors};
use crate::custody::Mint;
use crate::math::{flag_set, pct_amount};

verus! {

/// Whether the mint is that of a unique item: no decimals and a supply of one.
pub open spec fn is_nft(mint: Mint) -> bool {
    mint.decimals == 0 && mint.supply == 1
}

/// The part `pct / base` of `amount`, rounded down. It fails with `Overflow`
/// where the product does not fit in 64 bits or `base` is zero.
pub fn get_pct_amount(amount: u64, pct: u64, base: u64) -> (r: Result<u64, AuctionError>)
    ensures
        r == if base == 0 || amount * pct > u64::MAX {
            Err::<u64, AuctionError>(AuctionError::State(AuctionStateErrors::Overflow))
        } else {
            Ok::<u64, AuctionError>(pct_amount(amount as nat, pct as nat, base as nat) as u64)
        },
        r is Ok ==> r->Ok_0 == pct_amount(amount as nat, pct as nat, base as nat),
{
    match amount.checked_mul(pct) {
        None => Err(AuctionError::State(AuctionStateErrors::Overflow)),
        Some(product) => {
            if base == 0 {
                Err(AuctionError::State(AuctionStateErrors::Overflow))
            } else {
                assert((amount * pct) / (base as int) <= amount * pct) by (nonlinear_arith)
                    requires
                        amount * pct >= 0,
                        base > 0,
                ;
                Ok(product / base)
            }
        },
    }
}

/// Accepts the mint of a unique item and no other.
pub fn validate_nft(mint: &Mint) -> (r: Result<(), AuctionError>)
    ensures
        r == if is_nft(*mint) {
            Ok::<(), AuctionError>(())
        } else {
            Err::<(), AuctionError>(AuctionError::State(AuctionStateErrors::InvalidNFT))
        },
{
    if mint.decimals == 0 && mint.supply == 1 {
        Ok(())
    } else {
        Err(AuctionError::State(AuctionStateErrors::InvalidNFT))
    }
}

/// Whether the operation whose bit is `index` is switched off.
pub fn is_paused(pause_flags: u8, index: u8) -> (paused: bool)
    requires
        index < 8,
    ensures
        paused == flag_set(pause_flags, index),
{
    let mask: u8 = 1u8 << index;
    (pause_flags & mask) != 0
}

} // verus!
