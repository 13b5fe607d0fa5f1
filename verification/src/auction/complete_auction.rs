//! Closing an auction after its end: the fee on the price goes to the house,
//! and what the winner and the creator may claim is written down. An auction
//! without bids fails, and its item becomes claimable by the creator.

use vstd::prelude::*;
use crate::auction::constants::COMPLETE_AUCTION_PAUSE;
use crate::auction::errors::{
    transfer_rejection,
    AuctionError,
    AuctionStateErrors,
    ConfigStateErrors,
    KeysMismatchErrors,
};
use crate::auction::states::{Auction, AuctionConfig, AuctionState};
use crate::auction::utils::is_paused;
use crate::custody::{
    sol_transfer_rejection,
    token_transfer_rejection,
    transfer_sol_with_seeds,
    transfer_tokens_with_seeds,
    Mint,
    SystemAccount,
    TokenAccount,
};
use crate::math::{fee_of, flag_set, split_defined, split_revenue};
use crate::pubkey::Pubkey;

verus! {

/// What `complete_auction` reports. Where nobody bid there is no winner and
/// every amount is zero.
#[derive(Clone, Copy, Debug, PartialEq, Eq)]
pub struct AuctionCompleted {
    pub auction_id: u32,
    pub winner: Option<Pubkey>,
    pub final_price: u64,
    pub creator_amount: u64,
    pub fee_amount: u64,
    pub completed_at: i64,
}

/// The accounts of `complete_auction`. `config_treasury` is the house's own
/// account, which takes the fee in the native currency; `bid_fee_treasury_ata`
/// takes it in tokens.
#[derive(Clone, Copy)]
pub struct CompleteAuction {
    pub auction_config: AuctionConfig,
    pub config_treasury: SystemAccount,
    pub auction: Auction,
    pub auction_vault: SystemAccount,
    pub auction_admin: Pubkey,
    pub creator: Pubkey,
    pub bid_mint: Mint,
    pub bid_escrow: TokenAccount,
    pub bid_fee_treasury_ata: TokenAccount,
}

impl CompleteAuction {
    /// Custody conservation: of each account that holds value for the sale
    /// or for the house, what went out never exceeded what came in.
    pub open spec fn custody_conserved(self) -> bool {
        self.auction_vault.conserved() && self.bid_escrow.conserved()
            && self.config_treasury.conserved() && self.bid_fee_treasury_ata.conserved()
    }
}

/// The house's fee on `final_price` at `commission_bps` basis points.
pub open spec fn commission_fee(final_price: u64, commission_bps: u16) -> nat {
    fee_of(final_price as nat, commission_bps as nat)
}

/// Whether the split of `final_price` can be computed: the product with the
/// rate fits in 64 bits and the fee is no more than the price.
pub open spec fn commission_defined(final_price: u64, commission_bps: u16) -> bool {
    split_defined(final_price as nat, commission_bps as nat)
}

/// What of the price is the creator's: all but the fee.
pub open spec fn creator_share(final_price: u64, commission_bps: u16) -> int {
    final_price - commission_fee(final_price, commission_bps)
}

/// Why the auction cannot be closed at `now`, whatever the bids, if it
/// cannot: the first of these that holds. The admin is not the configured
/// one; the auction has another number; the creator named is not the
/// creator; completing is paused; the auction is not `Active`; the end time
/// has not come.
pub open spec fn completion_admission_rejection(ctx: CompleteAuction, auction_id: u32, now: i64) -> Option<
    AuctionError,
> {
    if ctx.auction_config.auction_admin != ctx.auction_admin {
        Some(AuctionError::Config(ConfigStateErrors::InvalidAuctionAdmin))
    } else if ctx.auction.auction_id != auction_id {
        Some(AuctionError::State(AuctionStateErrors::InvalidAuctionId))
    } else if ctx.auction.creator != ctx.creator {
        Some(AuctionError::State(AuctionStateErrors::InvalidCreator))
    } else if flag_set(ctx.auction_config.pause_flags, COMPLETE_AUCTION_PAUSE) {
        Some(AuctionError::State(AuctionStateErrors::FunctionPaused))
    } else if ctx.auction.status != AuctionState::Active {
        Some(AuctionError::State(AuctionStateErrors::AuctionAlreadyCompleted))
    } else if now < ctx.auction.end_time {
        Some(AuctionError::State(AuctionStateErrors::AuctionNotStarted))
    } else {
        None
    }
}

/// Why the fee cannot go to the house, if it cannot. For bids in tokens the
/// mint, the escrow and the treasury must be the auction's and the house's.
pub open spec fn fee_rejection(ctx: CompleteAuction, fee_amount: u64) -> Option<AuctionError> {
    match ctx.auction.bid_mint {
        None => transfer_rejection(
            sol_transfer_rejection(ctx.auction_vault, ctx.config_treasury, fee_amount),
        ),
        Some(stored_mint) => {
            if ctx.bid_mint.key != stored_mint || ctx.bid_escrow.mint != stored_mint
                || ctx.bid_fee_treasury_ata.mint != stored_mint {
                Some(AuctionError::Keys(KeysMismatchErrors::InvalidBidMint))
            } else if ctx.bid_escrow.owner != ctx.auction_vault.key {
                Some(AuctionError::Keys(KeysMismatchErrors::InvalidBidEscrowOwner))
            } else if ctx.bid_fee_treasury_ata.owner != ctx.config_treasury.key {
                Some(AuctionError::Keys(KeysMismatchErrors::InvalidBidAtaOwner))
            } else {
                transfer_rejection(
                    token_transfer_rejection(
                        ctx.bid_escrow,
                        ctx.bid_fee_treasury_ata,
                        ctx.auction_vault.key,
                        ctx.bid_mint,
                        fee_amount,
                    ),
                )
            }
        },
    }
}

/// The accounts after the fee went to the house.
pub open spec fn fee_effect(ctx: CompleteAuction, fee_amount: u64) -> CompleteAuction {
    match ctx.auction.bid_mint {
        None => CompleteAuction {
            auction_vault: ctx.auction_vault.debited(fee_amount),
            config_treasury: ctx.config_treasury.credited(fee_amount),
            ..ctx
        },
        Some(_) => CompleteAuction {
            bid_escrow: ctx.bid_escrow.debited(fee_amount),
            bid_fee_treasury_ata: ctx.bid_fee_treasury_ata.credited(fee_amount),
            ..ctx
        },
    }
}

/// Why the auction cannot be closed at `now`, if it cannot: the admission
/// first; then, with bids, the split of the price (`Overflow` where it is
/// not defined) and the move of the fee. An auction without bids is closed
/// without any move.
pub open spec fn complete_auction_rejection(ctx: CompleteAuction, auction_id: u32, now: i64) -> Option<
    AuctionError,
> {
    let price = ctx.auction.highest_bid_amount;
    let bps = ctx.auction_config.commission_bps;
    if completion_admission_rejection(ctx, auction_id, now) is Some {
        completion_admission_rejection(ctx, auction_id, now)
    } else if !ctx.auction.has_any_bid {
        None
    } else if !commission_defined(price, bps) {
        Some(AuctionError::State(AuctionStateErrors::Overflow))
    } else {
        fee_rejection(ctx, commission_fee(price, bps) as u64)
    }
}

/// The auction after it was closed. Without bids it has failed and the item
/// is the creator's to claim. With bids the item is the winner's to claim
/// and the price without the fee is the creator's to claim.
pub open spec fn completed_auction(auction: Auction, commission_bps: u16) -> Auction {
    if !auction.has_any_bid {
        Auction { status: AuctionState::CompletedFailed, claimable_prize_back: 1, ..auction }
    } else {
        Auction {
            status: AuctionState::CompletedSuccessfully,
            claimable_bid_amount: creator_share(auction.highest_bid_amount, commission_bps) as u64,
            is_prize_claimed: false,
            ..auction
        }
    }
}

/// The accounts after the auction was closed.
pub open spec fn complete_auction_effect(ctx: CompleteAuction) -> CompleteAuction {
    let bps = ctx.auction_config.commission_bps;
    let moved = if ctx.auction.has_any_bid {
        fee_effect(ctx, commission_fee(ctx.auction.highest_bid_amount, bps) as u64)
    } else {
        ctx
    };
    CompleteAuction { auction: completed_auction(ctx.auction, bps), ..moved }
}

/// What is reported of the auction that was closed at `now`.
pub open spec fn complete_auction_event(ctx: CompleteAuction, now: i64) -> AuctionCompleted {
    let price = ctx.auction.highest_bid_amount;
    let bps = ctx.auction_config.commission_bps;
    if !ctx.auction.has_any_bid {
        AuctionCompleted {
            auction_id: ctx.auction.auction_id,
            winner: None,
            final_price: 0,
            creator_amount: 0,
            fee_amount: 0,
            completed_at: now,
        }
    } else {
        AuctionCompleted {
            auction_id: ctx.auction.auction_id,
            winner: Some(ctx.auction.highest_bidder),
            final_price: price,
            creator_amount: creator_share(price, bps) as u64,
            fee_amount: commission_fee(price, bps) as u64,
            completed_at: now,
        }
    }
}

fn check_completion_admission(ctx: &CompleteAuction, auction_id: u32, now: i64) -> (r: Result<
    (),
    AuctionError,
>)
    ensures
        match r {
            Ok(()) => completion_admission_rejection(*ctx, auction_id, now) is None,
            Err(e) => completion_admission_rejection(*ctx, auction_id, now) == Some(e),
        },
{
    if !ctx.auction_config.auction_admin.same(&ctx.auction_admin) {
        return Err(AuctionError::Config(ConfigStateErrors::InvalidAuctionAdmin));
    }
    if ctx.auction.auction_id != auction_id {
        return Err(AuctionError::State(AuctionStateErrors::InvalidAuctionId));
    }
    if !ctx.auction.creator.same(&ctx.creator) {
        return Err(AuctionError::State(AuctionStateErrors::InvalidCreator));
    }
    if is_paused(ctx.auction_config.pause_flags, COMPLETE_AUCTION_PAUSE) {
        return Err(AuctionError::State(AuctionStateErrors::FunctionPaused));
    }
    if ctx.auction.status != AuctionState::Active {
        return Err(AuctionError::State(AuctionStateErrors::AuctionAlreadyCompleted));
    }
    if now < ctx.auction.end_time {
        return Err(AuctionError::State(AuctionStateErrors::AuctionNotStarted));
    }
    Ok(())
}

fn move_fee(work: &mut CompleteAuction, fee_amount: u64) -> (r: Result<(), AuctionError>)
    ensures
        match r {
            Ok(()) => {
                &&& fee_rejection(*old(work), fee_amount) is None
                &&& *final(work) == fee_effect(*old(work), fee_amount)
            },
            Err(e) => fee_rejection(*old(work), fee_amount) == Some(e),
        },
{
    match work.auction.bid_mint {
        None => {
            match transfer_sol_with_seeds(&mut work.auction_vault, &mut work.config_treasury, fee_amount) {
                Ok(()) => Ok(()),
                Err(e) => Err(AuctionError::Transfer(e)),
            }
        },
        Some(stored_mint) => {
            if !work.bid_mint.key.same(&stored_mint) || !work.bid_escrow.mint.same(&stored_mint)
                || !work.bid_fee_treasury_ata.mint.same(&stored_mint) {
                return Err(AuctionError::Keys(KeysMismatchErrors::InvalidBidMint));
            }
            if !work.bid_escrow.owner.same(&work.auction_vault.key) {
                return Err(AuctionError::Keys(KeysMismatchErrors::InvalidBidEscrowOwner));
            }
            if !work.bid_fee_treasury_ata.owner.same(&work.config_treasury.key) {
                return Err(AuctionError::Keys(KeysMismatchErrors::InvalidBidAtaOwner));
            }
            let authority = work.auction_vault.key;
            let bid_mint = work.bid_mint;
            match transfer_tokens_with_seeds(
                &mut work.bid_escrow,
                &mut work.bid_fee_treasury_ata,
                &authority,
                &bid_mint,
                fee_amount,
            ) {
                Ok(()) => Ok(()),
                Err(e) => Err(AuctionError::Transfer(e)),
            }
        },
    }
}

/// Closes the auction at the time `now`, which must not be before its end.
///
/// Without bids the auction ends as `CompletedFailed`, the item becomes
/// claimable by the creator, and nothing is moved. With bids it ends as
/// `CompletedSuccessfully`: the fee at the configured rate goes to the
/// house, the rest of the price becomes claimable by the creator, and the
/// item becomes claimable by the highest bidder. Fee and creator's part
/// together are exactly the price.
pub fn complete_auction(ctx: &mut CompleteAuction, auction_id: u32, now: i64) -> (r: Result<
    AuctionCompleted,
    AuctionError,
>)
    ensures
        match r {
            Ok(event) => {
                &&& complete_auction_rejection(*old(ctx), auction_id, now) is None
                &&& *final(ctx) == complete_auction_effect(*old(ctx))
                &&& event == complete_auction_event(*old(ctx), now)
                &&& event.fee_amount + event.creator_amount == event.final_price
            },
            Err(e) => {
                &&& complete_auction_rejection(*old(ctx), auction_id, now) == Some(e)
                &&& *final(ctx) == *old(ctx)
            },
        },
        r is Ok && !old(ctx).auction.has_any_bid ==> {
            &&& final(ctx).auction.status == AuctionState::CompletedFailed
            &&& final(ctx).auction.claimable_prize_back == 1
            &&& final(ctx).auction.claimable_bid_amount == old(ctx).auction.claimable_bid_amount
            &&& final(ctx).auction_vault == old(ctx).auction_vault
            &&& final(ctx).bid_escrow == old(ctx).bid_escrow
            &&& final(ctx).config_treasury == old(ctx).config_treasury
            &&& final(ctx).bid_fee_treasury_ata == old(ctx).bid_fee_treasury_ata
        },
        final(ctx).custody_conserved(),
        r is Ok && old(ctx).auction.well_formed() ==> final(ctx).auction.well_formed(),
{
    proof {
        use_type_invariant(&ctx.auction_vault.balance);
        use_type_invariant(&ctx.bid_escrow.balance);
        use_type_invariant(&ctx.config_treasury.balance);
        use_type_invariant(&ctx.bid_fee_treasury_ata.balance);
    }
    let mut work = *ctx;
    check_completion_admission(&work, auction_id, now)?;
    if !work.auction.has_any_bid {
        work.auction.status = AuctionState::CompletedFailed;
        work.auction.claimable_prize_back = 1;
        *ctx = work;
        return Ok(
            AuctionCompleted {
                auction_id: ctx.auction.auction_id,
                winner: None,
                final_price: 0,
                creator_amount: 0,
                fee_amount: 0,
                completed_at: now,
            },
        );
    }
    let final_price = work.auction.highest_bid_amount;
    let (fee_amount, creator_amount) = match split_revenue(
        final_price,
        work.auction_config.commission_bps,
    ) {
        Some(parts) => parts,
        None => {
            return Err(AuctionError::State(AuctionStateErrors::Overflow));
        },
    };
    move_fee(&mut work, fee_amount)?;
    work.auction.status = AuctionState::CompletedSuccessfully;
    work.auction.claimable_bid_amount = creator_amount;
    work.auction.is_prize_claimed = false;
    *ctx = work;
    Ok(
        AuctionCompleted {
            auction_id: ctx.auction.auction_id,
            winner: Some(ctx.auction.highest_bidder),
            final_price,
            creator_amount,
            fee_amount,
            completed_at: now,
        },
    )
}

} // verus!
