//! Calling off an auction that nobody has bid on: the item goes back to the
//! creator and its custody account is closed.

use vstd::prelude::*;
use crate::auction::constants::CANCEL_AUCTION_PAUSE;
use crate::auction::errors::{
    transfer_rejection,
    AuctionError,
    AuctionStateErrors,
    ConfigStateErrors,
    KeysMismatchErrors,
};
use crate::auction::states::{Auction, AuctionConfig, AuctionState};
use crate::auction::utils::is_paused;
use crate::custody::{
    can_close,
    close_token_account_with_seeds,
    token_transfer_rejection,
    transfer_tokens_with_seeds,
    Mint,
    SystemAccount,
    TokenAccount,
    TransferErrors,
};
use crate::math::flag_set;
use crate::pubkey::Pubkey;

verus! {

/// What `cancel_auction` reports.
#[derive(Clone, Copy, Debug, PartialEq, Eq)]
pub struct AuctionCancelled {
    pub auction_id: u32,
    pub cancelled_by: Pubkey,
    pub cancelled_time: i64,
}

/// The accounts of `cancel_auction`.
#[derive(Clone, Copy)]
pub struct CancelAuction {
    pub auction_config: AuctionConfig,
    pub auction: Auction,
    pub auction_vault: SystemAccount,
    pub creator: Pubkey,
    pub auction_admin: Pubkey,
    pub prize_mint: Mint,
    pub prize_escrow: TokenAccount,
    pub creator_prize_ata: TokenAccount,
}

impl CancelAuction {
    /// Custody conservation: of each account that holds value for the sale
    /// or for the house, what went out never exceeded what came in.
    pub open spec fn custody_conserved(self) -> bool {
        self.prize_escrow.conserved()
    }
}

/// Why the auction cannot be called off, if it cannot: the first of these
/// that holds. The admin is not the configured one; the auction has another
/// number; the caller is not the creator; cancelling is paused; the auction
/// is neither `Initialized` nor `Active`; it has a bid; the account that
/// shall take the item is not the creator's; the item cannot go back; its
/// custody account cannot be closed.
pub open spec fn cancel_auction_rejection(ctx: CancelAuction, auction_id: u32) -> Option<AuctionError> {
    if ctx.auction_config.auction_admin != ctx.auction_admin {
        Some(AuctionError::Config(ConfigStateErrors::InvalidAuctionAdmin))
    } else if ctx.auction.auction_id != auction_id {
        Some(AuctionError::State(AuctionStateErrors::InvalidAuctionId))
    } else if ctx.creator != ctx.auction.creator {
        Some(AuctionError::State(AuctionStateErrors::InvalidCreator))
    } else if flag_set(ctx.auction_config.pause_flags, CANCEL_AUCTION_PAUSE) {
        Some(AuctionError::State(AuctionStateErrors::FunctionPaused))
    } else if ctx.auction.status != AuctionState::Initialized && ctx.auction.status
        != AuctionState::Active {
        Some(AuctionError::State(AuctionStateErrors::AuctionAlreadyCompleted))
    } else if ctx.auction.has_any_bid {
        Some(AuctionError::State(AuctionStateErrors::AuctionHasBids))
    } else if ctx.creator_prize_ata.owner != ctx.creator {
        Some(AuctionError::Keys(KeysMismatchErrors::InvalidPrizeAtaOwner))
    } else if token_transfer_rejection(
        ctx.prize_escrow,
        ctx.creator_prize_ata,
        ctx.auction_vault.key,
        ctx.prize_mint,
        1,
    ) is Some {
        transfer_rejection(
            token_transfer_rejection(
                ctx.prize_escrow,
                ctx.creator_prize_ata,
                ctx.auction_vault.key,
                ctx.prize_mint,
                1,
            ),
        )
    } else if !can_close(ctx.prize_escrow.debited(1), ctx.auction_vault.key) {
        Some(AuctionError::Transfer(TransferErrors::CloseAccountFailed))
    } else {
        None
    }
}

/// The accounts after the auction was called off.
pub open spec fn cancel_auction_effect(ctx: CancelAuction) -> CancelAuction {
    CancelAuction {
        auction: Auction { status: AuctionState::Cancelled, ..ctx.auction },
        prize_escrow: ctx.prize_escrow.debited(1).shut(),
        creator_prize_ata: ctx.creator_prize_ata.credited(1),
        ..ctx
    }
}

/// Calls off the auction at the time `now` and hands the item back to the
/// creator. The creation fee is not paid back.
pub fn cancel_auction(ctx: &mut CancelAuction, auction_id: u32, now: i64) -> (r: Result<
    AuctionCancelled,
    AuctionError,
>)
    ensures
        match r {
            Ok(event) => {
                &&& cancel_auction_rejection(*old(ctx), auction_id) is None
                &&& *final(ctx) == cancel_auction_effect(*old(ctx))
                &&& event == (AuctionCancelled {
                    auction_id,
                    cancelled_by: old(ctx).creator,
                    cancelled_time: now,
                })
            },
            Err(e) => {
                &&& cancel_auction_rejection(*old(ctx), auction_id) == Some(e)
                &&& *final(ctx) == *old(ctx)
            },
        },
        final(ctx).custody_conserved(),
        r is Ok && old(ctx).auction.well_formed() ==> final(ctx).auction.well_formed(),
{
    proof {
        use_type_invariant(&ctx.prize_escrow.balance);
    }
    let mut work = *ctx;
    if !work.auction_config.auction_admin.same(&work.auction_admin) {
        return Err(AuctionError::Config(ConfigStateErrors::InvalidAuctionAdmin));
    }
    if work.auction.auction_id != auction_id {
        return Err(AuctionError::State(AuctionStateErrors::InvalidAuctionId));
    }
    if !work.creator.same(&work.auction.creator) {
        return Err(AuctionError::State(AuctionStateErrors::InvalidCreator));
    }
    if is_paused(work.auction_config.pause_flags, CANCEL_AUCTION_PAUSE) {
        return Err(AuctionError::State(AuctionStateErrors::FunctionPaused));
    }
    if work.auction.status != AuctionState::Initialized && work.auction.status
        != AuctionState::Active {
        return Err(AuctionError::State(AuctionStateErrors::AuctionAlreadyCompleted));
    }
    if work.auction.has_any_bid {
        return Err(AuctionError::State(AuctionStateErrors::AuctionHasBids));
    }
    if !work.creator_prize_ata.owner.same(&work.creator) {
        return Err(AuctionError::Keys(KeysMismatchErrors::InvalidPrizeAtaOwner));
    }
    work.auction.status = AuctionState::Cancelled;
    let authority = work.auction_vault.key;
    let prize_mint = work.prize_mint;
    match transfer_tokens_with_seeds(
        &mut work.prize_escrow,
        &mut work.creator_prize_ata,
        &authority,
        &prize_mint,
        1,
    ) {
        Ok(()) => {},
        Err(e) => {
            return Err(AuctionError::Transfer(e));
        },
    }
    match close_token_account_with_seeds(&mut work.prize_escrow, &authority) {
        Ok(()) => {},
        Err(e) => {
            return Err(AuctionError::Transfer(e));
        },
    }
    *ctx = work;
    Ok(AuctionCancelled { auction_id, cancelled_by: ctx.creator, cancelled_time: now })
}

} // verus!
