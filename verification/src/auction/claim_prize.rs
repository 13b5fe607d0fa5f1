//! The winner of an auction takes the item. The item is handed out once.

use vstd::prelude::*;
use crate::auction::errors::{
    transfer_rejection,
    AuctionError,
    AuctionStateErrors,
    ConfigStateErrors,
    KeysMismatchErrors,
};
use crate::auction::states::{Auction, AuctionConfig, AuctionState};
use crate::custody::{
    token_transfer_rejection,
    transfer_tokens_with_seeds,
    Mint,
    SystemAccount,
    TokenAccount,
};
use crate::pubkey::Pubkey;

verus! {

/// What `claim_prize` reports.
#[derive(Clone, Copy, Debug, PartialEq, Eq)]
pub struct PrizeClaimed {
    pub auction_id: u32,
    pub winner: Pubkey,
    pub prize_mint: Pubkey,
    pub claimed_time: i64,
}

/// The accounts of `claim_prize`.
#[derive(Clone, Copy)]
pub struct ClaimPrize {
    pub auction_config: AuctionConfig,
    pub auction: Auction,
    pub auction_vault: SystemAccount,
    pub auction_admin: Pubkey,
    pub winner: Pubkey,
    pub prize_mint: Mint,
    pub prize_escrow: TokenAccount,
    pub winner_prize_ata: TokenAccount,
}

impl ClaimPrize {
    /// Custody conservation: of the account that holds the item, what went
    /// out never exceeded what came in.
    pub open spec fn custody_conserved(self) -> bool {
        self.prize_escrow.conserved()
    }
}

/// Why the item cannot be claimed, if it cannot: the first of these that
/// holds. The admin is not the configured one; the auction has another
/// number; it was not completed with a winner; the caller is not the highest
/// bidder; the item was claimed before; the prize mint or the mint of the
/// winner's account is not the auction's; the winner's account is not the
/// winner's; the move is refused.
pub open spec fn claim_prize_rejection(ctx: ClaimPrize, auction_id: u32) -> Option<AuctionError> {
    if ctx.auction_config.auction_admin != ctx.auction_admin {
        Some(AuctionError::Config(ConfigStateErrors::InvalidAuctionAdmin))
    } else if ctx.auction.auction_id != auction_id {
        Some(AuctionError::State(AuctionStateErrors::InvalidAuctionId))
    } else if ctx.auction.status != AuctionState::CompletedSuccessfully {
        Some(AuctionError::State(AuctionStateErrors::AuctionNotCompleted))
    } else if ctx.winner != ctx.auction.highest_bidder {
        Some(AuctionError::Keys(KeysMismatchErrors::InvalidHighestBidder))
    } else if ctx.auction.is_prize_claimed {
        Some(AuctionError::State(AuctionStateErrors::PrizeAlreadyClaimed))
    } else if ctx.prize_mint.key != ctx.auction.prize_mint || ctx.winner_prize_ata.mint
        != ctx.auction.prize_mint {
        Some(AuctionError::Keys(KeysMismatchErrors::InvalidPrizeMint))
    } else if ctx.winner_prize_ata.owner != ctx.winner {
        Some(AuctionError::Keys(KeysMismatchErrors::InvalidPrizeAtaOwner))
    } else {
        transfer_rejection(
            token_transfer_rejection(
                ctx.prize_escrow,
                ctx.winner_prize_ata,
                ctx.auction_vault.key,
                ctx.prize_mint,
                1,
            ),
        )
    }
}

/// The accounts after the winner took the item.
pub open spec fn claim_prize_effect(ctx: ClaimPrize) -> ClaimPrize {
    ClaimPrize {
        auction: Auction { is_prize_claimed: true, ..ctx.auction },
        prize_escrow: ctx.prize_escrow.debited(1),
        winner_prize_ata: ctx.winner_prize_ata.credited(1),
        ..ctx
    }
}

/// At-most-once claim: after the winner took the item, a second claim by
/// the same accounts is turned away with `PrizeAlreadyClaimed`.
pub proof fn claim_is_at_most_once(ctx: ClaimPrize, auction_id: u32)
    requires
        claim_prize_rejection(ctx, auction_id) is None,
    ensures
        claim_prize_rejection(claim_prize_effect(ctx), auction_id) == Some(
            AuctionError::State(AuctionStateErrors::PrizeAlreadyClaimed),
        ),
{
}

/// Hands the item to the highest bidder of an auction that was completed
/// with bids, at the time `now`. The auction stays as it is but for the mark
/// that the item was claimed.
pub fn claim_prize(ctx: &mut ClaimPrize, auction_id: u32, now: i64) -> (r: Result<
    PrizeClaimed,
    AuctionError,
>)
    ensures
        match r {
            Ok(event) => {
                &&& claim_prize_rejection(*old(ctx), auction_id) is None
                &&& *final(ctx) == claim_prize_effect(*old(ctx))
                &&& event == (PrizeClaimed {
                    auction_id,
                    winner: old(ctx).winner,
                    prize_mint: old(ctx).auction.prize_mint,
                    claimed_time: now,
                })
            },
            Err(e) => {
                &&& claim_prize_rejection(*old(ctx), auction_id) == Some(e)
                &&& *final(ctx) == *old(ctx)
            },
        },
        final(ctx).custody_conserved(),
        r is Ok && old(ctx).auction.well_formed() ==> final(ctx).auction.well_formed(),
{
    proof {
        use_type_invariant(&ctx.prize_escrow.balance);
    }
    let mut work = *ctx;
    if !work.auction_config.auction_admin.same(&work.auction_admin) {
        return Err(AuctionError::Config(ConfigStateErrors::InvalidAuctionAdmin));
    }
    if work.auction.auction_id != auction_id {
        return Err(AuctionError::State(AuctionStateErrors::InvalidAuctionId));
    }
    if work.auction.status != AuctionState::CompletedSuccessfully {
        return Err(AuctionError::State(AuctionStateErrors::AuctionNotCompleted));
    }
    if !work.winner.same(&work.auction.highest_bidder) {
        return Err(AuctionError::Keys(KeysMismatchErrors::InvalidHighestBidder));
    }
    if work.auction.is_prize_claimed {
        return Err(AuctionError::State(AuctionStateErrors::PrizeAlreadyClaimed));
    }
    if !work.prize_mint.key.same(&work.auction.prize_mint) || !work.winner_prize_ata.mint.same(
        &work.auction.prize_mint,
    ) {
        return Err(AuctionError::Keys(KeysMismatchErrors::InvalidPrizeMint));
    }
    if !work.winner_prize_ata.owner.same(&work.winner) {
        return Err(AuctionError::Keys(KeysMismatchErrors::InvalidPrizeAtaOwner));
    }
    work.auction.is_prize_claimed = true;
    let authority = work.auction_vault.key;
    let prize_mint = work.prize_mint;
    match transfer_tokens_with_seeds(
        &mut work.prize_escrow,
        &mut work.winner_prize_ata,
        &authority,
        &prize_mint,
        1,
    ) {
        Ok(()) => {},
        Err(e) => {
            return Err(AuctionError::Transfer(e));
        },
    }
    *ctx = work;
    Ok(
        PrizeClaimed {
            auction_id,
            winner: ctx.winner,
            prize_mint: ctx.auction.prize_mint,
            claimed_time: now,
        },
    )
}

} // verus!
