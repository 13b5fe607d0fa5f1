//! Opening an auction for bids once its start time has come.

use vstd::prelude::*;
use crate::auction::constants::START_AUCTION_PAUSE;
use crate::auction::errors::{AuctionError, AuctionStateErrors, ConfigStateErrors};
use crate::auction::states::{Auction, AuctionConfig, AuctionState};
use crate::auction::utils::is_paused;
use crate::math::flag_set;
use crate::pubkey::Pubkey;

verus! {

/// What `start_auction` reports.
#[derive(Clone, Copy, Debug, PartialEq, Eq)]
pub struct AuctionStarted {
    pub auction_id: u32,
    pub started_at: i64,
}

/// The accounts of `start_auction`.
#[derive(Clone, Copy)]
pub struct StartAuction {
    pub auction_config: AuctionConfig,
    pub auction: Auction,
    pub auction_admin: Pubkey,
}

/// Why the auction cannot be started at `now`, if it cannot: the first of
/// these that holds. The admin is not the configured one; the auction has
/// another number; starting is paused; the auction is not `Initialized`; the
/// start time has not come.
pub open spec fn start_auction_rejection(ctx: StartAuction, auction_id: u32, now: i64) -> Option<
    AuctionError,
> {
    if ctx.auction_config.auction_admin != ctx.auction_admin {
        Some(AuctionError::Config(ConfigStateErrors::InvalidAuctionAdmin))
    } else if ctx.auction.auction_id != auction_id {
        Some(AuctionError::State(AuctionStateErrors::InvalidAuctionId))
    } else if flag_set(ctx.auction_config.pause_flags, START_AUCTION_PAUSE) {
        Some(AuctionError::State(AuctionStateErrors::FunctionPaused))
    } else if ctx.auction.status != AuctionState::Initialized {
        Some(AuctionError::State(AuctionStateErrors::AuctionAlreadyStarted))
    } else if now < ctx.auction.start_time {
        Some(AuctionError::State(AuctionStateErrors::AuctionNotStarted))
    } else {
        None
    }
}

/// Moves the auction from `Initialized` to `Active`.
pub fn start_auction(ctx: &mut StartAuction, auction_id: u32, now: i64) -> (r: Result<
    AuctionStarted,
    AuctionError,
>)
    ensures
        match r {
            Ok(event) => {
                &&& start_auction_rejection(*old(ctx), auction_id, now) is None
                &&& *final(ctx) == (StartAuction {
                    auction: Auction { status: AuctionState::Active, ..old(ctx).auction },
                    ..*old(ctx)
                })
                &&& event == (AuctionStarted { auction_id, started_at: now })
            },
            Err(e) => {
                &&& start_auction_rejection(*old(ctx), auction_id, now) == Some(e)
                &&& *final(ctx) == *old(ctx)
            },
        },
        r is Ok && old(ctx).auction.well_formed() ==> final(ctx).auction.well_formed(),
{
    if !ctx.auction_config.auction_admin.same(&ctx.auction_admin) {
        return Err(AuctionError::Config(ConfigStateErrors::InvalidAuctionAdmin));
    }
    if ctx.auction.auction_id != auction_id {
        return Err(AuctionError::State(AuctionStateErrors::InvalidAuctionId));
    }
    if is_paused(ctx.auction_config.pause_flags, START_AUCTION_PAUSE) {
        return Err(AuctionError::State(AuctionStateErrors::FunctionPaused));
    }
    if ctx.auction.status != AuctionState::Initialized {
        return Err(AuctionError::State(AuctionStateErrors::AuctionAlreadyStarted));
    }
    if now < ctx.auction.start_time {
        return Err(AuctionError::State(AuctionStateErrors::AuctionNotStarted));
    }
    ctx.auction.status = AuctionState::Active;
    Ok(AuctionStarted { auction_id: ctx.auction.auction_id, started_at: now })
}

} // verus!
