//! Changing the terms of an auction that has not started.

use vstd::prelude::*;
use crate::auction::constants::UPDATE_AUCTION_PAUSE;
use crate::auction::create_auction::{extension_allowed, period_allowed, AuctionTerms};
use crate::auction::errors::{AuctionError, AuctionStateErrors, ConfigStateErrors};
use crate::auction::states::{Auction, AuctionConfig, AuctionState};
use crate::auction::utils::is_paused;
use crate::math::flag_set;
use crate::pubkey::Pubkey;

verus! {

/// What `update_auction` reports.
#[derive(Clone, Copy, Debug, PartialEq, Eq)]
pub struct AuctionUpdated {
    pub auction_id: u32,
    pub start_time: i64,
    pub end_time: i64,
    pub base_bid: u64,
    pub min_increment: u64,
    pub time_extension: u32,
    pub updated_at: i64,
}

/// The accounts of `update_auction`.
#[derive(Clone, Copy)]
pub struct UpdateAuction {
    pub auction_config: AuctionConfig,
    pub auction: Auction,
    pub creator: Pubkey,
    pub auction_admin: Pubkey,
}

/// Why the terms cannot be changed at `now`, if they cannot: the first of
/// these that holds. The admin is not the configured one; the auction has
/// another number; the caller is not the creator; updating is paused; the
/// auction is not `Initialized`; its start time has come; it has a bid; the
/// new start lies in the past; the length of the new window does not fit in
/// 64 bits; it is outside the configured bounds; the extension is; the
/// increment is zero.
pub open spec fn update_auction_rejection(
    ctx: UpdateAuction,
    auction_id: u32,
    terms: AuctionTerms,
    now: i64,
) -> Option<AuctionError> {
    let start = terms.effective_start(now);
    if ctx.auction_config.auction_admin != ctx.auction_admin {
        Some(AuctionError::Config(ConfigStateErrors::InvalidAuctionAdmin))
    } else if ctx.auction.auction_id != auction_id {
        Some(AuctionError::State(AuctionStateErrors::InvalidAuctionId))
    } else if ctx.auction.creator != ctx.creator {
        Some(AuctionError::State(AuctionStateErrors::InvalidCreator))
    } else if flag_set(ctx.auction_config.pause_flags, UPDATE_AUCTION_PAUSE) {
        Some(AuctionError::State(AuctionStateErrors::FunctionPaused))
    } else if ctx.auction.status != AuctionState::Initialized {
        Some(AuctionError::State(AuctionStateErrors::AuctionNotActive))
    } else if ctx.auction.start_time <= now {
        Some(AuctionError::State(AuctionStateErrors::AuctionAlreadyStarted))
    } else if ctx.auction.has_any_bid {
        Some(AuctionError::State(AuctionStateErrors::AuctionHasBids))
    } else if start < now {
        Some(AuctionError::State(AuctionStateErrors::StartTimeInPast))
    } else if !(i64::MIN <= terms.end_time - start <= i64::MAX) {
        Some(AuctionError::State(AuctionStateErrors::StartTimeExceedEndTime))
    } else if !period_allowed(ctx.auction_config, start, terms.end_time) {
        Some(AuctionError::Config(ConfigStateErrors::InvalidAuctionPeriod))
    } else if !extension_allowed(ctx.auction_config, terms.time_extension) {
        Some(AuctionError::Config(ConfigStateErrors::InvalidTimeExtension))
    } else if terms.min_increment == 0 {
        Some(AuctionError::State(AuctionStateErrors::InvalidZeroAmount))
    } else {
        None
    }
}

/// The auction with its new terms. As it has no bid, the new base bid stands
/// for the highest bid.
pub open spec fn updated_auction(auction: Auction, terms: AuctionTerms, now: i64) -> Auction {
    Auction {
        start_time: terms.effective_start(now),
        end_time: terms.end_time,
        base_bid: terms.base_bid,
        min_increment: terms.min_increment,
        time_extension: terms.time_extension,
        highest_bid_amount: terms.base_bid,
        ..auction
    }
}

/// Gives the auction new terms. They are held to what `create_auction` asks.
/// The auction stays `Initialized`, also where its start is set to `now`.
pub fn update_auction(
    ctx: &mut UpdateAuction,
    auction_id: u32,
    start_time: i64,
    end_time: i64,
    start_immediately: bool,
    base_bid: u64,
    min_increment: u64,
    time_extension: u32,
    now: i64,
) -> (r: Result<AuctionUpdated, AuctionError>)
    ensures
        ({
            let terms = AuctionTerms {
                start_time,
                end_time,
                start_immediately,
                base_bid,
                min_increment,
                time_extension,
            };
            match r {
                Ok(event) => {
                    &&& update_auction_rejection(*old(ctx), auction_id, terms, now) is None
                    &&& *final(ctx) == (UpdateAuction {
                        auction: updated_auction(old(ctx).auction, terms, now),
                        ..*old(ctx)
                    })
                    &&& event == (AuctionUpdated {
                        auction_id,
                        start_time: terms.effective_start(now),
                        end_time,
                        base_bid,
                        min_increment,
                        time_extension,
                        updated_at: now,
                    })
                },
                Err(e) => {
                    &&& update_auction_rejection(*old(ctx), auction_id, terms, now) == Some(e)
                    &&& *final(ctx) == *old(ctx)
                },
            }
        }),
        r is Ok && old(ctx).auction.well_formed() ==> final(ctx).auction.well_formed(),
{
    if !ctx.auction_config.auction_admin.same(&ctx.auction_admin) {
        return Err(AuctionError::Config(ConfigStateErrors::InvalidAuctionAdmin));
    }
    if ctx.auction.auction_id != auction_id {
        return Err(AuctionError::State(AuctionStateErrors::InvalidAuctionId));
    }
    if !ctx.auction.creator.same(&ctx.creator) {
        return Err(AuctionError::State(AuctionStateErrors::InvalidCreator));
    }
    if is_paused(ctx.auction_config.pause_flags, UPDATE_AUCTION_PAUSE) {
        return Err(AuctionError::State(AuctionStateErrors::FunctionPaused));
    }
    if ctx.auction.status != AuctionState::Initialized {
        return Err(AuctionError::State(AuctionStateErrors::AuctionNotActive));
    }
    if ctx.auction.start_time <= now {
        return Err(AuctionError::State(AuctionStateErrors::AuctionAlreadyStarted));
    }
    if ctx.auction.has_any_bid {
        return Err(AuctionError::State(AuctionStateErrors::AuctionHasBids));
    }
    let start = if start_immediately {
        now
    } else {
        start_time
    };
    if start < now {
        return Err(AuctionError::State(AuctionStateErrors::StartTimeInPast));
    }
    let duration = match end_time.checked_sub(start) {
        Some(d) => d,
        None => {
            return Err(AuctionError::State(AuctionStateErrors::StartTimeExceedEndTime));
        },
    };
    if !(duration >= ctx.auction_config.minimum_auction_period as i64 && duration
        <= ctx.auction_config.maximum_auction_period as i64) {
        return Err(AuctionError::Config(ConfigStateErrors::InvalidAuctionPeriod));
    }
    if !(time_extension >= ctx.auction_config.minimum_time_extension && time_extension
        <= ctx.auction_config.maximum_time_extension) {
        return Err(AuctionError::Config(ConfigStateErrors::InvalidTimeExtension));
    }
    if min_increment == 0 {
        return Err(AuctionError::State(AuctionStateErrors::InvalidZeroAmount));
    }
    ctx.auction.start_time = start;
    ctx.auction.end_time = end_time;
    ctx.auction.base_bid = base_bid;
    ctx.auction.min_increment = min_increment;
    ctx.auction.time_extension = time_extension;
    ctx.auction.highest_bid_amount = base_bid;
    Ok(
        AuctionUpdated {
            auction_id,
            start_time: start,
            end_time,
            base_bid,
            min_increment,
            time_extension,
            updated_at: now,
        },
    )
}

} // verus!
