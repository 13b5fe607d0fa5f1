//! Bidding: the new bid is paid into custody, the bid it beats is paid back,
//! and the closing time moves so that a late bid can still be answered.

use vstd::prelude::*;
use crate::auction::constants::PLACE_BID_PAUSE;
use crate::auction::errors::{
    transfer_rejection,
    AuctionError,
    AuctionStateErrors,
    ConfigStateErrors,
    KeysMismatchErrors,
};
use crate::auction::states::{Auction, AuctionConfig, AuctionState};
use crate::auction::utils::is_paused;
use crate::custody::{
    sol_transfer_rejection,
    token_transfer_rejection,
    transfer_sol,
    transfer_sol_with_seeds,
    transfer_tokens,
    transfer_tokens_with_seeds,
    Mint,
    SystemAccount,
    TokenAccount,
};
use crate::math::flag_set;
use crate::pubkey::Pubkey;

verus! {

/// What `place_bid` reports.
#[derive(Clone, Copy, Debug, PartialEq, Eq)]
pub struct BidPlaced {
    pub auction_id: u32,
    pub bidder: Pubkey,
    pub new_bid: u64,
    pub bid_time: i64,
}

/// The accounts of `place_bid`. `auction_vault` is the auction's own account:
/// its address is the auction's, and it holds the bids that are paid in the
/// native currency. Bids in tokens are held in `bid_escrow`.
#[derive(Clone, Copy)]
pub struct PlaceBid {
    pub auction_config: AuctionConfig,
    pub auction: Auction,
    pub auction_vault: SystemAccount,
    pub bidder: SystemAccount,
    pub auction_admin: Pubkey,
    pub prev_bidder_account: SystemAccount,
    pub bid_mint: Mint,
    pub current_bidder_ata: TokenAccount,
    pub prev_bidder_ata: TokenAccount,
    pub bid_escrow: TokenAccount,
}

impl PlaceBid {
    /// Custody conservation: of each account that holds value for the sale
    /// or for the house, what went out never exceeded what came in.
    pub open spec fn custody_conserved(self) -> bool {
        self.auction_vault.conserved() && self.bid_escrow.conserved()
    }
}

/// The closing time after a bid at `now`: never earlier than it was, and at
/// least `time_extension` after the bid.
pub open spec fn extended_end_time(end_time: i64, now: i64, time_extension: u32) -> int {
    if now + time_extension > end_time {
        now + time_extension
    } else {
        end_time as int
    }
}

/// Why the payment of the bid into custody is refused, if it is.
pub open spec fn bid_payment_rejection(ctx: PlaceBid, bid_amount: u64) -> Option<AuctionError> {
    match ctx.auction.bid_mint {
        None => transfer_rejection(sol_transfer_rejection(ctx.bidder, ctx.auction_vault, bid_amount)),
        Some(stored_mint) => {
            if ctx.bid_mint.key != stored_mint || ctx.bid_escrow.mint != stored_mint {
                Some(AuctionError::Keys(KeysMismatchErrors::InvalidBidMint))
            } else if ctx.bid_escrow.owner != ctx.auction_vault.key {
                Some(AuctionError::Keys(KeysMismatchErrors::InvalidBidEscrowOwner))
            } else if ctx.current_bidder_ata.mint != stored_mint {
                Some(AuctionError::Keys(KeysMismatchErrors::InvalidBidMint))
            } else if ctx.current_bidder_ata.owner != ctx.bidder.key {
                Some(AuctionError::Keys(KeysMismatchErrors::InvalidBidAtaOwner))
            } else {
                transfer_rejection(
                    token_transfer_rejection(
                        ctx.current_bidder_ata,
                        ctx.bid_escrow,
                        ctx.bidder.key,
                        ctx.bid_mint,
                        bid_amount,
                    ),
                )
            }
        },
    }
}

/// The accounts after the bid was paid into custody.
pub open spec fn after_bid_payment(ctx: PlaceBid, bid_amount: u64) -> PlaceBid {
    match ctx.auction.bid_mint {
        None => PlaceBid {
            bidder: ctx.bidder.debited(bid_amount),
            auction_vault: ctx.auction_vault.credited(bid_amount),
            ..ctx
        },
        Some(_) => PlaceBid {
            current_bidder_ata: ctx.current_bidder_ata.debited(bid_amount),
            bid_escrow: ctx.bid_escrow.credited(bid_amount),
            ..ctx
        },
    }
}

/// Why the bid that is beaten cannot be paid back, if it cannot. Nothing is
/// paid back while the auction has no bid.
pub open spec fn refund_rejection(ctx: PlaceBid) -> Option<AuctionError> {
    if !ctx.auction.has_any_bid {
        None
    } else {
        match ctx.auction.bid_mint {
            None => {
                if ctx.prev_bidder_account.key != ctx.auction.highest_bidder {
                    Some(AuctionError::Keys(KeysMismatchErrors::InvalidPreviousBidOwner))
                } else {
                    transfer_rejection(
                        sol_transfer_rejection(
                            ctx.auction_vault,
                            ctx.prev_bidder_account,
                            ctx.auction.highest_bid_amount,
                        ),
                    )
                }
            },
            Some(stored_mint) => {
                if ctx.prev_bidder_ata.mint != stored_mint {
                    Some(AuctionError::Keys(KeysMismatchErrors::InvalidBidMint))
                } else if ctx.prev_bidder_ata.owner != ctx.auction.highest_bidder {
                    Some(AuctionError::Keys(KeysMismatchErrors::InvalidPreviousBidOwner))
                } else {
                    transfer_rejection(
                        token_transfer_rejection(
                            ctx.bid_escrow,
                            ctx.prev_bidder_ata,
                            ctx.auction_vault.key,
                            ctx.bid_mint,
                            ctx.auction.highest_bid_amount,
                        ),
                    )
                }
            },
        }
    }
}

/// The accounts after the bid that is beaten was paid back in full.
pub open spec fn after_refund(ctx: PlaceBid) -> PlaceBid {
    if !ctx.auction.has_any_bid {
        ctx
    } else {
        match ctx.auction.bid_mint {
            None => PlaceBid {
                auction_vault: ctx.auction_vault.debited(ctx.auction.highest_bid_amount),
                prev_bidder_account: ctx.prev_bidder_account.credited(ctx.auction.highest_bid_amount),
                ..ctx
            },
            Some(_) => PlaceBid {
                bid_escrow: ctx.bid_escrow.debited(ctx.auction.highest_bid_amount),
                prev_bidder_ata: ctx.prev_bidder_ata.credited(ctx.auction.highest_bid_amount),
                ..ctx
            },
        }
    }
}

/// Why a bid of `bid_amount` at `now` is turned away, if it is: the first of
/// these that holds. The admin is not the configured one; the auction has
/// another number; bidding is paused; the auction is not `Active`; `now` is
/// outside `[start_time, end_time)`; the bidder holds the highest bid
/// already; the highest bid and the increment overflow; the bid is below
/// their sum; the payment is refused; the refund is refused; the new closing
/// time overflows.
pub open spec fn place_bid_rejection(ctx: PlaceBid, auction_id: u32, bid_amount: u64, now: i64) -> Option<
    AuctionError,
> {
    if ctx.auction_config.auction_admin != ctx.auction_admin {
        Some(AuctionError::Config(ConfigStateErrors::InvalidAuctionAdmin))
    } else if ctx.auction.auction_id != auction_id {
        Some(AuctionError::State(AuctionStateErrors::InvalidAuctionId))
    } else if flag_set(ctx.auction_config.pause_flags, PLACE_BID_PAUSE) {
        Some(AuctionError::State(AuctionStateErrors::FunctionPaused))
    } else if ctx.auction.status != AuctionState::Active {
        Some(AuctionError::State(AuctionStateErrors::AuctionNotActive))
    } else if !(ctx.auction.start_time <= now < ctx.auction.end_time) {
        Some(AuctionError::State(AuctionStateErrors::AuctionNotStarted))
    } else if ctx.bidder.key == ctx.auction.highest_bidder {
        Some(AuctionError::State(AuctionStateErrors::CannotBidOwnHighBid))
    } else if ctx.auction.highest_bid_amount + ctx.auction.min_increment > u64::MAX {
        Some(AuctionError::State(AuctionStateErrors::Overflow))
    } else if bid_amount < ctx.auction.highest_bid_amount + ctx.auction.min_increment {
        Some(AuctionError::State(AuctionStateErrors::BidTooLow))
    } else if bid_payment_rejection(ctx, bid_amount) is Some {
        bid_payment_rejection(ctx, bid_amount)
    } else if refund_rejection(after_bid_payment(ctx, bid_amount)) is Some {
        refund_rejection(after_bid_payment(ctx, bid_amount))
    } else if now + ctx.auction.time_extension > i64::MAX {
        Some(AuctionError::State(AuctionStateErrors::Overflow))
    } else {
        None
    }
}

/// The accounts after an accepted bid: the bid is in custody, the bid it
/// beat is back with its bidder, and the auction names the new bidder, the
/// new highest bid and the new closing time.
pub open spec fn place_bid_effect(ctx: PlaceBid, bid_amount: u64, now: i64) -> PlaceBid {
    PlaceBid {
        auction: Auction {
            highest_bid_amount: bid_amount,
            highest_bidder: ctx.bidder.key,
            has_any_bid: true,
            end_time: extended_end_time(ctx.auction.end_time, now, ctx.auction.time_extension) as i64,
            ..ctx.auction
        },
        ..after_refund(after_bid_payment(ctx, bid_amount))
    }
}

/// Anti-snipe extension: a bid never moves the closing time back, and leaves
/// at least the extension after it. A bid in the last moments, less than the
/// extension before the end, moves the end to the extension after the bid.
pub proof fn bid_extends_end_time(end_time: i64, now: i64, time_extension: u32)
    ensures
        extended_end_time(end_time, now, time_extension) >= end_time,
        extended_end_time(end_time, now, time_extension) >= now + time_extension,
        now + time_extension > end_time ==> extended_end_time(end_time, now, time_extension) == now
            + time_extension,
        now + time_extension <= end_time ==> extended_end_time(end_time, now, time_extension)
            == end_time,
{
}

/// A bid that is accepted pays back in full the bid that it beats: what the
/// former highest bidder holds grows by exactly the former highest bid, and
/// custody holds what it held, more the new bid, less the former one.
pub proof fn outbid_is_refunded_in_full(ctx: PlaceBid, auction_id: u32, bid_amount: u64, now: i64)
    requires
        place_bid_rejection(ctx, auction_id, bid_amount, now) is None,
        ctx.auction.has_any_bid,
    ensures
        ({
            let after = place_bid_effect(ctx, bid_amount, now);
            let refund = ctx.auction.highest_bid_amount;
            match ctx.auction.bid_mint {
                None => {
                    &&& after.prev_bidder_account.lamports() == ctx.prev_bidder_account.lamports()
                        + refund
                    &&& after.auction_vault.lamports() == ctx.auction_vault.lamports() + bid_amount
                        - refund
                    &&& after.bidder.lamports() == ctx.bidder.lamports() - bid_amount
                },
                Some(_) => {
                    &&& after.prev_bidder_ata.amount() == ctx.prev_bidder_ata.amount() + refund
                    &&& after.bid_escrow.amount() == ctx.bid_escrow.amount() + bid_amount - refund
                    &&& after.current_bidder_ata.amount() == ctx.current_bidder_ata.amount()
                        - bid_amount
                },
            }
        }),
{
}

/// While an auction has bids, custody holds the highest bid: if it did
/// before an accepted bid, it does after it.
pub proof fn custody_covers_highest_bid(ctx: PlaceBid, auction_id: u32, bid_amount: u64, now: i64)
    requires
        place_bid_rejection(ctx, auction_id, bid_amount, now) is None,
        ctx.auction.has_any_bid ==> match ctx.auction.bid_mint {
            None => ctx.auction_vault.lamports() >= ctx.auction.highest_bid_amount,
            Some(_) => ctx.bid_escrow.amount() >= ctx.auction.highest_bid_amount,
        },
    ensures
        ({
            let after = place_bid_effect(ctx, bid_amount, now);
            match ctx.auction.bid_mint {
                None => after.auction_vault.lamports() >= after.auction.highest_bid_amount,
                Some(_) => after.bid_escrow.amount() >= after.auction.highest_bid_amount,
            }
        }),
{
}

fn pay_bid(work: &mut PlaceBid, bid_amount: u64) -> (r: Result<(), AuctionError>)
    ensures
        match r {
            Ok(()) => {
                &&& bid_payment_rejection(*old(work), bid_amount) is None
                &&& *final(work) == after_bid_payment(*old(work), bid_amount)
            },
            Err(e) => bid_payment_rejection(*old(work), bid_amount) == Some(e),
        },
{
    match work.auction.bid_mint {
        None => {
            match transfer_sol(&mut work.bidder, &mut work.auction_vault, bid_amount) {
                Ok(()) => Ok(()),
                Err(e) => Err(AuctionError::Transfer(e)),
            }
        },
        Some(stored_mint) => {
            if !work.bid_mint.key.same(&stored_mint) || !work.bid_escrow.mint.same(&stored_mint) {
                return Err(AuctionError::Keys(KeysMismatchErrors::InvalidBidMint));
            }
            if !work.bid_escrow.owner.same(&work.auction_vault.key) {
                return Err(AuctionError::Keys(KeysMismatchErrors::InvalidBidEscrowOwner));
            }
            if !work.current_bidder_ata.mint.same(&stored_mint) {
                return Err(AuctionError::Keys(KeysMismatchErrors::InvalidBidMint));
            }
            if !work.current_bidder_ata.owner.same(&work.bidder.key) {
                return Err(AuctionError::Keys(KeysMismatchErrors::InvalidBidAtaOwner));
            }
            let bidder_key = work.bidder.key;
            let bid_mint = work.bid_mint;
            match transfer_tokens(
                &mut work.current_bidder_ata,
                &mut work.bid_escrow,
                &bidder_key,
                &bid_mint,
                bid_amount,
            ) {
                Ok(()) => Ok(()),
                Err(e) => Err(AuctionError::Transfer(e)),
            }
        },
    }
}

fn refund_previous_bid(work: &mut PlaceBid) -> (r: Result<(), AuctionError>)
    ensures
        match r {
            Ok(()) => refund_rejection(*old(work)) is None && *final(work) == after_refund(*old(work)),
            Err(e) => refund_rejection(*old(work)) == Some(e),
        },
{
    if !work.auction.has_any_bid {
        return Ok(());
    }
    let refunded_amount = work.auction.highest_bid_amount;
    match work.auction.bid_mint {
        None => {
            if !work.prev_bidder_account.key.same(&work.auction.highest_bidder) {
                return Err(AuctionError::Keys(KeysMismatchErrors::InvalidPreviousBidOwner));
            }
            match transfer_sol_with_seeds(
                &mut work.auction_vault,
                &mut work.prev_bidder_account,
                refunded_amount,
            ) {
                Ok(()) => Ok(()),
                Err(e) => Err(AuctionError::Transfer(e)),
            }
        },
        Some(stored_mint) => {
            if !work.prev_bidder_ata.mint.same(&stored_mint) {
                return Err(AuctionError::Keys(KeysMismatchErrors::InvalidBidMint));
            }
            if !work.prev_bidder_ata.owner.same(&work.auction.highest_bidder) {
                return Err(AuctionError::Keys(KeysMismatchErrors::InvalidPreviousBidOwner));
            }
            let authority = work.auction_vault.key;
            let bid_mint = work.bid_mint;
            match transfer_tokens_with_seeds(
                &mut work.bid_escrow,
                &mut work.prev_bidder_ata,
                &authority,
                &bid_mint,
                refunded_amount,
            ) {
                Ok(()) => Ok(()),
                Err(e) => Err(AuctionError::Transfer(e)),
            }
        },
    }
}

/// Places a bid of `bid_amount` for `ctx.bidder` at the time `now`.
///
/// The bid must be at least the highest bid so far plus the increment. It is
/// paid into custody; the bid that it beats goes back to its bidder in full
/// in the same step. The closing time becomes the later one of the closing
/// time so far and `now` plus the extension.
pub fn place_bid(ctx: &mut PlaceBid, auction_id: u32, bid_amount: u64, now: i64) -> (r: Result<
    BidPlaced,
    AuctionError,
>)
    ensures
        match r {
            Ok(event) => {
                &&& place_bid_rejection(*old(ctx), auction_id, bid_amount, now) is None
                &&& *final(ctx) == place_bid_effect(*old(ctx), bid_amount, now)
                &&& event == (BidPlaced {
                    auction_id,
                    bidder: old(ctx).bidder.key,
                    new_bid: bid_amount,
                    bid_time: now,
                })
            },
            Err(e) => {
                &&& place_bid_rejection(*old(ctx), auction_id, bid_amount, now) == Some(e)
                &&& *final(ctx) == *old(ctx)
            },
        },
        final(ctx).custody_conserved(),
        r is Ok && old(ctx).auction.well_formed() ==> final(ctx).auction.well_formed(),
{
    proof {
        use_type_invariant(&ctx.auction_vault.balance);
        use_type_invariant(&ctx.bid_escrow.balance);
    }
    let mut work = *ctx;
    if !work.auction_config.auction_admin.same(&work.auction_admin) {
        return Err(AuctionError::Config(ConfigStateErrors::InvalidAuctionAdmin));
    }
    if work.auction.auction_id != auction_id {
        return Err(AuctionError::State(AuctionStateErrors::InvalidAuctionId));
    }
    if is_paused(work.auction_config.pause_flags, PLACE_BID_PAUSE) {
        return Err(AuctionError::State(AuctionStateErrors::FunctionPaused));
    }
    if work.auction.status != AuctionState::Active {
        return Err(AuctionError::State(AuctionStateErrors::AuctionNotActive));
    }
    if !(work.auction.start_time <= now && now < work.auction.end_time) {
        return Err(AuctionError::State(AuctionStateErrors::AuctionNotStarted));
    }
    if work.bidder.key.same(&work.auction.highest_bidder) {
        return Err(AuctionError::State(AuctionStateErrors::CannotBidOwnHighBid));
    }
    let min_required = match work.auction.highest_bid_amount.checked_add(work.auction.min_increment) {
        Some(sum) => sum,
        None => {
            return Err(AuctionError::State(AuctionStateErrors::Overflow));
        },
    };
    if bid_amount < min_required {
        return Err(AuctionError::State(AuctionStateErrors::BidTooLow));
    }
    pay_bid(&mut work, bid_amount)?;
    refund_previous_bid(&mut work)?;
    let extended = match now.checked_add(work.auction.time_extension as i64) {
        Some(time) => time,
        None => {
            return Err(AuctionError::State(AuctionStateErrors::Overflow));
        },
    };
    work.auction.highest_bid_amount = bid_amount;
    work.auction.highest_bidder = work.bidder.key;
    work.auction.has_any_bid = true;
    if extended > work.auction.end_time {
        work.auction.end_time = extended;
    }
    *ctx = work;
    Ok(BidPlaced { auction_id, bidder: ctx.bidder.key, new_bid: bid_amount, bid_time: now })
}

} // verus!
