//! The life of an auction as a whole: which state follows which, and that
//! an auction that has ended stays as it is.

use vstd::prelude::*;
use crate::auction::cancel_auction::{cancel_auction_effect, cancel_auction_rejection, CancelAuction};
use crate::auction::claim_amount_back::{
    claim_amount_back_effect,
    claim_amount_back_rejection,
    ClaimAmountBack,
};
use crate::auction::claim_prize::{claim_prize_effect, claim_prize_rejection, ClaimPrize};
use crate::auction::complete_auction::{
    commission_fee,
    complete_auction_effect,
    complete_auction_rejection,
    CompleteAuction,
};
use crate::auction::create_auction::AuctionTerms;
use crate::auction::errors::{AuctionError, AuctionStateErrors};
use crate::auction::place_bid::{place_bid_effect, place_bid_rejection, PlaceBid};
use crate::auction::start_auction::{start_auction_rejection, StartAuction};
use crate::auction::states::AuctionState;
use crate::auction::update_auction::{update_auction_rejection, UpdateAuction};

verus! {

/// An auction that has ended or was called off stays as it is: it cannot be
/// started, updated, bid on, called off or completed.
pub proof fn ended_auction_is_final(
    start: StartAuction,
    update: UpdateAuction,
    bid: PlaceBid,
    cancel: CancelAuction,
    complete: CompleteAuction,
    auction_id: u32,
    terms: AuctionTerms,
    bid_amount: u64,
    now: i64,
)
    requires
        start.auction.status.is_terminal(),
        update.auction.status.is_terminal(),
        bid.auction.status.is_terminal(),
        cancel.auction.status.is_terminal(),
        complete.auction.status.is_terminal(),
    ensures
        start_auction_rejection(start, auction_id, now) is Some,
        update_auction_rejection(update, auction_id, terms, now) is Some,
        place_bid_rejection(bid, auction_id, bid_amount, now) is Some,
        cancel_auction_rejection(cancel, auction_id) is Some,
        complete_auction_rejection(complete, auction_id, now) is Some,
{
}

/// Every operation that is accepted moves the auction along its life and
/// never back: a bid leaves it `Active`, calling it off makes it
/// `Cancelled`, completing it makes it `CompletedFailed` without bids and
/// `CompletedSuccessfully` with them.
pub proof fn auction_moves_forward(
    bid: PlaceBid,
    cancel: CancelAuction,
    complete: CompleteAuction,
    auction_id: u32,
    bid_amount: u64,
    now: i64,
)
    ensures
        place_bid_rejection(bid, auction_id, bid_amount, now) is None ==> {
            &&& bid.auction.status == AuctionState::Active
            &&& place_bid_effect(bid, bid_amount, now).auction.status == AuctionState::Active
        },
        cancel_auction_rejection(cancel, auction_id) is None ==> {
            &&& cancel.auction.status.may_become(cancel_auction_effect(cancel).auction.status)
            &&& cancel_auction_effect(cancel).auction.status == AuctionState::Cancelled
        },
        complete_auction_rejection(complete, auction_id, now) is None ==> {
            &&& complete.auction.status.may_become(complete_auction_effect(complete).auction.status)
            &&& complete_auction_effect(complete).auction.status.is_terminal()
            &&& complete_auction_effect(complete).auction.status == if complete.auction.has_any_bid {
                AuctionState::CompletedSuccessfully
            } else {
                AuctionState::CompletedFailed
            }
        },
{
}

/// An auction is completed once: after it was completed, completing it again
/// with the same accounts is turned away with `AuctionAlreadyCompleted`.
pub proof fn auction_completes_once(ctx: CompleteAuction, auction_id: u32, now: i64, later: i64)
    requires
        complete_auction_rejection(ctx, auction_id, now) is None,
    ensures
        complete_auction_rejection(complete_auction_effect(ctx), auction_id, later) == Some(
            AuctionError::State(AuctionStateErrors::AuctionAlreadyCompleted),
        ),
{
}

/// Claims are made of completed auctions only, and leave the state of the
/// auction as it is.
pub proof fn claims_follow_completion(win: ClaimPrize, back: ClaimAmountBack, auction_id: u32)
    ensures
        claim_prize_rejection(win, auction_id) is None ==> {
            &&& win.auction.status == AuctionState::CompletedSuccessfully
            &&& claim_prize_effect(win).auction.status == win.auction.status
        },
        claim_amount_back_rejection(back, auction_id) is None ==> {
            &&& back.auction.status.is_terminal()
            &&& claim_amount_back_effect(back).auction.status == back.auction.status
        },
{
}

/// What an auction that is completed writes down is what is claimed later:
/// after a completion without bids the creator may claim the item and
/// nothing of a price, after one with bids the creator may claim the price
/// without the fee and nothing of the item, which is the winner's.
pub proof fn completion_writes_down_the_claims(ctx: CompleteAuction, auction_id: u32, now: i64)
    requires
        complete_auction_rejection(ctx, auction_id, now) is None,
        ctx.auction.well_formed(),
    ensures
        complete_auction_effect(ctx).auction.well_formed(),
        ({
            let after = complete_auction_effect(ctx).auction;
            if ctx.auction.has_any_bid {
                &&& after.claimable_prize_back == 0
                &&& !after.is_prize_claimed
                &&& after.claimable_bid_amount + commission_fee(
                    ctx.auction.highest_bid_amount,
                    ctx.auction_config.commission_bps,
                ) == ctx.auction.highest_bid_amount
            } else {
                &&& after.claimable_prize_back == 1
                &&& after.claimable_bid_amount == 0
            }
        }),
{
}

/// No bid is accepted once the closing time has come, and no auction is
/// completed before it: at any time at most one of the two is accepted.
pub proof fn bidding_and_completion_exclude(
    bid: PlaceBid,
    complete: CompleteAuction,
    auction_id: u32,
    bid_amount: u64,
    now: i64,
)
    requires
        bid.auction.end_time == complete.auction.end_time,
    ensures
        place_bid_rejection(bid, auction_id, bid_amount, now) is Some || complete_auction_rejection(
            complete,
            auction_id,
            now,
        ) is Some,
{
}

} // verus!
