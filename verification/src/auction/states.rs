//! What is kept of the auction house and of each auction.

use vstd::prelude::*;
use crate::pubkey::Pubkey;

verus! {

/// The settings of the auction house, one for all auctions.
#[derive(Clone, Copy, Debug, PartialEq, Eq)]
pub struct AuctionConfig {
    pub auction_owner: Pubkey,
    pub auction_admin: Pubkey,
    pub creation_fee_lamports: u64,
    pub commission_bps: u16,
    pub minimum_auction_period: u32,
    pub maximum_auction_period: u32,
    pub minimum_time_extension: u32,
    pub maximum_time_extension: u32,
    pub auction_count: u32,
    pub pause_flags: u8,
    pub config_bump: u8,
}

/// One auction. `bid_mint` is `None` where bids are paid in the native
/// currency. While `has_any_bid` is false, `highest_bid_amount` is the base
/// bid and nothing is held for a bidder. After the auction was completed,
/// `claimable_prize_back` and `claimable_bid_amount` are what the creator may
/// still take of the item and of the price, and `is_prize_claimed` says
/// whether the winner has taken the item.
#[derive(Clone, Copy, Debug, PartialEq, Eq)]
pub struct Auction {
    pub auction_id: u32,
    pub creator: Pubkey,
    pub prize_mint: Pubkey,
    pub start_time: i64,
    pub end_time: i64,
    pub bid_mint: Option<Pubkey>,
    pub base_bid: u64,
    pub min_increment: u64,
    pub time_extension: u32,
    pub highest_bid_amount: u64,
    pub highest_bidder: Pubkey,
    pub has_any_bid: bool,
    pub status: AuctionState,
    pub claimable_prize_back: u64,
    pub claimable_bid_amount: u64,
    pub is_prize_claimed: bool,
    pub auction_bump: u8,
}

/// Where an auction stands in its life.
#[derive(Clone, Copy, Debug, PartialEq, Eq, Structural)]
pub enum AuctionState {
    Uninitialized,
    Initialized,
    Active,
    Cancelled,
    CompletedSuccessfully,
    CompletedFailed,
}

impl AuctionState {
    /// Whether an auction in this state may be in `next` after one operation:
    /// it stays where it is, or moves from `Initialized` to `Active`, from
    /// either of them to `Cancelled`, or from `Active` to one of the two
    /// completed states.
    pub open spec fn may_become(self, next: AuctionState) -> bool {
        ||| next == self
        ||| self == AuctionState::Initialized && next == AuctionState::Active
        ||| self == AuctionState::Initialized && next == AuctionState::Cancelled
        ||| self == AuctionState::Active && next == AuctionState::Cancelled
        ||| self == AuctionState::Active && next == AuctionState::CompletedSuccessfully
        ||| self == AuctionState::Active && next == AuctionState::CompletedFailed
    }

    /// The states from which an auction never moves again.
    pub open spec fn is_terminal(self) -> bool {
        self == AuctionState::Cancelled || self == AuctionState::CompletedSuccessfully || self
            == AuctionState::CompletedFailed
    }
}

impl Auction {
    /// What holds of every auction that the operations made. The window
    /// does not end before it starts, and the increment is positive. While
    /// nobody bid, the highest bid is the base bid; a bid is at least the
    /// base bid and the increment, and only an auction that is or was
    /// `Active` has one. Nothing can be claimed of an auction that was not
    /// completed. Of one that failed the creator may claim the item and
    /// nothing else; of one that succeeded the creator may claim no more
    /// than the price, and the item is the winner's.
    pub open spec fn well_formed(self) -> bool {
        &&& self.start_time <= self.end_time
        &&& self.min_increment > 0
        &&& !self.has_any_bid ==> self.highest_bid_amount == self.base_bid
        &&& self.has_any_bid ==> {
            &&& self.base_bid + self.min_increment <= self.highest_bid_amount
            &&& self.status == AuctionState::Active || self.status
                == AuctionState::CompletedSuccessfully
        }
        &&& self.status != AuctionState::CompletedSuccessfully && self.status
            != AuctionState::CompletedFailed ==> {
            &&& self.claimable_prize_back == 0
            &&& self.claimable_bid_amount == 0
            &&& !self.is_prize_claimed
        }
        &&& self.status == AuctionState::CompletedFailed ==> {
            &&& !self.has_any_bid
            &&& self.claimable_prize_back <= 1
            &&& self.claimable_bid_amount == 0
            &&& !self.is_prize_claimed
        }
        &&& self.status == AuctionState::CompletedSuccessfully ==> {
            &&& self.has_any_bid
            &&& self.claimable_prize_back == 0
            &&& self.claimable_bid_amount <= self.highest_bid_amount
        }
    }
}

} // verus!
