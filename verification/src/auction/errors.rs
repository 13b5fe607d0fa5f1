//! Why an auction operation is turned away.

use vstd::prelude::*;
use crate::custody::TransferErrors;

verus! {

/// The auction is in the wrong state, the time is wrong, or an argument is.
#[derive(Clone, Copy, Debug, PartialEq, Eq)]
pub enum AuctionStateErrors {
    InvalidAuctionId,
    InvalidCreator,
    EndTimeNotReached,
    FunctionPaused,
    Overflow,
    InvalidZeroAmount,
    StartTimeExceedEndTime,
    StartTimeInPast,
    AuctionAlreadyStarted,
    AuctionNotStarted,
    AuctionNotActive,
    AuctionAlreadyCompleted,
    InvalidAuctionTimeExtension,
    AuctionHasBids,
    InvalidNFT,
    BidTooLow,
    BidBelowIncrement,
    CannotBidOwnHighBid,
    NoBidsPresent,
    InsufficientBalance,
    AuctionNotCompleted,
    PrizeAlreadyClaimed,
}

/// An account that was handed in is not the one the auction expects.
#[derive(Clone, Copy, Debug, PartialEq, Eq)]
pub enum KeysMismatchErrors {
    InvalidPrizeMint,
    InvalidPrizeEscrow,
    InvalidPrizeEscrowOwner,
    InvalidPrizeAtaOwner,
    InvalidBidMint,
    MissingBidMint,
    InvalidBidEscrow,
    InvalidBidEscrowOwner,
    InvalidBidAtaOwner,
    InvalidPreviousBidOwner,
    InvalidHighestBidder,
}

/// The caller is not who the configuration names, or a configured bound is
/// broken.
#[derive(Clone, Copy, Debug, PartialEq, Eq)]
pub enum ConfigStateErrors {
    InvalidAuctionOwner,
    InvalidAuctionAdmin,
    InvalidAuctionPeriod,
    InvalidTimeExtension,
}

/// Any reason for which an auction operation is turned away.
#[derive(Clone, Copy, Debug, PartialEq, Eq)]
pub enum AuctionError {
    State(AuctionStateErrors),
    Keys(KeysMismatchErrors),
    Config(ConfigStateErrors),
    Transfer(TransferErrors),
}

/// The auction error that stands for a refused move of value, if there is one.
pub open spec fn transfer_rejection(e: Option<TransferErrors>) -> Option<AuctionError> {
    match e {
        Some(e) => Some(AuctionError::Transfer(e)),
        None => None,
    }
}

} // verus!
