//! Why a gumball operation is turned away.

use vstd::prelude::*;
use crate::custody::TransferErrors;

verus! {

/// The machine is in the wrong state, the time is wrong, or an argument is.
#[derive(Clone, Copy, Debug, PartialEq, Eq)]
pub enum GumballStateErrors {
    InvalidGumballId,
    InvalidCreator,
    Overflow,
    FunctionPaused,
    InvalidTicketPrice,
    InvalidTotalTickets,
    EndTimeNotReached,
    StartTimeExceedEndTime,
    StartTimeInPast,
    TicketsAlreadySold,
    NotInitialized,
    StartTimeNotReached,
    EndTimeIsReached,
    InvalidGumballState,
    PrizesExceedTickets,
    InvalidPrizeIndex,
    InvalidRemainingAccounts,
    MissingBump,
    PrizeMintMismatch,
    PrizeAmountMismatch,
    CannotAddExistingNftPrize,
    InvalidNftPrizeAmount,
    InvalidNftPrizeQuantity,
    InvalidPrizeAmount,
    InvalidPrizeQuantity,
    InvalidZeroAmount,
}

/// An account that was handed in is not the one the machine expects.
#[derive(Clone, Copy, Debug, PartialEq, Eq)]
pub enum KeysMismatchErrors {
    InvalidTicketMint,
    MissingTicketMint,
    InvalidTicketEscrow,
    InvalidPrizeMint,
    InvalidPrizeEscrow,
    InvalidPrizeEscrowOwner,
    InvalidFeeTreasuryAtaOwner,
    InvalidBuyerAccountUser,
    InvalidTicketAtaOwner,
    InvalidPrizeAtaOwner,
    InvalidTicketEscrowOwner,
    InvalidCreatorPrizeAtaMint,
    InvalidCreatorPrizeAtaOwner,
    InvalidPrizeEscrowMint,
}

/// The caller is not who the configuration names, or a configured bound is
/// broken.
#[derive(Clone, Copy, Debug, PartialEq, Eq)]
pub enum ConfigStateErrors {
    InvalidGumballOwner,
    InvalidGumballAdmin,
    InvalidGumballPeriod,
}

/// Any reason for which a gumball operation is turned away.
#[derive(Clone, Copy, Debug, PartialEq, Eq)]
pub enum GumballError {
    State(GumballStateErrors),
    Keys(KeysMismatchErrors),
    Config(ConfigStateErrors),
    Transfer(TransferErrors),
}

/// The gumball error that stands for a refused move of value, if there is
/// one.
pub open spec fn transfer_rejection(e: Option<TransferErrors>) -> Option<GumballError> {
    match e {
        Some(e) => Some(GumballError::Transfer(e)),
        None => None,
    }
}

} // verus!
