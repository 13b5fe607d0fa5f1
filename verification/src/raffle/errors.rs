//! Why a raffle operation is turned away.

use vstd::prelude::*;
use crate::custody::TransferErrors;

verus! {

/// The raffle is in the wrong state, the time is wrong, or an argument is.
#[derive(Clone, Copy, Debug, PartialEq, Eq)]
pub enum RaffleStateErrors {
    InvalidRaffleId,
    InvalidCreator,
    FunctionPaused,
    RaffleAlreadyStarted,
    StartTimeNotReached,
    EndTimeNotReached,
    EndTimeIsCrossed,
    StartTimeInPast,
    Overflow,
    InvalidNFT,
    InvalidWinnerIndex,
    ZeroPrizeForWinner,
    InvalidWinner,
    PrizeAlreadyClaimed,
    InvalidRaffleStateForCancel,
    RaffleNotEnded,
    InvalidZeroAmount,
    InvalidMaxPerWalletPct,
    ExceedMaxWinners,
    InvalidZeroWinnersCount,
    InsufficientPrizeAmount,
    StateShouldBeInInitialized,
    InvalidRaffleStateForUpdate,
    RaffleNotSuccessEnded,
    RaffleNotActive,
    InvalidWinnersLength,
    DuplicateWinnersNotAllowed,
    InvalidWinShares,
    MoreThanOneTicketSolded,
    CannotUpdateWinnersForNftPrize,
    StartTimeExceedEndTime,
    InvalidZeroTickets,
    TicketsSoldOut,
    InvalidTicketZeroPrice,
    InvalidTotalTickets,
    WinnersExceedTotalTickets,
    MaxTicketsPerWalletExceeded,
}

/// An account that was handed in is not the one the raffle expects.
#[derive(Clone, Copy, Debug, PartialEq, Eq)]
pub enum KeysMismatchErrors {
    InvalidTicketMint,
    MissingTicketMint,
    InvalidTicketEscrow,
    MissingTicketEscrow,
    InvalidTicketTokenProgram,
    InvalidPrizeMint,
    MissingPrizeMint,
    InvalidPrizeEscrow,
    MissingPrizeEscrow,
    InvalidPrizeEscrowOwner,
    InvalidPrizeTokenProgram,
    InvalidFeeTreasuryAtaOwner,
    InvalidBuyerAccountUser,
    InvalidTicketAtaOwner,
    InvalidPrizeAtaOwner,
    InvalidWinnerPrizeAtaOwner,
    InvalidTicketEscrowOwner,
}

/// The caller is not who the configuration names, or a configured bound is
/// broken.
#[derive(Clone, Copy, Debug, PartialEq, Eq)]
pub enum ConfigStateErrors {
    InvalidRaffleOwner,
    InvalidRaffleAdmin,
    InvalidRafflePeriod,
    InvalidRaffleTickets,
}

/// Any reason for which a raffle operation is turned away.
#[derive(Clone, Copy, Debug, PartialEq, Eq)]
pub enum RaffleError {
    State(RaffleStateErrors),
    Keys(KeysMismatchErrors),
    Config(ConfigStateErrors),
    Transfer(TransferErrors),
}

/// The raffle error that stands for a refused move of value, if there is one.
pub open spec fn transfer_rejection(e: Option<TransferErrors>) -> Option<RaffleError> {
    match e {
        Some(e) => Some(RaffleError::Transfer(e)),
        None => None,
    }
}

} // verus!
