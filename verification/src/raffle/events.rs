//! Short notices of a raffle, for listeners that need no more than who did
//! what.

use vstd::prelude::*;
use crate::pubkey::Pubkey;

verus! {

/// Tickets were bought.
#[derive(Clone, Copy, Debug, PartialEq, Eq)]
pub struct BuyEvent {
    pub raffle_id: u64,
    pub buyer: Pubkey,
    pub tickets: u64,
}

/// The winners of a raffle were named.
#[derive(Clone, Debug, PartialEq, Eq)]
pub struct WinnersEvent {
    pub raffle_id: u64,
    pub winners: Vec<Pubkey>,
}

/// A winner took their part of the prize.
#[derive(Clone, Copy, Debug, PartialEq, Eq)]
pub struct ClaimEvent {
    pub raffle_id: u64,
    pub winner: Pubkey,
    pub amount: u64,
}

} // verus!
