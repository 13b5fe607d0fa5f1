//! Fixed numbers of the raffle.

use vstd::prelude::*;

verus! {

/// The base of fee rates: a rate of 10 000 is the whole amount.
pub const FEE_MANTISSA: u16 = 10_000;

/// The winners' shares are percentages: together they make this much.
pub const TOTAL_PCT: u8 = 100;

/// The fewest tickets a raffle usually offers.
pub const MINIMUM_TICKETS: u16 = 3;

/// The most tickets a raffle usually offers.
pub const MAXIMUM_TICKETS: u16 = 10_000;

/// The usual cap, in percent of all tickets, on what one wallet may hold.
pub const MAXIMUM_WALLET_PCT: u8 = 40;

/// The usual cap on the number of winners.
pub const MAXIMUM_WINNERS_COUNT: u8 = 10;

/// The bit of the pause flags that switches off `create_raffle`.
pub const CREATE_RAFFLE_PAUSE: u8 = 0;

/// The bit of the pause flags that switches off `activate_raffle`.
pub const ACTIVATE_RAFFLE_PAUSE: u8 = 1;

/// The bit of the pause flags that switches off `announce_winners`.
pub const ANNOUNCE_WINNER_PAUSE: u8 = 2;

/// The bit of the pause flags that switches off `buy_ticket`.
pub const BUY_TICKET_PAUSE: u8 = 3;

/// The bit of the pause flags that switches off `buyer_claim_prize`.
pub const BUYER_CLAIM_PRIZE_PAUSE: u8 = 4;

/// The bit of the pause flags that switches off `cancel_raffle`.
pub const CANCEL_RAFFLE_PAUSE: u8 = 5;

/// The bit of the pause flags that switches off `claim_amount_back`.
pub const CLAIM_AMOUNT_BACK_PAUSE: u8 = 6;

/// The bit of the pause flags that switches off the updates of a raffle.
pub const UPDATE_RAFFLE_PAUSE: u8 = 7;

} // verus!
