//! Fixed numbers of the gumball machine.

use vstd::prelude::*;

verus! {

/// The base of fee rates: a rate of 10 000 is the whole amount.
pub const FEE_MANTISSA: u16 = 10_000;

/// The fewest tickets a machine offers.
pub const MINIMUM_TICKETS: u16 = 3;

/// The most tickets a machine offers. There is at most one prize for each.
pub const MAXIMUM_TICKETS: u16 = 1_000;

/// The bit of the pause flags that switches off `create_gumball`.
pub const CREATE_GUMBALL_PAUSE: u8 = 0;

/// The bit of the pause flags that switches off `activate_gumball`.
pub const ACTIVATE_GUMBALL_PAUSE: u8 = 1;

/// The bit of the pause flags that switches off `add_prize`.
pub const ADD_PRIZE_IN_GUMBALL_PAUSE: u8 = 2;

/// The bit of the pause flags that switches off `cancel_gumball`.
pub const CANCEL_GUMBALL_PAUSE: u8 = 3;

/// The bit of the pause flags that switches off `claim_prize_back`.
pub const CLAIM_PRIZES_BACK_PAUSE: u8 = 4;

/// The bit of the pause flags that switches off `end_gumball`.
pub const END_GUMBALL_PAUSE: u8 = 5;

/// The bit of the pause flags that switches off `spin_gumball`.
pub const SPIN_GUMBALL_PAUSE: u8 = 6;

/// The bit of the pause flags that switches off the updates of a machine.
pub const UPDATE_GUMBALL_PAUSE: u8 = 7;

} // verus!
