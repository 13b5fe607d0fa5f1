//! Fixed numbers of the auction.

use vstd::prelude::*;

verus! {

/// The base of fee rates: a rate of 10 000 is the whole amount.
pub const FEE_MANTISSA: u16 = 10_000;

/// The bit of the pause flags that switches off `create_auction`.
pub const CREATE_AUCTION_PAUSE: u8 = 0;

/// The bit of the pause flags that switches off `cancel_auction`.
pub const CANCEL_AUCTION_PAUSE: u8 = 1;

/// The bit of the pause flags that switches off `complete_auction`.
pub const COMPLETE_AUCTION_PAUSE: u8 = 2;

/// The bit of the pause flags that switches off `place_bid`.
pub const PLACE_BID_PAUSE: u8 = 3;

/// The bit of the pause flags that switches off `start_auction`.
pub const START_AUCTION_PAUSE: u8 = 4;

/// The bit of the pause flags that switches off `update_auction`.
pub const UPDATE_AUCTION_PAUSE: u8 = 5;

} // verus!
