//! Time-boxed sales of a locked prize: ascending-price auctions, weighted
//! raffles and instant-win gumball machines.
//!
//! Every operation is a function from the accounts it is given to the accounts
//! it leaves behind. An operation that is turned away leaves every account as
//! it found it, and says why.

pub mod auction;
pub mod custody;
pub mod gumball;
pub mod math;
pub mod pubkey;
pub mod raffle;
