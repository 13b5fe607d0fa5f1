//! The ascending-price auction of one unique item.

pub mod cancel_auction;
pub mod claim_amount_back;
pub mod claim_prize;
pub mod complete_auction;
pub mod constants;
pub mod create_auction;
pub mod errors;
pub mod lifecycle;
pub mod place_bid;
pub mod process_auction_config;
pub mod start_auction;
pub mod states;
pub mod update_auction;
pub mod utils;
pub mod withdraw_sol_fees;
pub mod withdraw_spl_fees;
