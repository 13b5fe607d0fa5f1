//! The raffle: tickets are sold during a window, and after it the prize is
//! shared among the winners by a schedule of percentages.

pub mod activate_raffle;
pub mod announce_winners;
pub mod buy_ticket;
pub mod buyer_claim_prize;
pub mod cancel_raffle;
pub mod claim_amount_back;
pub mod claim_prize;
pub mod constants;
pub mod create_raffle;
pub mod creator_claim_prize_back;
pub mod errors;
pub mod events;
pub mod lifecycle;
pub mod process_raffle_config;
pub mod states;
pub mod update_raffle_ticketing;
pub mod update_raffle_time;
pub mod update_raffle_winners;
pub mod utils;
pub mod withdraw_sol_fees;
pub mod withdraw_spl_fees;
