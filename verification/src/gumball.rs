//! The gumball machine: every ticket is a spin that pays out one prize at
//! once, and after the window the ticket revenue is split.

pub mod activate_gumball;
pub mod add_prize;
pub mod cancel_gumball;
pub mod claim_amount_back;
pub mod claim_prize_back;
pub mod constants;
pub mod create_gumball;
pub mod end_gumball;
pub mod errors;
pub mod lifecycle;
pub mod process_gumball_config;
pub mod spin_gumball;
pub mod states;
pub mod update_gumball;
pub mod utils;
pub mod withdraw_sol_fees;
pub mod withdraw_spl_fees;
