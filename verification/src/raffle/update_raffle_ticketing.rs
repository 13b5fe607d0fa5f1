//! Changing the tickets of a raffle that has not started: how many there
//! are, what one costs, and how many one wallet may hold.

use vstd::prelude::*;
use crate::math::flag_set;
use crate::pubkey::Pubkey;
use crate::raffle::constants::{TOTAL_PCT, UPDATE_RAFFLE_PAUSE};
use crate::raffle::create_raffle::{tickets_allowed, wallet_pct_allowed};
use crate::raffle::errors::{ConfigStateErrors, RaffleError, RaffleStateErrors};
use crate::raffle::states::{Raffle, RaffleConfig, RaffleState, RaffleView};
use crate::raffle::utils::is_paused;

verus! {

/// What `update_raffle_ticketing` reports.
#[derive(Clone, Copy, Debug, PartialEq, Eq)]
pub struct RaffleTicketingUpdated {
    pub raffle_id: u32,
    pub new_total_tickets: u16,
    pub new_ticket_price: u64,
    pub new_max_per_wallet_pct: u8,
}

/// The accounts of `update_raffle_ticketing`.
#[derive(Clone, Copy)]
pub struct UpdateRaffleTicketing {
    pub raffle_config: RaffleConfig,
    pub creator: Pubkey,
    pub raffle_admin: Pubkey,
}

/// Why the update is not admitted, whatever it changes, if it is not: the
/// first of these that holds. The admin is not the configured one; the
/// raffle has another number; the caller is not the creator; updating is
/// paused; the raffle is not `Initialized`.
pub open spec fn update_admission_rejection(
    config: RaffleConfig,
    raffle_admin: Pubkey,
    creator: Pubkey,
    raffle: RaffleView,
    raffle_id: u32,
) -> Option<RaffleError> {
    if config.raffle_admin != raffle_admin {
        Some(RaffleError::Config(ConfigStateErrors::InvalidRaffleAdmin))
    } else if raffle.raffle_id != raffle_id {
        Some(RaffleError::State(RaffleStateErrors::InvalidRaffleId))
    } else if raffle.creator != creator {
        Some(RaffleError::State(RaffleStateErrors::InvalidCreator))
    } else if flag_set(config.pause_flags, UPDATE_RAFFLE_PAUSE) {
        Some(RaffleError::State(RaffleStateErrors::FunctionPaused))
    } else if raffle.status != RaffleState::Initialized {
        Some(RaffleError::State(RaffleStateErrors::InvalidRaffleStateForUpdate))
    } else {
        None
    }
}

/// Checks what every update of a raffle asks.
pub fn check_update_admission(
    config: &RaffleConfig,
    raffle_admin: &Pubkey,
    creator: &Pubkey,
    raffle: &Raffle,
    raffle_id: u32,
) -> (r: Result<(), RaffleError>)
    ensures
        match r {
            Ok(
                (),
            ) => update_admission_rejection(*config, *raffle_admin, *creator, raffle@, raffle_id) is None,
            Err(e) => update_admission_rejection(*config, *raffle_admin, *creator, raffle@, raffle_id)
                == Some(e),
        },
{
    if !config.raffle_admin.same(raffle_admin) {
        return Err(RaffleError::Config(ConfigStateErrors::InvalidRaffleAdmin));
    }
    if raffle.raffle_id != raffle_id {
        return Err(RaffleError::State(RaffleStateErrors::InvalidRaffleId));
    }
    if !raffle.creator.same(creator) {
        return Err(RaffleError::State(RaffleStateErrors::InvalidCreator));
    }
    if is_paused(config.pause_flags, UPDATE_RAFFLE_PAUSE) {
        return Err(RaffleError::State(RaffleStateErrors::FunctionPaused));
    }
    if raffle.status != RaffleState::Initialized {
        return Err(RaffleError::State(RaffleStateErrors::InvalidRaffleStateForUpdate));
    }
    Ok(())
}

/// Why the tickets cannot be changed, if they cannot: the first of these
/// that holds. The update is not admitted; a ticket was sold; the new price
/// is zero; the new number of tickets is not allowed, or less than the
/// number of winners; the new cap of one wallet is not allowed.
pub open spec fn update_raffle_ticketing_rejection(
    ctx: UpdateRaffleTicketing,
    raffle: RaffleView,
    raffle_id: u32,
    new_total_tickets: u16,
    new_ticket_price: u64,
    new_max_per_wallet_pct: u8,
) -> Option<RaffleError> {
    if update_admission_rejection(
        ctx.raffle_config,
        ctx.raffle_admin,
        ctx.creator,
        raffle,
        raffle_id,
    ) is Some {
        update_admission_rejection(ctx.raffle_config, ctx.raffle_admin, ctx.creator, raffle, raffle_id)
    } else if raffle.tickets_sold != 0 {
        Some(RaffleError::State(RaffleStateErrors::RaffleAlreadyStarted))
    } else if new_ticket_price == 0 {
        Some(RaffleError::State(RaffleStateErrors::InvalidTicketZeroPrice))
    } else if !tickets_allowed(ctx.raffle_config, new_total_tickets) {
        Some(RaffleError::State(RaffleStateErrors::InvalidTotalTickets))
    } else if new_total_tickets < raffle.num_winners {
        Some(RaffleError::State(RaffleStateErrors::WinnersExceedTotalTickets))
    } else if !wallet_pct_allowed(ctx.raffle_config, new_total_tickets, new_max_per_wallet_pct) {
        Some(RaffleError::State(RaffleStateErrors::MaxTicketsPerWalletExceeded))
    } else {
        None
    }
}

/// Gives the raffle new tickets. They are held to what `create_raffle` asks.
pub fn update_raffle_ticketing(
    ctx: &UpdateRaffleTicketing,
    raffle: &mut Raffle,
    raffle_id: u32,
    new_total_tickets: u16,
    new_ticket_price: u64,
    new_max_per_wallet_pct: u8,
) -> (r: Result<RaffleTicketingUpdated, RaffleError>)
    ensures
        match r {
            Ok(event) => {
                &&& update_raffle_ticketing_rejection(
                    *ctx,
                    old(raffle)@,
                    raffle_id,
                    new_total_tickets,
                    new_ticket_price,
                    new_max_per_wallet_pct,
                ) is None
                &&& final(raffle)@ == (RaffleView {
                    total_tickets: new_total_tickets,
                    ticket_price: new_ticket_price,
                    max_per_wallet_pct: new_max_per_wallet_pct,
                    ..old(raffle)@
                })
                &&& event == (RaffleTicketingUpdated {
                    raffle_id,
                    new_total_tickets,
                    new_ticket_price,
                    new_max_per_wallet_pct,
                })
            },
            Err(e) => {
                &&& update_raffle_ticketing_rejection(
                    *ctx,
                    old(raffle)@,
                    raffle_id,
                    new_total_tickets,
                    new_ticket_price,
                    new_max_per_wallet_pct,
                ) == Some(e)
                &&& *final(raffle) == *old(raffle)
            },
        },
        r is Ok && old(raffle)@.well_formed() ==> final(raffle)@.well_formed(),
{
    check_update_admission(&ctx.raffle_config, &ctx.raffle_admin, &ctx.creator, raffle, raffle_id)?;
    if raffle.tickets_sold != 0 {
        return Err(RaffleError::State(RaffleStateErrors::RaffleAlreadyStarted));
    }
    if new_ticket_price == 0 {
        return Err(RaffleError::State(RaffleStateErrors::InvalidTicketZeroPrice));
    }
    if !(new_total_tickets > 0 && ctx.raffle_config.minimum_tickets <= new_total_tickets
        && new_total_tickets <= ctx.raffle_config.maximum_tickets) {
        return Err(RaffleError::State(RaffleStateErrors::InvalidTotalTickets));
    }
    if new_total_tickets < raffle.num_winners as u16 {
        return Err(RaffleError::State(RaffleStateErrors::WinnersExceedTotalTickets));
    }
    let min_per_wallet_pct = (TOTAL_PCT as u32 + new_total_tickets as u32 - 1) / (
    new_total_tickets as u32);
    if !(new_max_per_wallet_pct as u32 >= min_per_wallet_pct && new_max_per_wallet_pct
        <= ctx.raffle_config.maximum_wallet_pct) {
        return Err(RaffleError::State(RaffleStateErrors::MaxTicketsPerWalletExceeded));
    }
    raffle.total_tickets = new_total_tickets;
    raffle.ticket_price = new_ticket_price;
    raffle.max_per_wallet_pct = new_max_per_wallet_pct;
    Ok(
        RaffleTicketingUpdated {
            raffle_id,
            new_total_tickets,
            new_ticket_price,
            new_max_per_wallet_pct,
        },
    )
}

} // verus!
