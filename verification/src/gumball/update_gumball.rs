//! Changing the window or the tickets of a machine that has not started.

use vstd::prelude::*;
use crate::gumball::constants::{MAXIMUM_TICKETS, MINIMUM_TICKETS, UPDATE_GUMBALL_PAUSE};
use crate::gumball::create_gumball::{period_allowed, tickets_allowed};
use crate::gumball::errors::{ConfigStateErrors, GumballError, GumballStateErrors};
use crate::gumball::states::{GumballConfig, GumballMachine, GumballState};
use crate::gumball::utils::is_paused;
use crate::math::flag_set;
use crate::pubkey::Pubkey;

verus! {

/// What `update_gumball_time` reports.
#[derive(Clone, Copy, Debug, PartialEq, Eq)]
pub struct GumballTimeUpdated {
    pub gumball_id: u32,
    pub new_start_time: i64,
    pub new_end_time: i64,
    pub updated_at: i64,
}

/// What `update_gumball_data` reports.
#[derive(Clone, Copy, Debug, PartialEq, Eq)]
pub struct GumballDataUpdated {
    pub gumball_id: u32,
    pub new_ticket_price: u64,
    pub new_total_tickets: u16,
    pub updated_at: i64,
}

/// The accounts of the updates of a machine.
#[derive(Clone, Copy)]
pub struct UpdateGumball {
    pub gumball_config: GumballConfig,
    pub gumball: GumballMachine,
    pub creator: Pubkey,
    pub gumball_admin: Pubkey,
}

/// Why the update is not admitted, whatever it changes, if it is not: the
/// first of these that holds. The admin is not the configured one; the
/// machine has another number; the caller is not the creator; updating is
/// paused.
pub open spec fn update_admission_rejection(ctx: UpdateGumball, gumball_id: u32) -> Option<GumballError> {
    if ctx.gumball_config.gumball_admin != ctx.gumball_admin {
        Some(GumballError::Config(ConfigStateErrors::InvalidGumballAdmin))
    } else if ctx.gumball.gumball_id != gumball_id {
        Some(GumballError::State(GumballStateErrors::InvalidGumballId))
    } else if ctx.creator != ctx.gumball.creator {
        Some(GumballError::State(GumballStateErrors::InvalidCreator))
    } else if flag_set(ctx.gumball_config.pause_flags, UPDATE_GUMBALL_PAUSE) {
        Some(GumballError::State(GumballStateErrors::FunctionPaused))
    } else {
        None
    }
}

fn check_update_admission(ctx: &UpdateGumball, gumball_id: u32) -> (r: Result<(), GumballError>)
    ensures
        match r {
            Ok(()) => update_admission_rejection(*ctx, gumball_id) is None,
            Err(e) => update_admission_rejection(*ctx, gumball_id) == Some(e),
        },
{
    if !ctx.gumball_config.gumball_admin.same(&ctx.gumball_admin) {
        return Err(GumballError::Config(ConfigStateErrors::InvalidGumballAdmin));
    }
    if ctx.gumball.gumball_id != gumball_id {
        return Err(GumballError::State(GumballStateErrors::InvalidGumballId));
    }
    if !ctx.creator.same(&ctx.gumball.creator) {
        return Err(GumballError::State(GumballStateErrors::InvalidCreator));
    }
    if is_paused(ctx.gumball_config.pause_flags, UPDATE_GUMBALL_PAUSE) {
        return Err(GumballError::State(GumballStateErrors::FunctionPaused));
    }
    Ok(())
}

/// The new start: `now` where the machine shall start at once.
pub open spec fn effective_new_start(new_start_time: i64, start_gumball: bool, now: i64) -> i64 {
    if start_gumball {
        now
    } else {
        new_start_time
    }
}

/// Why the window cannot be changed at `now`, if it cannot: the first of
/// these that holds. The update is not admitted; the machine is not
/// `Initialized`; its start time has come; the new start lies in the past;
/// the length of the new window does not fit in 64 bits; it is outside the
/// configured bounds.
pub open spec fn update_gumball_time_rejection(
    ctx: UpdateGumball,
    gumball_id: u32,
    new_start_time: i64,
    new_end_time: i64,
    start_gumball: bool,
    now: i64,
) -> Option<GumballError> {
    let start = effective_new_start(new_start_time, start_gumball, now);
    if update_admission_rejection(ctx, gumball_id) is Some {
        update_admission_rejection(ctx, gumball_id)
    } else if ctx.gumball.status != GumballState::Initialized {
        Some(GumballError::State(GumballStateErrors::InvalidGumballState))
    } else if ctx.gumball.start_time <= now {
        Some(GumballError::State(GumballStateErrors::StartTimeNotReached))
    } else if start < now {
        Some(GumballError::State(GumballStateErrors::StartTimeInPast))
    } else if !(i64::MIN <= new_end_time - start <= i64::MAX) {
        Some(GumballError::State(GumballStateErrors::Overflow))
    } else if !period_allowed(ctx.gumball_config, start, new_end_time) {
        Some(GumballError::Config(ConfigStateErrors::InvalidGumballPeriod))
    } else {
        None
    }
}

/// Gives the machine a new window. It is held to what `create_gumball` asks.
/// The machine stays `Initialized`, also where its start is set to `now`.
pub fn update_gumball_time(
    ctx: &mut UpdateGumball,
    gumball_id: u32,
    new_start_time: i64,
    new_end_time: i64,
    start_gumball: bool,
    now: i64,
) -> (r: Result<GumballTimeUpdated, GumballError>)
    ensures
        match r {
            Ok(event) => {
                &&& update_gumball_time_rejection(
                    *old(ctx),
                    gumball_id,
                    new_start_time,
                    new_end_time,
                    start_gumball,
                    now,
                ) is None
                &&& *final(ctx) == (UpdateGumball {
                    gumball: GumballMachine {
                        start_time: effective_new_start(new_start_time, start_gumball, now),
                        end_time: new_end_time,
                        ..old(ctx).gumball
                    },
                    ..*old(ctx)
                })
                &&& event == (GumballTimeUpdated {
                    gumball_id,
                    new_start_time: effective_new_start(new_start_time, start_gumball, now),
                    new_end_time,
                    updated_at: now,
                })
            },
            Err(e) => {
                &&& update_gumball_time_rejection(
                    *old(ctx),
                    gumball_id,
                    new_start_time,
                    new_end_time,
                    start_gumball,
                    now,
                ) == Some(e)
                &&& *final(ctx) == *old(ctx)
            },
        },
        r is Ok && old(ctx).gumball.well_formed() ==> final(ctx).gumball.well_formed(),
{
    check_update_admission(ctx, gumball_id)?;
    if ctx.gumball.status != GumballState::Initialized {
        return Err(GumballError::State(GumballStateErrors::InvalidGumballState));
    }
    let start = if start_gumball {
        now
    } else {
        new_start_time
    };
    if ctx.gumball.start_time <= now {
        return Err(GumballError::State(GumballStateErrors::StartTimeNotReached));
    }
    if start < now {
        return Err(GumballError::State(GumballStateErrors::StartTimeInPast));
    }
    let duration = match new_end_time.checked_sub(start) {
        Some(d) => d,
        None => {
            return Err(GumballError::State(GumballStateErrors::Overflow));
        },
    };
    if !(duration >= ctx.gumball_config.minimum_gumball_period as i64 && duration
        <= ctx.gumball_config.maximum_gumball_period as i64) {
        return Err(GumballError::Config(ConfigStateErrors::InvalidGumballPeriod));
    }
    ctx.gumball.start_time = start;
    ctx.gumball.end_time = new_end_time;
    Ok(
        GumballTimeUpdated {
            gumball_id,
            new_start_time: start,
            new_end_time,
            updated_at: now,
        },
    )
}

/// Why the tickets cannot be changed, if they cannot: the first of these
/// that holds. The update is not admitted; a spin was sold; the machine is
/// not `Initialized`; the new price is zero; the new number of tickets is
/// not allowed; it is less than the prize units already in the machine.
pub open spec fn update_gumball_data_rejection(
    ctx: UpdateGumball,
    gumball_id: u32,
    new_ticket_price: u64,
    new_total_tickets: u16,
) -> Option<GumballError> {
    if update_admission_rejection(ctx, gumball_id) is Some {
        update_admission_rejection(ctx, gumball_id)
    } else if ctx.gumball.tickets_sold != 0 {
        Some(GumballError::State(GumballStateErrors::TicketsAlreadySold))
    } else if ctx.gumball.status != GumballState::Initialized {
        Some(GumballError::State(GumballStateErrors::InvalidGumballState))
    } else if new_ticket_price == 0 {
        Some(GumballError::State(GumballStateErrors::InvalidTicketPrice))
    } else if !tickets_allowed(new_total_tickets) {
        Some(GumballError::State(GumballStateErrors::InvalidTotalTickets))
    } else if new_total_tickets < ctx.gumball.prizes_added {
        Some(GumballError::State(GumballStateErrors::PrizesExceedTickets))
    } else {
        None
    }
}

/// Gives the machine a new price and a new number of tickets, at the time
/// `now`. They are held to what `create_gumball` asks.
pub fn update_gumball_data(
    ctx: &mut UpdateGumball,
    gumball_id: u32,
    new_ticket_price: u64,
    new_total_tickets: u16,
    now: i64,
) -> (r: Result<GumballDataUpdated, GumballError>)
    ensures
        match r {
            Ok(event) => {
                &&& update_gumball_data_rejection(
                    *old(ctx),
                    gumball_id,
                    new_ticket_price,
                    new_total_tickets,
                ) is None
                &&& *final(ctx) == (UpdateGumball {
                    gumball: GumballMachine {
                        ticket_price: new_ticket_price,
                        total_tickets: new_total_tickets,
                        ..old(ctx).gumball
                    },
                    ..*old(ctx)
                })
                &&& event == (GumballDataUpdated {
                    gumball_id,
                    new_ticket_price,
                    new_total_tickets,
                    updated_at: now,
                })
            },
            Err(e) => {
                &&& update_gumball_data_rejection(
                    *old(ctx),
                    gumball_id,
                    new_ticket_price,
                    new_total_tickets,
                ) == Some(e)
                &&& *final(ctx) == *old(ctx)
            },
        },
        r is Ok && old(ctx).gumball.well_formed() ==> final(ctx).gumball.well_formed(),
{
    check_update_admission(ctx, gumball_id)?;
    if ctx.gumball.tickets_sold != 0 {
        return Err(GumballError::State(GumballStateErrors::TicketsAlreadySold));
    }
    if ctx.gumball.status != GumballState::Initialized {
        return Err(GumballError::State(GumballStateErrors::InvalidGumballState));
    }
    if new_ticket_price == 0 {
        return Err(GumballError::State(GumballStateErrors::InvalidTicketPrice));
    }
    if !(MINIMUM_TICKETS <= new_total_tickets && new_total_tickets <= MAXIMUM_TICKETS) {
        return Err(GumballError::State(GumballStateErrors::InvalidTotalTickets));
    }
    if new_total_tickets < ctx.gumball.prizes_added {
        return Err(GumballError::State(GumballStateErrors::PrizesExceedTickets));
    }
    ctx.gumball.ticket_price = new_ticket_price;
    ctx.gumball.total_tickets = new_total_tickets;
    Ok(GumballDataUpdated { gumball_id, new_ticket_price, new_total_tickets, updated_at: now })
}

} // verus!
