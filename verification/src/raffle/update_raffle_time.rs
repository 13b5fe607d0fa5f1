//! Changing the window of a raffle that has not started.

use vstd::prelude::*;
use crate::pubkey::Pubkey;
use crate::raffle::create_raffle::period_allowed;
use crate::raffle::errors::{ConfigStateErrors, RaffleError, RaffleStateErrors};
use crate::raffle::states::{Raffle, RaffleConfig, RaffleView};
use crate::raffle::update_raffle_ticketing::{check_update_admission, update_admission_rejection};

verus! {

/// What `update_raffle_time` reports.
#[derive(Clone, Copy, Debug, PartialEq, Eq)]
pub struct RaffleTimeUpdated {
    pub raffle_id: u32,
    pub new_start_time: i64,
    pub new_end_time: i64,
    pub updated_time: i64,
}

/// The accounts of `update_raffle_time`.
#[derive(Clone, Copy)]
pub struct UpdateRaffleTime {
    pub raffle_config: RaffleConfig,
    pub creator: Pubkey,
    pub raffle_admin: Pubkey,
}

/// Why the window cannot be changed at `now`, if it cannot: the first of
/// these that holds. The update is not admitted; the start time of the
/// raffle has come; the new start lies in the past; the length of the new
/// window does not fit in 64 bits; it is outside the configured bounds.
pub open spec fn update_raffle_time_rejection(
    ctx: UpdateRaffleTime,
    raffle: RaffleView,
    raffle_id: u32,
    new_start_time: i64,
    new_end_time: i64,
    now: i64,
) -> Option<RaffleError> {
    if update_admission_rejection(
        ctx.raffle_config,
        ctx.raffle_admin,
        ctx.creator,
        raffle,
        raffle_id,
    ) is Some {
        update_admission_rejection(ctx.raffle_config, ctx.raffle_admin, ctx.creator, raffle, raffle_id)
    } else if raffle.start_time <= now {
        Some(RaffleError::State(RaffleStateErrors::RaffleAlreadyStarted))
    } else if new_start_time < now {
        Some(RaffleError::State(RaffleStateErrors::StartTimeInPast))
    } else if !(i64::MIN <= new_end_time - new_start_time <= i64::MAX) {
        Some(RaffleError::State(RaffleStateErrors::StartTimeExceedEndTime))
    } else if !period_allowed(ctx.raffle_config, new_start_time, new_end_time) {
        Some(RaffleError::Config(ConfigStateErrors::InvalidRafflePeriod))
    } else {
        None
    }
}

/// Gives the raffle a new window. It is held to what `create_raffle` asks.
pub fn update_raffle_time(
    ctx: &UpdateRaffleTime,
    raffle: &mut Raffle,
    raffle_id: u32,
    new_start_time: i64,
    new_end_time: i64,
    now: i64,
) -> (r: Result<RaffleTimeUpdated, RaffleError>)
    ensures
        match r {
            Ok(event) => {
                &&& update_raffle_time_rejection(
                    *ctx,
                    old(raffle)@,
                    raffle_id,
                    new_start_time,
                    new_end_time,
                    now,
                ) is None
                &&& final(raffle)@ == (RaffleView {
                    start_time: new_start_time,
                    end_time: new_end_time,
                    ..old(raffle)@
                })
                &&& event == (RaffleTimeUpdated {
                    raffle_id,
                    new_start_time,
                    new_end_time,
                    updated_time: now,
                })
            },
            Err(e) => {
                &&& update_raffle_time_rejection(
                    *ctx,
                    old(raffle)@,
                    raffle_id,
                    new_start_time,
                    new_end_time,
                    now,
                ) == Some(e)
                &&& *final(raffle) == *old(raffle)
            },
        },
        r is Ok && old(raffle)@.well_formed() ==> final(raffle)@.well_formed(),
{
    check_update_admission(&ctx.raffle_config, &ctx.raffle_admin, &ctx.creator, raffle, raffle_id)?;
    if raffle.start_time <= now {
        return Err(RaffleError::State(RaffleStateErrors::RaffleAlreadyStarted));
    }
    if new_start_time < now {
        return Err(RaffleError::State(RaffleStateErrors::StartTimeInPast));
    }
    let duration = match new_end_time.checked_sub(new_start_time) {
        Some(d) => d,
        None => {
            return Err(RaffleError::State(RaffleStateErrors::StartTimeExceedEndTime));
        },
    };
    if !(duration >= ctx.raffle_config.minimum_raffle_period as i64 && duration
        <= ctx.raffle_config.maximum_raffle_period as i64) {
        return Err(RaffleError::Config(ConfigStateErrors::InvalidRafflePeriod));
    }
    raffle.start_time = new_start_time;
    raffle.end_time = new_end_time;
    Ok(RaffleTimeUpdated { raffle_id, new_start_time, new_end_time, updated_time: now })
}

} // verus!
