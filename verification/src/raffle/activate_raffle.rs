//! Opening a raffle for buyers once its start time has come.

use vstd::prelude::*;
use crate::math::flag_set;
use crate::pubkey::Pubkey;
use crate::raffle::constants::ACTIVATE_RAFFLE_PAUSE;
use crate::raffle::errors::{ConfigStateErrors, RaffleError, RaffleStateErrors};
use crate::raffle::states::{Raffle, RaffleConfig, RaffleState, RaffleView};
use crate::raffle::utils::is_paused;

verus! {

/// What `activate_raffle` reports.
#[derive(Clone, Copy, Debug, PartialEq, Eq)]
pub struct RaffleActivated {
    pub raffle_id: u32,
    pub activated_at: i64,
}

/// The accounts of `activate_raffle`.
#[derive(Clone, Copy)]
pub struct ActivateRaffle {
    pub raffle_config: RaffleConfig,
    pub raffle_admin: Pubkey,
}

/// Why the raffle cannot be activated at `now`, if it cannot: the first of
/// these that holds. The admin is not the configured one; the raffle has
/// another number; activating is paused; the raffle is not `Initialized`;
/// the start time has not come.
pub open spec fn activate_raffle_rejection(
    ctx: ActivateRaffle,
    raffle: RaffleView,
    raffle_id: u32,
    now: i64,
) -> Option<RaffleError> {
    if ctx.raffle_config.raffle_admin != ctx.raffle_admin {
        Some(RaffleError::Config(ConfigStateErrors::InvalidRaffleAdmin))
    } else if raffle.raffle_id != raffle_id {
        Some(RaffleError::State(RaffleStateErrors::InvalidRaffleId))
    } else if flag_set(ctx.raffle_config.pause_flags, ACTIVATE_RAFFLE_PAUSE) {
        Some(RaffleError::State(RaffleStateErrors::FunctionPaused))
    } else if raffle.status != RaffleState::Initialized {
        Some(RaffleError::State(RaffleStateErrors::StateShouldBeInInitialized))
    } else if now < raffle.start_time {
        Some(RaffleError::State(RaffleStateErrors::StartTimeNotReached))
    } else {
        None
    }
}

/// Moves the raffle from `Initialized` to `Active`.
pub fn activate_raffle(ctx: &ActivateRaffle, raffle: &mut Raffle, raffle_id: u32, now: i64) -> (r: Result<
    RaffleActivated,
    RaffleError,
>)
    ensures
        match r {
            Ok(event) => {
                &&& activate_raffle_rejection(*ctx, old(raffle)@, raffle_id, now) is None
                &&& final(raffle)@ == (RaffleView { status: RaffleState::Active, ..old(raffle)@ })
                &&& event == (RaffleActivated { raffle_id, activated_at: now })
            },
            Err(e) => {
                &&& activate_raffle_rejection(*ctx, old(raffle)@, raffle_id, now) == Some(e)
                &&& *final(raffle) == *old(raffle)
            },
        },
        r is Ok && old(raffle)@.well_formed() ==> final(raffle)@.well_formed(),
{
    if !ctx.raffle_config.raffle_admin.same(&ctx.raffle_admin) {
        return Err(RaffleError::Config(ConfigStateErrors::InvalidRaffleAdmin));
    }
    if raffle.raffle_id != raffle_id {
        return Err(RaffleError::State(RaffleStateErrors::InvalidRaffleId));
    }
    if is_paused(ctx.raffle_config.pause_flags, ACTIVATE_RAFFLE_PAUSE) {
        return Err(RaffleError::State(RaffleStateErrors::FunctionPaused));
    }
    if raffle.status != RaffleState::Initialized {
        return Err(RaffleError::State(RaffleStateErrors::StateShouldBeInInitialized));
    }
    if now < raffle.start_time {
        return Err(RaffleError::State(RaffleStateErrors::StartTimeNotReached));
    }
    raffle.status = RaffleState::Active;
    Ok(RaffleActivated { raffle_id, activated_at: now })
}

} // verus!
