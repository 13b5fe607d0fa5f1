//! Opening a machine for spins once its start time has come.

use vstd::prelude::*;
use crate::gumball::constants::ACTIVATE_GUMBALL_PAUSE;
use crate::gumball::errors::{ConfigStateErrors, GumballError, GumballStateErrors};
use crate::gumball::states::{GumballConfig, GumballMachine, GumballState};
use crate::gumball::utils::is_paused;
use crate::math::flag_set;
use crate::pubkey::Pubkey;

verus! {

/// What `activate_gumball` reports.
#[derive(Clone, Copy, Debug, PartialEq, Eq)]
pub struct GumballActivated {
    pub gumball_id: u32,
    pub activated_at: i64,
}

/// The accounts of `activate_gumball`.
#[derive(Clone, Copy)]
pub struct ActivateGumball {
    pub gumball_config: GumballConfig,
    pub gumball: GumballMachine,
    pub gumball_admin: Pubkey,
}

/// Why the machine cannot be activated at `now`, if it cannot: the first of
/// these that holds. The admin is not the configured one; the machine has
/// another number; activating is paused; the machine is not `Initialized`;
/// the start time has not come.
pub open spec fn activate_gumball_rejection(ctx: ActivateGumball, gumball_id: u32, now: i64) -> Option<
    GumballError,
> {
    if ctx.gumball_config.gumball_admin != ctx.gumball_admin {
        Some(GumballError::Config(ConfigStateErrors::InvalidGumballAdmin))
    } else if ctx.gumball.gumball_id != gumball_id {
        Some(GumballError::State(GumballStateErrors::InvalidGumballId))
    } else if flag_set(ctx.gumball_config.pause_flags, ACTIVATE_GUMBALL_PAUSE) {
        Some(GumballError::State(GumballStateErrors::FunctionPaused))
    } else if ctx.gumball.status != GumballState::Initialized {
        Some(GumballError::State(GumballStateErrors::NotInitialized))
    } else if now < ctx.gumball.start_time {
        Some(GumballError::State(GumballStateErrors::StartTimeNotReached))
    } else {
        None
    }
}

/// Moves the machine from `Initialized` to `Active`.
pub fn activate_gumball(ctx: &mut ActivateGumball, gumball_id: u32, now: i64) -> (r: Result<
    GumballActivated,
    GumballError,
>)
    ensures
        match r {
            Ok(event) => {
                &&& activate_gumball_rejection(*old(ctx), gumball_id, now) is None
                &&& *final(ctx) == (ActivateGumball {
                    gumball: GumballMachine { status: GumballState::Active, ..old(ctx).gumball },
                    ..*old(ctx)
                })
                &&& event == (GumballActivated { gumball_id, activated_at: now })
            },
            Err(e) => {
                &&& activate_gumball_rejection(*old(ctx), gumball_id, now) == Some(e)
                &&& *final(ctx) == *old(ctx)
            },
        },
        r is Ok && old(ctx).gumball.well_formed() ==> final(ctx).gumball.well_formed(),
{
    if !ctx.gumball_config.gumball_admin.same(&ctx.gumball_admin) {
        return Err(GumballError::Config(ConfigStateErrors::InvalidGumballAdmin));
    }
    if ctx.gumball.gumball_id != gumball_id {
        return Err(GumballError::State(GumballStateErrors::InvalidGumballId));
    }
    if is_paused(ctx.gumball_config.pause_flags, ACTIVATE_GUMBALL_PAUSE) {
        return Err(GumballError::State(GumballStateErrors::FunctionPaused));
    }
    if ctx.gumball.status != GumballState::Initialized {
        return Err(GumballError::State(GumballStateErrors::NotInitialized));
    }
    if now < ctx.gumball.start_time {
        return Err(GumballError::State(GumballStateErrors::StartTimeNotReached));
    }
    ctx.gumball.status = GumballState::Active;
    Ok(GumballActivated { gumball_id, activated_at: now })
}

} // verus!
