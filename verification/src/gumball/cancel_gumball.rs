//! Calling off a machine that sold no spin. Its prizes are claimed back one
//! by one afterwards.

use vstd::prelude::*;
use crate::gumball::constants::CANCEL_GUMBALL_PAUSE;
use crate::gumball::errors::{ConfigStateErrors, GumballError, GumballStateErrors};
use crate::gumball::states::{GumballConfig, GumballMachine, GumballState};
use crate::gumball::utils::is_paused;
use crate::math::flag_set;
use crate::pubkey::Pubkey;

verus! {

/// What `cancel_gumball` reports.
#[derive(Clone, Copy, Debug, PartialEq, Eq)]
pub struct GumballCancelled {
    pub gumball_id: u32,
    pub cancelled_by: Pubkey,
    pub cancelled_at: i64,
}

/// The accounts of `cancel_gumball`.
#[derive(Clone, Copy)]
pub struct CancelGumball {
    pub gumball_config: GumballConfig,
    pub gumball: GumballMachine,
    pub creator: Pubkey,
    pub gumball_admin: Pubkey,
}

/// Why the machine cannot be called off, if it cannot: the first of these
/// that holds. The admin is not the configured one; the machine has another
/// number; the caller is not the creator; cancelling is paused; a spin was
/// sold; the machine is neither `Initialized` nor `Active`.
pub open spec fn cancel_gumball_rejection(ctx: CancelGumball, gumball_id: u32) -> Option<GumballError> {
    if ctx.gumball_config.gumball_admin != ctx.gumball_admin {
        Some(GumballError::Config(ConfigStateErrors::InvalidGumballAdmin))
    } else if ctx.gumball.gumball_id != gumball_id {
        Some(GumballError::State(GumballStateErrors::InvalidGumballId))
    } else if ctx.creator != ctx.gumball.creator {
        Some(GumballError::State(GumballStateErrors::InvalidCreator))
    } else if flag_set(ctx.gumball_config.pause_flags, CANCEL_GUMBALL_PAUSE) {
        Some(GumballError::State(GumballStateErrors::FunctionPaused))
    } else if ctx.gumball.tickets_sold != 0 {
        Some(GumballError::State(GumballStateErrors::TicketsAlreadySold))
    } else if ctx.gumball.status != GumballState::Initialized && ctx.gumball.status
        != GumballState::Active {
        Some(GumballError::State(GumballStateErrors::InvalidGumballState))
    } else {
        None
    }
}

/// Calls off the machine at the time `now`.
pub fn cancel_gumball(ctx: &mut CancelGumball, gumball_id: u32, now: i64) -> (r: Result<
    GumballCancelled,
    GumballError,
>)
    ensures
        match r {
            Ok(event) => {
                &&& cancel_gumball_rejection(*old(ctx), gumball_id) is None
                &&& *final(ctx) == (CancelGumball {
                    gumball: GumballMachine { status: GumballState::Cancelled, ..old(ctx).gumball },
                    ..*old(ctx)
                })
                &&& event == (GumballCancelled {
                    gumball_id,
                    cancelled_by: old(ctx).creator,
                    cancelled_at: now,
                })
            },
            Err(e) => {
                &&& cancel_gumball_rejection(*old(ctx), gumball_id) == Some(e)
                &&& *final(ctx) == *old(ctx)
            },
        },
        r is Ok && old(ctx).gumball.well_formed() ==> final(ctx).gumball.well_formed(),
{
    if !ctx.gumball_config.gumball_admin.same(&ctx.gumball_admin) {
        return Err(GumballError::Config(ConfigStateErrors::InvalidGumballAdmin));
    }
    if ctx.gumball.gumball_id != gumball_id {
        return Err(GumballError::State(GumballStateErrors::InvalidGumballId));
    }
    if !ctx.creator.same(&ctx.gumball.creator) {
        return Err(GumballError::State(GumballStateErrors::InvalidCreator));
    }
    if is_paused(ctx.gumball_config.pause_flags, CANCEL_GUMBALL_PAUSE) {
        return Err(GumballError::State(GumballStateErrors::FunctionPaused));
    }
    if ctx.gumball.tickets_sold != 0 {
        return Err(GumballError::State(GumballStateErrors::TicketsAlreadySold));
    }
    if ctx.gumball.status != GumballState::Initialized && ctx.gumball.status
        != GumballState::Active {
        return Err(GumballError::State(GumballStateErrors::InvalidGumballState));
    }
    ctx.gumball.status = GumballState::Cancelled;
    Ok(GumballCancelled { gumball_id, cancelled_by: ctx.creator, cancelled_at: now })
}

} // verus!
