//! Setting up the gumball house and changing its settings.

use vstd::prelude::*;
use crate::gumball::errors::{ConfigStateErrors, GumballError};
use crate::gumball::states::GumballConfig;
use crate::pubkey::Pubkey;

verus! {

/// The accounts of `initialize_gumball_config`: the settings to fill, and
/// who pays for their storage.
#[derive(Clone, Copy)]
pub struct InitializeGumballConfig {
    pub gumball_config: GumballConfig,
    pub payer: Pubkey,
}

/// The accounts of the operations that change the settings: the settings,
/// and who asks for the change.
#[derive(Clone, Copy)]
pub struct UpdateGumballConfig {
    pub gumball_config: GumballConfig,
    pub gumball_owner: Pubkey,
}

/// The shortest period is not zero and below the longest.
pub open spec fn periods_in_order(minimum_gumball_period: u32, maximum_gumball_period: u32) -> bool {
    minimum_gumball_period > 0 && maximum_gumball_period > minimum_gumball_period
}

/// Why a change of the settings is refused to `ctx.gumball_owner`, if it is.
pub open spec fn owner_rejection(ctx: UpdateGumballConfig) -> Option<GumballError> {
    if ctx.gumball_owner != ctx.gumball_config.gumball_owner {
        Some(GumballError::Config(ConfigStateErrors::InvalidGumballOwner))
    } else {
        None
    }
}

fn check_owner(ctx: &UpdateGumballConfig) -> (r: Result<(), GumballError>)
    ensures
        match r {
            Ok(()) => owner_rejection(*ctx) is None,
            Err(e) => owner_rejection(*ctx) == Some(e),
        },
{
    if !ctx.gumball_owner.same(&ctx.gumball_config.gumball_owner) {
        return Err(GumballError::Config(ConfigStateErrors::InvalidGumballOwner));
    }
    Ok(())
}

/// Fills the settings of a new gumball house. The first machine will have
/// the number one, and nothing is paused. The settings are refused with
/// `InvalidGumballPeriod` where the periods are not in order.
pub fn initialize_gumball_config(
    ctx: &mut InitializeGumballConfig,
    gumball_owner: Pubkey,
    gumball_admin: Pubkey,
    creation_fee_lamports: u64,
    ticket_fee_bps: u16,
    minimum_gumball_period: u32,
    maximum_gumball_period: u32,
    config_bump: u8,
) -> (r: Result<(), GumballError>)
    ensures
        match r {
            Ok(()) => {
                &&& periods_in_order(minimum_gumball_period, maximum_gumball_period)
                &&& *final(ctx) == (InitializeGumballConfig {
                    gumball_config: GumballConfig {
                        gumball_owner,
                        gumball_admin,
                        creation_fee_lamports,
                        ticket_fee_bps,
                        minimum_gumball_period,
                        maximum_gumball_period,
                        gumball_count: 1,
                        pause_flags: 0,
                        config_bump,
                    },
                    ..*old(ctx)
                })
            },
            Err(e) => {
                &&& !periods_in_order(minimum_gumball_period, maximum_gumball_period)
                &&& e == GumballError::Config(ConfigStateErrors::InvalidGumballPeriod)
                &&& *final(ctx) == *old(ctx)
            },
        },
{
    if !(minimum_gumball_period > 0 && maximum_gumball_period > minimum_gumball_period) {
        return Err(GumballError::Config(ConfigStateErrors::InvalidGumballPeriod));
    }
    ctx.gumball_config = GumballConfig {
        gumball_owner,
        gumball_admin,
        creation_fee_lamports,
        ticket_fee_bps,
        minimum_gumball_period,
        maximum_gumball_period,
        gumball_count: 1,
        pause_flags: 0,
        config_bump,
    };
    Ok(())
}

/// Hands the gumball house to a new owner.
pub fn update_gumball_owner(ctx: &mut UpdateGumballConfig, new_owner: Pubkey) -> (r: Result<
    (),
    GumballError,
>)
    ensures
        match r {
            Ok(()) => {
                &&& owner_rejection(*old(ctx)) is None
                &&& *final(ctx) == (UpdateGumballConfig {
                    gumball_config: GumballConfig { gumball_owner: new_owner, ..old(ctx).gumball_config },
                    ..*old(ctx)
                })
            },
            Err(e) => owner_rejection(*old(ctx)) == Some(e) && *final(ctx) == *old(ctx),
        },
{
    check_owner(ctx)?;
    ctx.gumball_config.gumball_owner = new_owner;
    Ok(())
}

/// Names a new admin, whose signature every gumball operation needs.
pub fn update_gumball_admin(ctx: &mut UpdateGumballConfig, new_admin: Pubkey) -> (r: Result<
    (),
    GumballError,
>)
    ensures
        match r {
            Ok(()) => {
                &&& owner_rejection(*old(ctx)) is None
                &&& *final(ctx) == (UpdateGumballConfig {
                    gumball_config: GumballConfig { gumball_admin: new_admin, ..old(ctx).gumball_config },
                    ..*old(ctx)
                })
            },
            Err(e) => owner_rejection(*old(ctx)) == Some(e) && *final(ctx) == *old(ctx),
        },
{
    check_owner(ctx)?;
    ctx.gumball_config.gumball_admin = new_admin;
    Ok(())
}

/// Why `update_gumball_config_data` is refused, if it is: the caller is not
/// the owner, or the periods are not in order.
pub open spec fn update_gumball_config_data_rejection(
    ctx: UpdateGumballConfig,
    minimum_gumball_period: u32,
    maximum_gumball_period: u32,
) -> Option<GumballError> {
    if owner_rejection(ctx) is Some {
        owner_rejection(ctx)
    } else if !periods_in_order(minimum_gumball_period, maximum_gumball_period) {
        Some(GumballError::Config(ConfigStateErrors::InvalidGumballPeriod))
    } else {
        None
    }
}

/// Changes the fees and the bounds on periods.
pub fn update_gumball_config_data(
    ctx: &mut UpdateGumballConfig,
    creation_fee_lamports: u64,
    ticket_fee_bps: u16,
    minimum_gumball_period: u32,
    maximum_gumball_period: u32,
) -> (r: Result<(), GumballError>)
    ensures
        match r {
            Ok(()) => {
                &&& update_gumball_config_data_rejection(
                    *old(ctx),
                    minimum_gumball_period,
                    maximum_gumball_period,
                ) is None
                &&& *final(ctx) == (UpdateGumballConfig {
                    gumball_config: GumballConfig {
                        creation_fee_lamports,
                        ticket_fee_bps,
                        minimum_gumball_period,
                        maximum_gumball_period,
                        ..old(ctx).gumball_config
                    },
                    ..*old(ctx)
                })
            },
            Err(e) => {
                &&& update_gumball_config_data_rejection(
                    *old(ctx),
                    minimum_gumball_period,
                    maximum_gumball_period,
                ) == Some(e)
                &&& *final(ctx) == *old(ctx)
            },
        },
{
    check_owner(ctx)?;
    if !(minimum_gumball_period > 0 && maximum_gumball_period > minimum_gumball_period) {
        return Err(GumballError::Config(ConfigStateErrors::InvalidGumballPeriod));
    }
    ctx.gumball_config.creation_fee_lamports = creation_fee_lamports;
    ctx.gumball_config.ticket_fee_bps = ticket_fee_bps;
    ctx.gumball_config.minimum_gumball_period = minimum_gumball_period;
    ctx.gumball_config.maximum_gumball_period = maximum_gumball_period;
    Ok(())
}

/// Sets which operations are switched off: bit `i` of the flags stands for
/// the operation numbered `i`.
pub fn update_pause_flags(ctx: &mut UpdateGumballConfig, new_pause_flags: u8) -> (r: Result<
    (),
    GumballError,
>)
    ensures
        match r {
            Ok(()) => {
                &&& owner_rejection(*old(ctx)) is None
                &&& *final(ctx) == (UpdateGumballConfig {
                    gumball_config: GumballConfig {
                        pause_flags: new_pause_flags,
                        ..old(ctx).gumball_config
                    },
                    ..*old(ctx)
                })
            },
            Err(e) => owner_rejection(*old(ctx)) == Some(e) && *final(ctx) == *old(ctx),
        },
{
    check_owner(ctx)?;
    ctx.gumball_config.pause_flags = new_pause_flags;
    Ok(())
}

} // verus!
