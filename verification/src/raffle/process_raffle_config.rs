//! Setting up the raffle house and changing its settings.

use vstd::prelude::*;
use crate::pubkey::Pubkey;
use crate::raffle::errors::{ConfigStateErrors, RaffleError};
use crate::raffle::states::RaffleConfig;

verus! {

/// The accounts of `initialize_raffle_config`: the settings to fill, and who
/// pays for their storage.
#[derive(Clone, Copy)]
pub struct InitializeRaffleConfig {
    pub raffle_config: RaffleConfig,
    pub payer: Pubkey,
}

/// The accounts of the operations that change the settings: the settings,
/// and who asks for the change.
#[derive(Clone, Copy)]
pub struct UpdateRaffleConfig {
    pub raffle_config: RaffleConfig,
    pub raffle_owner: Pubkey,
}

/// The shortest period is not zero and below the longest.
pub open spec fn periods_in_order(minimum_raffle_period: u32, maximum_raffle_period: u32) -> bool {
    minimum_raffle_period > 0 && maximum_raffle_period > minimum_raffle_period
}

/// The least number of tickets is not zero and below the greatest.
pub open spec fn tickets_in_order(minimum_tickets: u16, maximum_tickets: u16) -> bool {
    minimum_tickets > 0 && maximum_tickets > minimum_tickets
}

/// Why a change of the settings is refused to `ctx.raffle_owner`, if it is.
pub open spec fn owner_rejection(ctx: UpdateRaffleConfig) -> Option<RaffleError> {
    if ctx.raffle_owner != ctx.raffle_config.raffle_owner {
        Some(RaffleError::Config(ConfigStateErrors::InvalidRaffleOwner))
    } else {
        None
    }
}

fn check_owner(ctx: &UpdateRaffleConfig) -> (r: Result<(), RaffleError>)
    ensures
        match r {
            Ok(()) => owner_rejection(*ctx) is None,
            Err(e) => owner_rejection(*ctx) == Some(e),
        },
{
    if !ctx.raffle_owner.same(&ctx.raffle_config.raffle_owner) {
        return Err(RaffleError::Config(ConfigStateErrors::InvalidRaffleOwner));
    }
    Ok(())
}

/// Why the settings of a new raffle house are refused, if they are: the
/// periods are not in order, or the numbers of tickets are not.
pub open spec fn initialize_raffle_config_rejection(
    minimum_raffle_period: u32,
    maximum_raffle_period: u32,
    minimum_tickets: u16,
    maximum_tickets: u16,
) -> Option<RaffleError> {
    if !periods_in_order(minimum_raffle_period, maximum_raffle_period) {
        Some(RaffleError::Config(ConfigStateErrors::InvalidRafflePeriod))
    } else if !tickets_in_order(minimum_tickets, maximum_tickets) {
        Some(RaffleError::Config(ConfigStateErrors::InvalidRaffleTickets))
    } else {
        None
    }
}

/// Fills the settings of a new raffle house. The first raffle will have the
/// number one, and nothing is paused.
pub fn initialize_raffle_config(
    ctx: &mut InitializeRaffleConfig,
    raffle_owner: Pubkey,
    raffle_admin: Pubkey,
    creation_fee_lamports: u64,
    ticket_fee_bps: u16,
    winning_fee_bps: u16,
    minimum_raffle_period: u32,
    maximum_raffle_period: u32,
    minimum_tickets: u16,
    maximum_tickets: u16,
    maximum_wallet_pct: u8,
    maximum_winners_count: u8,
    config_bump: u8,
) -> (r: Result<(), RaffleError>)
    ensures
        match r {
            Ok(()) => {
                &&& initialize_raffle_config_rejection(
                    minimum_raffle_period,
                    maximum_raffle_period,
                    minimum_tickets,
                    maximum_tickets,
                ) is None
                &&& *final(ctx) == (InitializeRaffleConfig {
                    raffle_config: RaffleConfig {
                        raffle_owner,
                        raffle_admin,
                        creation_fee_lamports,
                        ticket_fee_bps,
                        winning_fee_bps,
                        minimum_raffle_period,
                        maximum_raffle_period,
                        minimum_tickets,
                        maximum_tickets,
                        maximum_wallet_pct,
                        maximum_winners_count,
                        raffle_count: 1,
                        pause_flags: 0,
                        config_bump,
                    },
                    ..*old(ctx)
                })
            },
            Err(e) => {
                &&& initialize_raffle_config_rejection(
                    minimum_raffle_period,
                    maximum_raffle_period,
                    minimum_tickets,
                    maximum_tickets,
                ) == Some(e)
                &&& *final(ctx) == *old(ctx)
            },
        },
{
    if !(minimum_raffle_period > 0 && maximum_raffle_period > minimum_raffle_period) {
        return Err(RaffleError::Config(ConfigStateErrors::InvalidRafflePeriod));
    }
    if !(minimum_tickets > 0 && maximum_tickets > minimum_tickets) {
        return Err(RaffleError::Config(ConfigStateErrors::InvalidRaffleTickets));
    }
    ctx.raffle_config = RaffleConfig {
        raffle_owner,
        raffle_admin,
        creation_fee_lamports,
        ticket_fee_bps,
        winning_fee_bps,
        minimum_raffle_period,
        maximum_raffle_period,
        minimum_tickets,
        maximum_tickets,
        maximum_wallet_pct,
        maximum_winners_count,
        raffle_count: 1,
        pause_flags: 0,
        config_bump,
    };
    Ok(())
}

/// Hands the raffle house to a new owner.
pub fn update_raffle_config_owner(ctx: &mut UpdateRaffleConfig, new_raffle_owner: Pubkey) -> (r: Result<
    (),
    RaffleError,
>)
    ensures
        match r {
            Ok(()) => {
                &&& owner_rejection(*old(ctx)) is None
                &&& *final(ctx) == (UpdateRaffleConfig {
                    raffle_config: RaffleConfig {
                        raffle_owner: new_raffle_owner,
                        ..old(ctx).raffle_config
                    },
                    ..*old(ctx)
                })
            },
            Err(e) => owner_rejection(*old(ctx)) == Some(e) && *final(ctx) == *old(ctx),
        },
{
    check_owner(ctx)?;
    ctx.raffle_config.raffle_owner = new_raffle_owner;
    Ok(())
}

/// Names a new admin, whose signature every raffle operation needs.
pub fn update_raffle_config_admin(ctx: &mut UpdateRaffleConfig, new_raffle_admin: Pubkey) -> (r: Result<
    (),
    RaffleError,
>)
    ensures
        match r {
            Ok(()) => {
                &&& owner_rejection(*old(ctx)) is None
                &&& *final(ctx) == (UpdateRaffleConfig {
                    raffle_config: RaffleConfig {
                        raffle_admin: new_raffle_admin,
                        ..old(ctx).raffle_config
                    },
                    ..*old(ctx)
                })
            },
            Err(e) => owner_rejection(*old(ctx)) == Some(e) && *final(ctx) == *old(ctx),
        },
{
    check_owner(ctx)?;
    ctx.raffle_config.raffle_admin = new_raffle_admin;
    Ok(())
}

/// Why `update_raffle_config_data` is refused, if it is: the caller is not
/// the owner, or the periods are not in order.
pub open spec fn update_raffle_config_data_rejection(
    ctx: UpdateRaffleConfig,
    minimum_raffle_period: u32,
    maximum_raffle_period: u32,
) -> Option<RaffleError> {
    if owner_rejection(ctx) is Some {
        owner_rejection(ctx)
    } else if !periods_in_order(minimum_raffle_period, maximum_raffle_period) {
        Some(RaffleError::Config(ConfigStateErrors::InvalidRafflePeriod))
    } else {
        None
    }
}

/// Changes the fees and the bounds on periods, tickets and winners.
pub fn update_raffle_config_data(
    ctx: &mut UpdateRaffleConfig,
    creation_fee_lamports: u64,
    ticket_fee_bps: u16,
    minimum_raffle_period: u32,
    maximum_raffle_period: u32,
    minimum_tickets: u16,
    maximum_tickets: u16,
    maximum_winners_count: u8,
) -> (r: Result<(), RaffleError>)
    ensures
        match r {
            Ok(()) => {
                &&& update_raffle_config_data_rejection(
                    *old(ctx),
                    minimum_raffle_period,
                    maximum_raffle_period,
                ) is None
                &&& *final(ctx) == (UpdateRaffleConfig {
                    raffle_config: RaffleConfig {
                        creation_fee_lamports,
                        ticket_fee_bps,
                        minimum_raffle_period,
                        maximum_raffle_period,
                        minimum_tickets,
                        maximum_tickets,
                        maximum_winners_count,
                        ..old(ctx).raffle_config
                    },
                    ..*old(ctx)
                })
            },
            Err(e) => {
                &&& update_raffle_config_data_rejection(
                    *old(ctx),
                    minimum_raffle_period,
                    maximum_raffle_period,
                ) == Some(e)
                &&& *final(ctx) == *old(ctx)
            },
        },
{
    check_owner(ctx)?;
    if !(minimum_raffle_period > 0 && maximum_raffle_period > minimum_raffle_period) {
        return Err(RaffleError::Config(ConfigStateErrors::InvalidRafflePeriod));
    }
    ctx.raffle_config.creation_fee_lamports = creation_fee_lamports;
    ctx.raffle_config.ticket_fee_bps = ticket_fee_bps;
    ctx.raffle_config.minimum_raffle_period = minimum_raffle_period;
    ctx.raffle_config.maximum_raffle_period = maximum_raffle_period;
    ctx.raffle_config.minimum_tickets = minimum_tickets;
    ctx.raffle_config.maximum_tickets = maximum_tickets;
    ctx.raffle_config.maximum_winners_count = maximum_winners_count;
    Ok(())
}

/// Sets which operations are switched off: bit `i` of the flags stands for
/// the operation numbered `i`.
pub fn update_pause_and_unpause(ctx: &mut UpdateRaffleConfig, new_pause_flags: u8) -> (r: Result<
    (),
    RaffleError,
>)
    ensures
        match r {
            Ok(()) => {
                &&& owner_rejection(*old(ctx)) is None
                &&& *final(ctx) == (UpdateRaffleConfig {
                    raffle_config: RaffleConfig {
                        pause_flags: new_pause_flags,
                        ..old(ctx).raffle_config
                    },
                    ..*old(ctx)
                })
            },
            Err(e) => owner_rejection(*old(ctx)) == Some(e) && *final(ctx) == *old(ctx),
        },
{
    check_owner(ctx)?;
    ctx.raffle_config.pause_flags = new_pause_flags;
    Ok(())
}

} // verus!
