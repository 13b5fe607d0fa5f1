//! Setting up the auction house and changing its settings.

use vstd::prelude::*;
use crate::auction::errors::{AuctionError, ConfigStateErrors};
use crate::auction::states::AuctionConfig;
use crate::pubkey::Pubkey;

verus! {

/// The accounts of `initialize_auction_config`: the settings to fill, and
/// who pays for their storage.
#[derive(Clone, Copy)]
pub struct InitializeAuctionConfig {
    pub auction_config: AuctionConfig,
    pub payer: Pubkey,
}

/// The accounts of the operations that change the settings: the settings, and
/// who asks for the change.
#[derive(Clone, Copy)]
pub struct UpdateAuctionConfig {
    pub auction_config: AuctionConfig,
    pub auction_owner: Pubkey,
}

/// Why the bounds of the settings are refused, if they are: the shortest
/// period is zero or not below the longest, or the shortest extension is not
/// below the longest.
pub open spec fn bounds_rejection(
    minimum_auction_period: u32,
    maximum_auction_period: u32,
    minimum_time_extension: u32,
    maximum_time_extension: u32,
) -> Option<AuctionError> {
    if !(minimum_auction_period > 0 && maximum_auction_period > minimum_auction_period) {
        Some(AuctionError::Config(ConfigStateErrors::InvalidAuctionPeriod))
    } else if !(maximum_time_extension > minimum_time_extension) {
        Some(AuctionError::Config(ConfigStateErrors::InvalidTimeExtension))
    } else {
        None
    }
}

/// Why a change of the settings is refused to `ctx.auction_owner`, if it is.
pub open spec fn owner_rejection(ctx: UpdateAuctionConfig) -> Option<AuctionError> {
    if ctx.auction_owner != ctx.auction_config.auction_owner {
        Some(AuctionError::Config(ConfigStateErrors::InvalidAuctionOwner))
    } else {
        None
    }
}

fn check_bounds(
    minimum_auction_period: u32,
    maximum_auction_period: u32,
    minimum_time_extension: u32,
    maximum_time_extension: u32,
) -> (r: Result<(), AuctionError>)
    ensures
        match r {
            Ok(()) => bounds_rejection(
                minimum_auction_period,
                maximum_auction_period,
                minimum_time_extension,
                maximum_time_extension,
            ) is None,
            Err(e) => bounds_rejection(
                minimum_auction_period,
                maximum_auction_period,
                minimum_time_extension,
                maximum_time_extension,
            ) == Some(e),
        },
{
    if !(minimum_auction_period > 0 && maximum_auction_period > minimum_auction_period) {
        return Err(AuctionError::Config(ConfigStateErrors::InvalidAuctionPeriod));
    }
    if !(maximum_time_extension > minimum_time_extension) {
        return Err(AuctionError::Config(ConfigStateErrors::InvalidTimeExtension));
    }
    Ok(())
}

fn check_owner(ctx: &UpdateAuctionConfig) -> (r: Result<(), AuctionError>)
    ensures
        match r {
            Ok(()) => owner_rejection(*ctx) is None,
            Err(e) => owner_rejection(*ctx) == Some(e),
        },
{
    if !ctx.auction_owner.same(&ctx.auction_config.auction_owner) {
        return Err(AuctionError::Config(ConfigStateErrors::InvalidAuctionOwner));
    }
    Ok(())
}

/// Fills the settings of a new auction house. The first auction will have the
/// number one, and nothing is paused.
pub fn initialize_auction_config(
    ctx: &mut InitializeAuctionConfig,
    auction_owner: Pubkey,
    auction_admin: Pubkey,
    creation_fee_lamports: u64,
    commission_bps: u16,
    minimum_auction_period: u32,
    maximum_auction_period: u32,
    minimum_time_extension: u32,
    maximum_time_extension: u32,
    config_bump: u8,
) -> (r: Result<(), AuctionError>)
    ensures
        match r {
            Ok(()) => {
                &&& bounds_rejection(
                    minimum_auction_period,
                    maximum_auction_period,
                    minimum_time_extension,
                    maximum_time_extension,
                ) is None
                &&& *final(ctx) == (InitializeAuctionConfig {
                    auction_config: AuctionConfig {
                        auction_owner,
                        auction_admin,
                        creation_fee_lamports,
                        commission_bps,
                        minimum_auction_period,
                        maximum_auction_period,
                        minimum_time_extension,
                        maximum_time_extension,
                        auction_count: 1,
                        pause_flags: 0,
                        config_bump,
                    },
                    ..*old(ctx)
                })
            },
            Err(e) => {
                &&& bounds_rejection(
                    minimum_auction_period,
                    maximum_auction_period,
                    minimum_time_extension,
                    maximum_time_extension,
                ) == Some(e)
                &&& *final(ctx) == *old(ctx)
            },
        },
{
    check_bounds(
        minimum_auction_period,
        maximum_auction_period,
        minimum_time_extension,
        maximum_time_extension,
    )?;
    ctx.auction_config = AuctionConfig {
        auction_owner,
        auction_admin,
        creation_fee_lamports,
        commission_bps,
        minimum_auction_period,
        maximum_auction_period,
        minimum_time_extension,
        maximum_time_extension,
        auction_count: 1,
        pause_flags: 0,
        config_bump,
    };
    Ok(())
}

/// Hands the auction house to a new owner.
pub fn update_auction_owner(ctx: &mut UpdateAuctionConfig, new_auction_owner: Pubkey) -> (r: Result<
    (),
    AuctionError,
>)
    ensures
        match r {
            Ok(()) => {
                &&& owner_rejection(*old(ctx)) is None
                &&& *final(ctx) == (UpdateAuctionConfig {
                    auction_config: AuctionConfig {
                        auction_owner: new_auction_owner,
                        ..old(ctx).auction_config
                    },
                    ..*old(ctx)
                })
            },
            Err(e) => owner_rejection(*old(ctx)) == Some(e) && *final(ctx) == *old(ctx),
        },
{
    check_owner(ctx)?;
    ctx.auction_config.auction_owner = new_auction_owner;
    Ok(())
}

/// Names a new admin, whose signature every auction operation needs.
pub fn update_auction_admin(ctx: &mut UpdateAuctionConfig, new_auction_admin: Pubkey) -> (r: Result<
    (),
    AuctionError,
>)
    ensures
        match r {
            Ok(()) => {
                &&& owner_rejection(*old(ctx)) is None
                &&& *final(ctx) == (UpdateAuctionConfig {
                    auction_config: AuctionConfig {
                        auction_admin: new_auction_admin,
                        ..old(ctx).auction_config
                    },
                    ..*old(ctx)
                })
            },
            Err(e) => owner_rejection(*old(ctx)) == Some(e) && *final(ctx) == *old(ctx),
        },
{
    check_owner(ctx)?;
    ctx.auction_config.auction_admin = new_auction_admin;
    Ok(())
}

/// Changes the fee, the commission and the bounds on periods and extensions.
pub fn update_config_data(
    ctx: &mut UpdateAuctionConfig,
    creation_fee_lamports: u64,
    commission_bps: u16,
    minimum_auction_period: u32,
    maximum_auction_period: u32,
    minimum_time_extension: u32,
    maximum_time_extension: u32,
) -> (r: Result<(), AuctionError>)
    ensures
        match r {
            Ok(()) => {
                &&& update_config_data_rejection(
                    *old(ctx),
                    minimum_auction_period,
                    maximum_auction_period,
                    minimum_time_extension,
                    maximum_time_extension,
                ) is None
                &&& *final(ctx) == (UpdateAuctionConfig {
                    auction_config: AuctionConfig {
                        creation_fee_lamports,
                        commission_bps,
                        minimum_auction_period,
                        maximum_auction_period,
                        minimum_time_extension,
                        maximum_time_extension,
                        ..old(ctx).auction_config
                    },
                    ..*old(ctx)
                })
            },
            Err(e) => {
                &&& update_config_data_rejection(
                    *old(ctx),
                    minimum_auction_period,
                    maximum_auction_period,
                    minimum_time_extension,
                    maximum_time_extension,
                ) == Some(e)
                &&& *final(ctx) == *old(ctx)
            },
        },
{
    check_owner(ctx)?;
    check_bounds(
        minimum_auction_period,
        maximum_auction_period,
        minimum_time_extension,
        maximum_time_extension,
    )?;
    ctx.auction_config.creation_fee_lamports = creation_fee_lamports;
    ctx.auction_config.commission_bps = commission_bps;
    ctx.auction_config.minimum_auction_period = minimum_auction_period;
    ctx.auction_config.maximum_auction_period = maximum_auction_period;
    ctx.auction_config.minimum_time_extension = minimum_time_extension;
    ctx.auction_config.maximum_time_extension = maximum_time_extension;
    Ok(())
}

/// Why `update_config_data` is refused, if it is: the caller is not the
/// owner, or the bounds are not in order.
pub open spec fn update_config_data_rejection(
    ctx: UpdateAuctionConfig,
    minimum_auction_period: u32,
    maximum_auction_period: u32,
    minimum_time_extension: u32,
    maximum_time_extension: u32,
) -> Option<AuctionError> {
    if owner_rejection(ctx) is Some {
        owner_rejection(ctx)
    } else {
        bounds_rejection(
            minimum_auction_period,
            maximum_auction_period,
            minimum_time_extension,
            maximum_time_extension,
        )
    }
}

/// Sets which operations are switched off: bit `i` of the flags stands for
/// the operation numbered `i`.
pub fn update_pause_and_unpause(ctx: &mut UpdateAuctionConfig, new_pause_flags: u8) -> (r: Result<
    (),
    AuctionError,
>)
    ensures
        match r {
            Ok(()) => {
                &&& owner_rejection(*old(ctx)) is None
                &&& *final(ctx) == (UpdateAuctionConfig {
                    auction_config: AuctionConfig {
                        pause_flags: new_pause_flags,
                        ..old(ctx).auction_config
                    },
                    ..*old(ctx)
                })
            },
            Err(e) => owner_rejection(*old(ctx)) == Some(e) && *final(ctx) == *old(ctx),
        },
{
    check_owner(ctx)?;
    ctx.auction_config.pause_flags = new_pause_flags;
    Ok(())
}

} // verus!
