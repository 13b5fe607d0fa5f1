//! Opening an auction: the terms are checked, the item is locked into
//! custody and the creation fee is paid.

use vstd::prelude::*;
use crate::auction::constants::CREATE_AUCTION_PAUSE;
use crate::auction::errors::{
    transfer_rejection,
    AuctionError,
    AuctionStateErrors,
    ConfigStateErrors,
};
use crate::auction::states::{Auction, AuctionConfig, AuctionState};
use crate::auction::utils::{is_nft, is_paused, validate_nft};
use crate::custody::{
    sol_transfer_rejection,
    token_transfer_rejection,
    transfer_sol,
    transfer_tokens,
    Mint,
    SystemAccount,
    TokenAccount,
};
use crate::math::flag_set;
use crate::pubkey::{default_pubkey, Pubkey};

verus! {

/// What `create_auction` reports.
#[derive(Clone, Copy, Debug, PartialEq, Eq)]
pub struct AuctionCreated {
    pub auction_id: u32,
    pub creator: Pubkey,
    pub prize_mint: Pubkey,
    pub start_time: i64,
    pub end_time: i64,
    pub created_at: i64,
}

/// The accounts of `create_auction`. What `auction` held before does not
/// matter: it is filled anew.
#[derive(Clone, Copy)]
pub struct CreateAuction {
    pub auction_config: AuctionConfig,
    pub config_treasury: SystemAccount,
    pub auction: Auction,
    pub auction_vault: SystemAccount,
    pub creator: SystemAccount,
    pub auction_admin: Pubkey,
    pub prize_mint: Mint,
    pub bid_mint: Mint,
    pub creator_prize_ata: TokenAccount,
    pub prize_escrow: TokenAccount,
}

impl CreateAuction {
    /// Custody conservation: of each account that holds value for the sale
    /// or for the house, what went out never exceeded what came in.
    pub open spec fn custody_conserved(self) -> bool {
        self.prize_escrow.conserved()
            && self.auction_vault.conserved()
            && self.config_treasury.conserved()
    }
}

/// The terms of an auction, as its creator asks for them.
#[derive(Clone, Copy, Debug, PartialEq, Eq)]
pub struct AuctionTerms {
    pub start_time: i64,
    pub end_time: i64,
    pub start_immediately: bool,
    pub base_bid: u64,
    pub min_increment: u64,
    pub time_extension: u32,
}

impl AuctionTerms {
    /// When the auction starts: at `now` where it starts immediately.
    pub open spec fn effective_start(self, now: i64) -> i64 {
        if self.start_immediately {
            now
        } else {
            self.start_time
        }
    }
}

/// The length of the window fits in 64 bits and lies within the configured
/// bounds.
pub open spec fn period_allowed(config: AuctionConfig, start_time: i64, end_time: i64) -> bool {
    config.minimum_auction_period <= end_time - start_time <= config.maximum_auction_period
}

/// The extension lies within the configured bounds.
pub open spec fn extension_allowed(config: AuctionConfig, time_extension: u32) -> bool {
    config.minimum_time_extension <= time_extension <= config.maximum_time_extension
}

/// Why the auction cannot be created at `now`, if it cannot: the first of
/// these that holds. The admin is not the configured one; creating is paused;
/// the increment is zero; the length of the window does not fit in 64 bits;
/// it is outside the configured bounds; the extension is; the start lies in
/// the past; the prize is no unique item; the counter of auctions is
/// exhausted; the item cannot be moved into custody; the fee cannot be paid.
pub open spec fn create_auction_rejection(ctx: CreateAuction, terms: AuctionTerms, now: i64) -> Option<
    AuctionError,
> {
    let start = terms.effective_start(now);
    if ctx.auction_config.auction_admin != ctx.auction_admin {
        Some(AuctionError::Config(ConfigStateErrors::InvalidAuctionAdmin))
    } else if flag_set(ctx.auction_config.pause_flags, CREATE_AUCTION_PAUSE) {
        Some(AuctionError::State(AuctionStateErrors::FunctionPaused))
    } else if terms.min_increment == 0 {
        Some(AuctionError::State(AuctionStateErrors::InvalidZeroAmount))
    } else if !(i64::MIN <= terms.end_time - start <= i64::MAX) {
        Some(AuctionError::State(AuctionStateErrors::StartTimeExceedEndTime))
    } else if !period_allowed(ctx.auction_config, start, terms.end_time) {
        Some(AuctionError::Config(ConfigStateErrors::InvalidAuctionPeriod))
    } else if !extension_allowed(ctx.auction_config, terms.time_extension) {
        Some(AuctionError::Config(ConfigStateErrors::InvalidTimeExtension))
    } else if start < now {
        Some(AuctionError::State(AuctionStateErrors::StartTimeInPast))
    } else if !is_nft(ctx.prize_mint) {
        Some(AuctionError::State(AuctionStateErrors::InvalidNFT))
    } else if ctx.auction_config.auction_count == u32::MAX {
        Some(AuctionError::State(AuctionStateErrors::Overflow))
    } else if token_transfer_rejection(
        ctx.creator_prize_ata,
        ctx.prize_escrow,
        ctx.creator.key,
        ctx.prize_mint,
        1,
    ) is Some {
        transfer_rejection(
            token_transfer_rejection(
                ctx.creator_prize_ata,
                ctx.prize_escrow,
                ctx.creator.key,
                ctx.prize_mint,
                1,
            ),
        )
    } else if ctx.auction_config.creation_fee_lamports > 0 {
        transfer_rejection(
            sol_transfer_rejection(
                ctx.creator,
                ctx.config_treasury,
                ctx.auction_config.creation_fee_lamports,
            ),
        )
    } else {
        None
    }
}

/// The auction as it is created.
pub open spec fn created_auction(
    ctx: CreateAuction,
    terms: AuctionTerms,
    is_bid_mint_sol: bool,
    now: i64,
    auction_bump: u8,
) -> Auction {
    Auction {
        auction_id: ctx.auction_config.auction_count,
        creator: ctx.creator.key,
        prize_mint: ctx.prize_mint.key,
        start_time: terms.effective_start(now),
        end_time: terms.end_time,
        bid_mint: if is_bid_mint_sol {
            None
        } else {
            Some(ctx.bid_mint.key)
        },
        base_bid: terms.base_bid,
        min_increment: terms.min_increment,
        time_extension: terms.time_extension,
        highest_bid_amount: terms.base_bid,
        highest_bidder: default_pubkey(),
        has_any_bid: false,
        status: if terms.start_immediately {
            AuctionState::Active
        } else {
            AuctionState::Initialized
        },
        claimable_prize_back: 0,
        claimable_bid_amount: 0,
        is_prize_claimed: false,
        auction_bump,
    }
}

/// The accounts after the auction was created: the auction is filled, the
/// counter has moved on, the item is in custody and the fee is paid.
pub open spec fn create_auction_effect(
    ctx: CreateAuction,
    terms: AuctionTerms,
    is_bid_mint_sol: bool,
    now: i64,
    auction_bump: u8,
) -> CreateAuction {
    let fee = ctx.auction_config.creation_fee_lamports;
    CreateAuction {
        auction_config: AuctionConfig {
            auction_count: (ctx.auction_config.auction_count + 1) as u32,
            ..ctx.auction_config
        },
        auction: created_auction(ctx, terms, is_bid_mint_sol, now, auction_bump),
        creator_prize_ata: ctx.creator_prize_ata.debited(1),
        prize_escrow: ctx.prize_escrow.credited(1),
        creator: if fee > 0 {
            ctx.creator.debited(fee)
        } else {
            ctx.creator
        },
        config_treasury: if fee > 0 {
            ctx.config_treasury.credited(fee)
        } else {
            ctx.config_treasury
        },
        ..ctx
    }
}

/// Creates an auction for the item of `ctx.prize_mint` at the time `now`.
///
/// The auction gets the number that the counter shows. It starts as `Active`
/// where it starts immediately, else as `Initialized`. Until somebody bids,
/// the base bid stands for the highest bid and nobody is the highest bidder.
pub fn create_auction(
    ctx: &mut CreateAuction,
    start_time: i64,
    end_time: i64,
    start_immediately: bool,
    is_bid_mint_sol: bool,
    base_bid: u64,
    min_increment: u64,
    time_extension: u32,
    now: i64,
    auction_bump: u8,
) -> (r: Result<AuctionCreated, AuctionError>)
    ensures
        ({
            let terms = AuctionTerms {
                start_time,
                end_time,
                start_immediately,
                base_bid,
                min_increment,
                time_extension,
            };
            match r {
                Ok(event) => {
                    &&& create_auction_rejection(*old(ctx), terms, now) is None
                    &&& *final(ctx) == create_auction_effect(
                        *old(ctx),
                        terms,
                        is_bid_mint_sol,
                        now,
                        auction_bump,
                    )
                    &&& event == (AuctionCreated {
                        auction_id: old(ctx).auction_config.auction_count,
                        creator: old(ctx).creator.key,
                        prize_mint: old(ctx).prize_mint.key,
                        start_time: terms.effective_start(now),
                        end_time,
                        created_at: now,
                    })
                },
                Err(e) => {
                    &&& create_auction_rejection(*old(ctx), terms, now) == Some(e)
                    &&& *final(ctx) == *old(ctx)
                },
            }
        }),
        final(ctx).custody_conserved(),
        r is Ok ==> final(ctx).auction.well_formed(),
{
    proof {
        use_type_invariant(&ctx.prize_escrow.balance);
        use_type_invariant(&ctx.auction_vault.balance);
        use_type_invariant(&ctx.config_treasury.balance);
    }
    let mut work = *ctx;
    if !work.auction_config.auction_admin.same(&work.auction_admin) {
        return Err(AuctionError::Config(ConfigStateErrors::InvalidAuctionAdmin));
    }
    if is_paused(work.auction_config.pause_flags, CREATE_AUCTION_PAUSE) {
        return Err(AuctionError::State(AuctionStateErrors::FunctionPaused));
    }
    if min_increment == 0 {
        return Err(AuctionError::State(AuctionStateErrors::InvalidZeroAmount));
    }
    let start = if start_immediately {
        now
    } else {
        start_time
    };
    let duration = match end_time.checked_sub(start) {
        Some(d) => d,
        None => {
            return Err(AuctionError::State(AuctionStateErrors::StartTimeExceedEndTime));
        },
    };
    if !(duration >= work.auction_config.minimum_auction_period as i64 && duration
        <= work.auction_config.maximum_auction_period as i64) {
        return Err(AuctionError::Config(ConfigStateErrors::InvalidAuctionPeriod));
    }
    if !(time_extension >= work.auction_config.minimum_time_extension && time_extension
        <= work.auction_config.maximum_time_extension) {
        return Err(AuctionError::Config(ConfigStateErrors::InvalidTimeExtension));
    }
    if start < now {
        return Err(AuctionError::State(AuctionStateErrors::StartTimeInPast));
    }
    validate_nft(&work.prize_mint)?;
    let auction_id = work.auction_config.auction_count;
    work.auction = Auction {
        auction_id,
        creator: work.creator.key,
        prize_mint: work.prize_mint.key,
        start_time: start,
        end_time,
        bid_mint: if is_bid_mint_sol {
            None
        } else {
            Some(work.bid_mint.key)
        },
        base_bid,
        min_increment,
        time_extension,
        highest_bid_amount: base_bid,
        highest_bidder: Pubkey::default(),
        has_any_bid: false,
        status: if start_immediately {
            AuctionState::Active
        } else {
            AuctionState::Initialized
        },
        claimable_prize_back: 0,
        claimable_bid_amount: 0,
        is_prize_claimed: false,
        auction_bump,
    };
    work.auction_config.auction_count = match auction_id.checked_add(1) {
        Some(next) => next,
        None => {
            return Err(AuctionError::State(AuctionStateErrors::Overflow));
        },
    };
    let creator_key = work.creator.key;
    let prize_mint = work.prize_mint;
    match transfer_tokens(
        &mut work.creator_prize_ata,
        &mut work.prize_escrow,
        &creator_key,
        &prize_mint,
        1,
    ) {
        Ok(()) => {},
        Err(e) => {
            return Err(AuctionError::Transfer(e));
        },
    }
    if work.auction_config.creation_fee_lamports > 0 {
        match transfer_sol(
            &mut work.creator,
            &mut work.config_treasury,
            work.auction_config.creation_fee_lamports,
        ) {
            Ok(()) => {},
            Err(e) => {
                return Err(AuctionError::Transfer(e));
            },
        }
    }
    *ctx = work;
    Ok(
        AuctionCreated {
            auction_id,
            creator: creator_key,
            prize_mint: prize_mint.key,
            start_time: start,
            end_time,
            created_at: now,
        },
    )
}

} // verus!
