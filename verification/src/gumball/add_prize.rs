//! Putting prize units into a machine: they are locked into custody.

use vstd::prelude::*;
use crate::custody::{
    token_transfer_rejection,
    transfer_tokens,
    Mint,
    SystemAccount,
    TokenAccount,
};
use crate::gumball::constants::ADD_PRIZE_IN_GUMBALL_PAUSE;
use crate::gumball::errors::{
    transfer_rejection,
    ConfigStateErrors,
    GumballError,
    GumballStateErrors,
};
use crate::gumball::states::{GumballConfig, GumballMachine, GumballState, Prize};
use crate::gumball::utils::{is_nft, is_paused, validate_nft};
use crate::math::flag_set;
use crate::pubkey::{default_pubkey, Pubkey};

verus! {

/// What `add_prize` reports.
#[derive(Clone, Copy, Debug, PartialEq, Eq)]
pub struct PrizeAdded {
    pub gumball_id: u32,
    pub prize_index: u16,
    pub prize_mint: Pubkey,
    pub prize_amount: u64,
    pub quantitiy: u16,
    pub added_at: i64,
}

/// The accounts of `add_prize`. `prize` is the slot that the units go to; a
/// slot that was never filled names the all-zero mint.
#[derive(Clone, Copy)]
pub struct AddPrize {
    pub gumball_config: GumballConfig,
    pub gumball: GumballMachine,
    pub gumball_vault: SystemAccount,
    pub prize: Prize,
    pub creator: Pubkey,
    pub gumball_admin: Pubkey,
    pub prize_mint: Mint,
    pub prize_escrow: TokenAccount,
    pub creator_prize_ata: TokenAccount,
}

impl AddPrize {
    /// Custody conservation: of each account that holds value for the sale
    /// or for the house, what went out never exceeded what came in.
    pub open spec fn custody_conserved(self) -> bool {
        self.prize_escrow.conserved()
    }
}

/// The slot was filled before.
pub open spec fn prize_exists(prize: Prize) -> bool {
    prize.mint != default_pubkey()
}

/// Why the units are refused for what they are, if they are. A unique item
/// is one unit of one token; of anything else there is at least one unit of
/// at least one token.
pub open spec fn units_rejection(mint: Mint, prize_amount: u64, quantity: u16) -> Option<GumballError> {
    if is_nft(mint) {
        if prize_amount != 1 {
            Some(GumballError::State(GumballStateErrors::InvalidNftPrizeAmount))
        } else if quantity != 1 {
            Some(GumballError::State(GumballStateErrors::InvalidNftPrizeQuantity))
        } else {
            None
        }
    } else if prize_amount == 0 {
        Some(GumballError::State(GumballStateErrors::InvalidPrizeAmount))
    } else if quantity == 0 {
        Some(GumballError::State(GumballStateErrors::InvalidPrizeQuantity))
    } else {
        None
    }
}

/// Why the units cannot go to the slot, if they cannot. A slot that was
/// filled before takes more units of the same kind only, never of a unique
/// item, and its sums must not overflow.
pub open spec fn slot_rejection(
    ctx: AddPrize,
    gumball_id: u32,
    prize_index: u16,
    prize_amount: u64,
    quantity: u16,
) -> Option<GumballError> {
    if !prize_exists(ctx.prize) {
        None
    } else if ctx.prize.gumball_id != gumball_id {
        Some(GumballError::State(GumballStateErrors::InvalidGumballId))
    } else if ctx.prize.prize_index != prize_index {
        Some(GumballError::State(GumballStateErrors::InvalidPrizeIndex))
    } else if ctx.prize.mint != ctx.prize_mint.key {
        Some(GumballError::State(GumballStateErrors::PrizeMintMismatch))
    } else if ctx.prize.prize_amount != prize_amount {
        Some(GumballError::State(GumballStateErrors::PrizeAmountMismatch))
    } else if ctx.prize.if_prize_nft || is_nft(ctx.prize_mint) {
        Some(GumballError::State(GumballStateErrors::CannotAddExistingNftPrize))
    } else if ctx.prize.total_amount + prize_amount * quantity > u64::MAX || ctx.prize.quantity
        + quantity > u16::MAX {
        Some(GumballError::State(GumballStateErrors::Overflow))
    } else {
        None
    }
}

/// The slot after the units went to it.
pub open spec fn filled_slot(
    ctx: AddPrize,
    gumball_id: u32,
    prize_index: u16,
    prize_amount: u64,
    quantity: u16,
) -> Prize {
    if prize_exists(ctx.prize) {
        Prize {
            total_amount: (ctx.prize.total_amount + prize_amount * quantity) as u64,
            quantity: (ctx.prize.quantity + quantity) as u16,
            ..ctx.prize
        }
    } else {
        Prize {
            gumball_id,
            prize_index,
            if_prize_nft: is_nft(ctx.prize_mint),
            mint: ctx.prize_mint.key,
            total_amount: (prize_amount * quantity) as u64,
            prize_amount,
            quantity,
        }
    }
}

/// Why the units cannot be added at `now`, if they cannot: the first of
/// these that holds. The admin is not the configured one; the machine has
/// another number; the caller is not the creator; adding is paused; the
/// machine is neither `Initialized` nor `Active`; the end time is past; the
/// units are refused for what they are; the count of prize units overflows,
/// or exceeds the tickets; the tokens of all units overflow; the slot
/// refuses them; they cannot be moved into custody.
pub open spec fn add_prize_rejection(
    ctx: AddPrize,
    gumball_id: u32,
    prize_index: u16,
    prize_amount: u64,
    quantity: u16,
    now: i64,
) -> Option<GumballError> {
    if ctx.gumball_config.gumball_admin != ctx.gumball_admin {
        Some(GumballError::Config(ConfigStateErrors::InvalidGumballAdmin))
    } else if ctx.gumball.gumball_id != gumball_id {
        Some(GumballError::State(GumballStateErrors::InvalidGumballId))
    } else if ctx.gumball.creator != ctx.creator {
        Some(GumballError::State(GumballStateErrors::InvalidCreator))
    } else if flag_set(ctx.gumball_config.pause_flags, ADD_PRIZE_IN_GUMBALL_PAUSE) {
        Some(GumballError::State(GumballStateErrors::FunctionPaused))
    } else if ctx.gumball.status != GumballState::Initialized && ctx.gumball.status
        != GumballState::Active {
        Some(GumballError::State(GumballStateErrors::InvalidGumballState))
    } else if now > ctx.gumball.end_time {
        Some(GumballError::State(GumballStateErrors::EndTimeIsReached))
    } else if units_rejection(ctx.prize_mint, prize_amount, quantity) is Some {
        units_rejection(ctx.prize_mint, prize_amount, quantity)
    } else if ctx.gumball.prizes_added + quantity > u16::MAX {
        Some(GumballError::State(GumballStateErrors::Overflow))
    } else if ctx.gumball.prizes_added + quantity > ctx.gumball.total_tickets {
        Some(GumballError::State(GumballStateErrors::PrizesExceedTickets))
    } else if prize_amount * quantity > u64::MAX {
        Some(GumballError::State(GumballStateErrors::Overflow))
    } else if slot_rejection(ctx, gumball_id, prize_index, prize_amount, quantity) is Some {
        slot_rejection(ctx, gumball_id, prize_index, prize_amount, quantity)
    } else {
        transfer_rejection(
            token_transfer_rejection(
                ctx.creator_prize_ata,
                ctx.prize_escrow,
                ctx.creator,
                ctx.prize_mint,
                (prize_amount * quantity) as u64,
            ),
        )
    }
}

/// The accounts after the units were added.
pub open spec fn add_prize_effect(
    ctx: AddPrize,
    gumball_id: u32,
    prize_index: u16,
    prize_amount: u64,
    quantity: u16,
) -> AddPrize {
    let add_amount = (prize_amount * quantity) as u64;
    AddPrize {
        gumball: GumballMachine {
            prizes_added: (ctx.gumball.prizes_added + quantity) as u16,
            ..ctx.gumball
        },
        prize: filled_slot(ctx, gumball_id, prize_index, prize_amount, quantity),
        creator_prize_ata: ctx.creator_prize_ata.debited(add_amount),
        prize_escrow: ctx.prize_escrow.credited(add_amount),
        ..ctx
    }
}

fn fill_slot(
    work: &mut AddPrize,
    gumball_id: u32,
    prize_index: u16,
    prize_amount: u64,
    quantity: u16,
    add_amount: u64,
    is_nft_mint: bool,
) -> (r: Result<(), GumballError>)
    requires
        add_amount == prize_amount * quantity,
        is_nft_mint == is_nft(old(work).prize_mint),
    ensures
        match r {
            Ok(()) => {
                &&& slot_rejection(*old(work), gumball_id, prize_index, prize_amount, quantity) is None
                &&& *final(work) == (AddPrize {
                    prize: filled_slot(*old(work), gumball_id, prize_index, prize_amount, quantity),
                    ..*old(work)
                })
            },
            Err(e) => slot_rejection(*old(work), gumball_id, prize_index, prize_amount, quantity)
                == Some(e),
        },
{
    if !work.prize.mint.is_default() {
        if work.prize.gumball_id != gumball_id {
            return Err(GumballError::State(GumballStateErrors::InvalidGumballId));
        }
        if work.prize.prize_index != prize_index {
            return Err(GumballError::State(GumballStateErrors::InvalidPrizeIndex));
        }
        if !work.prize.mint.same(&work.prize_mint.key) {
            return Err(GumballError::State(GumballStateErrors::PrizeMintMismatch));
        }
        if work.prize.prize_amount != prize_amount {
            return Err(GumballError::State(GumballStateErrors::PrizeAmountMismatch));
        }
        if work.prize.if_prize_nft || is_nft_mint {
            return Err(GumballError::State(GumballStateErrors::CannotAddExistingNftPrize));
        }
        let total_amount = match work.prize.total_amount.checked_add(add_amount) {
            Some(sum) => sum,
            None => {
                return Err(GumballError::State(GumballStateErrors::Overflow));
            },
        };
        let new_quantity = match work.prize.quantity.checked_add(quantity) {
            Some(sum) => sum,
            None => {
                return Err(GumballError::State(GumballStateErrors::Overflow));
            },
        };
        work.prize.total_amount = total_amount;
        work.prize.quantity = new_quantity;
    } else {
        work.prize = Prize {
            gumball_id,
            prize_index,
            if_prize_nft: is_nft_mint,
            mint: work.prize_mint.key,
            total_amount: add_amount,
            prize_amount,
            quantity,
        };
    }
    Ok(())
}

/// Adds `quantity` prize units of `prize_amount` tokens each to the slot
/// `prize_index` of the machine, at the time `now`. The tokens of all units
/// go from the creator into custody. After it the machine holds no more
/// prize units than it has tickets.
pub fn add_prize(
    ctx: &mut AddPrize,
    gumball_id: u32,
    prize_index: u16,
    prize_amount: u64,
    quantity: u16,
    now: i64,
) -> (r: Result<PrizeAdded, GumballError>)
    ensures
        match r {
            Ok(event) => {
                &&& add_prize_rejection(
                    *old(ctx),
                    gumball_id,
                    prize_index,
                    prize_amount,
                    quantity,
                    now,
                ) is None
                &&& *final(ctx) == add_prize_effect(
                    *old(ctx),
                    gumball_id,
                    prize_index,
                    prize_amount,
                    quantity,
                )
                &&& final(ctx).gumball.prizes_added <= final(ctx).gumball.total_tickets
                &&& event == (PrizeAdded {
                    gumball_id,
                    prize_index,
                    prize_mint: old(ctx).prize_mint.key,
                    prize_amount,
                    quantitiy: quantity,
                    added_at: now,
                })
            },
            Err(e) => {
                &&& add_prize_rejection(*old(ctx), gumball_id, prize_index, prize_amount, quantity, now)
                    == Some(e)
                &&& *final(ctx) == *old(ctx)
            },
        },
        final(ctx).custody_conserved(),
        r is Ok && old(ctx).gumball.well_formed() ==> final(ctx).gumball.well_formed(),
{
    proof {
        use_type_invariant(&ctx.prize_escrow.balance);
    }
    let mut work = *ctx;
    if !work.gumball_config.gumball_admin.same(&work.gumball_admin) {
        return Err(GumballError::Config(ConfigStateErrors::InvalidGumballAdmin));
    }
    if work.gumball.gumball_id != gumball_id {
        return Err(GumballError::State(GumballStateErrors::InvalidGumballId));
    }
    if !work.gumball.creator.same(&work.creator) {
        return Err(GumballError::State(GumballStateErrors::InvalidCreator));
    }
    if is_paused(work.gumball_config.pause_flags, ADD_PRIZE_IN_GUMBALL_PAUSE) {
        return Err(GumballError::State(GumballStateErrors::FunctionPaused));
    }
    if work.gumball.status != GumballState::Initialized && work.gumball.status
        != GumballState::Active {
        return Err(GumballError::State(GumballStateErrors::InvalidGumballState));
    }
    if now > work.gumball.end_time {
        return Err(GumballError::State(GumballStateErrors::EndTimeIsReached));
    }
    let is_nft_mint = validate_nft(&work.prize_mint);
    if is_nft_mint {
        if prize_amount != 1 {
            return Err(GumballError::State(GumballStateErrors::InvalidNftPrizeAmount));
        }
        if quantity != 1 {
            return Err(GumballError::State(GumballStateErrors::InvalidNftPrizeQuantity));
        }
    } else {
        if prize_amount == 0 {
            return Err(GumballError::State(GumballStateErrors::InvalidPrizeAmount));
        }
        if quantity == 0 {
            return Err(GumballError::State(GumballStateErrors::InvalidPrizeQuantity));
        }
    }
    let new_total_prizes = match work.gumball.prizes_added.checked_add(quantity) {
        Some(sum) => sum,
        None => {
            return Err(GumballError::State(GumballStateErrors::Overflow));
        },
    };
    if work.gumball.total_tickets < new_total_prizes {
        return Err(GumballError::State(GumballStateErrors::PrizesExceedTickets));
    }
    let add_amount = match prize_amount.checked_mul(quantity as u64) {
        Some(product) => product,
        None => {
            return Err(GumballError::State(GumballStateErrors::Overflow));
        },
    };
    fill_slot(&mut work, gumball_id, prize_index, prize_amount, quantity, add_amount, is_nft_mint)?;
    work.gumball.prizes_added = new_total_prizes;
    let creator_key = work.creator;
    let prize_mint = work.prize_mint;
    match transfer_tokens(
        &mut work.creator_prize_ata,
        &mut work.prize_escrow,
        &creator_key,
        &prize_mint,
        add_amount,
    ) {
        Ok(()) => {},
        Err(e) => {
            return Err(GumballError::Transfer(e));
        },
    }
    *ctx = work;
    Ok(
        PrizeAdded {
            gumball_id,
            prize_index,
            prize_mint: prize_mint.key,
            prize_amount,
            quantitiy: quantity,
            added_at: now,
        },
    )
}

} // verus!
