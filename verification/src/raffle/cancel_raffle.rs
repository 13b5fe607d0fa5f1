//! Calling off a raffle that sold no ticket: the prize goes back to the
//! creator, and the custody account of a prize in tokens is closed.

use vstd::prelude::*;
use crate::custody::{
    can_close,
    close_token_account_with_seeds,
    sol_transfer_rejection,
    token_transfer_rejection,
    transfer_sol_with_seeds,
    transfer_tokens_with_seeds,
    Mint,
    SystemAccount,
    TokenAccount,
    TransferErrors,
};
use crate::math::flag_set;
use crate::pubkey::Pubkey;
use crate::raffle::constants::CANCEL_RAFFLE_PAUSE;
use crate::raffle::errors::{
    transfer_rejection,
    ConfigStateErrors,
    KeysMismatchErrors,
    RaffleError,
    RaffleStateErrors,
};
use crate::raffle::states::{PrizeType, Raffle, RaffleConfig, RaffleState, RaffleView};
use crate::raffle::utils::is_paused;

verus! {

/// What `cancel_raffle` reports.
#[derive(Clone, Copy, Debug, PartialEq, Eq)]
pub struct RaffleCancelled {
    pub raffle_id: u32,
    pub cancelled_by: Pubkey,
    pub cancelled_time: i64,
}

/// The accounts of `cancel_raffle`.
#[derive(Clone, Copy)]
pub struct CancelRaffle {
    pub raffle_config: RaffleConfig,
    pub raffle_vault: SystemAccount,
    pub creator: SystemAccount,
    pub raffle_admin: Pubkey,
    pub prize_mint: Mint,
    pub prize_escrow: TokenAccount,
    pub creator_prize_ata: TokenAccount,
}

impl CancelRaffle {
    /// Custody conservation: of each account that holds value for the sale
    /// or for the house, what went out never exceeded what came in.
    pub open spec fn custody_conserved(self) -> bool {
        self.raffle_vault.conserved() && self.prize_escrow.conserved()
    }
}

/// Why the raffle's own account cannot pay `amount` lamports to `to`, if it
/// cannot: it has to hold more than it pays, and `to` must be able to hold
/// the sum.
pub open spec fn vault_payment_rejection(vault: SystemAccount, to: SystemAccount, amount: u64) -> Option<
    RaffleError,
> {
    if vault.lamports() <= amount {
        Some(RaffleError::Transfer(TransferErrors::InsufficientSolBalance))
    } else {
        transfer_rejection(sol_transfer_rejection(vault, to, amount))
    }
}

/// What goes back to the creator of a prize in tokens: the one item, or the
/// whole prize, or all that the custody account holds where that is more.
pub open spec fn returned_tokens(ctx: CancelRaffle, raffle: RaffleView) -> u64 {
    if raffle.prize_type == PrizeType::Nft {
        1
    } else if raffle.prize_amount < ctx.prize_escrow.amount() {
        ctx.prize_escrow.amount()
    } else {
        raffle.prize_amount
    }
}

/// Why the prize cannot go back to the creator, if it cannot.
pub open spec fn prize_return_rejection(ctx: CancelRaffle, raffle: RaffleView) -> Option<RaffleError> {
    let amount = returned_tokens(ctx, raffle);
    if raffle.prize_type == PrizeType::Sol {
        vault_payment_rejection(ctx.raffle_vault, ctx.creator, raffle.prize_amount)
    } else if raffle.prize_mint is None {
        Some(RaffleError::Keys(KeysMismatchErrors::MissingPrizeMint))
    } else if ctx.prize_mint.key != raffle.prize_mint->Some_0 || ctx.creator_prize_ata.mint
        != raffle.prize_mint->Some_0 || ctx.prize_escrow.mint != raffle.prize_mint->Some_0 {
        Some(RaffleError::Keys(KeysMismatchErrors::InvalidPrizeMint))
    } else if ctx.prize_escrow.owner != ctx.raffle_vault.key {
        Some(RaffleError::Keys(KeysMismatchErrors::InvalidPrizeEscrowOwner))
    } else if ctx.creator_prize_ata.owner != ctx.creator.key {
        Some(RaffleError::Keys(KeysMismatchErrors::InvalidPrizeAtaOwner))
    } else if amount == 0 {
        Some(RaffleError::State(RaffleStateErrors::InvalidZeroAmount))
    } else if token_transfer_rejection(
        ctx.prize_escrow,
        ctx.creator_prize_ata,
        ctx.raffle_vault.key,
        ctx.prize_mint,
        amount,
    ) is Some {
        transfer_rejection(
            token_transfer_rejection(
                ctx.prize_escrow,
                ctx.creator_prize_ata,
                ctx.raffle_vault.key,
                ctx.prize_mint,
                amount,
            ),
        )
    } else if !can_close(ctx.prize_escrow.debited(amount), ctx.raffle_vault.key) {
        Some(RaffleError::Transfer(TransferErrors::CloseAccountFailed))
    } else {
        None
    }
}

/// The accounts after the prize went back to the creator.
pub open spec fn cancel_raffle_effect(ctx: CancelRaffle, raffle: RaffleView) -> CancelRaffle {
    let amount = returned_tokens(ctx, raffle);
    if raffle.prize_type == PrizeType::Sol {
        CancelRaffle {
            raffle_vault: ctx.raffle_vault.debited(raffle.prize_amount),
            creator: ctx.creator.credited(raffle.prize_amount),
            ..ctx
        }
    } else {
        CancelRaffle {
            prize_escrow: ctx.prize_escrow.debited(amount).shut(),
            creator_prize_ata: ctx.creator_prize_ata.credited(amount),
            ..ctx
        }
    }
}

/// Why the raffle cannot be called off, if it cannot: the first of these
/// that holds. The admin is not the configured one; the raffle has another
/// number; the caller is not the creator; cancelling is paused; the raffle
/// is neither `Initialized` nor `Active`; a ticket was sold; the prize
/// cannot go back.
pub open spec fn cancel_raffle_rejection(ctx: CancelRaffle, raffle: RaffleView, raffle_id: u32) -> Option<
    RaffleError,
> {
    if ctx.raffle_config.raffle_admin != ctx.raffle_admin {
        Some(RaffleError::Config(ConfigStateErrors::InvalidRaffleAdmin))
    } else if raffle.raffle_id != raffle_id {
        Some(RaffleError::State(RaffleStateErrors::InvalidRaffleId))
    } else if ctx.creator.key != raffle.creator {
        Some(RaffleError::State(RaffleStateErrors::InvalidCreator))
    } else if flag_set(ctx.raffle_config.pause_flags, CANCEL_RAFFLE_PAUSE) {
        Some(RaffleError::State(RaffleStateErrors::FunctionPaused))
    } else if raffle.status != RaffleState::Initialized && raffle.status != RaffleState::Active {
        Some(RaffleError::State(RaffleStateErrors::InvalidRaffleStateForCancel))
    } else if raffle.tickets_sold != 0 {
        Some(RaffleError::State(RaffleStateErrors::MoreThanOneTicketSolded))
    } else {
        prize_return_rejection(ctx, raffle)
    }
}

fn return_prize(work: &mut CancelRaffle, raffle: &Raffle) -> (r: Result<(), RaffleError>)
    ensures
        match r {
            Ok(()) => {
                &&& prize_return_rejection(*old(work), raffle@) is None
                &&& *final(work) == cancel_raffle_effect(*old(work), raffle@)
            },
            Err(e) => prize_return_rejection(*old(work), raffle@) == Some(e),
        },
{
    match raffle.prize_type {
        PrizeType::Sol => {
            if work.raffle_vault.lamports() <= raffle.prize_amount {
                return Err(RaffleError::Transfer(TransferErrors::InsufficientSolBalance));
            }
            match transfer_sol_with_seeds(&mut work.raffle_vault, &mut work.creator, raffle.prize_amount) {
                Ok(()) => Ok(()),
                Err(e) => Err(RaffleError::Transfer(e)),
            }
        },
        _ => {
            let stored_mint = match raffle.prize_mint {
                Some(key) => key,
                None => {
                    return Err(RaffleError::Keys(KeysMismatchErrors::MissingPrizeMint));
                },
            };
            if !work.prize_mint.key.same(&stored_mint) || !work.creator_prize_ata.mint.same(
                &stored_mint,
            ) || !work.prize_escrow.mint.same(&stored_mint) {
                return Err(RaffleError::Keys(KeysMismatchErrors::InvalidPrizeMint));
            }
            if !work.prize_escrow.owner.same(&work.raffle_vault.key) {
                return Err(RaffleError::Keys(KeysMismatchErrors::InvalidPrizeEscrowOwner));
            }
            if !work.creator_prize_ata.owner.same(&work.creator.key) {
                return Err(RaffleError::Keys(KeysMismatchErrors::InvalidPrizeAtaOwner));
            }
            let return_amount = if raffle.prize_type == PrizeType::Nft {
                1
            } else if raffle.prize_amount < work.prize_escrow.amount() {
                work.prize_escrow.amount()
            } else {
                raffle.prize_amount
            };
            if return_amount == 0 {
                return Err(RaffleError::State(RaffleStateErrors::InvalidZeroAmount));
            }
            let authority = work.raffle_vault.key;
            let prize_mint = work.prize_mint;
            match transfer_tokens_with_seeds(
                &mut work.prize_escrow,
                &mut work.creator_prize_ata,
                &authority,
                &prize_mint,
                return_amount,
            ) {
                Ok(()) => {},
                Err(e) => {
                    return Err(RaffleError::Transfer(e));
                },
            }
            match close_token_account_with_seeds(&mut work.prize_escrow, &authority) {
                Ok(()) => Ok(()),
                Err(e) => Err(RaffleError::Transfer(e)),
            }
        },
    }
}

/// Calls off the raffle at the time `now` and hands the prize back to the
/// creator. The creation fee is not paid back.
pub fn cancel_raffle(ctx: &mut CancelRaffle, raffle: &mut Raffle, raffle_id: u32, now: i64) -> (r: Result<
    RaffleCancelled,
    RaffleError,
>)
    ensures
        match r {
            Ok(event) => {
                &&& cancel_raffle_rejection(*old(ctx), old(raffle)@, raffle_id) is None
                &&& *final(ctx) == cancel_raffle_effect(*old(ctx), old(raffle)@)
                &&& final(raffle)@ == (RaffleView { status: RaffleState::Cancelled, ..old(raffle)@ })
                &&& event == (RaffleCancelled {
                    raffle_id,
                    cancelled_by: old(ctx).creator.key,
                    cancelled_time: now,
                })
            },
            Err(e) => {
                &&& cancel_raffle_rejection(*old(ctx), old(raffle)@, raffle_id) == Some(e)
                &&& *final(ctx) == *old(ctx)
                &&& *final(raffle) == *old(raffle)
            },
        },
        final(ctx).custody_conserved(),
        r is Ok && old(raffle)@.well_formed() ==> final(raffle)@.well_formed(),
{
    proof {
        use_type_invariant(&ctx.raffle_vault.balance);
        use_type_invariant(&ctx.prize_escrow.balance);
    }
    let mut work = *ctx;
    if !work.raffle_config.raffle_admin.same(&work.raffle_admin) {
        return Err(RaffleError::Config(ConfigStateErrors::InvalidRaffleAdmin));
    }
    if raffle.raffle_id != raffle_id {
        return Err(RaffleError::State(RaffleStateErrors::InvalidRaffleId));
    }
    if !work.creator.key.same(&raffle.creator) {
        return Err(RaffleError::State(RaffleStateErrors::InvalidCreator));
    }
    if is_paused(work.raffle_config.pause_flags, CANCEL_RAFFLE_PAUSE) {
        return Err(RaffleError::State(RaffleStateErrors::FunctionPaused));
    }
    if raffle.status != RaffleState::Initialized && raffle.status != RaffleState::Active {
        return Err(RaffleError::State(RaffleStateErrors::InvalidRaffleStateForCancel));
    }
    if raffle.tickets_sold != 0 {
        return Err(RaffleError::State(RaffleStateErrors::MoreThanOneTicketSolded));
    }
    return_prize(&mut work, raffle)?;
    raffle.status = RaffleState::Cancelled;
    *ctx = work;
    Ok(RaffleCancelled { raffle_id, cancelled_by: ctx.creator.key, cancelled_time: now })
}

} // verus!
