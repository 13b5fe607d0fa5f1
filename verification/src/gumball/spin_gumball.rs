//! A spin: the spinner pays the ticket price into custody and gets one prize
//! unit out of it, in one step.

use vstd::prelude::*;
use crate::custody::{
    can_close,
    close_token_account_with_seeds,
    sol_transfer_rejection,
    token_transfer_rejection,
    transfer_sol,
    transfer_tokens,
    transfer_tokens_with_seeds,
    Mint,
    SystemAccount,
    TokenAccount,
    TransferErrors,
};
use crate::gumball::constants::SPIN_GUMBALL_PAUSE;
use crate::gumball::errors::{
    transfer_rejection,
    ConfigStateErrors,
    GumballError,
    GumballStateErrors,
    KeysMismatchErrors,
};
use crate::gumball::states::{GumballConfig, GumballMachine, GumballState, Prize};
use crate::gumball::utils::is_paused;
use crate::math::flag_set;
use crate::pubkey::Pubkey;

verus! {

/// What `spin_gumball` reports.
#[derive(Clone, Copy, Debug, PartialEq, Eq)]
pub struct PrizeSpinned {
    pub gumball_id: u32,
    pub prize_index: u16,
    pub prize_mint: Pubkey,
    pub prize_amount: u64,
    pub winner: Pubkey,
    pub spun_at: i64,
}

/// The accounts of `spin_gumball`. `prize` is the slot that the spin drew.
#[derive(Clone, Copy)]
pub struct SpinGumball {
    pub gumball_config: GumballConfig,
    pub gumball: GumballMachine,
    pub gumball_vault: SystemAccount,
    pub prize: Prize,
    pub spinner: SystemAccount,
    pub gumball_admin: Pubkey,
    pub prize_mint: Mint,
    pub ticket_mint: Mint,
    pub prize_escrow: TokenAccount,
    pub spinner_prize_ata: TokenAccount,
    pub ticket_escrow: TokenAccount,
    pub spinner_ticket_ata: TokenAccount,
}

impl SpinGumball {
    /// Custody conservation: of each account that holds value for the sale
    /// or for the house, what went out never exceeded what came in.
    pub open spec fn custody_conserved(self) -> bool {
        self.gumball_vault.conserved()
            && self.prize_escrow.conserved()
            && self.ticket_escrow.conserved()
    }
}

/// Why the spin is not admitted at `now`, if it is not: the first of these
/// that holds. The admin is not the configured one; the machine has another
/// number; the slot is of another machine or has another index; spinning is
/// paused; the machine is not `Active`; `now` is before the start; `now` is
/// not before the end; every prize unit that was added is sold; the slot is
/// of another mint; the slot is empty; the account that shall take the prize
/// is not the spinner's.
pub open spec fn spin_admission_rejection(
    ctx: SpinGumball,
    gumball_id: u32,
    prize_index: u16,
    now: i64,
) -> Option<GumballError> {
    if ctx.gumball_config.gumball_admin != ctx.gumball_admin {
        Some(GumballError::Config(ConfigStateErrors::InvalidGumballAdmin))
    } else if ctx.gumball.gumball_id != gumball_id || ctx.prize.gumball_id != gumball_id {
        Some(GumballError::State(GumballStateErrors::InvalidGumballId))
    } else if ctx.prize.prize_index != prize_index {
        Some(GumballError::State(GumballStateErrors::InvalidPrizeIndex))
    } else if flag_set(ctx.gumball_config.pause_flags, SPIN_GUMBALL_PAUSE) {
        Some(GumballError::State(GumballStateErrors::FunctionPaused))
    } else if ctx.gumball.status != GumballState::Active {
        Some(GumballError::State(GumballStateErrors::InvalidGumballState))
    } else if now < ctx.gumball.start_time {
        Some(GumballError::State(GumballStateErrors::StartTimeNotReached))
    } else if now >= ctx.gumball.end_time {
        Some(GumballError::State(GumballStateErrors::EndTimeIsReached))
    } else if ctx.gumball.prizes_added <= ctx.gumball.tickets_sold {
        Some(GumballError::State(GumballStateErrors::PrizesExceedTickets))
    } else if ctx.prize.mint != ctx.prize_mint.key {
        Some(GumballError::State(GumballStateErrors::PrizeMintMismatch))
    } else if ctx.prize.quantity == 0 {
        Some(GumballError::State(GumballStateErrors::InvalidPrizeQuantity))
    } else if ctx.spinner_prize_ata.owner != ctx.spinner.key {
        Some(GumballError::Keys(KeysMismatchErrors::InvalidPrizeAtaOwner))
    } else {
        None
    }
}

/// Why the ticket price cannot be paid into custody, if it cannot.
pub open spec fn spin_payment_rejection(ctx: SpinGumball) -> Option<GumballError> {
    let price = ctx.gumball.ticket_price;
    match ctx.gumball.ticket_mint {
        None => transfer_rejection(sol_transfer_rejection(ctx.spinner, ctx.gumball_vault, price)),
        Some(stored_mint) => {
            if ctx.ticket_mint.key != stored_mint || ctx.ticket_escrow.mint != stored_mint
                || ctx.spinner_ticket_ata.mint != stored_mint {
                Some(GumballError::Keys(KeysMismatchErrors::InvalidTicketMint))
            } else if ctx.spinner_ticket_ata.owner != ctx.spinner.key {
                Some(GumballError::Keys(KeysMismatchErrors::InvalidTicketAtaOwner))
            } else if ctx.ticket_escrow.owner != ctx.gumball_vault.key {
                Some(GumballError::Keys(KeysMismatchErrors::InvalidTicketEscrowOwner))
            } else {
                transfer_rejection(
                    token_transfer_rejection(
                        ctx.spinner_ticket_ata,
                        ctx.ticket_escrow,
                        ctx.spinner.key,
                        ctx.ticket_mint,
                        price,
                    ),
                )
            }
        },
    }
}

/// The accounts after the ticket price was paid into custody.
pub open spec fn spin_payment_effect(ctx: SpinGumball) -> SpinGumball {
    let price = ctx.gumball.ticket_price;
    match ctx.gumball.ticket_mint {
        None => SpinGumball {
            spinner: ctx.spinner.debited(price),
            gumball_vault: ctx.gumball_vault.credited(price),
            ..ctx
        },
        Some(_) => SpinGumball {
            spinner_ticket_ata: ctx.spinner_ticket_ata.debited(price),
            ticket_escrow: ctx.ticket_escrow.credited(price),
            ..ctx
        },
    }
}

/// The slot after one unit was drawn from it.
pub open spec fn drawn_slot(prize: Prize) -> Prize {
    Prize {
        quantity: (prize.quantity - 1) as u16,
        total_amount: if prize.total_amount >= prize.prize_amount {
            (prize.total_amount - prize.prize_amount) as u64
        } else {
            0
        },
        ..prize
    }
}

/// Why the spin is turned away at `now`, if it is: the first of these that
/// holds. It is not admitted; the prize unit cannot leave custody; the
/// ticket price cannot be paid; the custody account of a slot that the spin
/// emptied cannot be closed.
pub open spec fn spin_gumball_rejection(
    ctx: SpinGumball,
    gumball_id: u32,
    prize_index: u16,
    now: i64,
) -> Option<GumballError> {
    if spin_admission_rejection(ctx, gumball_id, prize_index, now) is Some {
        spin_admission_rejection(ctx, gumball_id, prize_index, now)
    } else if token_transfer_rejection(
        ctx.prize_escrow,
        ctx.spinner_prize_ata,
        ctx.gumball_vault.key,
        ctx.prize_mint,
        ctx.prize.prize_amount,
    ) is Some {
        transfer_rejection(
            token_transfer_rejection(
                ctx.prize_escrow,
                ctx.spinner_prize_ata,
                ctx.gumball_vault.key,
                ctx.prize_mint,
                ctx.prize.prize_amount,
            ),
        )
    } else if spin_payment_rejection(ctx) is Some {
        spin_payment_rejection(ctx)
    } else if ctx.prize.quantity == 1 && !can_close(
        ctx.prize_escrow.debited(ctx.prize.prize_amount),
        ctx.gumball_vault.key,
    ) {
        Some(GumballError::Transfer(TransferErrors::CloseAccountFailed))
    } else {
        None
    }
}

/// The accounts after the spin: one more ticket is sold, the slot has one
/// unit less, the prize unit is with the spinner and the price in custody.
pub open spec fn spin_gumball_effect(ctx: SpinGumball) -> SpinGumball {
    let paid = spin_payment_effect(ctx);
    let escrow = ctx.prize_escrow.debited(ctx.prize.prize_amount);
    SpinGumball {
        gumball: GumballMachine {
            tickets_sold: (ctx.gumball.tickets_sold + 1) as u16,
            ..ctx.gumball
        },
        prize: drawn_slot(ctx.prize),
        prize_escrow: if ctx.prize.quantity == 1 {
            escrow.shut()
        } else {
            escrow
        },
        spinner_prize_ata: ctx.spinner_prize_ata.credited(ctx.prize.prize_amount),
        ..paid
    }
}

fn check_spin_admission(ctx: &SpinGumball, gumball_id: u32, prize_index: u16, now: i64) -> (r: Result<
    (),
    GumballError,
>)
    ensures
        match r {
            Ok(()) => spin_admission_rejection(*ctx, gumball_id, prize_index, now) is None,
            Err(e) => spin_admission_rejection(*ctx, gumball_id, prize_index, now) == Some(e),
        },
{
    if !ctx.gumball_config.gumball_admin.same(&ctx.gumball_admin) {
        return Err(GumballError::Config(ConfigStateErrors::InvalidGumballAdmin));
    }
    if ctx.gumball.gumball_id != gumball_id || ctx.prize.gumball_id != gumball_id {
        return Err(GumballError::State(GumballStateErrors::InvalidGumballId));
    }
    if ctx.prize.prize_index != prize_index {
        return Err(GumballError::State(GumballStateErrors::InvalidPrizeIndex));
    }
    if is_paused(ctx.gumball_config.pause_flags, SPIN_GUMBALL_PAUSE) {
        return Err(GumballError::State(GumballStateErrors::FunctionPaused));
    }
    if ctx.gumball.status != GumballState::Active {
        return Err(GumballError::State(GumballStateErrors::InvalidGumballState));
    }
    if now < ctx.gumball.start_time {
        return Err(GumballError::State(GumballStateErrors::StartTimeNotReached));
    }
    if now >= ctx.gumball.end_time {
        return Err(GumballError::State(GumballStateErrors::EndTimeIsReached));
    }
    if ctx.gumball.prizes_added <= ctx.gumball.tickets_sold {
        return Err(GumballError::State(GumballStateErrors::PrizesExceedTickets));
    }
    if !ctx.prize.mint.same(&ctx.prize_mint.key) {
        return Err(GumballError::State(GumballStateErrors::PrizeMintMismatch));
    }
    if ctx.prize.quantity == 0 {
        return Err(GumballError::State(GumballStateErrors::InvalidPrizeQuantity));
    }
    if !ctx.spinner_prize_ata.owner.same(&ctx.spinner.key) {
        return Err(GumballError::Keys(KeysMismatchErrors::InvalidPrizeAtaOwner));
    }
    Ok(())
}

fn pay_for_spin(work: &mut SpinGumball) -> (r: Result<(), GumballError>)
    ensures
        match r {
            Ok(()) => {
                &&& spin_payment_rejection(*old(work)) is None
                &&& *final(work) == spin_payment_effect(*old(work))
            },
            Err(e) => spin_payment_rejection(*old(work)) == Some(e),
        },
{
    let ticket_price = work.gumball.ticket_price;
    match work.gumball.ticket_mint {
        None => {
            match transfer_sol(&mut work.spinner, &mut work.gumball_vault, ticket_price) {
                Ok(()) => Ok(()),
                Err(e) => Err(GumballError::Transfer(e)),
            }
        },
        Some(stored_mint) => {
            if !work.ticket_mint.key.same(&stored_mint) || !work.ticket_escrow.mint.same(
                &stored_mint,
            ) || !work.spinner_ticket_ata.mint.same(&stored_mint) {
                return Err(GumballError::Keys(KeysMismatchErrors::InvalidTicketMint));
            }
            if !work.spinner_ticket_ata.owner.same(&work.spinner.key) {
                return Err(GumballError::Keys(KeysMismatchErrors::InvalidTicketAtaOwner));
            }
            if !work.ticket_escrow.owner.same(&work.gumball_vault.key) {
                return Err(GumballError::Keys(KeysMismatchErrors::InvalidTicketEscrowOwner));
            }
            let spinner_key = work.spinner.key;
            let ticket_mint = work.ticket_mint;
            match transfer_tokens(
                &mut work.spinner_ticket_ata,
                &mut work.ticket_escrow,
                &spinner_key,
                &ticket_mint,
                ticket_price,
            ) {
                Ok(()) => Ok(()),
                Err(e) => Err(GumballError::Transfer(e)),
            }
        },
    }
}

/// Spins the machine for `ctx.spinner` at the time `now`, with the slot
/// `prize_index` as the one drawn.
///
/// The machine must be `Active`, `now` within `[start_time, end_time)`, and
/// a prize unit must be left. One unit of the slot goes from custody to the
/// spinner and the ticket price from the spinner into custody, in one step.
/// After it no more spins are sold than prize units were added.
pub fn spin_gumball(ctx: &mut SpinGumball, gumball_id: u32, prize_index: u16, now: i64) -> (r: Result<
    PrizeSpinned,
    GumballError,
>)
    ensures
        match r {
            Ok(event) => {
                &&& spin_gumball_rejection(*old(ctx), gumball_id, prize_index, now) is None
                &&& *final(ctx) == spin_gumball_effect(*old(ctx))
                &&& final(ctx).gumball.tickets_sold <= final(ctx).gumball.prizes_added
                &&& event == (PrizeSpinned {
                    gumball_id,
                    prize_index,
                    prize_mint: old(ctx).prize_mint.key,
                    prize_amount: old(ctx).prize.prize_amount,
                    winner: old(ctx).spinner.key,
                    spun_at: now,
                })
            },
            Err(e) => {
                &&& spin_gumball_rejection(*old(ctx), gumball_id, prize_index, now) == Some(e)
                &&& *final(ctx) == *old(ctx)
            },
        },
        final(ctx).custody_conserved(),
        r is Ok && old(ctx).gumball.well_formed() ==> final(ctx).gumball.well_formed(),
{
    proof {
        use_type_invariant(&ctx.gumball_vault.balance);
        use_type_invariant(&ctx.prize_escrow.balance);
        use_type_invariant(&ctx.ticket_escrow.balance);
    }
    let mut work = *ctx;
    check_spin_admission(&work, gumball_id, prize_index, now)?;
    let transfer_amount = work.prize.prize_amount;
    work.prize.quantity = work.prize.quantity - 1;
    work.prize.total_amount = match work.prize.total_amount.checked_sub(transfer_amount) {
        Some(rest) => rest,
        None => 0,
    };
    work.gumball.tickets_sold = work.gumball.tickets_sold + 1;
    let authority = work.gumball_vault.key;
    let prize_mint = work.prize_mint;
    match transfer_tokens_with_seeds(
        &mut work.prize_escrow,
        &mut work.spinner_prize_ata,
        &authority,
        &prize_mint,
        transfer_amount,
    ) {
        Ok(()) => {},
        Err(e) => {
            return Err(GumballError::Transfer(e));
        },
    }
    pay_for_spin(&mut work)?;
    if work.prize.quantity == 0 {
        match close_token_account_with_seeds(&mut work.prize_escrow, &authority) {
            Ok(()) => {},
            Err(e) => {
                return Err(GumballError::Transfer(e));
            },
        }
    }
    *ctx = work;
    Ok(
        PrizeSpinned {
            gumball_id,
            prize_index,
            prize_mint: prize_mint.key,
            prize_amount: transfer_amount,
            winner: ctx.spinner.key,
            spun_at: now,
        },
    )
}

} // verus!
