//! Closing a machine after its end: the fee on the ticket revenue goes to
//! the house, and the rest is written down for the creator to claim. A
//! machine that sold no spin fails, and nothing is moved.

use vstd::prelude::*;
use crate::custody::{
    sol_transfer_rejection,
    token_transfer_rejection,
    transfer_sol_with_seeds,
    transfer_tokens_with_seeds,
    Mint,
    SystemAccount,
    TokenAccount,
};
use crate::gumball::constants::END_GUMBALL_PAUSE;
use crate::gumball::errors::{
    transfer_rejection,
    ConfigStateErrors,
    GumballError,
    GumballStateErrors,
    KeysMismatchErrors,
};
use crate::gumball::states::{GumballConfig, GumballMachine, GumballState};
use crate::gumball::utils::is_paused;
use crate::math::{fee_of, flag_set, split_defined, split_revenue};
use crate::pubkey::Pubkey;

verus! {

/// What `end_gumball` reports. Where no spin was sold every amount is zero.
#[derive(Clone, Copy, Debug, PartialEq, Eq)]
pub struct GumballEnded {
    pub gumball_id: u32,
    pub total_sold: u16,
    pub fee_amount: u64,
    pub creator_amount: u64,
    pub ended_at: i64,
}

/// The accounts of `end_gumball`.
#[derive(Clone, Copy)]
pub struct EndGumball {
    pub gumball_config: GumballConfig,
    pub config_treasury: SystemAccount,
    pub gumball: GumballMachine,
    pub gumball_vault: SystemAccount,
    pub gumball_admin: Pubkey,
    pub creator: Pubkey,
    pub ticket_mint: Mint,
    pub ticket_escrow: TokenAccount,
    pub ticket_fee_escrow_ata: TokenAccount,
}

impl EndGumball {
    /// Custody conservation: of each account that holds value for the sale
    /// or for the house, what went out never exceeded what came in.
    pub open spec fn custody_conserved(self) -> bool {
        self.gumball_vault.conserved() && self.ticket_escrow.conserved()
            && self.config_treasury.conserved() && self.ticket_fee_escrow_ata.conserved()
    }
}

/// The price of all spins sold.
pub open spec fn ticket_revenue(gumball: GumballMachine) -> int {
    gumball.ticket_price * gumball.tickets_sold
}

/// The house's fee on the ticket revenue.
pub open spec fn revenue_fee(gumball: GumballMachine, config: GumballConfig) -> nat {
    fee_of(ticket_revenue(gumball) as nat, config.ticket_fee_bps as nat)
}

/// Whether the split of the ticket revenue can be computed: the revenue and
/// its product with the fee rate fit in 64 bits, and the fee is no more than
/// the revenue.
pub open spec fn revenue_split_defined(gumball: GumballMachine, config: GumballConfig) -> bool {
    &&& ticket_revenue(gumball) <= u64::MAX
    &&& split_defined(ticket_revenue(gumball) as nat, config.ticket_fee_bps as nat)
}

/// Why the machine cannot be closed at `now`, whatever was sold, if it
/// cannot: the first of these that holds. The admin is not the configured
/// one; the machine has another number; the creator's account is not the
/// creator's; ending is paused; the machine is not `Active`; the end time
/// has not come.
pub open spec fn end_admission_rejection(ctx: EndGumball, gumball_id: u32, now: i64) -> Option<GumballError> {
    if ctx.gumball_config.gumball_admin != ctx.gumball_admin {
        Some(GumballError::Config(ConfigStateErrors::InvalidGumballAdmin))
    } else if ctx.gumball.gumball_id != gumball_id {
        Some(GumballError::State(GumballStateErrors::InvalidGumballId))
    } else if ctx.gumball.creator != ctx.creator {
        Some(GumballError::State(GumballStateErrors::InvalidCreator))
    } else if flag_set(ctx.gumball_config.pause_flags, END_GUMBALL_PAUSE) {
        Some(GumballError::State(GumballStateErrors::FunctionPaused))
    } else if ctx.gumball.status != GumballState::Active {
        Some(GumballError::State(GumballStateErrors::InvalidGumballState))
    } else if now < ctx.gumball.end_time {
        Some(GumballError::State(GumballStateErrors::EndTimeNotReached))
    } else {
        None
    }
}

/// What of the ticket revenue is the creator's: all but the fee.
pub open spec fn creator_revenue(gumball: GumballMachine, config: GumballConfig) -> int {
    ticket_revenue(gumball) - revenue_fee(gumball, config)
}

/// Why the fee cannot go to the house, if it cannot. For tickets paid in
/// tokens the mint, the escrow and the treasury must be the machine's and
/// the house's.
pub open spec fn fee_rejection(ctx: EndGumball, fee_amount: u64) -> Option<GumballError> {
    match ctx.gumball.ticket_mint {
        None => transfer_rejection(
            sol_transfer_rejection(ctx.gumball_vault, ctx.config_treasury, fee_amount),
        ),
        Some(stored_mint) => {
            if ctx.ticket_mint.key != stored_mint || ctx.ticket_escrow.mint != stored_mint
                || ctx.ticket_fee_escrow_ata.mint != stored_mint {
                Some(GumballError::Keys(KeysMismatchErrors::InvalidTicketMint))
            } else if ctx.ticket_escrow.owner != ctx.gumball_vault.key {
                Some(GumballError::Keys(KeysMismatchErrors::InvalidTicketEscrowOwner))
            } else if ctx.ticket_fee_escrow_ata.owner != ctx.config_treasury.key {
                Some(GumballError::Keys(KeysMismatchErrors::InvalidFeeTreasuryAtaOwner))
            } else {
                transfer_rejection(
                    token_transfer_rejection(
                        ctx.ticket_escrow,
                        ctx.ticket_fee_escrow_ata,
                        ctx.gumball_vault.key,
                        ctx.ticket_mint,
                        fee_amount,
                    ),
                )
            }
        },
    }
}

/// The accounts after the fee went to the house.
pub open spec fn fee_effect(ctx: EndGumball, fee_amount: u64) -> EndGumball {
    match ctx.gumball.ticket_mint {
        None => EndGumball {
            gumball_vault: ctx.gumball_vault.debited(fee_amount),
            config_treasury: ctx.config_treasury.credited(fee_amount),
            ..ctx
        },
        Some(_) => EndGumball {
            ticket_escrow: ctx.ticket_escrow.debited(fee_amount),
            ticket_fee_escrow_ata: ctx.ticket_fee_escrow_ata.credited(fee_amount),
            ..ctx
        },
    }
}

/// Why the machine cannot be closed at `now`, if it cannot: the admission
/// first; then, where a spin was sold, the split of the revenue (`Overflow`
/// where it is not defined) and the move of the fee.
pub open spec fn end_gumball_rejection(ctx: EndGumball, gumball_id: u32, now: i64) -> Option<GumballError> {
    let fee = revenue_fee(ctx.gumball, ctx.gumball_config) as u64;
    if end_admission_rejection(ctx, gumball_id, now) is Some {
        end_admission_rejection(ctx, gumball_id, now)
    } else if ctx.gumball.tickets_sold == 0 {
        None
    } else if !revenue_split_defined(ctx.gumball, ctx.gumball_config) {
        Some(GumballError::State(GumballStateErrors::Overflow))
    } else {
        fee_rejection(ctx, fee)
    }
}

/// The accounts after the machine was closed.
pub open spec fn end_gumball_effect(ctx: EndGumball) -> EndGumball {
    let fee = revenue_fee(ctx.gumball, ctx.gumball_config) as u64;
    if ctx.gumball.tickets_sold == 0 {
        EndGumball {
            gumball: GumballMachine { status: GumballState::CompletedFailed, ..ctx.gumball },
            ..ctx
        }
    } else {
        EndGumball {
            gumball: GumballMachine {
                status: GumballState::CompletedSuccessfully,
                claimable_ticket_amount: creator_revenue(ctx.gumball, ctx.gumball_config) as u64,
                ..ctx.gumball
            },
            ..fee_effect(ctx, fee)
        }
    }
}

/// What is reported of the machine that was closed at `now`.
pub open spec fn end_gumball_event(ctx: EndGumball, now: i64) -> GumballEnded {
    let fee = revenue_fee(ctx.gumball, ctx.gumball_config) as u64;
    if ctx.gumball.tickets_sold == 0 {
        GumballEnded {
            gumball_id: ctx.gumball.gumball_id,
            total_sold: 0,
            fee_amount: 0,
            creator_amount: 0,
            ended_at: now,
        }
    } else {
        GumballEnded {
            gumball_id: ctx.gumball.gumball_id,
            total_sold: ctx.gumball.tickets_sold,
            fee_amount: fee,
            creator_amount: (ticket_revenue(ctx.gumball) - fee) as u64,
            ended_at: now,
        }
    }
}

fn check_end_admission(ctx: &EndGumball, gumball_id: u32, now: i64) -> (r: Result<(), GumballError>)
    ensures
        match r {
            Ok(()) => end_admission_rejection(*ctx, gumball_id, now) is None,
            Err(e) => end_admission_rejection(*ctx, gumball_id, now) == Some(e),
        },
{
    if !ctx.gumball_config.gumball_admin.same(&ctx.gumball_admin) {
        return Err(GumballError::Config(ConfigStateErrors::InvalidGumballAdmin));
    }
    if ctx.gumball.gumball_id != gumball_id {
        return Err(GumballError::State(GumballStateErrors::InvalidGumballId));
    }
    if !ctx.gumball.creator.same(&ctx.creator) {
        return Err(GumballError::State(GumballStateErrors::InvalidCreator));
    }
    if is_paused(ctx.gumball_config.pause_flags, END_GUMBALL_PAUSE) {
        return Err(GumballError::State(GumballStateErrors::FunctionPaused));
    }
    if ctx.gumball.status != GumballState::Active {
        return Err(GumballError::State(GumballStateErrors::InvalidGumballState));
    }
    if now < ctx.gumball.end_time {
        return Err(GumballError::State(GumballStateErrors::EndTimeNotReached));
    }
    Ok(())
}

fn move_fee(work: &mut EndGumball, fee_amount: u64) -> (r: Result<(), GumballError>)
    ensures
        match r {
            Ok(()) => {
                &&& fee_rejection(*old(work), fee_amount) is None
                &&& *final(work) == fee_effect(*old(work), fee_amount)
            },
            Err(e) => fee_rejection(*old(work), fee_amount) == Some(e),
        },
{
    match work.gumball.ticket_mint {
        None => {
            match transfer_sol_with_seeds(&mut work.gumball_vault, &mut work.config_treasury, fee_amount) {
                Ok(()) => Ok(()),
                Err(e) => Err(GumballError::Transfer(e)),
            }
        },
        Some(stored_mint) => {
            if !work.ticket_mint.key.same(&stored_mint) || !work.ticket_escrow.mint.same(
                &stored_mint,
            ) || !work.ticket_fee_escrow_ata.mint.same(&stored_mint) {
                return Err(GumballError::Keys(KeysMismatchErrors::InvalidTicketMint));
            }
            if !work.ticket_escrow.owner.same(&work.gumball_vault.key) {
                return Err(GumballError::Keys(KeysMismatchErrors::InvalidTicketEscrowOwner));
            }
            if !work.ticket_fee_escrow_ata.owner.same(&work.config_treasury.key) {
                return Err(GumballError::Keys(KeysMismatchErrors::InvalidFeeTreasuryAtaOwner));
            }
            let authority = work.gumball_vault.key;
            let ticket_mint = work.ticket_mint;
            match transfer_tokens_with_seeds(
                &mut work.ticket_escrow,
                &mut work.ticket_fee_escrow_ata,
                &authority,
                &ticket_mint,
                fee_amount,
            ) {
                Ok(()) => Ok(()),
                Err(e) => Err(GumballError::Transfer(e)),
            }
        },
    }
}

/// Closes the machine at the time `now`, which must not be before its end.
///
/// Where no spin was sold the machine ends as `CompletedFailed` and nothing
/// is moved. Else the fee on the ticket revenue goes to the house, the rest
/// becomes claimable by the creator, and the machine ends as
/// `CompletedSuccessfully`. Fee and creator's part together are exactly the
/// revenue.
pub fn end_gumball(ctx: &mut EndGumball, gumball_id: u32, now: i64) -> (r: Result<
    GumballEnded,
    GumballError,
>)
    ensures
        match r {
            Ok(event) => {
                &&& end_gumball_rejection(*old(ctx), gumball_id, now) is None
                &&& *final(ctx) == end_gumball_effect(*old(ctx))
                &&& event == end_gumball_event(*old(ctx), now)
                &&& event.total_sold > 0 ==> event.fee_amount + event.creator_amount
                    == ticket_revenue(old(ctx).gumball)
                &&& event.total_sold == 0 ==> {
                    &&& final(ctx).gumball.status == GumballState::CompletedFailed
                    &&& final(ctx).gumball_vault == old(ctx).gumball_vault
                    &&& final(ctx).ticket_escrow == old(ctx).ticket_escrow
                    &&& final(ctx).config_treasury == old(ctx).config_treasury
                    &&& final(ctx).ticket_fee_escrow_ata == old(ctx).ticket_fee_escrow_ata
                }
            },
            Err(e) => {
                &&& end_gumball_rejection(*old(ctx), gumball_id, now) == Some(e)
                &&& *final(ctx) == *old(ctx)
            },
        },
        final(ctx).custody_conserved(),
        r is Ok && old(ctx).gumball.well_formed() ==> final(ctx).gumball.well_formed(),
{
    proof {
        use_type_invariant(&ctx.gumball_vault.balance);
        use_type_invariant(&ctx.ticket_escrow.balance);
        use_type_invariant(&ctx.config_treasury.balance);
        use_type_invariant(&ctx.ticket_fee_escrow_ata.balance);
    }
    let mut work = *ctx;
    check_end_admission(&work, gumball_id, now)?;
    let tickets_sold = work.gumball.tickets_sold;
    if tickets_sold == 0 {
        work.gumball.status = GumballState::CompletedFailed;
        *ctx = work;
        return Ok(
            GumballEnded { gumball_id, total_sold: 0, fee_amount: 0, creator_amount: 0, ended_at: now },
        );
    }
    let total_amount = match work.gumball.ticket_price.checked_mul(tickets_sold as u64) {
        Some(total) => total,
        None => {
            return Err(GumballError::State(GumballStateErrors::Overflow));
        },
    };
    let (fee_amount, creator_amount) = match split_revenue(
        total_amount,
        work.gumball_config.ticket_fee_bps,
    ) {
        Some(parts) => parts,
        None => {
            return Err(GumballError::State(GumballStateErrors::Overflow));
        },
    };
    move_fee(&mut work, fee_amount)?;
    work.gumball.status = GumballState::CompletedSuccessfully;
    work.gumball.claimable_ticket_amount = creator_amount;
    *ctx = work;
    Ok(
        GumballEnded {
            gumball_id,
            total_sold: tickets_sold,
            fee_amount,
            creator_amount,
            ended_at: now,
        },
    )
}

} // verus!
