//! After the machine has ended, the creator takes the ticket revenue that
//! was written down for them. The custody account stays open and keeps what
//! is beyond that amount: prizes in the same token are held in it too.

use vstd::prelude::*;
use crate::custody::{
    sol_transfer_rejection,
    token_transfer_rejection,
    transfer_sol_with_seeds,
    transfer_tokens_with_seeds,
    Mint,
    SystemAccount,
    TokenAccount,
};
use crate::gumball::constants::CLAIM_PRIZES_BACK_PAUSE;
use crate::gumball::errors::{
    transfer_rejection,
    ConfigStateErrors,
    GumballError,
    GumballStateErrors,
    KeysMismatchErrors,
};
use crate::gumball::states::{GumballConfig, GumballMachine, GumballState};
use crate::gumball::utils::is_paused;
use crate::math::flag_set;
use crate::pubkey::Pubkey;

verus! {

/// What `claim_amount_back` reports.
#[derive(Clone, Copy, Debug, PartialEq, Eq)]
pub struct AmountClaimBack {
    pub gumball_id: u32,
    pub claimer: Pubkey,
    pub ticket_amount_claimable: u64,
    pub claimed_time: i64,
}

/// The accounts of `claim_amount_back`.
#[derive(Clone, Copy)]
pub struct ClaimAmountBack {
    pub gumball_config: GumballConfig,
    pub gumball: GumballMachine,
    pub gumball_vault: SystemAccount,
    pub creator: SystemAccount,
    pub gumball_admin: Pubkey,
    pub ticket_mint: Mint,
    pub ticket_escrow: TokenAccount,
    pub creator_ticket_ata: TokenAccount,
}

impl ClaimAmountBack {
    /// Custody conservation: of each account that holds value for the sale,
    /// what went out never exceeded what came in.
    pub open spec fn custody_conserved(self) -> bool {
        self.gumball_vault.conserved() && self.ticket_escrow.conserved()
    }
}

/// Why the revenue cannot be paid to the creator, if it cannot.
pub open spec fn revenue_payment_rejection(ctx: ClaimAmountBack) -> Option<GumballError> {
    let amount = ctx.gumball.claimable_ticket_amount;
    match ctx.gumball.ticket_mint {
        None => transfer_rejection(sol_transfer_rejection(ctx.gumball_vault, ctx.creator, amount)),
        Some(stored_mint) => {
            if ctx.ticket_mint.key != stored_mint || ctx.ticket_escrow.mint != stored_mint
                || ctx.creator_ticket_ata.mint != stored_mint {
                Some(GumballError::Keys(KeysMismatchErrors::InvalidTicketMint))
            } else if ctx.ticket_escrow.owner != ctx.gumball_vault.key {
                Some(GumballError::Keys(KeysMismatchErrors::InvalidTicketEscrowOwner))
            } else if ctx.creator_ticket_ata.owner != ctx.creator.key {
                Some(GumballError::Keys(KeysMismatchErrors::InvalidTicketAtaOwner))
            } else {
                transfer_rejection(
                    token_transfer_rejection(
                        ctx.ticket_escrow,
                        ctx.creator_ticket_ata,
                        ctx.gumball_vault.key,
                        ctx.ticket_mint,
                        amount,
                    ),
                )
            }
        },
    }
}

/// Why the creator cannot claim, if they cannot: the first of these that
/// holds. The admin is not the configured one; the machine has another
/// number; the caller is not the creator; claiming back is paused; the
/// machine has not ended; there is nothing to claim; the payment is refused.
pub open spec fn claim_amount_back_rejection(ctx: ClaimAmountBack, gumball_id: u32) -> Option<
    GumballError,
> {
    if ctx.gumball_config.gumball_admin != ctx.gumball_admin {
        Some(GumballError::Config(ConfigStateErrors::InvalidGumballAdmin))
    } else if ctx.gumball.gumball_id != gumball_id {
        Some(GumballError::State(GumballStateErrors::InvalidGumballId))
    } else if ctx.creator.key != ctx.gumball.creator {
        Some(GumballError::State(GumballStateErrors::InvalidCreator))
    } else if flag_set(ctx.gumball_config.pause_flags, CLAIM_PRIZES_BACK_PAUSE) {
        Some(GumballError::State(GumballStateErrors::FunctionPaused))
    } else if ctx.gumball.status != GumballState::CompletedSuccessfully && ctx.gumball.status
        != GumballState::CompletedFailed {
        Some(GumballError::State(GumballStateErrors::InvalidGumballState))
    } else if ctx.gumball.claimable_ticket_amount == 0 {
        Some(GumballError::State(GumballStateErrors::InvalidZeroAmount))
    } else {
        revenue_payment_rejection(ctx)
    }
}

/// The accounts after the creator claimed: the revenue is paid, and nothing
/// is left to claim.
pub open spec fn claim_amount_back_effect(ctx: ClaimAmountBack) -> ClaimAmountBack {
    let amount = ctx.gumball.claimable_ticket_amount;
    let settled = GumballMachine { claimable_ticket_amount: 0, ..ctx.gumball };
    match ctx.gumball.ticket_mint {
        None => ClaimAmountBack {
            gumball: settled,
            gumball_vault: ctx.gumball_vault.debited(amount),
            creator: ctx.creator.credited(amount),
            ..ctx
        },
        Some(_) => ClaimAmountBack {
            gumball: settled,
            ticket_escrow: ctx.ticket_escrow.debited(amount),
            creator_ticket_ata: ctx.creator_ticket_ata.credited(amount),
            ..ctx
        },
    }
}

/// After the creator claimed, a second claim by the same accounts finds
/// nothing and is turned away with `InvalidZeroAmount`.
pub proof fn claim_back_is_at_most_once(ctx: ClaimAmountBack, gumball_id: u32)
    requires
        claim_amount_back_rejection(ctx, gumball_id) is None,
    ensures
        claim_amount_back_rejection(claim_amount_back_effect(ctx), gumball_id) == Some(
            GumballError::State(GumballStateErrors::InvalidZeroAmount),
        ),
{
}

/// Pays the creator, at the time `now`, the ticket revenue that they may
/// claim, and writes the claim down to zero.
pub fn claim_amount_back(ctx: &mut ClaimAmountBack, gumball_id: u32, now: i64) -> (r: Result<
    AmountClaimBack,
    GumballError,
>)
    ensures
        match r {
            Ok(event) => {
                &&& claim_amount_back_rejection(*old(ctx), gumball_id) is None
                &&& *final(ctx) == claim_amount_back_effect(*old(ctx))
                &&& event == (AmountClaimBack {
                    gumball_id,
                    claimer: old(ctx).creator.key,
                    ticket_amount_claimable: old(ctx).gumball.claimable_ticket_amount,
                    claimed_time: now,
                })
            },
            Err(e) => {
                &&& claim_amount_back_rejection(*old(ctx), gumball_id) == Some(e)
                &&& *final(ctx) == *old(ctx)
            },
        },
        final(ctx).custody_conserved(),
        r is Ok && old(ctx).gumball.well_formed() ==> final(ctx).gumball.well_formed(),
{
    proof {
        use_type_invariant(&ctx.gumball_vault.balance);
        use_type_invariant(&ctx.ticket_escrow.balance);
    }
    let mut work = *ctx;
    if !work.gumball_config.gumball_admin.same(&work.gumball_admin) {
        return Err(GumballError::Config(ConfigStateErrors::InvalidGumballAdmin));
    }
    if work.gumball.gumball_id != gumball_id {
        return Err(GumballError::State(GumballStateErrors::InvalidGumballId));
    }
    if !work.creator.key.same(&work.gumball.creator) {
        return Err(GumballError::State(GumballStateErrors::InvalidCreator));
    }
    if is_paused(work.gumball_config.pause_flags, CLAIM_PRIZES_BACK_PAUSE) {
        return Err(GumballError::State(GumballStateErrors::FunctionPaused));
    }
    if work.gumball.status != GumballState::CompletedSuccessfully && work.gumball.status
        != GumballState::CompletedFailed {
        return Err(GumballError::State(GumballStateErrors::InvalidGumballState));
    }
    let amount = work.gumball.claimable_ticket_amount;
    if amount == 0 {
        return Err(GumballError::State(GumballStateErrors::InvalidZeroAmount));
    }
    match work.gumball.ticket_mint {
        None => {
            match transfer_sol_with_seeds(&mut work.gumball_vault, &mut work.creator, amount) {
                Ok(()) => {},
                Err(e) => {
                    return Err(GumballError::Transfer(e));
                },
            }
        },
        Some(stored_mint) => {
            if !work.ticket_mint.key.same(&stored_mint) || !work.ticket_escrow.mint.same(
                &stored_mint,
            ) || !work.creator_ticket_ata.mint.same(&stored_mint) {
                return Err(GumballError::Keys(KeysMismatchErrors::InvalidTicketMint));
            }
            if !work.ticket_escrow.owner.same(&work.gumball_vault.key) {
                return Err(GumballError::Keys(KeysMismatchErrors::InvalidTicketEscrowOwner));
            }
            if !work.creator_ticket_ata.owner.same(&work.creator.key) {
                return Err(GumballError::Keys(KeysMismatchErrors::InvalidTicketAtaOwner));
            }
            let authority = work.gumball_vault.key;
            let ticket_mint = work.ticket_mint;
            match transfer_tokens_with_seeds(
                &mut work.ticket_escrow,
                &mut work.creator_ticket_ata,
                &authority,
                &ticket_mint,
                amount,
            ) {
                Ok(()) => {},
                Err(e) => {
                    return Err(GumballError::Transfer(e));
                },
            }
        },
    }
    work.gumball.claimable_ticket_amount = 0;
    *ctx = work;
    Ok(
        AmountClaimBack {
            gumball_id,
            claimer: ctx.creator.key,
            ticket_amount_claimable: amount,
            claimed_time: now,
        },
    )
}

} // verus!
