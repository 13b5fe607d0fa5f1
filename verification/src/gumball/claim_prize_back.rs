//! After the machine has ended or was called off, the creator takes back
//! what is left of a prize slot, and the slot's custody account is closed.

use vstd::prelude::*;
use crate::custody::{
    can_close,
    close_token_account_with_seeds,
    token_transfer_rejection,
    transfer_tokens_with_seeds,
    Mint,
    SystemAccount,
    TokenAccount,
    TransferErrors,
};
use crate::gumball::constants::CLAIM_PRIZES_BACK_PAUSE;
use crate::gumball::errors::{
    transfer_rejection,
    ConfigStateErrors,
    GumballError,
    GumballStateErrors,
    KeysMismatchErrors,
};
use crate::gumball::states::{GumballConfig, GumballMachine, GumballState, Prize};
use crate::gumball::utils::is_paused;
use crate::math::flag_set;
use crate::pubkey::Pubkey;

verus! {

/// What `claim_prize_back` reports.
#[derive(Clone, Copy, Debug, PartialEq, Eq)]
pub struct PrizeClaimed {
    pub gumball_id: u32,
    pub prize_index: u16,
    pub prize_mint: Pubkey,
    pub claimed_amount: u64,
    pub claimer: Pubkey,
    pub claimed_at: i64,
}

/// The accounts of `claim_prize_back`.
#[derive(Clone, Copy)]
pub struct ClaimPrizeBack {
    pub gumball_config: GumballConfig,
    pub gumball: GumballMachine,
    pub gumball_vault: SystemAccount,
    pub prize: Prize,
    pub creator: Pubkey,
    pub gumball_admin: Pubkey,
    pub prize_mint: Mint,
    pub prize_escrow: TokenAccount,
    pub creator_prize_ata: TokenAccount,
}

impl ClaimPrizeBack {
    /// Custody conservation: of each account that holds value for the sale
    /// or for the house, what went out never exceeded what came in.
    pub open spec fn custody_conserved(self) -> bool {
        self.prize_escrow.conserved()
    }
}

/// Why the slot cannot be claimed back, if it cannot: the first of these
/// that holds. The admin is not the configured one; the machine has another
/// number; the slot is of another machine or has another index; the caller
/// is not the creator; claiming back is paused; the machine has neither
/// ended nor was called off; the slot is of another mint; the account that
/// shall take what is left is not the creator's; what is left cannot leave
/// custody; the custody account cannot be closed.
pub open spec fn claim_prize_back_rejection(ctx: ClaimPrizeBack, gumball_id: u32, prize_index: u16) -> Option<
    GumballError,
> {
    let left = ctx.prize_escrow.amount();
    if ctx.gumball_config.gumball_admin != ctx.gumball_admin {
        Some(GumballError::Config(ConfigStateErrors::InvalidGumballAdmin))
    } else if ctx.gumball.gumball_id != gumball_id || ctx.prize.gumball_id != gumball_id {
        Some(GumballError::State(GumballStateErrors::InvalidGumballId))
    } else if ctx.prize.prize_index != prize_index {
        Some(GumballError::State(GumballStateErrors::InvalidPrizeIndex))
    } else if ctx.creator != ctx.gumball.creator {
        Some(GumballError::State(GumballStateErrors::InvalidCreator))
    } else if flag_set(ctx.gumball_config.pause_flags, CLAIM_PRIZES_BACK_PAUSE) {
        Some(GumballError::State(GumballStateErrors::FunctionPaused))
    } else if !ctx.gumball.status.is_terminal() {
        Some(GumballError::State(GumballStateErrors::InvalidGumballState))
    } else if ctx.prize.mint != ctx.prize_mint.key {
        Some(GumballError::State(GumballStateErrors::PrizeMintMismatch))
    } else if ctx.creator_prize_ata.owner != ctx.creator {
        Some(GumballError::Keys(KeysMismatchErrors::InvalidCreatorPrizeAtaOwner))
    } else if left > 0 && token_transfer_rejection(
        ctx.prize_escrow,
        ctx.creator_prize_ata,
        ctx.gumball_vault.key,
        ctx.prize_mint,
        left,
    ) is Some {
        transfer_rejection(
            token_transfer_rejection(
                ctx.prize_escrow,
                ctx.creator_prize_ata,
                ctx.gumball_vault.key,
                ctx.prize_mint,
                left,
            ),
        )
    } else if !can_close(ctx.prize_escrow.debited(left), ctx.gumball_vault.key) {
        Some(GumballError::Transfer(TransferErrors::CloseAccountFailed))
    } else {
        None
    }
}

/// The accounts after the slot was claimed back: nothing is left in the
/// slot, and its custody account is empty and closed.
pub open spec fn claim_prize_back_effect(ctx: ClaimPrizeBack) -> ClaimPrizeBack {
    let left = ctx.prize_escrow.amount();
    ClaimPrizeBack {
        prize: Prize { quantity: 0, total_amount: 0, ..ctx.prize },
        prize_escrow: if left > 0 {
            ctx.prize_escrow.debited(left).shut()
        } else {
            ctx.prize_escrow.shut()
        },
        creator_prize_ata: if left > 0 {
            ctx.creator_prize_ata.credited(left)
        } else {
            ctx.creator_prize_ata
        },
        ..ctx
    }
}

/// After a slot was claimed back, a second claim of it by the same accounts
/// is turned away: its custody account is closed.
pub proof fn claim_back_is_at_most_once(ctx: ClaimPrizeBack, gumball_id: u32, prize_index: u16)
    requires
        claim_prize_back_rejection(ctx, gumball_id, prize_index) is None,
    ensures
        claim_prize_back_rejection(claim_prize_back_effect(ctx), gumball_id, prize_index) == Some(
            GumballError::Transfer(TransferErrors::CloseAccountFailed),
        ),
{
}

/// Hands what is left of the slot `prize_index` back to the creator, at the
/// time `now`, and closes the slot's custody account.
pub fn claim_prize_back(ctx: &mut ClaimPrizeBack, gumball_id: u32, prize_index: u16, now: i64) -> (r:
    Result<PrizeClaimed, GumballError>)
    ensures
        match r {
            Ok(event) => {
                &&& claim_prize_back_rejection(*old(ctx), gumball_id, prize_index) is None
                &&& *final(ctx) == claim_prize_back_effect(*old(ctx))
                &&& event == (PrizeClaimed {
                    gumball_id,
                    prize_index,
                    prize_mint: old(ctx).prize_mint.key,
                    claimed_amount: old(ctx).prize_escrow.amount(),
                    claimer: old(ctx).creator,
                    claimed_at: now,
                })
            },
            Err(e) => {
                &&& claim_prize_back_rejection(*old(ctx), gumball_id, prize_index) == Some(e)
                &&& *final(ctx) == *old(ctx)
            },
        },
        final(ctx).custody_conserved(),
        r is Ok && old(ctx).gumball.well_formed() ==> final(ctx).gumball.well_formed(),
{
    proof {
        use_type_invariant(&ctx.prize_escrow.balance);
    }
    let mut work = *ctx;
    if !work.gumball_config.gumball_admin.same(&work.gumball_admin) {
        return Err(GumballError::Config(ConfigStateErrors::InvalidGumballAdmin));
    }
    if work.gumball.gumball_id != gumball_id || work.prize.gumball_id != gumball_id {
        return Err(GumballError::State(GumballStateErrors::InvalidGumballId));
    }
    if work.prize.prize_index != prize_index {
        return Err(GumballError::State(GumballStateErrors::InvalidPrizeIndex));
    }
    if !work.creator.same(&work.gumball.creator) {
        return Err(GumballError::State(GumballStateErrors::InvalidCreator));
    }
    if is_paused(work.gumball_config.pause_flags, CLAIM_PRIZES_BACK_PAUSE) {
        return Err(GumballError::State(GumballStateErrors::FunctionPaused));
    }
    if !(work.gumball.status == GumballState::Cancelled || work.gumball.status
        == GumballState::CompletedSuccessfully || work.gumball.status
        == GumballState::CompletedFailed) {
        return Err(GumballError::State(GumballStateErrors::InvalidGumballState));
    }
    if !work.prize.mint.same(&work.prize_mint.key) {
        return Err(GumballError::State(GumballStateErrors::PrizeMintMismatch));
    }
    if !work.creator_prize_ata.owner.same(&work.creator) {
        return Err(GumballError::Keys(KeysMismatchErrors::InvalidCreatorPrizeAtaOwner));
    }
    let claimable_amount = work.prize_escrow.amount();
    let authority = work.gumball_vault.key;
    let prize_mint = work.prize_mint;
    if claimable_amount > 0 {
        match transfer_tokens_with_seeds(
            &mut work.prize_escrow,
            &mut work.creator_prize_ata,
            &authority,
            &prize_mint,
            claimable_amount,
        ) {
            Ok(()) => {},
            Err(e) => {
                return Err(GumballError::Transfer(e));
            },
        }
    }
    work.prize.quantity = 0;
    work.prize.total_amount = 0;
    match close_token_account_with_seeds(&mut work.prize_escrow, &authority) {
        Ok(()) => {},
        Err(e) => {
            return Err(GumballError::Transfer(e));
        },
    }
    *ctx = work;
    Ok(
        PrizeClaimed {
            gumball_id,
            prize_index,
            prize_mint: prize_mint.key,
            claimed_amount: claimable_amount,
            claimer: ctx.creator,
            claimed_at: now,
        },
    )
}

} // verus!
