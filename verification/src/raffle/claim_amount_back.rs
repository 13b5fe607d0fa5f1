//! After the raffle has ended, the creator takes what is theirs: the part of
//! the prize that no winner gets, and the ticket revenue after the fee.

use vstd::prelude::*;
use crate::custody::{
    can_close,
    close_token_account_with_seeds,
    token_transfer_rejection,
    transfer_sol_with_seeds,
    transfer_tokens_with_seeds,
    Mint,
    SystemAccount,
    TokenAccount,
    TransferErrors,
};
use crate::math::flag_set;
use crate::pubkey::Pubkey;
use crate::raffle::cancel_raffle::vault_payment_rejection;
use crate::raffle::constants::CLAIM_AMOUNT_BACK_PAUSE;
use crate::raffle::errors::{
    transfer_rejection,
    ConfigStateErrors,
    KeysMismatchErrors,
    RaffleError,
    RaffleStateErrors,
};
use crate::raffle::states::{PrizeType, Raffle, RaffleConfig, RaffleState, RaffleView};
use crate::raffle::utils::is_paused;

verus! {

/// What `claim_amount_back` reports.
#[derive(Clone, Copy, Debug, PartialEq, Eq)]
pub struct AmountClaimBack {
    pub raffle_id: u32,
    pub claimer: Pubkey,
    pub prize_amount_claimable: u64,
    pub ticket_amount_claimable: u64,
    pub claimed_time: i64,
}

/// The accounts of `claim_amount_back`.
#[derive(Clone, Copy)]
pub struct ClaimAmountBack {
    pub raffle_config: RaffleConfig,
    pub raffle_vault: SystemAccount,
    pub creator: SystemAccount,
    pub raffle_admin: Pubkey,
    pub prize_mint: Mint,
    pub ticket_mint: Mint,
    pub prize_escrow: TokenAccount,
    pub ticket_escrow: TokenAccount,
    pub creator_prize_ata: TokenAccount,
    pub creator_ticket_ata: TokenAccount,
}

impl ClaimAmountBack {
    /// Custody conservation: of each account that holds value for the sale
    /// or for the house, what went out never exceeded what came in.
    pub open spec fn custody_conserved(self) -> bool {
        self.raffle_vault.conserved()
            && self.prize_escrow.conserved()
            && self.ticket_escrow.conserved()
    }
}

/// What the creator gets of the ticket side: what was written down for
/// them, or, for tickets paid in tokens, all that the custody account holds
/// where that is more, so that no remainder is stranded in it.
pub open spec fn ticket_claim(ctx: ClaimAmountBack, raffle: RaffleView) -> u64 {
    if raffle.ticket_mint is Some && raffle.claimable_ticket_amount < ctx.ticket_escrow.amount() {
        ctx.ticket_escrow.amount()
    } else {
        raffle.claimable_ticket_amount
    }
}

/// What leaves custody on the prize side: the one item, or the amount that
/// the creator may claim.
pub open spec fn prize_claim_tokens(raffle: RaffleView) -> u64 {
    if raffle.prize_type == PrizeType::Nft {
        1
    } else {
        raffle.claimable_prize_back
    }
}

/// Why the prize side cannot be paid, if it cannot. Nothing is paid where
/// nothing of the prize can be claimed.
pub open spec fn prize_side_rejection(ctx: ClaimAmountBack, raffle: RaffleView) -> Option<RaffleError> {
    if raffle.claimable_prize_back == 0 {
        None
    } else if raffle.prize_type == PrizeType::Sol {
        vault_payment_rejection(ctx.raffle_vault, ctx.creator, raffle.claimable_prize_back)
    } else if raffle.prize_mint is None {
        Some(RaffleError::Keys(KeysMismatchErrors::MissingPrizeMint))
    } else if ctx.prize_mint.key != raffle.prize_mint->Some_0 || ctx.creator_prize_ata.mint
        != raffle.prize_mint->Some_0 || ctx.prize_escrow.mint != raffle.prize_mint->Some_0 {
        Some(RaffleError::Keys(KeysMismatchErrors::InvalidPrizeMint))
    } else if ctx.prize_escrow.owner != ctx.raffle_vault.key {
        Some(RaffleError::Keys(KeysMismatchErrors::InvalidPrizeEscrowOwner))
    } else if ctx.creator_prize_ata.owner != ctx.creator.key {
        Some(RaffleError::Keys(KeysMismatchErrors::InvalidPrizeAtaOwner))
    } else {
        transfer_rejection(
            token_transfer_rejection(
                ctx.prize_escrow,
                ctx.creator_prize_ata,
                ctx.raffle_vault.key,
                ctx.prize_mint,
                prize_claim_tokens(raffle),
            ),
        )
    }
}

/// The accounts after the prize side was paid.
pub open spec fn prize_side_effect(ctx: ClaimAmountBack, raffle: RaffleView) -> ClaimAmountBack {
    if raffle.claimable_prize_back == 0 {
        ctx
    } else if raffle.prize_type == PrizeType::Sol {
        ClaimAmountBack {
            raffle_vault: ctx.raffle_vault.debited(raffle.claimable_prize_back),
            creator: ctx.creator.credited(raffle.claimable_prize_back),
            ..ctx
        }
    } else {
        ClaimAmountBack {
            prize_escrow: ctx.prize_escrow.debited(prize_claim_tokens(raffle)),
            creator_prize_ata: ctx.creator_prize_ata.credited(prize_claim_tokens(raffle)),
            ..ctx
        }
    }
}

/// Why `amount` of the ticket side cannot be paid, if it cannot. Nothing is
/// paid where the amount is zero. The custody account of tickets paid in
/// tokens is closed after the payment.
pub open spec fn ticket_side_rejection(ctx: ClaimAmountBack, raffle: RaffleView, amount: u64) -> Option<
    RaffleError,
> {
    if amount == 0 {
        None
    } else if raffle.ticket_mint is None {
        vault_payment_rejection(ctx.raffle_vault, ctx.creator, amount)
    } else if ctx.ticket_mint.key != raffle.ticket_mint->Some_0 || ctx.creator_ticket_ata.mint
        != raffle.ticket_mint->Some_0 || ctx.ticket_escrow.mint != raffle.ticket_mint->Some_0 {
        Some(RaffleError::Keys(KeysMismatchErrors::InvalidTicketMint))
    } else if ctx.ticket_escrow.owner != ctx.raffle_vault.key {
        Some(RaffleError::Keys(KeysMismatchErrors::InvalidTicketEscrowOwner))
    } else if ctx.creator_ticket_ata.owner != ctx.creator.key {
        Some(RaffleError::Keys(KeysMismatchErrors::InvalidTicketAtaOwner))
    } else if token_transfer_rejection(
        ctx.ticket_escrow,
        ctx.creator_ticket_ata,
        ctx.raffle_vault.key,
        ctx.ticket_mint,
        amount,
    ) is Some {
        transfer_rejection(
            token_transfer_rejection(
                ctx.ticket_escrow,
                ctx.creator_ticket_ata,
                ctx.raffle_vault.key,
                ctx.ticket_mint,
                amount,
            ),
        )
    } else if !can_close(ctx.ticket_escrow.debited(amount), ctx.raffle_vault.key) {
        Some(RaffleError::Transfer(TransferErrors::CloseAccountFailed))
    } else {
        None
    }
}

/// The accounts after `amount` of the ticket side was paid.
pub open spec fn ticket_side_effect(
    ctx: ClaimAmountBack,
    raffle: RaffleView,
    amount: u64,
) -> ClaimAmountBack {
    if amount == 0 {
        ctx
    } else if raffle.ticket_mint is None {
        ClaimAmountBack {
            raffle_vault: ctx.raffle_vault.debited(amount),
            creator: ctx.creator.credited(amount),
            ..ctx
        }
    } else {
        ClaimAmountBack {
            ticket_escrow: ctx.ticket_escrow.debited(amount).shut(),
            creator_ticket_ata: ctx.creator_ticket_ata.credited(amount),
            ..ctx
        }
    }
}

/// Why the creator cannot claim, if they cannot: the first of these that
/// holds. The admin is not the configured one; the raffle has another
/// number; the caller is not the creator; claiming back is paused; the
/// raffle has not ended; there is nothing to claim on either side; the prize
/// side cannot be paid; the ticket side cannot be paid.
pub open spec fn claim_amount_back_rejection(
    ctx: ClaimAmountBack,
    raffle: RaffleView,
    raffle_id: u32,
) -> Option<RaffleError> {
    if ctx.raffle_config.raffle_admin != ctx.raffle_admin {
        Some(RaffleError::Config(ConfigStateErrors::InvalidRaffleAdmin))
    } else if raffle.raffle_id != raffle_id {
        Some(RaffleError::State(RaffleStateErrors::InvalidRaffleId))
    } else if ctx.creator.key != raffle.creator {
        Some(RaffleError::State(RaffleStateErrors::InvalidCreator))
    } else if flag_set(ctx.raffle_config.pause_flags, CLAIM_AMOUNT_BACK_PAUSE) {
        Some(RaffleError::State(RaffleStateErrors::FunctionPaused))
    } else if raffle.status != RaffleState::FailedEnded && raffle.status != RaffleState::SuccessEnded {
        Some(RaffleError::State(RaffleStateErrors::RaffleNotEnded))
    } else if raffle.claimable_prize_back == 0 && ticket_claim(ctx, raffle) == 0 {
        Some(RaffleError::State(RaffleStateErrors::InvalidZeroAmount))
    } else if prize_side_rejection(ctx, raffle) is Some {
        prize_side_rejection(ctx, raffle)
    } else {
        ticket_side_rejection(prize_side_effect(ctx, raffle), raffle, ticket_claim(ctx, raffle))
    }
}

/// The accounts after the creator claimed both sides.
pub open spec fn claim_amount_back_effect(ctx: ClaimAmountBack, raffle: RaffleView) -> ClaimAmountBack {
    ticket_side_effect(prize_side_effect(ctx, raffle), raffle, ticket_claim(ctx, raffle))
}

/// The raffle after the creator claimed: nothing is left to claim.
pub open spec fn claimed_back_raffle(raffle: RaffleView) -> RaffleView {
    RaffleView { claimable_prize_back: 0, claimable_ticket_amount: 0, ..raffle }
}

/// After the creator claimed both sides, a second claim by the same accounts
/// finds nothing and is turned away with `InvalidZeroAmount`.
pub proof fn claim_back_is_at_most_once(ctx: ClaimAmountBack, raffle: RaffleView, raffle_id: u32)
    requires
        claim_amount_back_rejection(ctx, raffle, raffle_id) is None,
    ensures
        claim_amount_back_rejection(
            claim_amount_back_effect(ctx, raffle),
            claimed_back_raffle(raffle),
            raffle_id,
        ) == Some(RaffleError::State(RaffleStateErrors::InvalidZeroAmount)),
{
}

fn pay_prize_side(work: &mut ClaimAmountBack, raffle: &Raffle) -> (r: Result<(), RaffleError>)
    ensures
        match r {
            Ok(()) => {
                &&& prize_side_rejection(*old(work), raffle@) is None
                &&& *final(work) == prize_side_effect(*old(work), raffle@)
            },
            Err(e) => prize_side_rejection(*old(work), raffle@) == Some(e),
        },
{
    let prize_amount_claimable = raffle.claimable_prize_back;
    if prize_amount_claimable == 0 {
        return Ok(());
    }
    match raffle.prize_type {
        PrizeType::Sol => {
            if work.raffle_vault.lamports() <= prize_amount_claimable {
                return Err(RaffleError::Transfer(TransferErrors::InsufficientSolBalance));
            }
            match transfer_sol_with_seeds(&mut work.raffle_vault, &mut work.creator, prize_amount_claimable) {
                Ok(()) => Ok(()),
                Err(e) => Err(RaffleError::Transfer(e)),
            }
        },
        _ => {
            let stored_mint = match raffle.prize_mint {
                Some(key) => key,
                None => {
                    return Err(RaffleError::Keys(KeysMismatchErrors::MissingPrizeMint));
                },
            };
            if !work.prize_mint.key.same(&stored_mint) || !work.creator_prize_ata.mint.same(
                &stored_mint,
            ) || !work.prize_escrow.mint.same(&stored_mint) {
                return Err(RaffleError::Keys(KeysMismatchErrors::InvalidPrizeMint));
            }
            if !work.prize_escrow.owner.same(&work.raffle_vault.key) {
                return Err(RaffleError::Keys(KeysMismatchErrors::InvalidPrizeEscrowOwner));
            }
            if !work.creator_prize_ata.owner.same(&work.creator.key) {
                return Err(RaffleError::Keys(KeysMismatchErrors::InvalidPrizeAtaOwner));
            }
            let amount = if raffle.prize_type == PrizeType::Nft {
                1
            } else {
                prize_amount_claimable
            };
            let authority = work.raffle_vault.key;
            let prize_mint = work.prize_mint;
            match transfer_tokens_with_seeds(
                &mut work.prize_escrow,
                &mut work.creator_prize_ata,
                &authority,
                &prize_mint,
                amount,
            ) {
                Ok(()) => Ok(()),
                Err(e) => Err(RaffleError::Transfer(e)),
            }
        },
    }
}

fn pay_ticket_side(work: &mut ClaimAmountBack, raffle: &Raffle, amount: u64) -> (r: Result<
    (),
    RaffleError,
>)
    ensures
        match r {
            Ok(()) => {
                &&& ticket_side_rejection(*old(work), raffle@, amount) is None
                &&& *final(work) == ticket_side_effect(*old(work), raffle@, amount)
            },
            Err(e) => ticket_side_rejection(*old(work), raffle@, amount) == Some(e),
        },
{
    if amount == 0 {
        return Ok(());
    }
    match raffle.ticket_mint {
        None => {
            if work.raffle_vault.lamports() <= amount {
                return Err(RaffleError::Transfer(TransferErrors::InsufficientSolBalance));
            }
            match transfer_sol_with_seeds(&mut work.raffle_vault, &mut work.creator, amount) {
                Ok(()) => Ok(()),
                Err(e) => Err(RaffleError::Transfer(e)),
            }
        },
        Some(stored_mint) => {
            if !work.ticket_mint.key.same(&stored_mint) || !work.creator_ticket_ata.mint.same(
                &stored_mint,
            ) || !work.ticket_escrow.mint.same(&stored_mint) {
                return Err(RaffleError::Keys(KeysMismatchErrors::InvalidTicketMint));
            }
            if !work.ticket_escrow.owner.same(&work.raffle_vault.key) {
                return Err(RaffleError::Keys(KeysMismatchErrors::InvalidTicketEscrowOwner));
            }
            if !work.creator_ticket_ata.owner.same(&work.creator.key) {
                return Err(RaffleError::Keys(KeysMismatchErrors::InvalidTicketAtaOwner));
            }
            let authority = work.raffle_vault.key;
            let ticket_mint = work.ticket_mint;
            match transfer_tokens_with_seeds(
                &mut work.ticket_escrow,
                &mut work.creator_ticket_ata,
                &authority,
                &ticket_mint,
                amount,
            ) {
                Ok(()) => {},
                Err(e) => {
                    return Err(RaffleError::Transfer(e));
                },
            }
            match close_token_account_with_seeds(&mut work.ticket_escrow, &authority) {
                Ok(()) => Ok(()),
                Err(e) => Err(RaffleError::Transfer(e)),
            }
        },
    }
}

/// Pays the creator, at the time `now`, what they may claim of the prize
/// and of the ticket revenue, and writes both claims down to zero.
pub fn claim_amount_back(ctx: &mut ClaimAmountBack, raffle: &mut Raffle, raffle_id: u32, now: i64) -> (r:
    Result<AmountClaimBack, RaffleError>)
    ensures
        match r {
            Ok(event) => {
                &&& claim_amount_back_rejection(*old(ctx), old(raffle)@, raffle_id) is None
                &&& *final(ctx) == claim_amount_back_effect(*old(ctx), old(raffle)@)
                &&& final(raffle)@ == claimed_back_raffle(old(raffle)@)
                &&& event == (AmountClaimBack {
                    raffle_id,
                    claimer: old(ctx).creator.key,
                    prize_amount_claimable: old(raffle).claimable_prize_back,
                    ticket_amount_claimable: ticket_claim(*old(ctx), old(raffle)@),
                    claimed_time: now,
                })
            },
            Err(e) => {
                &&& claim_amount_back_rejection(*old(ctx), old(raffle)@, raffle_id) == Some(e)
                &&& *final(ctx) == *old(ctx)
                &&& *final(raffle) == *old(raffle)
            },
        },
        final(ctx).custody_conserved(),
        r is Ok && old(raffle)@.well_formed() ==> final(raffle)@.well_formed(),
{
    proof {
        use_type_invariant(&ctx.raffle_vault.balance);
        use_type_invariant(&ctx.prize_escrow.balance);
        use_type_invariant(&ctx.ticket_escrow.balance);
    }
    let mut work = *ctx;
    if !work.raffle_config.raffle_admin.same(&work.raffle_admin) {
        return Err(RaffleError::Config(ConfigStateErrors::InvalidRaffleAdmin));
    }
    if raffle.raffle_id != raffle_id {
        return Err(RaffleError::State(RaffleStateErrors::InvalidRaffleId));
    }
    if !work.creator.key.same(&raffle.creator) {
        return Err(RaffleError::State(RaffleStateErrors::InvalidCreator));
    }
    if is_paused(work.raffle_config.pause_flags, CLAIM_AMOUNT_BACK_PAUSE) {
        return Err(RaffleError::State(RaffleStateErrors::FunctionPaused));
    }
    if raffle.status != RaffleState::FailedEnded && raffle.status != RaffleState::SuccessEnded {
        return Err(RaffleError::State(RaffleStateErrors::RaffleNotEnded));
    }
    let prize_amount_claimable = raffle.claimable_prize_back;
    let ticket_amount_claimable = if raffle.ticket_mint.is_some() && raffle.claimable_ticket_amount
        < work.ticket_escrow.amount() {
        work.ticket_escrow.amount()
    } else {
        raffle.claimable_ticket_amount
    };
    if prize_amount_claimable == 0 && ticket_amount_claimable == 0 {
        return Err(RaffleError::State(RaffleStateErrors::InvalidZeroAmount));
    }
    pay_prize_side(&mut work, raffle)?;
    pay_ticket_side(&mut work, raffle, ticket_amount_claimable)?;
    raffle.claimable_prize_back = 0;
    raffle.claimable_ticket_amount = 0;
    *ctx = work;
    Ok(
        AmountClaimBack {
            raffle_id,
            claimer: ctx.creator.key,
            prize_amount_claimable,
            ticket_amount_claimable,
            claimed_time: now,
        },
    )
}

} // verus!
