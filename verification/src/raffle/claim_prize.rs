//! A winner takes the prize of one slot. Each slot pays once.

use vstd::prelude::*;
use crate::custody::{
    associated_token_account,
    ata_check,
    check_ata,
    find_associated_token_account,
    sol_transfer_rejection,
    token_transfer_rejection,
    transfer_sol_with_seeds,
    transfer_tokens_with_seeds,
    Mint,
    SystemAccount,
    TokenAccount,
    TransferErrors,
};
use crate::math::pct_amount;
use crate::pubkey::Pubkey;
use crate::raffle::buyer_claim_prize::PrizeClaimed;
use crate::raffle::constants::TOTAL_PCT;
use crate::raffle::errors::{
    transfer_rejection,
    ConfigStateErrors,
    KeysMismatchErrors,
    RaffleError,
    RaffleStateErrors,
};
use crate::raffle::states::{PrizeType, Raffle, RaffleConfig, RaffleState, RaffleView};
use crate::raffle::utils::get_pct_amount;

verus! {

/// The accounts of `claim_prize`. `winner_prize_ata` is the winner's token
/// account for the prize; where `winner_prize_ata_is_empty` it does not
/// exist yet, only its address counts, and the claim opens it.
#[derive(Clone, Copy)]
pub struct ClaimPrize {
    pub raffle_config: RaffleConfig,
    pub raffle_vault: SystemAccount,
    pub raffle_admin: Pubkey,
    pub winner: SystemAccount,
    pub prize_mint: Mint,
    pub prize_escrow: TokenAccount,
    pub winner_prize_ata: TokenAccount,
    pub winner_prize_ata_is_empty: bool,
}

impl ClaimPrize {
    /// Custody conservation: of each account that holds value for the sale
    /// or for the house, what went out never exceeded what came in.
    pub open spec fn custody_conserved(self) -> bool {
        self.raffle_vault.conserved() && self.prize_escrow.conserved()
    }
}

/// The slot exists: it has a winner, a share and a flag.
pub open spec fn slot_exists(raffle: RaffleView, slot: int) -> bool {
    0 <= slot < raffle.winners.len() && slot < raffle.win_shares.len() && slot
        < raffle.is_win_claimed.len()
}

/// The prize of a slot: the one item, or the slot's share of the prize,
/// rounded down.
pub open spec fn slot_prize(raffle: RaffleView, slot: int) -> nat {
    if raffle.prize_type == PrizeType::Nft {
        1
    } else {
        pct_amount(raffle.prize_amount as nat, raffle.win_shares[slot] as nat, 100)
    }
}

/// The prize of the slot can be computed.
pub open spec fn slot_prize_defined(raffle: RaffleView, slot: int) -> bool {
    raffle.prize_type == PrizeType::Nft || raffle.prize_amount * raffle.win_shares[slot]
        <= u64::MAX
}

/// Why the claim is not admitted, if it is not: the first of these that
/// holds. The admin is not the configured one; the raffle has another
/// number; it did not end with winners; there is no such slot; the caller is
/// not the winner of the slot; the slot was claimed before.
pub open spec fn claim_admission_rejection(
    ctx: ClaimPrize,
    raffle: RaffleView,
    raffle_id: u32,
    slot: int,
) -> Option<RaffleError> {
    if ctx.raffle_config.raffle_admin != ctx.raffle_admin {
        Some(RaffleError::Config(ConfigStateErrors::InvalidRaffleAdmin))
    } else if raffle.raffle_id != raffle_id {
        Some(RaffleError::State(RaffleStateErrors::InvalidRaffleId))
    } else if raffle.status != RaffleState::SuccessEnded {
        Some(RaffleError::State(RaffleStateErrors::RaffleNotSuccessEnded))
    } else if !slot_exists(raffle, slot) {
        Some(RaffleError::State(RaffleStateErrors::InvalidWinnerIndex))
    } else if raffle.winners[slot] != ctx.winner.key {
        Some(RaffleError::State(RaffleStateErrors::InvalidWinner))
    } else if raffle.is_win_claimed[slot] {
        Some(RaffleError::State(RaffleStateErrors::PrizeAlreadyClaimed))
    } else {
        None
    }
}

/// Why the accounts of a prize in tokens are refused, if they are.
pub open spec fn prize_accounts_rejection(ctx: ClaimPrize, raffle: RaffleView) -> Option<RaffleError> {
    if raffle.prize_mint is None {
        Some(RaffleError::Keys(KeysMismatchErrors::MissingPrizeMint))
    } else if ctx.prize_mint.key != raffle.prize_mint->Some_0 {
        Some(RaffleError::Keys(KeysMismatchErrors::InvalidPrizeMint))
    } else if raffle.price_escrow is None {
        Some(RaffleError::Keys(KeysMismatchErrors::MissingPrizeEscrow))
    } else if ctx.prize_escrow.key != raffle.price_escrow->Some_0 {
        Some(RaffleError::Keys(KeysMismatchErrors::InvalidPrizeEscrow))
    } else if ctx.prize_escrow.owner != ctx.raffle_vault.key {
        Some(RaffleError::Keys(KeysMismatchErrors::InvalidPrizeEscrowOwner))
    } else if ctx.prize_escrow.mint != ctx.prize_mint.key {
        Some(RaffleError::Keys(KeysMismatchErrors::InvalidPrizeMint))
    } else {
        None
    }
}

/// The winner's token account as the claim uses it: opened empty where it
/// did not exist.
pub open spec fn winner_account(ctx: ClaimPrize) -> TokenAccount {
    if ctx.winner_prize_ata_is_empty {
        TokenAccount::opened(ctx.winner_prize_ata.key, ctx.prize_mint.key, ctx.winner.key, 0)
    } else {
        ctx.winner_prize_ata
    }
}

/// Why the prize of the slot cannot be paid, if it cannot, where
/// `expected_ata` is the address that the winner's token account must have.
pub open spec fn claim_payment_rejection(
    ctx: ClaimPrize,
    raffle: RaffleView,
    slot: int,
    expected_ata: Option<Pubkey>,
) -> Option<RaffleError> {
    let amount = slot_prize(raffle, slot) as u64;
    if raffle.prize_type == PrizeType::Sol {
        if !slot_prize_defined(raffle, slot) {
            Some(RaffleError::State(RaffleStateErrors::Overflow))
        } else if amount == 0 {
            Some(RaffleError::State(RaffleStateErrors::ZeroPrizeForWinner))
        } else {
            transfer_rejection(sol_transfer_rejection(ctx.raffle_vault, ctx.winner, amount))
        }
    } else if raffle.prize_type == PrizeType::Nft && (raffle.num_winners != 1 || slot != 0) {
        Some(RaffleError::State(RaffleStateErrors::InvalidWinnerIndex))
    } else if prize_accounts_rejection(ctx, raffle) is Some {
        prize_accounts_rejection(ctx, raffle)
    } else if !slot_prize_defined(raffle, slot) {
        Some(RaffleError::State(RaffleStateErrors::Overflow))
    } else if amount == 0 {
        Some(RaffleError::State(RaffleStateErrors::ZeroPrizeForWinner))
    } else if ata_check(ctx.winner_prize_ata.key, expected_ata, ctx.winner_prize_ata_is_empty) is Err {
        Some(RaffleError::Transfer(TransferErrors::InvalidAtaAddressMismatch))
    } else {
        transfer_rejection(
            token_transfer_rejection(
                ctx.prize_escrow,
                winner_account(ctx),
                ctx.raffle_vault.key,
                ctx.prize_mint,
                amount,
            ),
        )
    }
}

/// Why the prize of the slot cannot be claimed, if it cannot: the admission
/// first, then the payment.
pub open spec fn claim_prize_rejection(
    ctx: ClaimPrize,
    raffle: RaffleView,
    raffle_id: u32,
    slot: int,
    expected_ata: Option<Pubkey>,
) -> Option<RaffleError> {
    if claim_admission_rejection(ctx, raffle, raffle_id, slot) is Some {
        claim_admission_rejection(ctx, raffle, raffle_id, slot)
    } else {
        claim_payment_rejection(ctx, raffle, slot, expected_ata)
    }
}

/// The accounts after the prize of the slot was paid.
pub open spec fn claim_prize_effect(ctx: ClaimPrize, raffle: RaffleView, slot: int) -> ClaimPrize {
    let amount = slot_prize(raffle, slot) as u64;
    if raffle.prize_type == PrizeType::Sol {
        ClaimPrize {
            raffle_vault: ctx.raffle_vault.debited(amount),
            winner: ctx.winner.credited(amount),
            ..ctx
        }
    } else {
        ClaimPrize {
            prize_escrow: ctx.prize_escrow.debited(amount),
            winner_prize_ata: winner_account(ctx).credited(amount),
            winner_prize_ata_is_empty: false,
            ..ctx
        }
    }
}

/// The raffle after the slot was claimed.
pub open spec fn claimed_raffle(raffle: RaffleView, slot: int) -> RaffleView {
    RaffleView { is_win_claimed: raffle.is_win_claimed.update(slot, true), ..raffle }
}

/// At-most-once claim: after the prize of a slot was claimed, a second claim
/// of that slot by the same accounts is turned away with
/// `PrizeAlreadyClaimed`, whatever the address of the token account.
pub proof fn claim_is_at_most_once(
    ctx: ClaimPrize,
    raffle: RaffleView,
    raffle_id: u32,
    slot: int,
    expected_ata: Option<Pubkey>,
    later_ata: Option<Pubkey>,
)
    requires
        claim_prize_rejection(ctx, raffle, raffle_id, slot, expected_ata) is None,
    ensures
        claim_prize_rejection(
            claim_prize_effect(ctx, raffle, slot),
            claimed_raffle(raffle, slot),
            raffle_id,
            slot,
            later_ata,
        ) == Some(RaffleError::State(RaffleStateErrors::PrizeAlreadyClaimed)),
{
}

/// A claim leaves every other slot as it was: it sets the flag of its slot
/// and no other.
pub proof fn claim_touches_one_slot(raffle: RaffleView, slot: int, other: int)
    requires
        slot_exists(raffle, slot),
        slot_exists(raffle, other),
        other != slot,
    ensures
        claimed_raffle(raffle, slot).is_win_claimed[other] == raffle.is_win_claimed[other],
        claimed_raffle(raffle, slot).is_win_claimed[slot],
{
}

fn check_prize_accounts(ctx: &ClaimPrize, raffle: &Raffle) -> (r: Result<(), RaffleError>)
    ensures
        match r {
            Ok(()) => prize_accounts_rejection(*ctx, raffle@) is None,
            Err(e) => prize_accounts_rejection(*ctx, raffle@) == Some(e),
        },
{
    let stored_mint = match raffle.prize_mint {
        Some(key) => key,
        None => {
            return Err(RaffleError::Keys(KeysMismatchErrors::MissingPrizeMint));
        },
    };
    if !ctx.prize_mint.key.same(&stored_mint) {
        return Err(RaffleError::Keys(KeysMismatchErrors::InvalidPrizeMint));
    }
    let stored_escrow = match raffle.price_escrow {
        Some(key) => key,
        None => {
            return Err(RaffleError::Keys(KeysMismatchErrors::MissingPrizeEscrow));
        },
    };
    if !ctx.prize_escrow.key.same(&stored_escrow) {
        return Err(RaffleError::Keys(KeysMismatchErrors::InvalidPrizeEscrow));
    }
    if !ctx.prize_escrow.owner.same(&ctx.raffle_vault.key) {
        return Err(RaffleError::Keys(KeysMismatchErrors::InvalidPrizeEscrowOwner));
    }
    if !ctx.prize_escrow.mint.same(&ctx.prize_mint.key) {
        return Err(RaffleError::Keys(KeysMismatchErrors::InvalidPrizeMint));
    }
    Ok(())
}

/// Claims the prize of the slot `winner_index` for `ctx.winner`, where
/// `expected_ata` is the address that the winner's token account must have.
///
/// The raffle must have ended with winners, the caller must be the winner of
/// the slot, and the slot must not have been claimed. The slot is marked as
/// claimed and its prize goes from custody to the winner: the one item, or
/// the slot's share of the prize.
pub fn claim_prize_at(
    ctx: &mut ClaimPrize,
    raffle: &mut Raffle,
    raffle_id: u32,
    winner_index: u8,
    expected_ata: &Option<Pubkey>,
    now: i64,
) -> (r: Result<PrizeClaimed, RaffleError>)
    ensures
        match r {
            Ok(event) => {
                &&& claim_prize_rejection(
                    *old(ctx),
                    old(raffle)@,
                    raffle_id,
                    winner_index as int,
                    *expected_ata,
                ) is None
                &&& *final(ctx) == claim_prize_effect(*old(ctx), old(raffle)@, winner_index as int)
                &&& final(raffle)@ == claimed_raffle(old(raffle)@, winner_index as int)
                &&& event == (PrizeClaimed {
                    raffle_id,
                    winner: old(ctx).winner.key,
                    winner_index,
                    prize_type: old(raffle).prize_type,
                    prize_amount: slot_prize(old(raffle)@, winner_index as int) as u64,
                    claimed_time: now,
                })
            },
            Err(e) => {
                &&& claim_prize_rejection(
                    *old(ctx),
                    old(raffle)@,
                    raffle_id,
                    winner_index as int,
                    *expected_ata,
                ) == Some(e)
                &&& *final(ctx) == *old(ctx)
                &&& *final(raffle) == *old(raffle)
            },
        },
        final(ctx).custody_conserved(),
        r is Ok && old(raffle)@.well_formed() ==> final(raffle)@.well_formed(),
{
    proof {
        use_type_invariant(&ctx.raffle_vault.balance);
        use_type_invariant(&ctx.prize_escrow.balance);
    }
    let mut work = *ctx;
    if !work.raffle_config.raffle_admin.same(&work.raffle_admin) {
        return Err(RaffleError::Config(ConfigStateErrors::InvalidRaffleAdmin));
    }
    if raffle.raffle_id != raffle_id {
        return Err(RaffleError::State(RaffleStateErrors::InvalidRaffleId));
    }
    if raffle.status != RaffleState::SuccessEnded {
        return Err(RaffleError::State(RaffleStateErrors::RaffleNotSuccessEnded));
    }
    let idx = winner_index as usize;
    if !(idx < raffle.winners.len() && idx < raffle.win_shares.len() && idx
        < raffle.is_win_claimed.len()) {
        return Err(RaffleError::State(RaffleStateErrors::InvalidWinnerIndex));
    }
    if !raffle.winners[idx].same(&work.winner.key) {
        return Err(RaffleError::State(RaffleStateErrors::InvalidWinner));
    }
    if raffle.is_win_claimed[idx] {
        return Err(RaffleError::State(RaffleStateErrors::PrizeAlreadyClaimed));
    }
    let share_pct = raffle.win_shares[idx] as u64;
    let prize_type = raffle.prize_type;
    let amount = match prize_type {
        PrizeType::Sol => {
            let winner_amount = get_pct_amount(raffle.prize_amount, share_pct, TOTAL_PCT as u64)?;
            if winner_amount == 0 {
                return Err(RaffleError::State(RaffleStateErrors::ZeroPrizeForWinner));
            }
            match transfer_sol_with_seeds(&mut work.raffle_vault, &mut work.winner, winner_amount) {
                Ok(()) => {},
                Err(e) => {
                    return Err(RaffleError::Transfer(e));
                },
            }
            winner_amount
        },
        _ => {
            let is_nft_prize = prize_type == PrizeType::Nft;
            if is_nft_prize && (raffle.num_winners != 1 || idx != 0) {
                return Err(RaffleError::State(RaffleStateErrors::InvalidWinnerIndex));
            }
            check_prize_accounts(&work, raffle)?;
            let winner_amount = if is_nft_prize {
                1
            } else {
                get_pct_amount(raffle.prize_amount, share_pct, TOTAL_PCT as u64)?
            };
            if winner_amount == 0 {
                return Err(RaffleError::State(RaffleStateErrors::ZeroPrizeForWinner));
            }
            match check_ata(&work.winner_prize_ata.key, expected_ata, work.winner_prize_ata_is_empty) {
                Ok(create) => {
                    if create {
                        work.winner_prize_ata = TokenAccount::new(
                            work.winner_prize_ata.key,
                            work.prize_mint.key,
                            work.winner.key,
                            0,
                        );
                        work.winner_prize_ata_is_empty = false;
                    }
                },
                Err(e) => {
                    return Err(RaffleError::Transfer(e));
                },
            }
            let authority = work.raffle_vault.key;
            let prize_mint = work.prize_mint;
            match transfer_tokens_with_seeds(
                &mut work.prize_escrow,
                &mut work.winner_prize_ata,
                &authority,
                &prize_mint,
                winner_amount,
            ) {
                Ok(()) => {},
                Err(e) => {
                    return Err(RaffleError::Transfer(e));
                },
            }
            winner_amount
        },
    };
    raffle.is_win_claimed[idx] = true;
    *ctx = work;
    Ok(
        PrizeClaimed {
            raffle_id,
            winner: ctx.winner.key,
            winner_index,
            prize_type,
            prize_amount: amount,
            claimed_time: now,
        },
    )
}

/// Claims the prize of the slot `winner_index` for `ctx.winner`. The
/// winner's token account must be the associated token account of the
/// winner for the prize mint.
pub fn claim_prize(
    ctx: &mut ClaimPrize,
    raffle: &mut Raffle,
    raffle_id: u32,
    winner_index: u8,
    now: i64,
) -> (r: Result<PrizeClaimed, RaffleError>)
    ensures
        ({
            let expected_ata = associated_token_account(old(ctx).winner.key, old(ctx).prize_mint.key);
            match r {
                Ok(event) => {
                    &&& claim_prize_rejection(
                        *old(ctx),
                        old(raffle)@,
                        raffle_id,
                        winner_index as int,
                        expected_ata,
                    ) is None
                    &&& *final(ctx) == claim_prize_effect(*old(ctx), old(raffle)@, winner_index as int)
                    &&& final(raffle)@ == claimed_raffle(old(raffle)@, winner_index as int)
                    &&& event == (PrizeClaimed {
                        raffle_id,
                        winner: old(ctx).winner.key,
                        winner_index,
                        prize_type: old(raffle).prize_type,
                        prize_amount: slot_prize(old(raffle)@, winner_index as int) as u64,
                        claimed_time: now,
                    })
                },
                Err(e) => {
                    &&& claim_prize_rejection(
                        *old(ctx),
                        old(raffle)@,
                        raffle_id,
                        winner_index as int,
                        expected_ata,
                    ) == Some(e)
                    &&& *final(ctx) == *old(ctx)
                    &&& *final(raffle) == *old(raffle)
                },
            }
        }),
        final(ctx).custody_conserved(),
        r is Ok && old(raffle)@.well_formed() ==> final(raffle)@.well_formed(),
{
    let expected_ata = find_associated_token_account(&ctx.winner.key, &ctx.prize_mint.key);
    claim_prize_at(ctx, raffle, raffle_id, winner_index, &expected_ata, now)
}

} // verus!
