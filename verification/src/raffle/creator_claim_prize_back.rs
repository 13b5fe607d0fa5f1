//! After the raffle has ended, the creator takes the part of the prize that
//! no winner gets.

use vstd::prelude::*;
use crate::custody::{
    associated_token_account,
    ata_check,
    check_ata,
    find_associated_token_account,
    sol_transfer_rejection,
    token_transfer_rejection,
    transfer_sol_with_seeds,
    transfer_tokens_with_seeds,
    Mint,
    SystemAccount,
    TokenAccount,
    TransferErrors,
};
use crate::pubkey::Pubkey;
use crate::raffle::errors::{
    transfer_rejection,
    ConfigStateErrors,
    KeysMismatchErrors,
    RaffleError,
    RaffleStateErrors,
};
use crate::raffle::states::{PrizeType, Raffle, RaffleConfig, RaffleState, RaffleView};

verus! {

/// What `creator_claim_prize_back` reports.
#[derive(Clone, Copy, Debug, PartialEq, Eq)]
pub struct PrizeBackClaimed {
    pub raffle_id: u32,
    pub creator: Pubkey,
    pub prize_type: PrizeType,
    pub amount: u64,
}

/// The accounts of `creator_claim_prize_back`. `creator_prize_ata` is the
/// creator's token account for the prize; where `creator_prize_ata_is_empty`
/// it does not exist yet, only its address counts, and the claim opens it.
#[derive(Clone, Copy)]
pub struct CreatorClaimPrizeBack {
    pub raffle_config: RaffleConfig,
    pub raffle_vault: SystemAccount,
    pub creator: SystemAccount,
    pub raffle_admin: Pubkey,
    pub prize_mint: Mint,
    pub prize_escrow: TokenAccount,
    pub creator_prize_ata: TokenAccount,
    pub creator_prize_ata_is_empty: bool,
}

impl CreatorClaimPrizeBack {
    /// Custody conservation: of each account that holds value for the sale
    /// or for the house, what went out never exceeded what came in.
    pub open spec fn custody_conserved(self) -> bool {
        self.raffle_vault.conserved() && self.prize_escrow.conserved()
    }
}

/// The creator's token account as the claim uses it: opened empty where it
/// did not exist.
pub open spec fn creator_account(ctx: CreatorClaimPrizeBack) -> TokenAccount {
    if ctx.creator_prize_ata_is_empty {
        TokenAccount::opened(ctx.creator_prize_ata.key, ctx.prize_mint.key, ctx.creator.key, 0)
    } else {
        ctx.creator_prize_ata
    }
}

/// Why the creator cannot claim the prize back, if they cannot, where
/// `expected_ata` is the address that the creator's token account must
/// have: the first of these that holds. The admin is not the configured
/// one; the caller is not the creator; the raffle has another number; it has
/// not ended; nothing of the prize can be claimed; for a prize in tokens,
/// the raffle names no mint, the mint is another one, the raffle names no
/// escrow, the escrow is another one or not the raffle's, the token account
/// has another address; the move is refused.
pub open spec fn creator_claim_prize_back_rejection(
    ctx: CreatorClaimPrizeBack,
    raffle: RaffleView,
    raffle_id: u32,
    expected_ata: Option<Pubkey>,
) -> Option<RaffleError> {
    let claimable = raffle.claimable_prize_back;
    if ctx.raffle_config.raffle_admin != ctx.raffle_admin {
        Some(RaffleError::Config(ConfigStateErrors::InvalidRaffleAdmin))
    } else if raffle.creator != ctx.creator.key {
        Some(RaffleError::State(RaffleStateErrors::InvalidCreator))
    } else if raffle.raffle_id != raffle_id {
        Some(RaffleError::State(RaffleStateErrors::InvalidRaffleId))
    } else if raffle.status != RaffleState::FailedEnded && raffle.status != RaffleState::SuccessEnded {
        Some(RaffleError::State(RaffleStateErrors::RaffleNotEnded))
    } else if claimable == 0 {
        Some(RaffleError::State(RaffleStateErrors::InvalidZeroAmount))
    } else if raffle.prize_type == PrizeType::Sol {
        transfer_rejection(sol_transfer_rejection(ctx.raffle_vault, ctx.creator, claimable))
    } else if raffle.prize_mint is None {
        Some(RaffleError::Keys(KeysMismatchErrors::MissingPrizeMint))
    } else if ctx.prize_mint.key != raffle.prize_mint->Some_0 {
        Some(RaffleError::Keys(KeysMismatchErrors::InvalidPrizeMint))
    } else if raffle.price_escrow is None {
        Some(RaffleError::Keys(KeysMismatchErrors::MissingPrizeEscrow))
    } else if ctx.prize_escrow.key != raffle.price_escrow->Some_0 {
        Some(RaffleError::Keys(KeysMismatchErrors::InvalidPrizeEscrow))
    } else if ctx.prize_escrow.owner != ctx.raffle_vault.key {
        Some(RaffleError::Keys(KeysMismatchErrors::InvalidPrizeEscrowOwner))
    } else if ata_check(ctx.creator_prize_ata.key, expected_ata, ctx.creator_prize_ata_is_empty) is Err {
        Some(RaffleError::Transfer(TransferErrors::InvalidAtaAddressMismatch))
    } else {
        transfer_rejection(
            token_transfer_rejection(
                ctx.prize_escrow,
                creator_account(ctx),
                ctx.raffle_vault.key,
                ctx.prize_mint,
                claimable,
            ),
        )
    }
}

/// The accounts after the creator took the prize back.
pub open spec fn creator_claim_prize_back_effect(
    ctx: CreatorClaimPrizeBack,
    raffle: RaffleView,
) -> CreatorClaimPrizeBack {
    let claimable = raffle.claimable_prize_back;
    if raffle.prize_type == PrizeType::Sol {
        CreatorClaimPrizeBack {
            raffle_vault: ctx.raffle_vault.debited(claimable),
            creator: ctx.creator.credited(claimable),
            ..ctx
        }
    } else {
        CreatorClaimPrizeBack {
            prize_escrow: ctx.prize_escrow.debited(claimable),
            creator_prize_ata: creator_account(ctx).credited(claimable),
            creator_prize_ata_is_empty: false,
            ..ctx
        }
    }
}

/// After the creator took the prize back, a second such claim by the same
/// accounts finds nothing and is turned away with `InvalidZeroAmount`.
pub proof fn prize_back_is_at_most_once(
    ctx: CreatorClaimPrizeBack,
    raffle: RaffleView,
    raffle_id: u32,
    expected_ata: Option<Pubkey>,
    later_ata: Option<Pubkey>,
)
    requires
        creator_claim_prize_back_rejection(ctx, raffle, raffle_id, expected_ata) is None,
    ensures
        creator_claim_prize_back_rejection(
            creator_claim_prize_back_effect(ctx, raffle),
            RaffleView { claimable_prize_back: 0, ..raffle },
            raffle_id,
            later_ata,
        ) == Some(RaffleError::State(RaffleStateErrors::InvalidZeroAmount)),
{
}

/// Pays the creator what they may claim back of the prize, where
/// `expected_ata` is the address that the creator's token account must
/// have, and writes the claim down to zero.
pub fn creator_claim_prize_back_at(
    ctx: &mut CreatorClaimPrizeBack,
    raffle: &mut Raffle,
    raffle_id: u32,
    expected_ata: &Option<Pubkey>,
) -> (r: Result<PrizeBackClaimed, RaffleError>)
    ensures
        match r {
            Ok(event) => {
                &&& creator_claim_prize_back_rejection(
                    *old(ctx),
                    old(raffle)@,
                    raffle_id,
                    *expected_ata,
                ) is None
                &&& *final(ctx) == creator_claim_prize_back_effect(*old(ctx), old(raffle)@)
                &&& final(raffle)@ == (RaffleView { claimable_prize_back: 0, ..old(raffle)@ })
                &&& event == (PrizeBackClaimed {
                    raffle_id,
                    creator: old(ctx).creator.key,
                    prize_type: old(raffle).prize_type,
                    amount: old(raffle).claimable_prize_back,
                })
            },
            Err(e) => {
                &&& creator_claim_prize_back_rejection(*old(ctx), old(raffle)@, raffle_id, *expected_ata)
                    == Some(e)
                &&& *final(ctx) == *old(ctx)
                &&& *final(raffle) == *old(raffle)
            },
        },
        final(ctx).custody_conserved(),
        r is Ok && old(raffle)@.well_formed() ==> final(raffle)@.well_formed(),
{
    proof {
        use_type_invariant(&ctx.raffle_vault.balance);
        use_type_invariant(&ctx.prize_escrow.balance);
    }
    let mut work = *ctx;
    if !work.raffle_config.raffle_admin.same(&work.raffle_admin) {
        return Err(RaffleError::Config(ConfigStateErrors::InvalidRaffleAdmin));
    }
    if !raffle.creator.same(&work.creator.key) {
        return Err(RaffleError::State(RaffleStateErrors::InvalidCreator));
    }
    if raffle.raffle_id != raffle_id {
        return Err(RaffleError::State(RaffleStateErrors::InvalidRaffleId));
    }
    if raffle.status != RaffleState::FailedEnded && raffle.status != RaffleState::SuccessEnded {
        return Err(RaffleError::State(RaffleStateErrors::RaffleNotEnded));
    }
    let claimable = raffle.claimable_prize_back;
    if claimable == 0 {
        return Err(RaffleError::State(RaffleStateErrors::InvalidZeroAmount));
    }
    match raffle.prize_type {
        PrizeType::Sol => {
            match transfer_sol_with_seeds(&mut work.raffle_vault, &mut work.creator, claimable) {
                Ok(()) => {},
                Err(e) => {
                    return Err(RaffleError::Transfer(e));
                },
            }
        },
        _ => {
            let stored_mint = match raffle.prize_mint {
                Some(key) => key,
                None => {
                    return Err(RaffleError::Keys(KeysMismatchErrors::MissingPrizeMint));
                },
            };
            if !work.prize_mint.key.same(&stored_mint) {
                return Err(RaffleError::Keys(KeysMismatchErrors::InvalidPrizeMint));
            }
            let stored_escrow = match raffle.price_escrow {
                Some(key) => key,
                None => {
                    return Err(RaffleError::Keys(KeysMismatchErrors::MissingPrizeEscrow));
                },
            };
            if !work.prize_escrow.key.same(&stored_escrow) {
                return Err(RaffleError::Keys(KeysMismatchErrors::InvalidPrizeEscrow));
            }
            if !work.prize_escrow.owner.same(&work.raffle_vault.key) {
                return Err(RaffleError::Keys(KeysMismatchErrors::InvalidPrizeEscrowOwner));
            }
            match check_ata(&work.creator_prize_ata.key, expected_ata, work.creator_prize_ata_is_empty) {
                Ok(create) => {
                    if create {
                        work.creator_prize_ata = TokenAccount::new(
                            work.creator_prize_ata.key,
                            work.prize_mint.key,
                            work.creator.key,
                            0,
                        );
                        work.creator_prize_ata_is_empty = false;
                    }
                },
                Err(e) => {
                    return Err(RaffleError::Transfer(e));
                },
            }
            let authority = work.raffle_vault.key;
            let prize_mint = work.prize_mint;
            match transfer_tokens_with_seeds(
                &mut work.prize_escrow,
                &mut work.creator_prize_ata,
                &authority,
                &prize_mint,
                claimable,
            ) {
                Ok(()) => {},
                Err(e) => {
                    return Err(RaffleError::Transfer(e));
                },
            }
        },
    }
    let prize_type = raffle.prize_type;
    raffle.claimable_prize_back = 0;
    *ctx = work;
    Ok(PrizeBackClaimed { raffle_id, creator: ctx.creator.key, prize_type, amount: claimable })
}

/// Pays the creator what they may claim back of the prize and writes the
/// claim down to zero. The creator's token account must be the associated
/// token account of the creator for the prize mint.
pub fn creator_claim_prize_back(ctx: &mut CreatorClaimPrizeBack, raffle: &mut Raffle, raffle_id: u32) -> (r:
    Result<PrizeBackClaimed, RaffleError>)
    ensures
        ({
            let expected_ata = associated_token_account(old(ctx).creator.key, old(ctx).prize_mint.key);
            match r {
                Ok(event) => {
                    &&& creator_claim_prize_back_rejection(
                        *old(ctx),
                        old(raffle)@,
                        raffle_id,
                        expected_ata,
                    ) is None
                    &&& *final(ctx) == creator_claim_prize_back_effect(*old(ctx), old(raffle)@)
                    &&& final(raffle)@ == (RaffleView { claimable_prize_back: 0, ..old(raffle)@ })
                    &&& event == (PrizeBackClaimed {
                        raffle_id,
                        creator: old(ctx).creator.key,
                        prize_type: old(raffle).prize_type,
                        amount: old(raffle).claimable_prize_back,
                    })
                },
                Err(e) => {
                    &&& creator_claim_prize_back_rejection(*old(ctx), old(raffle)@, raffle_id, expected_ata)
                        == Some(e)
                    &&& *final(ctx) == *old(ctx)
                    &&& *final(raffle) == *old(raffle)
                },
            }
        }),
        final(ctx).custody_conserved(),
        r is Ok && old(raffle)@.well_formed() ==> final(raffle)@.well_formed(),
{
    let expected_ata = find_associated_token_account(&ctx.creator.key, &ctx.prize_mint.key);
    creator_claim_prize_back_at(ctx, raffle, raffle_id, &expected_ata)
}

} // verus!
