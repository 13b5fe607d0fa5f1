//! A winner takes, in one step, the prizes of all slots that are theirs and
//! not yet claimed.

use vstd::prelude::*;
use crate::custody::{
    sol_transfer_rejection,
    token_transfer_rejection,
    transfer_sol_with_seeds,
    transfer_tokens_with_seeds,
    Mint,
    SystemAccount,
    TokenAccount,
};
use crate::math::{flag_set, pct_amount};
use crate::pubkey::Pubkey;
use crate::raffle::constants::{BUYER_CLAIM_PRIZE_PAUSE, TOTAL_PCT};
use crate::raffle::errors::{
    transfer_rejection,
    ConfigStateErrors,
    KeysMismatchErrors,
    RaffleError,
    RaffleStateErrors,
};
use crate::raffle::states::{Buyer, PrizeType, Raffle, RaffleConfig, RaffleState, RaffleView};
use crate::raffle::utils::{get_pct_amount, is_paused};

verus! {

/// What is reported of each slot that was claimed.
#[derive(Clone, Copy, Debug, PartialEq, Eq)]
pub struct PrizeClaimed {
    pub raffle_id: u32,
    pub winner: Pubkey,
    pub winner_index: u8,
    pub prize_type: PrizeType,
    pub prize_amount: u64,
    pub claimed_time: i64,
}

/// The accounts of `buyer_claim_prize`.
#[derive(Clone, Copy)]
pub struct BuyerClaimPrize {
    pub raffle_config: RaffleConfig,
    pub raffle_vault: SystemAccount,
    pub buyer_account: Buyer,
    pub raffle_admin: Pubkey,
    pub winner: SystemAccount,
    pub prize_mint: Mint,
    pub prize_escrow: TokenAccount,
    pub winner_prize_ata: TokenAccount,
}

impl BuyerClaimPrize {
    /// Custody conservation: of each account that holds value for the sale
    /// or for the house, what went out never exceeded what came in.
    pub open spec fn custody_conserved(self) -> bool {
        self.raffle_vault.conserved() && self.prize_escrow.conserved()
    }
}

/// The number of slots that have a winner, a share and a flag, 255 at most.
pub open spec fn slot_count(raffle: RaffleView) -> int {
    let a = raffle.winners.len() as int;
    let b = raffle.win_shares.len() as int;
    let c = raffle.is_win_claimed.len() as int;
    let m = if a < b {
        a
    } else {
        b
    };
    let n = if m < c {
        m
    } else {
        c
    };
    if n < 255 {
        n
    } else {
        255
    }
}

/// The slot is `winner`'s and not yet claimed.
pub open spec fn claimable(raffle: RaffleView, winner: Pubkey, slot: int) -> bool {
    0 <= slot < slot_count(raffle) && raffle.winners[slot] == winner && !raffle.is_win_claimed[slot]
}

/// The prize of a slot: the one item, or the slot's share of the prize,
/// rounded down.
pub open spec fn slot_prize(raffle: RaffleView, slot: int) -> nat {
    if raffle.prize_type == PrizeType::Nft {
        1
    } else {
        pct_amount(raffle.prize_amount as nat, raffle.win_shares[slot] as nat, 100)
    }
}

/// How many of the first `n` slots `winner` can claim.
pub open spec fn claim_count(raffle: RaffleView, winner: Pubkey, n: int) -> nat
    decreases n,
{
    if n <= 0 {
        0
    } else {
        claim_count(raffle, winner, n - 1) + if claimable(raffle, winner, n - 1) {
            1nat
        } else {
            0nat
        }
    }
}

/// The prizes of those of the first `n` slots that `winner` can claim,
/// summed.
pub open spec fn batch_sum(raffle: RaffleView, winner: Pubkey, n: int) -> nat
    decreases n,
{
    if n <= 0 {
        0
    } else {
        batch_sum(raffle, winner, n - 1) + if claimable(raffle, winner, n - 1) {
            slot_prize(raffle, n - 1)
        } else {
            0
        }
    }
}

/// Why the prizes of those of the first `n` slots that `winner` can claim
/// cannot be summed, if they cannot: going through the slots in order, the
/// first of these. The prize of a slot overflows; it is zero; the sum so far
/// overflows.
pub open spec fn batch_rejection(raffle: RaffleView, winner: Pubkey, n: int) -> Option<RaffleError>
    decreases n,
{
    if n <= 0 {
        None
    } else if batch_rejection(raffle, winner, n - 1) is Some {
        batch_rejection(raffle, winner, n - 1)
    } else if !claimable(raffle, winner, n - 1) {
        None
    } else if raffle.prize_type != PrizeType::Nft && raffle.prize_amount * raffle.win_shares[n - 1]
        > u64::MAX {
        Some(RaffleError::State(RaffleStateErrors::Overflow))
    } else if slot_prize(raffle, n - 1) == 0 {
        Some(RaffleError::State(RaffleStateErrors::ZeroPrizeForWinner))
    } else if batch_sum(raffle, winner, n) > u64::MAX {
        Some(RaffleError::State(RaffleStateErrors::Overflow))
    } else {
        None
    }
}

/// What is reported of those of the first `n` slots that `winner` can claim,
/// in the order of the slots.
pub open spec fn batch_events(raffle: RaffleView, winner: Pubkey, n: int, now: i64) -> Seq<PrizeClaimed>
    decreases n,
{
    if n <= 0 {
        Seq::empty()
    } else if claimable(raffle, winner, n - 1) {
        batch_events(raffle, winner, n - 1, now).push(
            PrizeClaimed {
                raffle_id: raffle.raffle_id,
                winner,
                winner_index: (n - 1) as u8,
                prize_type: raffle.prize_type,
                prize_amount: slot_prize(raffle, n - 1) as u64,
                claimed_time: now,
            },
        )
    } else {
        batch_events(raffle, winner, n - 1, now)
    }
}

/// The flags after `winner` claimed every slot that they could.
pub open spec fn flags_after_claim(raffle: RaffleView, winner: Pubkey) -> Seq<bool> {
    Seq::new(
        raffle.is_win_claimed.len(),
        |i: int| raffle.is_win_claimed[i] || claimable(raffle, winner, i),
    )
}

/// Why the accounts of a prize in tokens are refused, if they are.
pub open spec fn prize_accounts_rejection(ctx: BuyerClaimPrize, raffle: RaffleView) -> Option<
    RaffleError,
> {
    if raffle.prize_mint is None {
        Some(RaffleError::Keys(KeysMismatchErrors::MissingPrizeMint))
    } else if ctx.prize_mint.key != raffle.prize_mint->Some_0 || ctx.winner_prize_ata.mint
        != raffle.prize_mint->Some_0 || ctx.prize_escrow.mint != raffle.prize_mint->Some_0 {
        Some(RaffleError::Keys(KeysMismatchErrors::InvalidPrizeMint))
    } else if ctx.prize_escrow.owner != ctx.raffle_vault.key {
        Some(RaffleError::Keys(KeysMismatchErrors::InvalidPrizeEscrowOwner))
    } else if ctx.winner_prize_ata.owner != ctx.winner.key {
        Some(RaffleError::Keys(KeysMismatchErrors::InvalidPrizeAtaOwner))
    } else {
        None
    }
}

/// Why `winner` cannot claim, if they cannot: the first of these that holds.
/// The admin is not the configured one; the raffle has another number; the
/// buyer's record is of another raffle or of another wallet; claiming is
/// paused; the raffle did not end with winners; no slot is left to claim;
/// for a prize in tokens, the accounts are refused, or a unique item is
/// claimed for more than one slot; the prizes cannot be summed; the move is
/// refused.
pub open spec fn buyer_claim_prize_rejection(
    ctx: BuyerClaimPrize,
    raffle: RaffleView,
    raffle_id: u32,
) -> Option<RaffleError> {
    let winner = ctx.winner.key;
    let n = slot_count(raffle);
    let total = batch_sum(raffle, winner, n) as u64;
    if ctx.raffle_config.raffle_admin != ctx.raffle_admin {
        Some(RaffleError::Config(ConfigStateErrors::InvalidRaffleAdmin))
    } else if raffle.raffle_id != raffle_id || ctx.buyer_account.raffle_id != raffle_id {
        Some(RaffleError::State(RaffleStateErrors::InvalidRaffleId))
    } else if ctx.buyer_account.user != winner {
        Some(RaffleError::Keys(KeysMismatchErrors::InvalidBuyerAccountUser))
    } else if flag_set(ctx.raffle_config.pause_flags, BUYER_CLAIM_PRIZE_PAUSE) {
        Some(RaffleError::State(RaffleStateErrors::FunctionPaused))
    } else if raffle.status != RaffleState::SuccessEnded {
        Some(RaffleError::State(RaffleStateErrors::RaffleNotSuccessEnded))
    } else if claim_count(raffle, winner, n) == 0 {
        Some(RaffleError::State(RaffleStateErrors::PrizeAlreadyClaimed))
    } else if raffle.prize_type == PrizeType::Sol {
        if batch_rejection(raffle, winner, n) is Some {
            batch_rejection(raffle, winner, n)
        } else {
            transfer_rejection(sol_transfer_rejection(ctx.raffle_vault, ctx.winner, total))
        }
    } else if prize_accounts_rejection(ctx, raffle) is Some {
        prize_accounts_rejection(ctx, raffle)
    } else if raffle.prize_type == PrizeType::Nft && claim_count(raffle, winner, n) != 1 {
        Some(RaffleError::State(RaffleStateErrors::InvalidWinnerIndex))
    } else if batch_rejection(raffle, winner, n) is Some {
        batch_rejection(raffle, winner, n)
    } else {
        transfer_rejection(
            token_transfer_rejection(
                ctx.prize_escrow,
                ctx.winner_prize_ata,
                ctx.raffle_vault.key,
                ctx.prize_mint,
                total,
            ),
        )
    }
}

/// The accounts after the prizes were paid in one sum.
pub open spec fn buyer_claim_prize_effect(ctx: BuyerClaimPrize, raffle: RaffleView) -> BuyerClaimPrize {
    let total = batch_sum(raffle, ctx.winner.key, slot_count(raffle)) as u64;
    if raffle.prize_type == PrizeType::Sol {
        BuyerClaimPrize {
            raffle_vault: ctx.raffle_vault.debited(total),
            winner: ctx.winner.credited(total),
            ..ctx
        }
    } else {
        BuyerClaimPrize {
            prize_escrow: ctx.prize_escrow.debited(total),
            winner_prize_ata: ctx.winner_prize_ata.credited(total),
            ..ctx
        }
    }
}

/// After `winner` claimed every slot that they could, none is left for them
/// to claim.
pub proof fn nothing_left_to_claim(raffle: RaffleView, winner: Pubkey, n: int)
    requires
        n <= slot_count(raffle),
    ensures
        claim_count(
            RaffleView { is_win_claimed: flags_after_claim(raffle, winner), ..raffle },
            winner,
            n,
        ) == 0,
    decreases n,
{
    if n > 0 {
        nothing_left_to_claim(raffle, winner, n - 1);
    }
}

/// At-most-once claim: after a winner claimed their slots in one step, a
/// second such claim by the same accounts is turned away with
/// `PrizeAlreadyClaimed`.
pub proof fn batch_claim_is_at_most_once(ctx: BuyerClaimPrize, raffle: RaffleView, raffle_id: u32)
    requires
        buyer_claim_prize_rejection(ctx, raffle, raffle_id) is None,
    ensures
        buyer_claim_prize_rejection(
            buyer_claim_prize_effect(ctx, raffle),
            RaffleView { is_win_claimed: flags_after_claim(raffle, ctx.winner.key), ..raffle },
            raffle_id,
        ) == Some(RaffleError::State(RaffleStateErrors::PrizeAlreadyClaimed)),
{
    let later = RaffleView { is_win_claimed: flags_after_claim(raffle, ctx.winner.key), ..raffle };
    assert(slot_count(later) == slot_count(raffle));
    nothing_left_to_claim(raffle, ctx.winner.key, slot_count(raffle));
}

/// The checked sum of a batch: what the loop over the slots has found.
struct Batch {
    count: u64,
    total: u64,
    events: Vec<PrizeClaimed>,
    flags: Vec<bool>,
}

/// Goes through the slots in order, sums the prizes of those that `winner`
/// can claim, and prepares the flags and the reports.
fn sum_batch(raffle: &Raffle, winner: &Pubkey, raffle_id: u32, now: i64) -> (r: (
    Batch,
    Option<RaffleError>,
))
    requires
        raffle.raffle_id == raffle_id,
    ensures
        ({
            let n = slot_count(raffle@);
            let (batch, rejection) = r;
            &&& batch.count == claim_count(raffle@, *winner, n)
            &&& rejection == batch_rejection(raffle@, *winner, n)
            &&& rejection is None ==> {
                &&& batch.total == batch_sum(raffle@, *winner, n)
                &&& batch.events@ == batch_events(raffle@, *winner, n, now)
                &&& batch.flags@ == flags_after_claim(raffle@, *winner)
            }
        }),
{
    let a = raffle.winners.len();
    let b = raffle.win_shares.len();
    let c = raffle.is_win_claimed.len();
    let m = if a < b {
        a
    } else {
        b
    };
    let k = if m < c {
        m
    } else {
        c
    };
    let n = if k < 255 {
        k
    } else {
        255
    };
    let is_nft_prize = raffle.prize_type == PrizeType::Nft;
    let mut count: u64 = 0;
    let mut total: u64 = 0;
    let mut events: Vec<PrizeClaimed> = Vec::new();
    let mut flags: Vec<bool> = Vec::new();
    let mut rejection: Option<RaffleError> = None;
    let mut i: usize = 0;
    while i < n
        invariant
            n == slot_count(raffle@),
            i <= n <= 255,
            is_nft_prize == (raffle.prize_type == PrizeType::Nft),
            raffle.raffle_id == raffle_id,
            count == claim_count(raffle@, *winner, i as int),
            count <= i,
            rejection == batch_rejection(raffle@, *winner, i as int),
            rejection is None ==> {
                &&& total == batch_sum(raffle@, *winner, i as int)
                &&& events@ == batch_events(raffle@, *winner, i as int, now)
                &&& flags@.len() == i
                &&& forall|j: int|
                    0 <= j < i ==> flags@[j] == (raffle.is_win_claimed@[j] || claimable(
                        raffle@,
                        *winner,
                        j,
                    ))
            },
        decreases n - i,
    {
        let mine = raffle.winners[i].same(winner) && !raffle.is_win_claimed[i];
        if mine {
            count = count + 1;
        }
        if rejection.is_none() {
            if mine {
                let amount = if is_nft_prize {
                    Ok(1)
                } else {
                    get_pct_amount(raffle.prize_amount, raffle.win_shares[i] as u64, TOTAL_PCT as u64)
                };
                match amount {
                    Err(e) => {
                        rejection = Some(e);
                    },
                    Ok(amt) => {
                        if amt == 0 {
                            rejection = Some(RaffleError::State(RaffleStateErrors::ZeroPrizeForWinner));
                        } else {
                            match total.checked_add(amt) {
                                None => {
                                    rejection = Some(RaffleError::State(RaffleStateErrors::Overflow));
                                },
                                Some(sum) => {
                                    total = sum;
                                    events.push(
                                        PrizeClaimed {
                                            raffle_id,
                                            winner: *winner,
                                            winner_index: i as u8,
                                            prize_type: raffle.prize_type,
                                            prize_amount: amt,
                                            claimed_time: now,
                                        },
                                    );
                                    flags.push(true);
                                },
                            }
                        }
                    },
                }
            } else {
                flags.push(raffle.is_win_claimed[i]);
            }
        }
        i += 1;
    }
    if rejection.is_none() {
        let mut j: usize = n;
        while j < c
            invariant
                n <= j <= c,
                c == raffle.is_win_claimed@.len(),
                n == slot_count(raffle@),
                flags@.len() == j,
                forall|x: int|
                    0 <= x < j ==> flags@[x] == (raffle.is_win_claimed@[x] || claimable(
                        raffle@,
                        *winner,
                        x,
                    )),
            decreases c - j,
        {
            flags.push(raffle.is_win_claimed[j]);
            j += 1;
        }
        assert(flags@ =~= flags_after_claim(raffle@, *winner));
    }
    (Batch { count, total, events, flags }, rejection)
}

fn check_prize_accounts(ctx: &BuyerClaimPrize, raffle: &Raffle) -> (r: Result<(), RaffleError>)
    ensures
        match r {
            Ok(()) => prize_accounts_rejection(*ctx, raffle@) is None,
            Err(e) => prize_accounts_rejection(*ctx, raffle@) == Some(e),
        },
{
    let stored_mint = match raffle.prize_mint {
        Some(key) => key,
        None => {
            return Err(RaffleError::Keys(KeysMismatchErrors::MissingPrizeMint));
        },
    };
    if !ctx.prize_mint.key.same(&stored_mint) || !ctx.winner_prize_ata.mint.same(&stored_mint)
        || !ctx.prize_escrow.mint.same(&stored_mint) {
        return Err(RaffleError::Keys(KeysMismatchErrors::InvalidPrizeMint));
    }
    if !ctx.prize_escrow.owner.same(&ctx.raffle_vault.key) {
        return Err(RaffleError::Keys(KeysMismatchErrors::InvalidPrizeEscrowOwner));
    }
    if !ctx.winner_prize_ata.owner.same(&ctx.winner.key) {
        return Err(RaffleError::Keys(KeysMismatchErrors::InvalidPrizeAtaOwner));
    }
    Ok(())
}

/// Claims for `ctx.winner`, at the time `now`, the prizes of all slots that
/// are theirs and not yet claimed.
///
/// Every such slot is marked as claimed, and the prizes go from custody to
/// the winner in one sum. The report has one entry for each slot, in the
/// order of the slots.
pub fn buyer_claim_prize(ctx: &mut BuyerClaimPrize, raffle: &mut Raffle, raffle_id: u32, now: i64) -> (r:
    Result<Vec<PrizeClaimed>, RaffleError>)
    ensures
        match r {
            Ok(events) => {
                &&& buyer_claim_prize_rejection(*old(ctx), old(raffle)@, raffle_id) is None
                &&& *final(ctx) == buyer_claim_prize_effect(*old(ctx), old(raffle)@)
                &&& final(raffle)@ == (RaffleView {
                    is_win_claimed: flags_after_claim(old(raffle)@, old(ctx).winner.key),
                    ..old(raffle)@
                })
                &&& events@ == batch_events(
                    old(raffle)@,
                    old(ctx).winner.key,
                    slot_count(old(raffle)@),
                    now,
                )
            },
            Err(e) => {
                &&& buyer_claim_prize_rejection(*old(ctx), old(raffle)@, raffle_id) == Some(e)
                &&& *final(ctx) == *old(ctx)
                &&& *final(raffle) == *old(raffle)
            },
        },
        final(ctx).custody_conserved(),
        r is Ok && old(raffle)@.well_formed() ==> final(raffle)@.well_formed(),
{
    proof {
        use_type_invariant(&ctx.raffle_vault.balance);
        use_type_invariant(&ctx.prize_escrow.balance);
    }
    let mut work = *ctx;
    if !work.raffle_config.raffle_admin.same(&work.raffle_admin) {
        return Err(RaffleError::Config(ConfigStateErrors::InvalidRaffleAdmin));
    }
    if raffle.raffle_id != raffle_id || work.buyer_account.raffle_id != raffle_id {
        return Err(RaffleError::State(RaffleStateErrors::InvalidRaffleId));
    }
    if !work.buyer_account.user.same(&work.winner.key) {
        return Err(RaffleError::Keys(KeysMismatchErrors::InvalidBuyerAccountUser));
    }
    if is_paused(work.raffle_config.pause_flags, BUYER_CLAIM_PRIZE_PAUSE) {
        return Err(RaffleError::State(RaffleStateErrors::FunctionPaused));
    }
    if raffle.status != RaffleState::SuccessEnded {
        return Err(RaffleError::State(RaffleStateErrors::RaffleNotSuccessEnded));
    }
    let winner_key = work.winner.key;
    let (batch, rejection) = sum_batch(raffle, &winner_key, raffle_id, now);
    if batch.count == 0 {
        return Err(RaffleError::State(RaffleStateErrors::PrizeAlreadyClaimed));
    }
    match raffle.prize_type {
        PrizeType::Sol => {
            if let Some(e) = rejection {
                return Err(e);
            }
            match transfer_sol_with_seeds(&mut work.raffle_vault, &mut work.winner, batch.total) {
                Ok(()) => {},
                Err(e) => {
                    return Err(RaffleError::Transfer(e));
                },
            }
        },
        _ => {
            check_prize_accounts(&work, raffle)?;
            if raffle.prize_type == PrizeType::Nft && batch.count != 1 {
                return Err(RaffleError::State(RaffleStateErrors::InvalidWinnerIndex));
            }
            if let Some(e) = rejection {
                return Err(e);
            }
            let authority = work.raffle_vault.key;
            let prize_mint = work.prize_mint;
            match transfer_tokens_with_seeds(
                &mut work.prize_escrow,
                &mut work.winner_prize_ata,
                &authority,
                &prize_mint,
                batch.total,
            ) {
                Ok(()) => {},
                Err(e) => {
                    return Err(RaffleError::Transfer(e));
                },
            }
        },
    }
    raffle.is_win_claimed = batch.flags;
    *ctx = work;
    Ok(batch.events)
}

} // verus!
