//! Closing a raffle after its end: the winners are named, the fee on the
//! ticket revenue goes to the house, and what the creator may claim is
//! written down. A raffle that sold no ticket fails, and its whole prize
//! becomes claimable by the creator.

use vstd::prelude::*;
use crate::custody::{
    sol_transfer_rejection,
    token_transfer_rejection,
    transfer_sol_with_seeds,
    transfer_tokens_with_seeds,
    Mint,
    SystemAccount,
    TokenAccount,
};
use crate::math::{
    fee_of,
    flag_set,
    has_duplicates,
    pct_amount,
    shares_sum,
    shares_sum_step,
    split_defined,
    split_revenue,
};
use crate::pubkey::Pubkey;
use crate::raffle::constants::{ANNOUNCE_WINNER_PAUSE, TOTAL_PCT};
use crate::raffle::errors::{
    transfer_rejection,
    ConfigStateErrors,
    KeysMismatchErrors,
    RaffleError,
    RaffleStateErrors,
};
use crate::raffle::states::{PrizeType, Raffle, RaffleConfig, RaffleState, RaffleView};
use crate::raffle::utils::{get_pct_amount, has_duplicate_pubkeys, is_paused};

verus! {

/// How the ticket revenue was split.
#[derive(Clone, Copy, Debug, PartialEq, Eq)]
pub struct ColledtedTicketRevenue {
    pub raffle_id: u32,
    pub creator_amount: u64,
    pub fee_amount: u64,
    pub total_tickets_sold: u16,
}

/// What is reported of a raffle that ended with winners.
#[derive(Clone, Copy, Debug, PartialEq, Eq)]
pub struct WinnersAnnounced {
    pub raffle_id: u32,
    pub effective_winners: u8,
    pub claimable_prize_back: u64,
    pub announce_time: i64,
}

/// What is reported of a raffle that sold no ticket.
#[derive(Clone, Copy, Debug, PartialEq, Eq)]
pub struct RaffleFailed {
    pub raffle_id: u32,
    pub claimable_prize_back: u64,
    pub announce_time: i64,
}

/// What `announce_winners` reports.
#[derive(Clone, Copy, Debug, PartialEq, Eq)]
pub enum Announcement {
    Failed(RaffleFailed),
    Announced(WinnersAnnounced, ColledtedTicketRevenue),
}

/// The accounts of `announce_winners`.
#[derive(Clone, Copy)]
pub struct AnnounceWinners {
    pub raffle_config: RaffleConfig,
    pub config_treasury: SystemAccount,
    pub raffle_vault: SystemAccount,
    pub raffle_admin: Pubkey,
    pub ticket_mint: Mint,
    pub ticket_escrow: TokenAccount,
    pub ticket_fee_treasury: TokenAccount,
}

impl AnnounceWinners {
    /// Custody conservation: of each account that holds value for the sale
    /// or for the house, what went out never exceeded what came in.
    pub open spec fn custody_conserved(self) -> bool {
        self.raffle_vault.conserved()
            && self.ticket_escrow.conserved()
            && self.config_treasury.conserved()
    }
}

/// The price of all tickets sold.
pub open spec fn ticket_revenue(raffle: RaffleView) -> int {
    raffle.ticket_price * raffle.tickets_sold
}

/// The house's fee on the ticket revenue.
pub open spec fn revenue_fee(raffle: RaffleView, config: RaffleConfig) -> nat {
    fee_of(ticket_revenue(raffle) as nat, config.ticket_fee_bps as nat)
}

/// Whether the split of the ticket revenue can be computed: the revenue and
/// its product with the fee rate fit in 64 bits, and the fee is no more than
/// the revenue.
pub open spec fn revenue_split_defined(raffle: RaffleView, config: RaffleConfig) -> bool {
    &&& ticket_revenue(raffle) <= u64::MAX
    &&& split_defined(ticket_revenue(raffle) as nat, config.ticket_fee_bps as nat)
}

/// What of the ticket revenue is the creator's: all but the fee.
pub open spec fn creator_revenue(raffle: RaffleView, config: RaffleConfig) -> int {
    ticket_revenue(raffle) - revenue_fee(raffle, config)
}

/// Why the fee on the ticket revenue cannot be taken, if it cannot: the
/// first of these that holds. The split is not defined (`Overflow`); for
/// tickets paid in tokens, the escrow or the mint is not of the raffle's
/// mint, the raffle names no escrow, the escrow is another one, the treasury
/// is not the house's or of another mint; the move is refused.
pub open spec fn revenue_rejection(ctx: AnnounceWinners, raffle: RaffleView) -> Option<RaffleError> {
    let fee = revenue_fee(raffle, ctx.raffle_config) as u64;
    if !revenue_split_defined(raffle, ctx.raffle_config) {
        Some(RaffleError::State(RaffleStateErrors::Overflow))
    } else {
        match raffle.ticket_mint {
            None => transfer_rejection(
                sol_transfer_rejection(ctx.raffle_vault, ctx.config_treasury, fee),
            ),
            Some(stored_mint) => {
                if ctx.ticket_escrow.mint != stored_mint || ctx.ticket_mint.key != stored_mint {
                    Some(RaffleError::Keys(KeysMismatchErrors::InvalidTicketMint))
                } else if raffle.ticker_escrow is None {
                    Some(RaffleError::Keys(KeysMismatchErrors::MissingTicketEscrow))
                } else if ctx.ticket_escrow.key != raffle.ticker_escrow->Some_0 {
                    Some(RaffleError::Keys(KeysMismatchErrors::InvalidTicketEscrow))
                } else if ctx.ticket_fee_treasury.owner != ctx.config_treasury.key {
                    Some(RaffleError::Keys(KeysMismatchErrors::InvalidFeeTreasuryAtaOwner))
                } else if ctx.ticket_fee_treasury.mint != stored_mint {
                    Some(RaffleError::Keys(KeysMismatchErrors::InvalidTicketMint))
                } else {
                    transfer_rejection(
                        token_transfer_rejection(
                            ctx.ticket_escrow,
                            ctx.ticket_fee_treasury,
                            ctx.raffle_vault.key,
                            ctx.ticket_mint,
                            fee,
                        ),
                    )
                }
            },
        }
    }
}

/// The accounts after the fee on the ticket revenue went to the house.
pub open spec fn revenue_effect(ctx: AnnounceWinners, raffle: RaffleView) -> AnnounceWinners {
    let fee = revenue_fee(raffle, ctx.raffle_config) as u64;
    match raffle.ticket_mint {
        None => AnnounceWinners {
            raffle_vault: ctx.raffle_vault.debited(fee),
            config_treasury: ctx.config_treasury.credited(fee),
            ..ctx
        },
        Some(_) => AnnounceWinners {
            ticket_escrow: ctx.ticket_escrow.debited(fee),
            ticket_fee_treasury: ctx.ticket_fee_treasury.credited(fee),
            ..ctx
        },
    }
}

/// The shares, in percent, of the slots that get a winner.
pub open spec fn assigned_pct(raffle: RaffleView) -> nat {
    let slots = if raffle.effective_winners() < raffle.win_shares.len() {
        raffle.effective_winners()
    } else {
        raffle.win_shares.len() as int
    };
    shares_sum(raffle.win_shares.take(slots))
}

/// The share of the prize, in percent, that no winner gets because fewer
/// tickets were sold than there are winner's slots.
pub open spec fn leftover_pct(raffle: RaffleView) -> int {
    if raffle.tickets_sold < raffle.num_winners {
        100 - assigned_pct(raffle)
    } else {
        0
    }
}

/// What of the prize the creator may claim back after the winners were
/// named: the leftover share of it, rounded down.
pub open spec fn leftover_prize(raffle: RaffleView) -> nat {
    pct_amount(raffle.prize_amount as nat, leftover_pct(raffle) as nat, 100)
}

/// Why the winners cannot be named, if they cannot: the first of these that
/// holds. For a unique item there is not exactly one winner. For another
/// prize, there is not one winner for each slot that gets one; an address
/// occurs twice though the winners shall be unique; the shares of those
/// slots exceed a hundred percent; the leftover of the prize overflows.
pub open spec fn winners_rejection(raffle: RaffleView, winners: Seq<Pubkey>) -> Option<RaffleError> {
    if raffle.prize_type == PrizeType::Nft {
        if winners.len() != 1 {
            Some(RaffleError::State(RaffleStateErrors::InvalidWinnersLength))
        } else {
            None
        }
    } else if winners.len() != raffle.effective_winners() {
        Some(RaffleError::State(RaffleStateErrors::InvalidWinnersLength))
    } else if raffle.is_unique_winners && has_duplicates(winners) {
        Some(RaffleError::State(RaffleStateErrors::DuplicateWinnersNotAllowed))
    } else if leftover_pct(raffle) < 0 {
        Some(RaffleError::State(RaffleStateErrors::InvalidWinShares))
    } else if raffle.prize_amount * leftover_pct(raffle) > u64::MAX {
        Some(RaffleError::State(RaffleStateErrors::Overflow))
    } else {
        None
    }
}

/// Why the raffle cannot be closed at `now`, whatever was sold, if it
/// cannot: the first of these that holds. The admin is not the configured
/// one; the raffle has another number; announcing is paused; the raffle is
/// not `Active`; the end time has not come.
pub open spec fn announce_admission_rejection(
    ctx: AnnounceWinners,
    raffle: RaffleView,
    raffle_id: u32,
    now: i64,
) -> Option<RaffleError> {
    if ctx.raffle_config.raffle_admin != ctx.raffle_admin {
        Some(RaffleError::Config(ConfigStateErrors::InvalidRaffleAdmin))
    } else if raffle.raffle_id != raffle_id {
        Some(RaffleError::State(RaffleStateErrors::InvalidRaffleId))
    } else if flag_set(ctx.raffle_config.pause_flags, ANNOUNCE_WINNER_PAUSE) {
        Some(RaffleError::State(RaffleStateErrors::FunctionPaused))
    } else if raffle.status != RaffleState::Active {
        Some(RaffleError::State(RaffleStateErrors::RaffleNotActive))
    } else if now < raffle.end_time {
        Some(RaffleError::State(RaffleStateErrors::EndTimeNotReached))
    } else {
        None
    }
}

/// Why the raffle cannot be closed at `now` with these winners, if it
/// cannot: the admission first; then, where a ticket was sold, the winners and the
/// fee on the revenue. A raffle that sold no ticket is closed whatever the
/// winners handed in.
pub open spec fn announce_winners_rejection(
    ctx: AnnounceWinners,
    raffle: RaffleView,
    raffle_id: u32,
    winners: Seq<Pubkey>,
    now: i64,
) -> Option<RaffleError> {
    if announce_admission_rejection(ctx, raffle, raffle_id, now) is Some {
        announce_admission_rejection(ctx, raffle, raffle_id, now)
    } else if raffle.tickets_sold == 0 {
        None
    } else if winners_rejection(raffle, winners) is Some {
        winners_rejection(raffle, winners)
    } else {
        revenue_rejection(ctx, raffle)
    }
}

/// The raffle after it was closed.
pub open spec fn announced_raffle(
    raffle: RaffleView,
    config: RaffleConfig,
    winners: Seq<Pubkey>,
) -> RaffleView {
    if raffle.tickets_sold == 0 {
        RaffleView {
            status: RaffleState::FailedEnded,
            claimable_prize_back: raffle.prize_amount,
            ..raffle
        }
    } else {
        RaffleView {
            status: RaffleState::SuccessEnded,
            winners,
            claimable_prize_back: if raffle.prize_type == PrizeType::Nft {
                raffle.claimable_prize_back
            } else {
                leftover_prize(raffle) as u64
            },
            claimable_ticket_amount: creator_revenue(raffle, config) as u64,
            ..raffle
        }
    }
}

/// What is reported of the raffle that was closed at `now`.
pub open spec fn announcement(raffle: RaffleView, config: RaffleConfig, now: i64) -> Announcement {
    if raffle.tickets_sold == 0 {
        Announcement::Failed(
            RaffleFailed {
                raffle_id: raffle.raffle_id,
                claimable_prize_back: raffle.prize_amount,
                announce_time: now,
            },
        )
    } else {
        Announcement::Announced(
            WinnersAnnounced {
                raffle_id: raffle.raffle_id,
                effective_winners: if raffle.prize_type == PrizeType::Nft {
                    1
                } else {
                    raffle.effective_winners() as u8
                },
                claimable_prize_back: if raffle.prize_type == PrizeType::Nft {
                    0
                } else {
                    leftover_prize(raffle) as u64
                },
                announce_time: now,
            },
            ColledtedTicketRevenue {
                raffle_id: raffle.raffle_id,
                creator_amount: creator_revenue(raffle, config) as u64,
                fee_amount: revenue_fee(raffle, config) as u64,
                total_tickets_sold: raffle.tickets_sold,
            },
        )
    }
}

/// Splits the ticket revenue: the fee goes to the house, and the rest is
/// returned as what the creator may claim.
fn process_ticket_revenue(work: &mut AnnounceWinners, raffle: &Raffle) -> (r: Result<
    ColledtedTicketRevenue,
    RaffleError,
>)
    ensures
        match r {
            Ok(split) => {
                &&& revenue_rejection(*old(work), raffle@) is None
                &&& *final(work) == revenue_effect(*old(work), raffle@)
                &&& split == (ColledtedTicketRevenue {
                    raffle_id: raffle.raffle_id,
                    creator_amount: creator_revenue(raffle@, old(work).raffle_config) as u64,
                    fee_amount: revenue_fee(raffle@, old(work).raffle_config) as u64,
                    total_tickets_sold: raffle.tickets_sold,
                })
                &&& split.fee_amount + split.creator_amount == ticket_revenue(raffle@)
            },
            Err(e) => revenue_rejection(*old(work), raffle@) == Some(e),
        },
{
    let total_revenue = match raffle.ticket_price.checked_mul(raffle.tickets_sold as u64) {
        Some(total) => total,
        None => {
            return Err(RaffleError::State(RaffleStateErrors::Overflow));
        },
    };
    let (fee_amount, creator_amount) = match split_revenue(
        total_revenue,
        work.raffle_config.ticket_fee_bps,
    ) {
        Some(parts) => parts,
        None => {
            return Err(RaffleError::State(RaffleStateErrors::Overflow));
        },
    };
    match raffle.ticket_mint {
        None => {
            match transfer_sol_with_seeds(&mut work.raffle_vault, &mut work.config_treasury, fee_amount) {
                Ok(()) => {},
                Err(e) => {
                    return Err(RaffleError::Transfer(e));
                },
            }
        },
        Some(stored_mint) => {
            if !work.ticket_escrow.mint.same(&stored_mint) || !work.ticket_mint.key.same(
                &stored_mint,
            ) {
                return Err(RaffleError::Keys(KeysMismatchErrors::InvalidTicketMint));
            }
            let stored_escrow = match raffle.ticker_escrow {
                Some(key) => key,
                None => {
                    return Err(RaffleError::Keys(KeysMismatchErrors::MissingTicketEscrow));
                },
            };
            if !work.ticket_escrow.key.same(&stored_escrow) {
                return Err(RaffleError::Keys(KeysMismatchErrors::InvalidTicketEscrow));
            }
            if !work.ticket_fee_treasury.owner.same(&work.config_treasury.key) {
                return Err(RaffleError::Keys(KeysMismatchErrors::InvalidFeeTreasuryAtaOwner));
            }
            if !work.ticket_fee_treasury.mint.same(&stored_mint) {
                return Err(RaffleError::Keys(KeysMismatchErrors::InvalidTicketMint));
            }
            let authority = work.raffle_vault.key;
            let ticket_mint = work.ticket_mint;
            match transfer_tokens_with_seeds(
                &mut work.ticket_escrow,
                &mut work.ticket_fee_treasury,
                &authority,
                &ticket_mint,
                fee_amount,
            ) {
                Ok(()) => {},
                Err(e) => {
                    return Err(RaffleError::Transfer(e));
                },
            }
        },
    }
    Ok(
        ColledtedTicketRevenue {
            raffle_id: raffle.raffle_id,
            creator_amount,
            fee_amount,
            total_tickets_sold: raffle.tickets_sold,
        },
    )
}

/// The sum of the first `slots` shares, or of all where there are fewer.
fn sum_of_first_shares(win_shares: &Vec<u8>, slots: usize) -> (total: u64)
    requires
        slots <= 255,
    ensures
        total == shares_sum(
            win_shares@.take(
                if slots < win_shares@.len() {
                    slots as int
                } else {
                    win_shares@.len() as int
                },
            ),
        ),
{
    let n = if slots < win_shares.len() {
        slots
    } else {
        win_shares.len()
    };
    let mut total: u64 = 0;
    let mut i: usize = 0;
    while i < n
        invariant
            i <= n <= win_shares@.len(),
            n <= 255,
            total == shares_sum(win_shares@.take(i as int)),
            total <= 255 * i,
        decreases n - i,
    {
        proof {
            shares_sum_step(win_shares@, i as int);
        }
        total = total + win_shares[i] as u64;
        i += 1;
    }
    total
}

/// Checks the winners and computes what of the prize the creator may claim
/// back.
fn check_winners(raffle: &Raffle, winners: &Vec<Pubkey>) -> (r: Result<u64, RaffleError>)
    requires
        raffle.tickets_sold > 0,
    ensures
        match r {
            Ok(back) => {
                &&& winners_rejection(raffle@, winners@) is None
                &&& raffle.prize_type != PrizeType::Nft ==> back == leftover_prize(raffle@)
                &&& raffle.prize_type == PrizeType::Nft ==> back == raffle.claimable_prize_back
            },
            Err(e) => winners_rejection(raffle@, winners@) == Some(e),
        },
{
    if raffle.prize_type == PrizeType::Nft {
        if winners.len() != 1 {
            return Err(RaffleError::State(RaffleStateErrors::InvalidWinnersLength));
        }
        return Ok(raffle.claimable_prize_back);
    }
    let sold = raffle.tickets_sold as usize;
    let num_winners = raffle.num_winners as usize;
    let actual_winners = if sold < num_winners {
        sold
    } else {
        num_winners
    };
    if winners.len() != actual_winners {
        return Err(RaffleError::State(RaffleStateErrors::InvalidWinnersLength));
    }
    if raffle.is_unique_winners && has_duplicate_pubkeys(winners.as_slice()) {
        return Err(RaffleError::State(RaffleStateErrors::DuplicateWinnersNotAllowed));
    }
    if sold < num_winners {
        let assigned = sum_of_first_shares(&raffle.win_shares, actual_winners);
        if assigned > TOTAL_PCT as u64 {
            return Err(RaffleError::State(RaffleStateErrors::InvalidWinShares));
        }
        let leftover = TOTAL_PCT as u64 - assigned;
        get_pct_amount(raffle.prize_amount, leftover, TOTAL_PCT as u64)
    } else {
        assert(pct_amount(raffle.prize_amount as nat, 0, 100) == 0) by (nonlinear_arith);
        Ok(0)
    }
}

/// Closes the raffle at the time `now`, which must not be before its end.
///
/// Where no ticket was sold the raffle ends as `FailedEnded`, the whole
/// prize becomes claimable by the creator, and nothing is moved. Else the
/// raffle ends as `SuccessEnded` with `winners` as its winners: the fee on
/// the ticket revenue goes to the house, the rest of the revenue becomes
/// claimable by the creator, and so does the share of the prize of the slots
/// that got no winner. Fee and creator's part together are exactly the
/// revenue.
pub fn announce_winners(
    ctx: &mut AnnounceWinners,
    raffle: &mut Raffle,
    raffle_id: u32,
    winners: Vec<Pubkey>,
    now: i64,
) -> (r: Result<Announcement, RaffleError>)
    ensures
        match r {
            Ok(event) => {
                &&& announce_winners_rejection(*old(ctx), old(raffle)@, raffle_id, winners@, now) is None
                &&& final(raffle)@ == announced_raffle(old(raffle)@, old(ctx).raffle_config, winners@)
                &&& *final(ctx) == if old(raffle).tickets_sold == 0 {
                    *old(ctx)
                } else {
                    revenue_effect(*old(ctx), old(raffle)@)
                }
                &&& event == announcement(old(raffle)@, old(ctx).raffle_config, now)
            },
            Err(e) => {
                &&& announce_winners_rejection(*old(ctx), old(raffle)@, raffle_id, winners@, now)
                    == Some(e)
                &&& *final(ctx) == *old(ctx)
                &&& *final(raffle) == *old(raffle)
            },
        },
        r is Ok && old(raffle).tickets_sold > 0 ==> {
            &&& final(raffle).status == RaffleState::SuccessEnded
            &&& revenue_fee(old(raffle)@, old(ctx).raffle_config) + final(raffle).claimable_ticket_amount
                == ticket_revenue(old(raffle)@)
        },
        r is Ok && old(raffle)@.well_formed() ==> final(raffle)@.well_formed(),
        r is Ok && old(raffle).tickets_sold == 0 ==> {
            &&& final(raffle).status == RaffleState::FailedEnded
            &&& final(raffle).claimable_prize_back == old(raffle).prize_amount
            &&& final(raffle).claimable_ticket_amount == old(raffle).claimable_ticket_amount
            &&& *final(ctx) == *old(ctx)
        },
        final(ctx).custody_conserved(),
{
    proof {
        use_type_invariant(&ctx.raffle_vault.balance);
        use_type_invariant(&ctx.ticket_escrow.balance);
        use_type_invariant(&ctx.config_treasury.balance);
    }
    let mut work = *ctx;
    if !work.raffle_config.raffle_admin.same(&work.raffle_admin) {
        return Err(RaffleError::Config(ConfigStateErrors::InvalidRaffleAdmin));
    }
    if raffle.raffle_id != raffle_id {
        return Err(RaffleError::State(RaffleStateErrors::InvalidRaffleId));
    }
    if is_paused(work.raffle_config.pause_flags, ANNOUNCE_WINNER_PAUSE) {
        return Err(RaffleError::State(RaffleStateErrors::FunctionPaused));
    }
    if raffle.status != RaffleState::Active {
        return Err(RaffleError::State(RaffleStateErrors::RaffleNotActive));
    }
    if now < raffle.end_time {
        return Err(RaffleError::State(RaffleStateErrors::EndTimeNotReached));
    }
    if raffle.tickets_sold == 0 {
        raffle.status = RaffleState::FailedEnded;
        raffle.claimable_prize_back = raffle.prize_amount;
        return Ok(
            Announcement::Failed(
                RaffleFailed {
                    raffle_id: raffle.raffle_id,
                    claimable_prize_back: raffle.prize_amount,
                    announce_time: now,
                },
            ),
        );
    }
    let claimable_back = check_winners(raffle, &winners)?;
    let split = process_ticket_revenue(&mut work, raffle)?;
    let is_nft_prize = raffle.prize_type == PrizeType::Nft;
    let announced = WinnersAnnounced {
        raffle_id: raffle.raffle_id,
        effective_winners: if is_nft_prize {
            1
        } else {
            winners.len() as u8
        },
        claimable_prize_back: if is_nft_prize {
            0
        } else {
            claimable_back
        },
        announce_time: now,
    };
    raffle.claimable_prize_back = claimable_back;
    raffle.claimable_ticket_amount = split.creator_amount;
    raffle.winners = winners;
    raffle.status = RaffleState::SuccessEnded;
    *ctx = work;
    Ok(Announcement::Announced(announced, split))
}

} // verus!
