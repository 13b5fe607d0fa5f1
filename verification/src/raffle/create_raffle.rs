//! Opening a raffle: the terms are checked, the creation fee is paid and the
//! prize is locked into custody.

use vstd::prelude::*;
use crate::custody::{
    sol_transfer_rejection,
    token_transfer_rejection,
    transfer_sol,
    transfer_tokens,
    Mint,
    SystemAccount,
    TokenAccount,
};
use crate::math::{flag_set, valid_win_shares};
use crate::pubkey::{default_pubkey, Pubkey};
use crate::raffle::constants::{CREATE_RAFFLE_PAUSE, TOTAL_PCT};
use crate::raffle::errors::{
    transfer_rejection,
    ConfigStateErrors,
    KeysMismatchErrors,
    RaffleError,
    RaffleStateErrors,
};
use crate::raffle::states::{PrizeType, Raffle, RaffleConfig, RaffleState, RaffleView};
use crate::raffle::utils::{is_paused, validate_win_shares};

verus! {

/// What `create_raffle` reports.
#[derive(Clone, Copy, Debug, PartialEq, Eq)]
pub struct RaffleCreated {
    pub raffle_id: u32,
    pub creator: Pubkey,
    pub start_time: i64,
    pub end_time: i64,
    pub created_at: i64,
}

/// The accounts of `create_raffle`. `raffle_vault` is the raffle's own
/// account: its address is the raffle's, and it holds what is paid in the
/// native currency.
#[derive(Clone, Copy)]
pub struct CreateRaffle {
    pub raffle_config: RaffleConfig,
    pub config_treasury: SystemAccount,
    pub raffle_vault: SystemAccount,
    pub creator: SystemAccount,
    pub raffle_admin: Pubkey,
    pub ticket_mint: Mint,
    pub prize_mint: Mint,
    pub ticket_escrow: TokenAccount,
    pub prize_escrow: TokenAccount,
    pub creator_prize_ata: TokenAccount,
}

impl CreateRaffle {
    /// Custody conservation: of each account that holds value for the sale
    /// or for the house, what went out never exceeded what came in.
    pub open spec fn custody_conserved(self) -> bool {
        self.raffle_vault.conserved()
            && self.prize_escrow.conserved()
            && self.ticket_escrow.conserved()
            && self.config_treasury.conserved()
    }
}

/// The terms of a raffle, as its creator asks for them.
pub struct RaffleTerms {
    pub start_time: i64,
    pub end_time: i64,
    pub total_tickets: u16,
    pub ticket_price: u64,
    pub is_ticket_sol: bool,
    pub max_per_wallet_pct: u8,
    pub prize_type: PrizeType,
    pub prize_amount: u64,
    pub num_winners: u8,
    pub win_shares: Seq<u8>,
    pub is_unique_winners: bool,
    pub start_raffle: bool,
}

impl RaffleTerms {
    /// When the raffle starts: at `now` where it starts at once.
    pub open spec fn effective_start(self, now: i64) -> i64 {
        if self.start_raffle {
            now
        } else {
            self.start_time
        }
    }

    /// The terms as they are taken: a unique item is one prize for one
    /// winner, who gets all of it.
    pub open spec fn normalized(self) -> RaffleTerms {
        if self.prize_type == PrizeType::Nft {
            RaffleTerms { prize_amount: 1, num_winners: 1, win_shares: seq![100u8], ..self }
        } else {
            self
        }
    }
}

/// The least share of all tickets, in percent, with which the cap of one
/// wallet is at least one ticket.
pub open spec fn min_wallet_pct(total_tickets: u16) -> int
    recommends
        total_tickets > 0,
{
    (100 + total_tickets - 1) / (total_tickets as int)
}

/// The length of the window lies within the configured bounds.
pub open spec fn period_allowed(config: RaffleConfig, start_time: i64, end_time: i64) -> bool {
    config.minimum_raffle_period <= end_time - start_time <= config.maximum_raffle_period
}

/// The number of tickets is not zero and lies within the configured bounds.
pub open spec fn tickets_allowed(config: RaffleConfig, total_tickets: u16) -> bool {
    total_tickets > 0 && config.minimum_tickets <= total_tickets <= config.maximum_tickets
}

/// The cap of one wallet lets it buy a ticket and is at most the configured
/// cap.
pub open spec fn wallet_pct_allowed(
    config: RaffleConfig,
    total_tickets: u16,
    max_per_wallet_pct: u8,
) -> bool {
    min_wallet_pct(total_tickets) <= max_per_wallet_pct <= config.maximum_wallet_pct
}

/// Why the terms, already normalized, are refused at `now`, if they are: the
/// first of these that holds. The price is zero; the number of tickets is not
/// allowed; there is no winner; there are more winners than tickets, or than
/// the configuration allows; the prize is less than one unit for each winner;
/// the shares are not one for each winner, or no valid schedule; the length
/// of the window does not fit in 64 bits; the start lies in the past; the
/// length of the window is not allowed; the cap of one wallet is not.
pub open spec fn terms_rejection(config: RaffleConfig, terms: RaffleTerms, now: i64) -> Option<
    RaffleError,
> {
    let start = terms.effective_start(now);
    if terms.ticket_price == 0 {
        Some(RaffleError::State(RaffleStateErrors::InvalidTicketZeroPrice))
    } else if !tickets_allowed(config, terms.total_tickets) {
        Some(RaffleError::State(RaffleStateErrors::InvalidTotalTickets))
    } else if terms.num_winners == 0 {
        Some(RaffleError::State(RaffleStateErrors::InvalidZeroWinnersCount))
    } else if terms.total_tickets < terms.num_winners {
        Some(RaffleError::State(RaffleStateErrors::WinnersExceedTotalTickets))
    } else if terms.num_winners > config.maximum_winners_count {
        Some(RaffleError::State(RaffleStateErrors::ExceedMaxWinners))
    } else if terms.prize_amount < terms.num_winners {
        Some(RaffleError::State(RaffleStateErrors::InsufficientPrizeAmount))
    } else if terms.win_shares.len() != terms.num_winners || !valid_win_shares(terms.win_shares) {
        Some(RaffleError::State(RaffleStateErrors::InvalidWinShares))
    } else if !(i64::MIN <= terms.end_time - start <= i64::MAX) {
        Some(RaffleError::State(RaffleStateErrors::StartTimeExceedEndTime))
    } else if start < now {
        Some(RaffleError::State(RaffleStateErrors::StartTimeInPast))
    } else if !period_allowed(config, start, terms.end_time) {
        Some(RaffleError::Config(ConfigStateErrors::InvalidRafflePeriod))
    } else if !wallet_pct_allowed(config, terms.total_tickets, terms.max_per_wallet_pct) {
        Some(RaffleError::State(RaffleStateErrors::InvalidMaxPerWalletPct))
    } else {
        None
    }
}

/// Why the creation fee cannot be paid, if it cannot. A fee of zero is not
/// moved.
pub open spec fn creation_fee_rejection(ctx: CreateRaffle) -> Option<RaffleError> {
    if ctx.raffle_config.creation_fee_lamports > 0 {
        transfer_rejection(
            sol_transfer_rejection(
                ctx.creator,
                ctx.config_treasury,
                ctx.raffle_config.creation_fee_lamports,
            ),
        )
    } else {
        None
    }
}

/// The accounts after the creation fee was paid.
pub open spec fn creation_fee_effect(ctx: CreateRaffle) -> CreateRaffle {
    let fee = ctx.raffle_config.creation_fee_lamports;
    if fee > 0 {
        CreateRaffle {
            creator: ctx.creator.debited(fee),
            config_treasury: ctx.config_treasury.credited(fee),
            ..ctx
        }
    } else {
        ctx
    }
}

/// Whether the mint is that of a unique item: no decimals and a supply of one.
pub open spec fn is_nft(mint: Mint) -> bool {
    mint.decimals == 0 && mint.supply == 1
}

/// Why the prize cannot be locked into custody, if it cannot. A prize of
/// tokens must be a unique item exactly where the raffle says so, must come
/// from the creator's own account and go to an account that the raffle holds,
/// both of the prize mint.
pub open spec fn prize_lock_rejection(ctx: CreateRaffle, prize_type: PrizeType, prize_amount: u64) -> Option<
    RaffleError,
> {
    if prize_type == PrizeType::Sol {
        transfer_rejection(sol_transfer_rejection(ctx.creator, ctx.raffle_vault, prize_amount))
    } else if is_nft(ctx.prize_mint) != (prize_type == PrizeType::Nft) {
        Some(RaffleError::State(RaffleStateErrors::InvalidNFT))
    } else if ctx.creator_prize_ata.owner != ctx.creator.key {
        Some(RaffleError::Keys(KeysMismatchErrors::InvalidPrizeAtaOwner))
    } else if ctx.creator_prize_ata.mint != ctx.prize_mint.key {
        Some(RaffleError::Keys(KeysMismatchErrors::InvalidPrizeMint))
    } else if ctx.prize_escrow.owner != ctx.raffle_vault.key {
        Some(RaffleError::Keys(KeysMismatchErrors::InvalidPrizeEscrowOwner))
    } else if ctx.prize_escrow.mint != ctx.prize_mint.key {
        Some(RaffleError::Keys(KeysMismatchErrors::InvalidPrizeMint))
    } else {
        transfer_rejection(
            token_transfer_rejection(
                ctx.creator_prize_ata,
                ctx.prize_escrow,
                ctx.creator.key,
                ctx.prize_mint,
                prize_amount,
            ),
        )
    }
}

/// The accounts after the prize was locked into custody.
pub open spec fn prize_lock_effect(
    ctx: CreateRaffle,
    prize_type: PrizeType,
    prize_amount: u64,
) -> CreateRaffle {
    if prize_type == PrizeType::Sol {
        CreateRaffle {
            creator: ctx.creator.debited(prize_amount),
            raffle_vault: ctx.raffle_vault.credited(prize_amount),
            ..ctx
        }
    } else {
        CreateRaffle {
            creator_prize_ata: ctx.creator_prize_ata.debited(prize_amount),
            prize_escrow: ctx.prize_escrow.credited(prize_amount),
            ..ctx
        }
    }
}

/// Why the account that shall hold the ticket revenue is refused, if it is.
/// Tickets paid in the native currency need none.
pub open spec fn ticket_escrow_rejection(ctx: CreateRaffle, is_ticket_sol: bool) -> Option<RaffleError> {
    if is_ticket_sol {
        None
    } else if ctx.ticket_escrow.owner != ctx.raffle_vault.key {
        Some(RaffleError::Keys(KeysMismatchErrors::InvalidTicketEscrowOwner))
    } else if ctx.ticket_escrow.mint != ctx.ticket_mint.key {
        Some(RaffleError::Keys(KeysMismatchErrors::InvalidTicketMint))
    } else {
        None
    }
}

/// Why the raffle cannot be created at `now`, if it cannot: the first of
/// these that holds. The admin is not the configured one; creating is paused;
/// the terms are refused; the fee cannot be paid; the prize cannot be locked;
/// the ticket escrow is refused; the counter of raffles is exhausted.
pub open spec fn create_raffle_rejection(ctx: CreateRaffle, terms: RaffleTerms, now: i64) -> Option<
    RaffleError,
> {
    let taken = terms.normalized();
    let paid = creation_fee_effect(ctx);
    if ctx.raffle_config.raffle_admin != ctx.raffle_admin {
        Some(RaffleError::Config(ConfigStateErrors::InvalidRaffleAdmin))
    } else if flag_set(ctx.raffle_config.pause_flags, CREATE_RAFFLE_PAUSE) {
        Some(RaffleError::State(RaffleStateErrors::FunctionPaused))
    } else if terms_rejection(ctx.raffle_config, taken, now) is Some {
        terms_rejection(ctx.raffle_config, taken, now)
    } else if creation_fee_rejection(ctx) is Some {
        creation_fee_rejection(ctx)
    } else if prize_lock_rejection(paid, taken.prize_type, taken.prize_amount) is Some {
        prize_lock_rejection(paid, taken.prize_type, taken.prize_amount)
    } else if ticket_escrow_rejection(ctx, terms.is_ticket_sol) is Some {
        ticket_escrow_rejection(ctx, terms.is_ticket_sol)
    } else if ctx.raffle_config.raffle_count == u32::MAX {
        Some(RaffleError::State(RaffleStateErrors::Overflow))
    } else {
        None
    }
}

/// The raffle as it is created: no ticket is sold, every winner's slot is
/// empty and unclaimed, and nothing can be claimed back.
pub open spec fn created_raffle(
    ctx: CreateRaffle,
    terms: RaffleTerms,
    now: i64,
    raffle_bump: u8,
) -> RaffleView {
    let taken = terms.normalized();
    RaffleView {
        raffle_id: ctx.raffle_config.raffle_count,
        creator: ctx.creator.key,
        start_time: taken.effective_start(now),
        end_time: taken.end_time,
        total_tickets: taken.total_tickets,
        tickets_sold: 0,
        ticket_price: taken.ticket_price,
        ticket_mint: if taken.is_ticket_sol {
            None
        } else {
            Some(ctx.ticket_mint.key)
        },
        ticker_escrow: if taken.is_ticket_sol {
            None
        } else {
            Some(ctx.ticket_escrow.key)
        },
        max_per_wallet_pct: taken.max_per_wallet_pct,
        prize_type: taken.prize_type,
        prize_amount: taken.prize_amount,
        prize_mint: if taken.prize_type == PrizeType::Sol {
            None
        } else {
            Some(ctx.prize_mint.key)
        },
        price_escrow: if taken.prize_type == PrizeType::Sol {
            None
        } else {
            Some(ctx.prize_escrow.key)
        },
        num_winners: taken.num_winners,
        win_shares: taken.win_shares,
        winners: Seq::new(taken.num_winners as nat, |i: int| default_pubkey()),
        is_win_claimed: Seq::new(taken.num_winners as nat, |i: int| false),
        status: if taken.start_raffle {
            RaffleState::Active
        } else {
            RaffleState::Initialized
        },
        is_unique_winners: taken.is_unique_winners,
        claimable_prize_back: 0,
        claimable_ticket_amount: 0,
        raffle_bump,
    }
}

/// The accounts after the raffle was created: the fee is paid, the prize is
/// in custody, and the counter has moved on.
pub open spec fn create_raffle_effect(ctx: CreateRaffle, terms: RaffleTerms) -> CreateRaffle {
    let taken = terms.normalized();
    let locked = prize_lock_effect(creation_fee_effect(ctx), taken.prize_type, taken.prize_amount);
    CreateRaffle {
        raffle_config: RaffleConfig {
            raffle_count: (ctx.raffle_config.raffle_count + 1) as u32,
            ..ctx.raffle_config
        },
        ..locked
    }
}

fn check_terms(
    config: &RaffleConfig,
    start: i64,
    end_time: i64,
    total_tickets: u16,
    ticket_price: u64,
    max_per_wallet_pct: u8,
    prize_amount: u64,
    num_winners: u8,
    win_shares: &Vec<u8>,
    now: i64,
) -> (r: Result<(), RaffleError>)
    ensures
        ({
            let terms = RaffleTerms {
                start_time: start,
                end_time,
                total_tickets,
                ticket_price,
                is_ticket_sol: true,
                max_per_wallet_pct,
                prize_type: PrizeType::Sol,
                prize_amount,
                num_winners,
                win_shares: win_shares@,
                is_unique_winners: true,
                start_raffle: false,
            };
            match r {
                Ok(()) => terms_rejection(*config, terms, now) is None,
                Err(e) => terms_rejection(*config, terms, now) == Some(e),
            }
        }),
{
    if ticket_price == 0 {
        return Err(RaffleError::State(RaffleStateErrors::InvalidTicketZeroPrice));
    }
    if !(total_tickets > 0 && config.minimum_tickets <= total_tickets && total_tickets
        <= config.maximum_tickets) {
        return Err(RaffleError::State(RaffleStateErrors::InvalidTotalTickets));
    }
    if num_winners == 0 {
        return Err(RaffleError::State(RaffleStateErrors::InvalidZeroWinnersCount));
    }
    if total_tickets < num_winners as u16 {
        return Err(RaffleError::State(RaffleStateErrors::WinnersExceedTotalTickets));
    }
    if num_winners > config.maximum_winners_count {
        return Err(RaffleError::State(RaffleStateErrors::ExceedMaxWinners));
    }
    if prize_amount < num_winners as u64 {
        return Err(RaffleError::State(RaffleStateErrors::InsufficientPrizeAmount));
    }
    if win_shares.len() != num_winners as usize || !validate_win_shares(win_shares.as_slice()) {
        return Err(RaffleError::State(RaffleStateErrors::InvalidWinShares));
    }
    let duration = match end_time.checked_sub(start) {
        Some(d) => d,
        None => {
            return Err(RaffleError::State(RaffleStateErrors::StartTimeExceedEndTime));
        },
    };
    if start < now {
        return Err(RaffleError::State(RaffleStateErrors::StartTimeInPast));
    }
    if !(duration >= config.minimum_raffle_period as i64 && duration
        <= config.maximum_raffle_period as i64) {
        return Err(RaffleError::Config(ConfigStateErrors::InvalidRafflePeriod));
    }
    let min_pct = (TOTAL_PCT as u32 + total_tickets as u32 - 1) / (total_tickets as u32);
    if !(max_per_wallet_pct as u32 >= min_pct && max_per_wallet_pct <= config.maximum_wallet_pct) {
        return Err(RaffleError::State(RaffleStateErrors::InvalidMaxPerWalletPct));
    }
    Ok(())
}

fn lock_prize(work: &mut CreateRaffle, prize_type: PrizeType, prize_amount: u64) -> (r: Result<
    (),
    RaffleError,
>)
    ensures
        match r {
            Ok(()) => {
                &&& prize_lock_rejection(*old(work), prize_type, prize_amount) is None
                &&& *final(work) == prize_lock_effect(*old(work), prize_type, prize_amount)
            },
            Err(e) => prize_lock_rejection(*old(work), prize_type, prize_amount) == Some(e),
        },
{
    match prize_type {
        PrizeType::Sol => {
            match transfer_sol(&mut work.creator, &mut work.raffle_vault, prize_amount) {
                Ok(()) => Ok(()),
                Err(e) => Err(RaffleError::Transfer(e)),
            }
        },
        _ => {
            let prize_nft = work.prize_mint.decimals == 0 && work.prize_mint.supply == 1;
            let is_nft_prize = prize_type == PrizeType::Nft;
            if prize_nft != is_nft_prize {
                return Err(RaffleError::State(RaffleStateErrors::InvalidNFT));
            }
            if !work.creator_prize_ata.owner.same(&work.creator.key) {
                return Err(RaffleError::Keys(KeysMismatchErrors::InvalidPrizeAtaOwner));
            }
            if !work.creator_prize_ata.mint.same(&work.prize_mint.key) {
                return Err(RaffleError::Keys(KeysMismatchErrors::InvalidPrizeMint));
            }
            if !work.prize_escrow.owner.same(&work.raffle_vault.key) {
                return Err(RaffleError::Keys(KeysMismatchErrors::InvalidPrizeEscrowOwner));
            }
            if !work.prize_escrow.mint.same(&work.prize_mint.key) {
                return Err(RaffleError::Keys(KeysMismatchErrors::InvalidPrizeMint));
            }
            let creator_key = work.creator.key;
            let prize_mint = work.prize_mint;
            match transfer_tokens(
                &mut work.creator_prize_ata,
                &mut work.prize_escrow,
                &creator_key,
                &prize_mint,
                prize_amount,
            ) {
                Ok(()) => Ok(()),
                Err(e) => Err(RaffleError::Transfer(e)),
            }
        },
    }
}

/// A list of `n` empty winner's slots.
fn empty_winners(n: u8) -> (winners: Vec<Pubkey>)
    ensures
        winners@ == Seq::new(n as nat, |i: int| default_pubkey()),
{
    let mut winners: Vec<Pubkey> = Vec::new();
    let mut i: u8 = 0;
    while i < n
        invariant
            i <= n,
            winners@ == Seq::new(i as nat, |k: int| default_pubkey()),
        decreases n - i,
    {
        winners.push(Pubkey::default());
        i += 1;
        assert(winners@ =~= Seq::new(i as nat, |k: int| default_pubkey()));
    }
    winners
}

/// A list of `n` flags, none of them set.
fn unclaimed_flags(n: u8) -> (flags: Vec<bool>)
    ensures
        flags@ == Seq::new(n as nat, |i: int| false),
{
    let mut flags: Vec<bool> = Vec::new();
    let mut i: u8 = 0;
    while i < n
        invariant
            i <= n,
            flags@ == Seq::new(i as nat, |k: int| false),
        decreases n - i,
    {
        flags.push(false);
        i += 1;
        assert(flags@ =~= Seq::new(i as nat, |k: int| false));
    }
    flags
}

/// Creates a raffle at the time `now` and fills `raffle` with it.
///
/// The raffle gets the number that the counter shows. It starts as `Active`
/// where it starts at once, else as `Initialized`. Where the prize is a
/// unique item there is one winner, who gets all of it, whatever was asked.
pub fn create_raffle(
    ctx: &mut CreateRaffle,
    raffle: &mut Raffle,
    start_time: i64,
    end_time: i64,
    total_tickets: u16,
    ticket_price: u64,
    is_ticket_sol: bool,
    max_per_wallet_pct: u8,
    prize_type: PrizeType,
    prize_amount: u64,
    num_winners: u8,
    win_shares: Vec<u8>,
    is_unique_winners: bool,
    start_raffle: bool,
    now: i64,
    raffle_bump: u8,
) -> (r: Result<RaffleCreated, RaffleError>)
    ensures
        ({
            let terms = RaffleTerms {
                start_time,
                end_time,
                total_tickets,
                ticket_price,
                is_ticket_sol,
                max_per_wallet_pct,
                prize_type,
                prize_amount,
                num_winners,
                win_shares: win_shares@,
                is_unique_winners,
                start_raffle,
            };
            match r {
                Ok(event) => {
                    &&& create_raffle_rejection(*old(ctx), terms, now) is None
                    &&& *final(ctx) == create_raffle_effect(*old(ctx), terms)
                    &&& final(raffle)@ == created_raffle(*old(ctx), terms, now, raffle_bump)
                    &&& final(raffle)@.well_formed()
                    &&& event == (RaffleCreated {
                        raffle_id: old(ctx).raffle_config.raffle_count,
                        creator: old(ctx).creator.key,
                        start_time: terms.effective_start(now),
                        end_time,
                        created_at: now,
                    })
                },
                Err(e) => {
                    &&& create_raffle_rejection(*old(ctx), terms, now) == Some(e)
                    &&& *final(ctx) == *old(ctx)
                    &&& *final(raffle) == *old(raffle)
                },
            }
        }),
        final(ctx).custody_conserved(),
{
    proof {
        use_type_invariant(&ctx.raffle_vault.balance);
        use_type_invariant(&ctx.prize_escrow.balance);
        use_type_invariant(&ctx.ticket_escrow.balance);
        use_type_invariant(&ctx.config_treasury.balance);
    }
    let mut work = *ctx;
    if !work.raffle_config.raffle_admin.same(&work.raffle_admin) {
        return Err(RaffleError::Config(ConfigStateErrors::InvalidRaffleAdmin));
    }
    if is_paused(work.raffle_config.pause_flags, CREATE_RAFFLE_PAUSE) {
        return Err(RaffleError::State(RaffleStateErrors::FunctionPaused));
    }
    let is_nft_prize = prize_type == PrizeType::Nft;
    let prize_amount = if is_nft_prize {
        1
    } else {
        prize_amount
    };
    let num_winners = if is_nft_prize {
        1
    } else {
        num_winners
    };
    let win_shares = if is_nft_prize {
        let all = vec![TOTAL_PCT];
        assert(all@ =~= seq![100u8]);
        all
    } else {
        win_shares
    };
    let start = if start_raffle {
        now
    } else {
        start_time
    };
    check_terms(
        &work.raffle_config,
        start,
        end_time,
        total_tickets,
        ticket_price,
        max_per_wallet_pct,
        prize_amount,
        num_winners,
        &win_shares,
        now,
    )?;
    if work.raffle_config.creation_fee_lamports > 0 {
        match transfer_sol(
            &mut work.creator,
            &mut work.config_treasury,
            work.raffle_config.creation_fee_lamports,
        ) {
            Ok(()) => {},
            Err(e) => {
                return Err(RaffleError::Transfer(e));
            },
        }
    }
    lock_prize(&mut work, prize_type, prize_amount)?;
    if !is_ticket_sol {
        if !work.ticket_escrow.owner.same(&work.raffle_vault.key) {
            return Err(RaffleError::Keys(KeysMismatchErrors::InvalidTicketEscrowOwner));
        }
        if !work.ticket_escrow.mint.same(&work.ticket_mint.key) {
            return Err(RaffleError::Keys(KeysMismatchErrors::InvalidTicketMint));
        }
    }
    let raffle_id = work.raffle_config.raffle_count;
    work.raffle_config.raffle_count = match raffle_id.checked_add(1) {
        Some(next) => next,
        None => {
            return Err(RaffleError::State(RaffleStateErrors::Overflow));
        },
    };
    let is_sol_prize = prize_type == PrizeType::Sol;
    *raffle = Raffle {
        raffle_id,
        creator: work.creator.key,
        start_time: start,
        end_time,
        total_tickets,
        tickets_sold: 0,
        ticket_price,
        ticket_mint: if is_ticket_sol {
            None
        } else {
            Some(work.ticket_mint.key)
        },
        ticker_escrow: if is_ticket_sol {
            None
        } else {
            Some(work.ticket_escrow.key)
        },
        max_per_wallet_pct,
        prize_type,
        prize_amount,
        prize_mint: if is_sol_prize {
            None
        } else {
            Some(work.prize_mint.key)
        },
        price_escrow: if is_sol_prize {
            None
        } else {
            Some(work.prize_escrow.key)
        },
        num_winners,
        win_shares,
        winners: empty_winners(num_winners),
        is_win_claimed: unclaimed_flags(num_winners),
        status: if start_raffle {
            RaffleState::Active
        } else {
            RaffleState::Initialized
        },
        is_unique_winners,
        claimable_prize_back: 0,
        claimable_ticket_amount: 0,
        raffle_bump,
    };
    *ctx = work;
    Ok(
        RaffleCreated {
            raffle_id,
            creator: ctx.creator.key,
            start_time: start,
            end_time,
            created_at: now,
        },
    )
}

} // verus!
