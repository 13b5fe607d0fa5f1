//! Opening a gumball machine: the terms are checked and the creation fee is
//! paid. Prizes are put in afterwards.

use vstd::prelude::*;
use crate::custody::{sol_transfer_rejection, transfer_sol, Mint, SystemAccount, TokenAccount};
use crate::gumball::constants::{CREATE_GUMBALL_PAUSE, MAXIMUM_TICKETS, MINIMUM_TICKETS};
use crate::gumball::errors::{
    transfer_rejection,
    ConfigStateErrors,
    GumballError,
    GumballStateErrors,
    KeysMismatchErrors,
};
use crate::gumball::states::{GumballConfig, GumballMachine, GumballState};
use crate::gumball::utils::is_paused;
use crate::math::flag_set;
use crate::pubkey::Pubkey;

verus! {

/// What `create_gumball` reports.
#[derive(Clone, Copy, Debug, PartialEq, Eq)]
pub struct GumballCreated {
    pub gumball_id: u32,
    pub creator: Pubkey,
    pub start_time: i64,
    pub end_time: i64,
    pub created_at: i64,
}

/// The accounts of `create_gumball`. `gumball_vault` is the machine's own
/// account: its address is the machine's, and it holds the tickets that are
/// paid in the native currency. What `gumball` held before does not matter:
/// it is filled anew.
#[derive(Clone, Copy)]
pub struct CreateGumball {
    pub gumball_config: GumballConfig,
    pub config_treasury: SystemAccount,
    pub gumball: GumballMachine,
    pub gumball_vault: SystemAccount,
    pub creator: SystemAccount,
    pub gumball_admin: Pubkey,
    pub ticket_mint: Mint,
    pub ticket_escrow: TokenAccount,
}

impl CreateGumball {
    /// Custody conservation: of each account that holds value for the sale
    /// or for the house, what went out never exceeded what came in.
    pub open spec fn custody_conserved(self) -> bool {
        self.gumball_vault.conserved()
            && self.ticket_escrow.conserved()
            && self.config_treasury.conserved()
    }
}

/// The terms of a machine, as its creator asks for them.
#[derive(Clone, Copy, Debug, PartialEq, Eq)]
pub struct GumballTerms {
    pub start_time: i64,
    pub end_time: i64,
    pub total_tickets: u16,
    pub ticket_price: u64,
    pub is_ticket_sol: bool,
    pub start_gumball: bool,
}

impl GumballTerms {
    /// When the machine starts: at `now` where it starts at once.
    pub open spec fn effective_start(self, now: i64) -> i64 {
        if self.start_gumball {
            now
        } else {
            self.start_time
        }
    }
}

/// The number of tickets lies within the bounds of every machine.
pub open spec fn tickets_allowed(total_tickets: u16) -> bool {
    MINIMUM_TICKETS <= total_tickets <= MAXIMUM_TICKETS
}

/// The length of the window lies within the configured bounds.
pub open spec fn period_allowed(config: GumballConfig, start_time: i64, end_time: i64) -> bool {
    config.minimum_gumball_period <= end_time - start_time <= config.maximum_gumball_period
}

/// Why the machine cannot be created at `now`, if it cannot: the first of
/// these that holds. The admin is not the configured one; creating is
/// paused; the price is zero; the number of tickets is not allowed; the
/// length of the window does not fit in 64 bits; the start lies in the past;
/// the length of the window is not allowed; for tickets paid in tokens, the
/// escrow is not the machine's or of another mint; the fee cannot be paid;
/// the counter of machines is exhausted.
pub open spec fn create_gumball_rejection(ctx: CreateGumball, terms: GumballTerms, now: i64) -> Option<
    GumballError,
> {
    let start = terms.effective_start(now);
    if ctx.gumball_config.gumball_admin != ctx.gumball_admin {
        Some(GumballError::Config(ConfigStateErrors::InvalidGumballAdmin))
    } else if flag_set(ctx.gumball_config.pause_flags, CREATE_GUMBALL_PAUSE) {
        Some(GumballError::State(GumballStateErrors::FunctionPaused))
    } else if terms.ticket_price == 0 {
        Some(GumballError::State(GumballStateErrors::InvalidTicketPrice))
    } else if !tickets_allowed(terms.total_tickets) {
        Some(GumballError::State(GumballStateErrors::InvalidTotalTickets))
    } else if !(i64::MIN <= terms.end_time - start <= i64::MAX) {
        Some(GumballError::State(GumballStateErrors::StartTimeExceedEndTime))
    } else if start < now {
        Some(GumballError::State(GumballStateErrors::StartTimeInPast))
    } else if !period_allowed(ctx.gumball_config, start, terms.end_time) {
        Some(GumballError::Config(ConfigStateErrors::InvalidGumballPeriod))
    } else if !terms.is_ticket_sol && ctx.ticket_escrow.owner != ctx.gumball_vault.key {
        Some(GumballError::Keys(KeysMismatchErrors::InvalidTicketEscrowOwner))
    } else if !terms.is_ticket_sol && ctx.ticket_escrow.mint != ctx.ticket_mint.key {
        Some(GumballError::Keys(KeysMismatchErrors::InvalidTicketMint))
    } else if ctx.gumball_config.creation_fee_lamports > 0 && sol_transfer_rejection(
        ctx.creator,
        ctx.config_treasury,
        ctx.gumball_config.creation_fee_lamports,
    ) is Some {
        transfer_rejection(
            sol_transfer_rejection(
                ctx.creator,
                ctx.config_treasury,
                ctx.gumball_config.creation_fee_lamports,
            ),
        )
    } else if ctx.gumball_config.gumball_count == u32::MAX {
        Some(GumballError::State(GumballStateErrors::Overflow))
    } else {
        None
    }
}

/// The machine as it is created: nothing is sold and no prize is in it.
pub open spec fn created_gumball(
    ctx: CreateGumball,
    terms: GumballTerms,
    now: i64,
    gumball_bump: u8,
) -> GumballMachine {
    GumballMachine {
        gumball_id: ctx.gumball_config.gumball_count,
        creator: ctx.creator.key,
        start_time: terms.effective_start(now),
        end_time: terms.end_time,
        total_tickets: terms.total_tickets,
        tickets_sold: 0,
        prizes_added: 0,
        ticket_mint: if terms.is_ticket_sol {
            None
        } else {
            Some(ctx.ticket_mint.key)
        },
        ticket_price: terms.ticket_price,
        status: if terms.start_gumball {
            GumballState::Active
        } else {
            GumballState::Initialized
        },
        claimable_ticket_amount: 0,
        gumball_bump,
    }
}

/// The accounts after the machine was created.
pub open spec fn create_gumball_effect(
    ctx: CreateGumball,
    terms: GumballTerms,
    now: i64,
    gumball_bump: u8,
) -> CreateGumball {
    let fee = ctx.gumball_config.creation_fee_lamports;
    CreateGumball {
        gumball_config: GumballConfig {
            gumball_count: (ctx.gumball_config.gumball_count + 1) as u32,
            ..ctx.gumball_config
        },
        gumball: created_gumball(ctx, terms, now, gumball_bump),
        creator: if fee > 0 {
            ctx.creator.debited(fee)
        } else {
            ctx.creator
        },
        config_treasury: if fee > 0 {
            ctx.config_treasury.credited(fee)
        } else {
            ctx.config_treasury
        },
        ..ctx
    }
}

/// Creates a gumball machine at the time `now`.
///
/// The machine gets the number that the counter shows. It starts as `Active`
/// where it starts at once, else as `Initialized`.
pub fn create_gumball(
    ctx: &mut CreateGumball,
    start_time: i64,
    end_time: i64,
    total_tickets: u16,
    ticket_price: u64,
    is_ticket_sol: bool,
    start_gumball: bool,
    now: i64,
    gumball_bump: u8,
) -> (r: Result<GumballCreated, GumballError>)
    ensures
        ({
            let terms = GumballTerms {
                start_time,
                end_time,
                total_tickets,
                ticket_price,
                is_ticket_sol,
                start_gumball,
            };
            match r {
                Ok(event) => {
                    &&& create_gumball_rejection(*old(ctx), terms, now) is None
                    &&& *final(ctx) == create_gumball_effect(*old(ctx), terms, now, gumball_bump)
                    &&& final(ctx).gumball.well_formed()
                    &&& event == (GumballCreated {
                        gumball_id: old(ctx).gumball_config.gumball_count,
                        creator: old(ctx).creator.key,
                        start_time: terms.effective_start(now),
                        end_time,
                        created_at: now,
                    })
                },
                Err(e) => {
                    &&& create_gumball_rejection(*old(ctx), terms, now) == Some(e)
                    &&& *final(ctx) == *old(ctx)
                },
            }
        }),
        final(ctx).custody_conserved(),
{
    proof {
        use_type_invariant(&ctx.gumball_vault.balance);
        use_type_invariant(&ctx.ticket_escrow.balance);
        use_type_invariant(&ctx.config_treasury.balance);
    }
    let mut work = *ctx;
    if !work.gumball_config.gumball_admin.same(&work.gumball_admin) {
        return Err(GumballError::Config(ConfigStateErrors::InvalidGumballAdmin));
    }
    if is_paused(work.gumball_config.pause_flags, CREATE_GUMBALL_PAUSE) {
        return Err(GumballError::State(GumballStateErrors::FunctionPaused));
    }
    if ticket_price == 0 {
        return Err(GumballError::State(GumballStateErrors::InvalidTicketPrice));
    }
    if !(MINIMUM_TICKETS <= total_tickets && total_tickets <= MAXIMUM_TICKETS) {
        return Err(GumballError::State(GumballStateErrors::InvalidTotalTickets));
    }
    let start = if start_gumball {
        now
    } else {
        start_time
    };
    let duration = match end_time.checked_sub(start) {
        Some(d) => d,
        None => {
            return Err(GumballError::State(GumballStateErrors::StartTimeExceedEndTime));
        },
    };
    if start < now {
        return Err(GumballError::State(GumballStateErrors::StartTimeInPast));
    }
    if !(duration >= work.gumball_config.minimum_gumball_period as i64 && duration
        <= work.gumball_config.maximum_gumball_period as i64) {
        return Err(GumballError::Config(ConfigStateErrors::InvalidGumballPeriod));
    }
    let gumball_id = work.gumball_config.gumball_count;
    if !is_ticket_sol {
        if !work.ticket_escrow.owner.same(&work.gumball_vault.key) {
            return Err(GumballError::Keys(KeysMismatchErrors::InvalidTicketEscrowOwner));
        }
        if !work.ticket_escrow.mint.same(&work.ticket_mint.key) {
            return Err(GumballError::Keys(KeysMismatchErrors::InvalidTicketMint));
        }
    }
    work.gumball = GumballMachine {
        gumball_id,
        creator: work.creator.key,
        start_time: start,
        end_time,
        total_tickets,
        tickets_sold: 0,
        prizes_added: 0,
        ticket_mint: if is_ticket_sol {
            None
        } else {
            Some(work.ticket_mint.key)
        },
        ticket_price,
        status: if start_gumball {
            GumballState::Active
        } else {
            GumballState::Initialized
        },
        claimable_ticket_amount: 0,
        gumball_bump,
    };
    if work.gumball_config.creation_fee_lamports > 0 {
        match transfer_sol(
            &mut work.creator,
            &mut work.config_treasury,
            work.gumball_config.creation_fee_lamports,
        ) {
            Ok(()) => {},
            Err(e) => {
                return Err(GumballError::Transfer(e));
            },
        }
    }
    work.gumball_config.gumball_count = match gumball_id.checked_add(1) {
        Some(next) => next,
        None => {
            return Err(GumballError::State(GumballStateErrors::Overflow));
        },
    };
    *ctx = work;
    Ok(
        GumballCreated {
            gumball_id,
            creator: ctx.gumball.creator,
            start_time: start,
            end_time,
            created_at: now,
        },
    )
}

} // verus!
