//! Buying tickets while the raffle is open: the price goes into custody, and
//! no wallet gets more than its cap.

use vstd::prelude::*;
use crate::custody::{
    sol_transfer_rejection,
    token_transfer_rejection,
    transfer_sol,
    transfer_tokens,
    Mint,
    SystemAccount,
    TokenAccount,
};
use crate::math::{flag_set, wallet_cap};
use crate::pubkey::{default_pubkey, Pubkey};
use crate::raffle::constants::BUY_TICKET_PAUSE;
use crate::raffle::errors::{
    transfer_rejection,
    ConfigStateErrors,
    KeysMismatchErrors,
    RaffleError,
    RaffleStateErrors,
};
use crate::raffle::states::{Buyer, Raffle, RaffleConfig, RaffleState, RaffleView};
use crate::raffle::utils::{calculate_max_tickets, is_paused};

verus! {

/// What `buy_ticket` reports.
#[derive(Clone, Copy, Debug, PartialEq, Eq)]
pub struct TicketPurchased {
    pub raffle_id: u32,
    pub buyer: Pubkey,
    pub tickets_bought: u16,
    pub price_paid: u64,
    pub bought_time: i64,
}

/// The accounts of `buy_ticket`. `buyer_account` is the record of what the
/// buyer holds of this raffle; it is blank before the first purchase.
#[derive(Clone, Copy)]
pub struct BuyTicket {
    pub raffle_config: RaffleConfig,
    pub raffle_vault: SystemAccount,
    pub buyer_account: Buyer,
    pub buyer: SystemAccount,
    pub raffle_admin: Pubkey,
    pub ticket_mint: Mint,
    pub buyer_ticket_ata: TokenAccount,
    pub ticket_escrow: TokenAccount,
}

impl BuyTicket {
    /// Custody conservation: of each account that holds value for the sale
    /// or for the house, what went out never exceeded what came in.
    pub open spec fn custody_conserved(self) -> bool {
        self.raffle_vault.conserved() && self.ticket_escrow.conserved()
    }
}

/// The record is blank: it holds no ticket and names nobody.
pub open spec fn is_blank(record: Buyer) -> bool {
    record.tickets == 0 && record.user == default_pubkey()
}

/// The most tickets one wallet may hold of the raffle.
pub open spec fn raffle_wallet_cap(raffle: RaffleView) -> nat {
    wallet_cap(raffle.total_tickets as nat, raffle.max_per_wallet_pct as nat)
}

/// Why the price cannot be paid into custody, if it cannot.
pub open spec fn ticket_payment_rejection(ctx: BuyTicket, raffle: RaffleView, price: u64) -> Option<
    RaffleError,
> {
    match raffle.ticket_mint {
        None => transfer_rejection(sol_transfer_rejection(ctx.buyer, ctx.raffle_vault, price)),
        Some(stored_mint) => {
            if ctx.ticket_mint.key != stored_mint || ctx.buyer_ticket_ata.mint != stored_mint
                || ctx.ticket_escrow.mint != stored_mint {
                Some(RaffleError::Keys(KeysMismatchErrors::InvalidTicketMint))
            } else if ctx.buyer_ticket_ata.owner != ctx.buyer.key {
                Some(RaffleError::Keys(KeysMismatchErrors::InvalidTicketAtaOwner))
            } else if ctx.ticket_escrow.owner != ctx.raffle_vault.key {
                Some(RaffleError::Keys(KeysMismatchErrors::InvalidTicketEscrowOwner))
            } else {
                transfer_rejection(
                    token_transfer_rejection(
                        ctx.buyer_ticket_ata,
                        ctx.ticket_escrow,
                        ctx.buyer.key,
                        ctx.ticket_mint,
                        price,
                    ),
                )
            }
        },
    }
}

/// Why `tickets_to_buy` tickets cannot be bought at `now`, if they cannot:
/// the first of these that holds. The admin is not the configured one; the
/// raffle has another number; buying is paused; the raffle is not `Active`;
/// `now` is before the start; `now` is not before the end; no ticket is
/// asked for; more tickets are sold than there are (`Overflow`); fewer are
/// left than asked for; the cap of one wallet or the buyer's new holding
/// overflows; the new holding exceeds the cap; the record belongs to another
/// wallet or another raffle; the price overflows; the payment is refused.
pub open spec fn buy_ticket_rejection(
    ctx: BuyTicket,
    raffle: RaffleView,
    raffle_id: u32,
    tickets_to_buy: u16,
    now: i64,
) -> Option<RaffleError> {
    if ctx.raffle_config.raffle_admin != ctx.raffle_admin {
        Some(RaffleError::Config(ConfigStateErrors::InvalidRaffleAdmin))
    } else if raffle.raffle_id != raffle_id {
        Some(RaffleError::State(RaffleStateErrors::InvalidRaffleId))
    } else if flag_set(ctx.raffle_config.pause_flags, BUY_TICKET_PAUSE) {
        Some(RaffleError::State(RaffleStateErrors::FunctionPaused))
    } else if raffle.status != RaffleState::Active {
        Some(RaffleError::State(RaffleStateErrors::RaffleNotActive))
    } else if now < raffle.start_time {
        Some(RaffleError::State(RaffleStateErrors::StartTimeNotReached))
    } else if now >= raffle.end_time {
        Some(RaffleError::State(RaffleStateErrors::EndTimeIsCrossed))
    } else if tickets_to_buy == 0 {
        Some(RaffleError::State(RaffleStateErrors::InvalidZeroTickets))
    } else if raffle.tickets_sold > raffle.total_tickets {
        Some(RaffleError::State(RaffleStateErrors::Overflow))
    } else if raffle.total_tickets - raffle.tickets_sold < tickets_to_buy {
        Some(RaffleError::State(RaffleStateErrors::TicketsSoldOut))
    } else if raffle_wallet_cap(raffle) > u16::MAX || ctx.buyer_account.tickets + tickets_to_buy
        > u16::MAX {
        Some(RaffleError::State(RaffleStateErrors::Overflow))
    } else if ctx.buyer_account.tickets + tickets_to_buy > raffle_wallet_cap(raffle) {
        Some(RaffleError::State(RaffleStateErrors::MaxTicketsPerWalletExceeded))
    } else if !is_blank(ctx.buyer_account) && ctx.buyer_account.user != ctx.buyer.key {
        Some(RaffleError::Keys(KeysMismatchErrors::InvalidBuyerAccountUser))
    } else if !is_blank(ctx.buyer_account) && ctx.buyer_account.raffle_id != raffle_id {
        Some(RaffleError::State(RaffleStateErrors::InvalidRaffleId))
    } else if raffle.ticket_price * tickets_to_buy > u64::MAX {
        Some(RaffleError::State(RaffleStateErrors::Overflow))
    } else {
        ticket_payment_rejection(ctx, raffle, (raffle.ticket_price * tickets_to_buy) as u64)
    }
}

/// The accounts after the purchase: the price is in custody and the record
/// shows the buyer's new holding.
pub open spec fn buy_ticket_effect(ctx: BuyTicket, raffle: RaffleView, tickets_to_buy: u16) -> BuyTicket {
    let price = (raffle.ticket_price * tickets_to_buy) as u64;
    let record = Buyer {
        raffle_id: raffle.raffle_id,
        user: ctx.buyer.key,
        tickets: (ctx.buyer_account.tickets + tickets_to_buy) as u16,
    };
    match raffle.ticket_mint {
        None => BuyTicket {
            buyer_account: record,
            buyer: ctx.buyer.debited(price),
            raffle_vault: ctx.raffle_vault.credited(price),
            ..ctx
        },
        Some(_) => BuyTicket {
            buyer_account: record,
            buyer_ticket_ata: ctx.buyer_ticket_ata.debited(price),
            ticket_escrow: ctx.ticket_escrow.credited(price),
            ..ctx
        },
    }
}

fn pay_for_tickets(work: &mut BuyTicket, raffle: &Raffle, price: u64) -> (r: Result<(), RaffleError>)
    ensures
        match r {
            Ok(()) => {
                &&& ticket_payment_rejection(*old(work), raffle@, price) is None
                &&& match raffle.ticket_mint {
                    None => *final(work) == (BuyTicket {
                        buyer: old(work).buyer.debited(price),
                        raffle_vault: old(work).raffle_vault.credited(price),
                        ..*old(work)
                    }),
                    Some(_) => *final(work) == (BuyTicket {
                        buyer_ticket_ata: old(work).buyer_ticket_ata.debited(price),
                        ticket_escrow: old(work).ticket_escrow.credited(price),
                        ..*old(work)
                    }),
                }
            },
            Err(e) => ticket_payment_rejection(*old(work), raffle@, price) == Some(e),
        },
{
    match raffle.ticket_mint {
        None => {
            match transfer_sol(&mut work.buyer, &mut work.raffle_vault, price) {
                Ok(()) => Ok(()),
                Err(e) => Err(RaffleError::Transfer(e)),
            }
        },
        Some(stored_mint) => {
            if !work.ticket_mint.key.same(&stored_mint) || !work.buyer_ticket_ata.mint.same(
                &stored_mint,
            ) || !work.ticket_escrow.mint.same(&stored_mint) {
                return Err(RaffleError::Keys(KeysMismatchErrors::InvalidTicketMint));
            }
            if !work.buyer_ticket_ata.owner.same(&work.buyer.key) {
                return Err(RaffleError::Keys(KeysMismatchErrors::InvalidTicketAtaOwner));
            }
            if !work.ticket_escrow.owner.same(&work.raffle_vault.key) {
                return Err(RaffleError::Keys(KeysMismatchErrors::InvalidTicketEscrowOwner));
            }
            let buyer_key = work.buyer.key;
            let ticket_mint = work.ticket_mint;
            match transfer_tokens(
                &mut work.buyer_ticket_ata,
                &mut work.ticket_escrow,
                &buyer_key,
                &ticket_mint,
                price,
            ) {
                Ok(()) => Ok(()),
                Err(e) => Err(RaffleError::Transfer(e)),
            }
        },
    }
}

/// Buys `tickets_to_buy` tickets for `ctx.buyer` at the time `now`.
///
/// The raffle must be `Active` and `now` within `[start_time, end_time)`.
/// After the purchase the buyer holds no more than the cap of one wallet, and
/// no more tickets are sold than there are.
pub fn buy_ticket(
    ctx: &mut BuyTicket,
    raffle: &mut Raffle,
    raffle_id: u32,
    tickets_to_buy: u16,
    now: i64,
) -> (r: Result<TicketPurchased, RaffleError>)
    ensures
        match r {
            Ok(event) => {
                &&& buy_ticket_rejection(*old(ctx), old(raffle)@, raffle_id, tickets_to_buy, now) is None
                &&& *final(ctx) == buy_ticket_effect(*old(ctx), old(raffle)@, tickets_to_buy)
                &&& final(raffle)@ == (RaffleView {
                    tickets_sold: (old(raffle).tickets_sold + tickets_to_buy) as u16,
                    ..old(raffle)@
                })
                &&& final(raffle).tickets_sold <= final(raffle).total_tickets
                &&& final(ctx).buyer_account.tickets <= raffle_wallet_cap(old(raffle)@)
                &&& old(raffle)@.well_formed() ==> final(raffle)@.well_formed()
                &&& event == (TicketPurchased {
                    raffle_id,
                    buyer: old(ctx).buyer.key,
                    tickets_bought: tickets_to_buy,
                    price_paid: (old(raffle).ticket_price * tickets_to_buy) as u64,
                    bought_time: now,
                })
            },
            Err(e) => {
                &&& buy_ticket_rejection(*old(ctx), old(raffle)@, raffle_id, tickets_to_buy, now)
                    == Some(e)
                &&& *final(ctx) == *old(ctx)
                &&& *final(raffle) == *old(raffle)
            },
        },
        final(ctx).custody_conserved(),
{
    proof {
        use_type_invariant(&ctx.raffle_vault.balance);
        use_type_invariant(&ctx.ticket_escrow.balance);
    }
    let mut work = *ctx;
    if !work.raffle_config.raffle_admin.same(&work.raffle_admin) {
        return Err(RaffleError::Config(ConfigStateErrors::InvalidRaffleAdmin));
    }
    if raffle.raffle_id != raffle_id {
        return Err(RaffleError::State(RaffleStateErrors::InvalidRaffleId));
    }
    if is_paused(work.raffle_config.pause_flags, BUY_TICKET_PAUSE) {
        return Err(RaffleError::State(RaffleStateErrors::FunctionPaused));
    }
    if raffle.status != RaffleState::Active {
        return Err(RaffleError::State(RaffleStateErrors::RaffleNotActive));
    }
    if now < raffle.start_time {
        return Err(RaffleError::State(RaffleStateErrors::StartTimeNotReached));
    }
    if now >= raffle.end_time {
        return Err(RaffleError::State(RaffleStateErrors::EndTimeIsCrossed));
    }
    if tickets_to_buy == 0 {
        return Err(RaffleError::State(RaffleStateErrors::InvalidZeroTickets));
    }
    let remaining_tickets = match raffle.total_tickets.checked_sub(raffle.tickets_sold) {
        Some(left) => left,
        None => {
            return Err(RaffleError::State(RaffleStateErrors::Overflow));
        },
    };
    if remaining_tickets < tickets_to_buy {
        return Err(RaffleError::State(RaffleStateErrors::TicketsSoldOut));
    }
    let max_tickets_can_buy = calculate_max_tickets(raffle.total_tickets, raffle.max_per_wallet_pct)?;
    let new_buyer_tickets = match work.buyer_account.tickets.checked_add(tickets_to_buy) {
        Some(sum) => sum,
        None => {
            return Err(RaffleError::State(RaffleStateErrors::Overflow));
        },
    };
    if max_tickets_can_buy < new_buyer_tickets {
        return Err(RaffleError::State(RaffleStateErrors::MaxTicketsPerWalletExceeded));
    }
    if work.buyer_account.tickets == 0 && work.buyer_account.user.is_default() {
        work.buyer_account.raffle_id = raffle.raffle_id;
        work.buyer_account.user = work.buyer.key;
    } else {
        if !work.buyer_account.user.same(&work.buyer.key) {
            return Err(RaffleError::Keys(KeysMismatchErrors::InvalidBuyerAccountUser));
        }
        if work.buyer_account.raffle_id != raffle_id {
            return Err(RaffleError::State(RaffleStateErrors::InvalidRaffleId));
        }
    }
    work.buyer_account.tickets = new_buyer_tickets;
    let price_to_pay = match raffle.ticket_price.checked_mul(tickets_to_buy as u64) {
        Some(price) => price,
        None => {
            return Err(RaffleError::State(RaffleStateErrors::Overflow));
        },
    };
    pay_for_tickets(&mut work, raffle, price_to_pay)?;
    raffle.tickets_sold = raffle.tickets_sold + tickets_to_buy;
    *ctx = work;
    Ok(
        TicketPurchased {
            raffle_id,
            buyer: ctx.buyer.key,
            tickets_bought: tickets_to_buy,
            price_paid: price_to_pay,
            bought_time: now,
        },
    )
}

} // verus!
