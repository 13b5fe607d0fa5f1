//! The life of a raffle as a whole: which state follows which, and that a
//! raffle that has ended stays as it is.

use vstd::prelude::*;
use crate::pubkey::Pubkey;
use crate::raffle::activate_raffle::{activate_raffle_rejection, ActivateRaffle};
use crate::raffle::announce_winners::{
    announce_winners_rejection,
    announced_raffle,
    AnnounceWinners,
};
use crate::raffle::buy_ticket::{buy_ticket_rejection, BuyTicket};
use crate::raffle::cancel_raffle::{cancel_raffle_rejection, CancelRaffle};
use crate::raffle::errors::{RaffleError, RaffleStateErrors};
use crate::raffle::states::{RaffleConfig, RaffleState, RaffleView};
use crate::raffle::update_raffle_ticketing::update_admission_rejection;

verus! {

/// A raffle that has ended or was called off stays as it is: it cannot be
/// activated, updated, bought from, called off or announced.
pub proof fn ended_raffle_is_final(
    raffle: RaffleView,
    activate: ActivateRaffle,
    buy: BuyTicket,
    cancel: CancelRaffle,
    announce: AnnounceWinners,
    config: RaffleConfig,
    raffle_admin: Pubkey,
    creator: Pubkey,
    raffle_id: u32,
    tickets_to_buy: u16,
    winners: Seq<Pubkey>,
    now: i64,
)
    requires
        raffle.status.is_terminal(),
    ensures
        activate_raffle_rejection(activate, raffle, raffle_id, now) is Some,
        update_admission_rejection(config, raffle_admin, creator, raffle, raffle_id) is Some,
        buy_ticket_rejection(buy, raffle, raffle_id, tickets_to_buy, now) is Some,
        cancel_raffle_rejection(cancel, raffle, raffle_id) is Some,
        announce_winners_rejection(announce, raffle, raffle_id, winners, now) is Some,
{
}

/// Announcing moves an `Active` raffle to one of its two ended states:
/// `FailedEnded` where no ticket was sold, else `SuccessEnded`.
pub proof fn announcing_ends_the_raffle(
    ctx: AnnounceWinners,
    raffle: RaffleView,
    raffle_id: u32,
    winners: Seq<Pubkey>,
    now: i64,
)
    requires
        announce_winners_rejection(ctx, raffle, raffle_id, winners, now) is None,
    ensures
        raffle.status == RaffleState::Active,
        raffle.status.may_become(announced_raffle(raffle, ctx.raffle_config, winners).status),
        announced_raffle(raffle, ctx.raffle_config, winners).status.is_terminal(),
        announced_raffle(raffle, ctx.raffle_config, winners).status == if raffle.tickets_sold == 0 {
            RaffleState::FailedEnded
        } else {
            RaffleState::SuccessEnded
        },
{
}

/// A raffle is announced once: after it was announced, announcing it again
/// is turned away with `RaffleNotActive`, whatever the winners.
pub proof fn raffle_is_announced_once(
    ctx: AnnounceWinners,
    later_ctx: AnnounceWinners,
    raffle: RaffleView,
    raffle_id: u32,
    winners: Seq<Pubkey>,
    later_winners: Seq<Pubkey>,
    now: i64,
    later: i64,
)
    requires
        announce_winners_rejection(ctx, raffle, raffle_id, winners, now) is None,
        later_ctx.raffle_config == ctx.raffle_config,
        later_ctx.raffle_admin == ctx.raffle_admin,
    ensures
        announce_winners_rejection(
            later_ctx,
            announced_raffle(raffle, ctx.raffle_config, winners),
            raffle_id,
            later_winners,
            later,
        ) == Some(RaffleError::State(RaffleStateErrors::RaffleNotActive)),
{
}

/// No ticket is sold once the end time has come, and no raffle is announced
/// before it: at any time at most one of the two is accepted.
pub proof fn buying_and_announcing_exclude(
    buy: BuyTicket,
    announce: AnnounceWinners,
    raffle: RaffleView,
    raffle_id: u32,
    tickets_to_buy: u16,
    winners: Seq<Pubkey>,
    now: i64,
)
    ensures
        buy_ticket_rejection(buy, raffle, raffle_id, tickets_to_buy, now) is Some
            || announce_winners_rejection(announce, raffle, raffle_id, winners, now) is Some,
{
}

} // verus!
