//! The life of a gumball machine as a whole: which state follows which, and
//! that a machine that has ended stays as it is.

use vstd::prelude::*;
use crate::gumball::activate_gumball::{activate_gumball_rejection, ActivateGumball};
use crate::gumball::add_prize::{add_prize_rejection, AddPrize};
use crate::gumball::cancel_gumball::{cancel_gumball_rejection, CancelGumball};
use crate::gumball::end_gumball::{end_gumball_effect, end_gumball_rejection, EndGumball};
use crate::gumball::errors::{GumballError, GumballStateErrors};
use crate::gumball::spin_gumball::{spin_gumball_effect, spin_gumball_rejection, SpinGumball};
use crate::gumball::states::GumballState;
use crate::gumball::update_gumball::{
    update_gumball_data_rejection,
    update_gumball_time_rejection,
    UpdateGumball,
};

verus! {

/// A machine that has ended or was called off stays as it is: it cannot be
/// activated, updated, filled, spun, called off or ended.
pub proof fn ended_gumball_is_final(
    activate: ActivateGumball,
    update: UpdateGumball,
    add: AddPrize,
    spin: SpinGumball,
    cancel: CancelGumball,
    end: EndGumball,
    gumball_id: u32,
    prize_index: u16,
    prize_amount: u64,
    quantity: u16,
    new_start_time: i64,
    new_end_time: i64,
    start_gumball: bool,
    new_ticket_price: u64,
    new_total_tickets: u16,
    now: i64,
)
    requires
        activate.gumball.status.is_terminal(),
        update.gumball.status.is_terminal(),
        add.gumball.status.is_terminal(),
        spin.gumball.status.is_terminal(),
        cancel.gumball.status.is_terminal(),
        end.gumball.status.is_terminal(),
    ensures
        activate_gumball_rejection(activate, gumball_id, now) is Some,
        update_gumball_time_rejection(
            update,
            gumball_id,
            new_start_time,
            new_end_time,
            start_gumball,
            now,
        ) is Some,
        update_gumball_data_rejection(update, gumball_id, new_ticket_price, new_total_tickets) is Some,
        add_prize_rejection(add, gumball_id, prize_index, prize_amount, quantity, now) is Some,
        spin_gumball_rejection(spin, gumball_id, prize_index, now) is Some,
        cancel_gumball_rejection(cancel, gumball_id) is Some,
        end_gumball_rejection(end, gumball_id, now) is Some,
{
}

/// Ending moves an `Active` machine to one of its two completed states:
/// `CompletedFailed` where no spin was sold, else `CompletedSuccessfully`.
/// Ending it again with the same accounts is turned away with
/// `InvalidGumballState`.
pub proof fn gumball_ends_once(ctx: EndGumball, gumball_id: u32, now: i64, later: i64)
    requires
        end_gumball_rejection(ctx, gumball_id, now) is None,
    ensures
        ctx.gumball.status == GumballState::Active,
        ctx.gumball.status.may_become(end_gumball_effect(ctx).gumball.status),
        end_gumball_effect(ctx).gumball.status == if ctx.gumball.tickets_sold == 0 {
            GumballState::CompletedFailed
        } else {
            GumballState::CompletedSuccessfully
        },
        end_gumball_rejection(end_gumball_effect(ctx), gumball_id, later) == Some(
            GumballError::State(GumballStateErrors::InvalidGumballState),
        ),
{
}

/// A spin keeps the machine in order: where no more spins were sold than
/// prize units were added before it, that holds after it too, and the
/// machine stays `Active`.
pub proof fn spin_keeps_machine_in_order(ctx: SpinGumball, gumball_id: u32, prize_index: u16, now: i64)
    requires
        spin_gumball_rejection(ctx, gumball_id, prize_index, now) is None,
        ctx.gumball.well_formed(),
    ensures
        spin_gumball_effect(ctx).gumball.well_formed(),
        spin_gumball_effect(ctx).gumball.status == GumballState::Active,
        spin_gumball_effect(ctx).gumball.tickets_sold == ctx.gumball.tickets_sold + 1,
        spin_gumball_effect(ctx).prize.quantity == ctx.prize.quantity - 1,
{
}

/// No spin is sold once the end time has come, and no machine is ended
/// before it: at any time at most one of the two is accepted.
pub proof fn spinning_and_ending_exclude(
    spin: SpinGumball,
    end: EndGumball,
    gumball_id: u32,
    prize_index: u16,
    now: i64,
)
    requires
        spin.gumball.end_time == end.gumball.end_time,
    ensures
        spin_gumball_rejection(spin, gumball_id, prize_index, now) is Some || end_gumball_rejection(
            end,
            gumball_id,
            now,
        ) is Some,
{
}

} // verus!
