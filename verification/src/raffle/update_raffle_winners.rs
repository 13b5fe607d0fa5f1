//! Changing the schedule of shares of a raffle that has not started.

use vstd::prelude::*;
use crate::math::valid_win_shares;
use crate::pubkey::Pubkey;
use crate::raffle::errors::{RaffleError, RaffleStateErrors};
use crate::raffle::states::{PrizeType, Raffle, RaffleConfig, RaffleView};
use crate::raffle::update_raffle_ticketing::{check_update_admission, update_admission_rejection};
use crate::raffle::utils::validate_win_shares;

verus! {

/// What `update_raffle_winners` reports.
#[derive(Clone, Debug, PartialEq, Eq)]
pub struct RaffleWinnersUpdated {
    pub raffle_id: u32,
    pub win_shares: Vec<u8>,
    pub is_unique_winners: bool,
}

/// The accounts of `update_raffle_winners`.
#[derive(Clone, Copy)]
pub struct UpdateRaffleWinners {
    pub raffle_config: RaffleConfig,
    pub creator: Pubkey,
    pub raffle_admin: Pubkey,
}

/// Why the shares cannot be changed, if they cannot: the first of these
/// that holds. The update is not admitted; a ticket was sold; the prize is a
/// unique item; the new shares are not one for each winner, or no valid
/// schedule.
pub open spec fn update_raffle_winners_rejection(
    ctx: UpdateRaffleWinners,
    raffle: RaffleView,
    raffle_id: u32,
    new_win_shares: Seq<u8>,
) -> Option<RaffleError> {
    if update_admission_rejection(
        ctx.raffle_config,
        ctx.raffle_admin,
        ctx.creator,
        raffle,
        raffle_id,
    ) is Some {
        update_admission_rejection(ctx.raffle_config, ctx.raffle_admin, ctx.creator, raffle, raffle_id)
    } else if raffle.tickets_sold != 0 {
        Some(RaffleError::State(RaffleStateErrors::TicketsSoldOut))
    } else if raffle.prize_type == PrizeType::Nft {
        Some(RaffleError::State(RaffleStateErrors::CannotUpdateWinnersForNftPrize))
    } else if new_win_shares.len() != raffle.num_winners || !valid_win_shares(new_win_shares) {
        Some(RaffleError::State(RaffleStateErrors::InvalidWinShares))
    } else {
        None
    }
}

/// A copy of the shares.
fn copy_shares(shares: &Vec<u8>) -> (copy: Vec<u8>)
    ensures
        copy@ == shares@,
{
    let mut copy: Vec<u8> = Vec::new();
    let mut i: usize = 0;
    while i < shares.len()
        invariant
            i <= shares@.len(),
            copy@ == shares@.take(i as int),
        decreases shares@.len() - i,
    {
        copy.push(shares[i]);
        i += 1;
        assert(copy@ =~= shares@.take(i as int));
    }
    assert(shares@.take(shares@.len() as int) =~= shares@);
    copy
}

/// Gives the raffle a new schedule of shares, one share for each winner as
/// before, and says anew whether the winners have to be different wallets.
pub fn update_raffle_winners(
    ctx: &UpdateRaffleWinners,
    raffle: &mut Raffle,
    raffle_id: u32,
    new_win_shares: Vec<u8>,
    new_is_unique_winners: bool,
) -> (r: Result<RaffleWinnersUpdated, RaffleError>)
    ensures
        match r {
            Ok(event) => {
                &&& update_raffle_winners_rejection(*ctx, old(raffle)@, raffle_id, new_win_shares@) is None
                &&& final(raffle)@ == (RaffleView {
                    win_shares: new_win_shares@,
                    is_unique_winners: new_is_unique_winners,
                    ..old(raffle)@
                })
                &&& event.raffle_id == raffle_id
                &&& event.win_shares@ == new_win_shares@
                &&& event.is_unique_winners == new_is_unique_winners
            },
            Err(e) => {
                &&& update_raffle_winners_rejection(*ctx, old(raffle)@, raffle_id, new_win_shares@)
                    == Some(e)
                &&& *final(raffle) == *old(raffle)
            },
        },
        r is Ok && old(raffle)@.well_formed() ==> final(raffle)@.well_formed(),
{
    check_update_admission(&ctx.raffle_config, &ctx.raffle_admin, &ctx.creator, raffle, raffle_id)?;
    if raffle.tickets_sold != 0 {
        return Err(RaffleError::State(RaffleStateErrors::TicketsSoldOut));
    }
    if raffle.prize_type == PrizeType::Nft {
        return Err(RaffleError::State(RaffleStateErrors::CannotUpdateWinnersForNftPrize));
    }
    if new_win_shares.len() != raffle.num_winners as usize || !validate_win_shares(
        new_win_shares.as_slice(),
    ) {
        return Err(RaffleError::State(RaffleStateErrors::InvalidWinShares));
    }
    let reported = copy_shares(&new_win_shares);
    raffle.win_shares = new_win_shares;
    raffle.is_unique_winners = new_is_unique_winners;
    Ok(
        RaffleWinnersUpdated {
            raffle_id,
            win_shares: reported,
            is_unique_winners: new_is_unique_winners,
        },
    )
}

} // verus!
