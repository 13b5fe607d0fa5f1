//! What is kept of the raffle house, of each raffle and of each buyer.

use vstd::prelude::*;
use crate::math::{shares_sum, valid_win_shares};
use crate::pubkey::Pubkey;

verus! {

/// The settings of the raffle house, one for all raffles.
#[derive(Clone, Copy, Debug, PartialEq, Eq)]
pub struct RaffleConfig {
    pub raffle_owner: Pubkey,
    pub raffle_admin: Pubkey,
    pub creation_fee_lamports: u64,
    pub ticket_fee_bps: u16,
    pub winning_fee_bps: u16,
    pub minimum_raffle_period: u32,
    pub maximum_raffle_period: u32,
    pub minimum_tickets: u16,
    pub maximum_tickets: u16,
    pub maximum_wallet_pct: u8,
    pub maximum_winners_count: u8,
    pub raffle_count: u32,
    pub pause_flags: u8,
    pub config_bump: u8,
}

/// One raffle.
///
/// `ticker_escrow` is the account that holds what was paid for tickets, and
/// `price_escrow` the one that holds the prize. A mint or an escrow is `None`
/// where that side is paid in the native currency, which the raffle's own
/// account then holds. `win_shares[i]` is the percentage of the prize for
/// the winner at slot `i`, `winners[i]` is that winner once announced, and
/// `is_win_claimed[i]` says whether the prize of that slot was taken.
/// `claimable_prize_back` and `claimable_ticket_amount` are what the creator
/// may still take of the prize and of the ticket revenue.
#[derive(Clone, Debug, PartialEq, Eq)]
pub struct Raffle {
    pub raffle_id: u32,
    pub creator: Pubkey,
    pub start_time: i64,
    pub end_time: i64,
    pub total_tickets: u16,
    pub tickets_sold: u16,
    pub ticket_price: u64,
    pub ticket_mint: Option<Pubkey>,
    pub ticker_escrow: Option<Pubkey>,
    pub max_per_wallet_pct: u8,
    pub prize_type: PrizeType,
    pub prize_amount: u64,
    pub prize_mint: Option<Pubkey>,
    pub price_escrow: Option<Pubkey>,
    pub num_winners: u8,
    pub win_shares: Vec<u8>,
    pub winners: Vec<Pubkey>,
    pub is_win_claimed: Vec<bool>,
    pub status: RaffleState,
    pub is_unique_winners: bool,
    pub claimable_prize_back: u64,
    pub claimable_ticket_amount: u64,
    pub raffle_bump: u8,
}

/// A raffle as mathematics: its lists are sequences.
pub struct RaffleView {
    pub raffle_id: u32,
    pub creator: Pubkey,
    pub start_time: i64,
    pub end_time: i64,
    pub total_tickets: u16,
    pub tickets_sold: u16,
    pub ticket_price: u64,
    pub ticket_mint: Option<Pubkey>,
    pub ticker_escrow: Option<Pubkey>,
    pub max_per_wallet_pct: u8,
    pub prize_type: PrizeType,
    pub prize_amount: u64,
    pub prize_mint: Option<Pubkey>,
    pub price_escrow: Option<Pubkey>,
    pub num_winners: u8,
    pub win_shares: Seq<u8>,
    pub winners: Seq<Pubkey>,
    pub is_win_claimed: Seq<bool>,
    pub status: RaffleState,
    pub is_unique_winners: bool,
    pub claimable_prize_back: u64,
    pub claimable_ticket_amount: u64,
    pub raffle_bump: u8,
}

impl View for Raffle {
    type V = RaffleView;

    open spec fn view(&self) -> RaffleView {
        RaffleView {
            raffle_id: self.raffle_id,
            creator: self.creator,
            start_time: self.start_time,
            end_time: self.end_time,
            total_tickets: self.total_tickets,
            tickets_sold: self.tickets_sold,
            ticket_price: self.ticket_price,
            ticket_mint: self.ticket_mint,
            ticker_escrow: self.ticker_escrow,
            max_per_wallet_pct: self.max_per_wallet_pct,
            prize_type: self.prize_type,
            prize_amount: self.prize_amount,
            prize_mint: self.prize_mint,
            price_escrow: self.price_escrow,
            num_winners: self.num_winners,
            win_shares: self.win_shares@,
            winners: self.winners@,
            is_win_claimed: self.is_win_claimed@,
            status: self.status,
            is_unique_winners: self.is_unique_winners,
            claimable_prize_back: self.claimable_prize_back,
            claimable_ticket_amount: self.claimable_ticket_amount,
            raffle_bump: self.raffle_bump,
        }
    }
}

/// What one wallet holds of one raffle.
#[derive(Clone, Copy, Debug, PartialEq, Eq)]
pub struct Buyer {
    pub raffle_id: u32,
    pub user: Pubkey,
    pub tickets: u16,
}

/// Where a raffle stands in its life.
#[derive(Clone, Copy, Debug, PartialEq, Eq, Structural)]
pub enum RaffleState {
    Uninitialized,
    Initialized,
    Active,
    Cancelled,
    SuccessEnded,
    FailedEnded,
}

/// What the prize is: one unique item, an amount of tokens, or an amount of
/// the native currency.
#[derive(Clone, Copy, Debug, PartialEq, Eq, Structural)]
pub enum PrizeType {
    Nft,
    Spl,
    Sol,
}

impl RaffleState {
    /// Whether a raffle in this state may be in `next` after one operation:
    /// it stays where it is, or moves from `Initialized` to `Active`, from
    /// either of them to `Cancelled`, or from `Active` to one of the two
    /// ended states.
    pub open spec fn may_become(self, next: RaffleState) -> bool {
        ||| next == self
        ||| self == RaffleState::Initialized && next == RaffleState::Active
        ||| self == RaffleState::Initialized && next == RaffleState::Cancelled
        ||| self == RaffleState::Active && next == RaffleState::Cancelled
        ||| self == RaffleState::Active && next == RaffleState::SuccessEnded
        ||| self == RaffleState::Active && next == RaffleState::FailedEnded
    }

    /// The states from which a raffle never moves again.
    pub open spec fn is_terminal(self) -> bool {
        self == RaffleState::Cancelled || self == RaffleState::SuccessEnded || self
            == RaffleState::FailedEnded
    }
}

impl RaffleView {
    /// The number of winners that there will be: every configured slot where
    /// enough tickets were sold, else one per ticket sold.
    pub open spec fn effective_winners(self) -> int {
        if self.tickets_sold < self.num_winners {
            self.tickets_sold as int
        } else {
            self.num_winners as int
        }
    }

    /// What holds of every raffle that the operations made: no more tickets
    /// are sold than there are, there is one share and one flag for each
    /// winner's slot, the shares are a valid schedule, no more winners are
    /// named than there are slots, and each side names a mint and an escrow
    /// exactly where it is not paid in the native currency.
    pub open spec fn well_formed(self) -> bool {
        &&& self.tickets_sold <= self.total_tickets
        &&& (self.ticket_mint is None) == (self.ticker_escrow is None)
        &&& (self.prize_mint is None) == (self.price_escrow is None)
        &&& (self.prize_mint is None) == (self.prize_type == PrizeType::Sol)
        &&& self.win_shares.len() == self.num_winners
        &&& self.is_win_claimed.len() == self.num_winners
        &&& self.winners.len() <= self.num_winners
        &&& valid_win_shares(self.win_shares)
    }
}

/// Of a raffle that is in order, the shares of the slots that get a winner
/// make a hundred percent at most.
pub proof fn assigned_shares_bounded(raffle: RaffleView)
    requires
        raffle.well_formed(),
    ensures
        shares_sum(raffle.win_shares.take(raffle.effective_winners())) <= 100,
{
    crate::math::shares_sum_monotone(
        raffle.win_shares,
        raffle.effective_winners(),
        raffle.win_shares.len() as int,
    );
    assert(raffle.win_shares.take(raffle.win_shares.len() as int) =~= raffle.win_shares);
}

} // verus!
