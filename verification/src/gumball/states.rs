//! What is kept of the gumball house, of each machine and of each prize.

use vstd::prelude::*;
use crate::pubkey::Pubkey;

verus! {

/// The settings of the gumball house, one for all machines.
#[derive(Clone, Copy, Debug, PartialEq, Eq)]
pub struct GumballConfig {
    pub gumball_owner: Pubkey,
    pub gumball_admin: Pubkey,
    pub creation_fee_lamports: u64,
    pub ticket_fee_bps: u16,
    pub minimum_gumball_period: u32,
    pub maximum_gumball_period: u32,
    pub gumball_count: u32,
    pub pause_flags: u8,
    pub config_bump: u8,
}

/// One machine. `ticket_mint` is `None` where tickets are paid in the native
/// currency. `prizes_added` counts the prize units put into the machine, and
/// `tickets_sold` the spins, each of which took one unit out. After the
/// machine has ended, `claimable_ticket_amount` is what the creator may still
/// take of the ticket revenue.
#[derive(Clone, Copy, Debug, PartialEq, Eq)]
pub struct GumballMachine {
    pub gumball_id: u32,
    pub creator: Pubkey,
    pub start_time: i64,
    pub end_time: i64,
    pub total_tickets: u16,
    pub tickets_sold: u16,
    pub prizes_added: u16,
    pub ticket_mint: Option<Pubkey>,
    pub ticket_price: u64,
    pub status: GumballState,
    pub claimable_ticket_amount: u64,
    pub gumball_bump: u8,
}

/// One kind of prize in a machine: `quantity` units are left, each of
/// `prize_amount` tokens of `mint`. A slot that was never filled names the
/// all-zero mint.
#[derive(Clone, Copy, Debug, PartialEq, Eq)]
pub struct Prize {
    pub gumball_id: u32,
    pub prize_index: u16,
    pub if_prize_nft: bool,
    pub mint: Pubkey,
    pub total_amount: u64,
    pub prize_amount: u64,
    pub quantity: u16,
}

/// Where a machine stands in its life.
#[derive(Clone, Copy, Debug, PartialEq, Eq, Structural)]
pub enum GumballState {
    Uninitialized,
    Initialized,
    Active,
    Cancelled,
    CompletedSuccessfully,
    CompletedFailed,
}

impl GumballState {
    /// Whether a machine in this state may be in `next` after one operation:
    /// it stays where it is, or moves from `Initialized` to `Active`, from
    /// either of them to `Cancelled`, or from `Active` to one of the two
    /// completed states.
    pub open spec fn may_become(self, next: GumballState) -> bool {
        ||| next == self
        ||| self == GumballState::Initialized && next == GumballState::Active
        ||| self == GumballState::Initialized && next == GumballState::Cancelled
        ||| self == GumballState::Active && next == GumballState::Cancelled
        ||| self == GumballState::Active && next == GumballState::CompletedSuccessfully
        ||| self == GumballState::Active && next == GumballState::CompletedFailed
    }

    /// The states from which a machine never moves again.
    pub open spec fn is_terminal(self) -> bool {
        self == GumballState::Cancelled || self == GumballState::CompletedSuccessfully || self
            == GumballState::CompletedFailed
    }
}

impl GumballMachine {
    /// What holds of every machine that the operations made: no more prize
    /// units were added than there are tickets, and no more spins were sold
    /// than prize units were added. Only of a machine that ended with spins
    /// sold can the creator claim anything, and never more than the spins
    /// brought in.
    pub open spec fn well_formed(self) -> bool {
        &&& self.tickets_sold <= self.prizes_added <= self.total_tickets
        &&& self.status != GumballState::CompletedSuccessfully ==> self.claimable_ticket_amount == 0
        &&& self.claimable_ticket_amount <= self.ticket_price * self.tickets_sold
    }
}

} // verus!
