//! Taking the fees that the house has collected in the native currency.

use vstd::prelude::*;
use crate::custody::{
    sol_transfer_rejection,
    transfer_sol_with_seeds,
    SystemAccount,
    TransferErrors,
};
use crate::gumball::errors::{transfer_rejection, ConfigStateErrors, GumballError};
use crate::gumball::states::GumballConfig;
use crate::pubkey::Pubkey;

verus! {

/// What `withdraw_sol_fees` reports.
#[derive(Clone, Copy, Debug, PartialEq, Eq)]
pub struct FeesWithdrawn {
    pub amount: u64,
    pub receiver: Pubkey,
}

/// The accounts of `withdraw_sol_fees`.
#[derive(Clone, Copy)]
pub struct WithdrawSolFees {
    pub gumball_config: GumballConfig,
    pub config_treasury: SystemAccount,
    pub owner: Pubkey,
    pub receiver: SystemAccount,
}

impl WithdrawSolFees {
    /// Custody conservation: of each account that holds value for the sale
    /// or for the house, what went out never exceeded what came in.
    pub open spec fn custody_conserved(self) -> bool {
        self.config_treasury.conserved()
    }
}

/// Why `amount` cannot be taken, if it cannot: the caller is not the owner;
/// the treasury would fall below `min_rent`, which it has to keep; the
/// receiver cannot hold the sum.
pub open spec fn withdraw_sol_fees_rejection(ctx: WithdrawSolFees, amount: u64, min_rent: u64) -> Option<
    GumballError,
> {
    if ctx.gumball_config.gumball_owner != ctx.owner {
        Some(GumballError::Config(ConfigStateErrors::InvalidGumballOwner))
    } else if ctx.config_treasury.lamports() < min_rent + amount {
        Some(GumballError::Transfer(TransferErrors::InsufficientSolBalance))
    } else {
        transfer_rejection(sol_transfer_rejection(ctx.config_treasury, ctx.receiver, amount))
    }
}

/// Moves `amount` lamports from the house's treasury to `ctx.receiver`. The
/// treasury keeps at least `min_rent`, the least that its storage costs.
pub fn withdraw_sol_fees(ctx: &mut WithdrawSolFees, amount: u64, min_rent: u64) -> (r: Result<
    FeesWithdrawn,
    GumballError,
>)
    ensures
        match r {
            Ok(event) => {
                &&& withdraw_sol_fees_rejection(*old(ctx), amount, min_rent) is None
                &&& *final(ctx) == (WithdrawSolFees {
                    config_treasury: old(ctx).config_treasury.debited(amount),
                    receiver: old(ctx).receiver.credited(amount),
                    ..*old(ctx)
                })
                &&& event == (FeesWithdrawn { amount, receiver: old(ctx).receiver.key })
            },
            Err(e) => {
                &&& withdraw_sol_fees_rejection(*old(ctx), amount, min_rent) == Some(e)
                &&& *final(ctx) == *old(ctx)
            },
        },
        final(ctx).custody_conserved(),
{
    proof {
        use_type_invariant(&ctx.config_treasury.balance);
    }
    let mut work = *ctx;
    if !work.gumball_config.gumball_owner.same(&work.owner) {
        return Err(GumballError::Config(ConfigStateErrors::InvalidGumballOwner));
    }
    let enough = match min_rent.checked_add(amount) {
        Some(needed) => work.config_treasury.lamports() >= needed,
        None => false,
    };
    if !enough {
        return Err(GumballError::Transfer(TransferErrors::InsufficientSolBalance));
    }
    match transfer_sol_with_seeds(&mut work.config_treasury, &mut work.receiver, amount) {
        Ok(()) => {},
        Err(e) => {
            return Err(GumballError::Transfer(e));
        },
    }
    *ctx = work;
    Ok(FeesWithdrawn { amount, receiver: ctx.receiver.key })
}

} // verus!
