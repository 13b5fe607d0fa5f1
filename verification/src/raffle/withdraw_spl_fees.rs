//! Taking the fees that the house has collected in tokens.

use vstd::prelude::*;
use crate::custody::{
    token_transfer_rejection,
    transfer_tokens_with_seeds,
    Mint,
    SystemAccount,
    TokenAccount,
};
use crate::pubkey::Pubkey;
use crate::raffle::errors::{transfer_rejection, ConfigStateErrors, RaffleError};
use crate::raffle::states::RaffleConfig;

verus! {

/// What `withdraw_spl_fees` reports.
#[derive(Clone, Copy, Debug, PartialEq, Eq)]
pub struct SplFeesWithdrawn {
    pub amount: u64,
    pub mint: Pubkey,
    pub receiver: Pubkey,
}

/// The accounts of `withdraw_spl_fees`. `config_treasury` is the house's own
/// account, to which `fee_treasury_ata` belongs.
#[derive(Clone, Copy)]
pub struct WithdrawSplFees {
    pub raffle_config: RaffleConfig,
    pub config_treasury: SystemAccount,
    pub owner: Pubkey,
    pub fee_mint: Mint,
    pub fee_treasury_ata: TokenAccount,
    pub receiver_fee_ata: TokenAccount,
}

impl WithdrawSplFees {
    /// Custody conservation: of each account that holds value for the sale
    /// or for the house, what went out never exceeded what came in.
    pub open spec fn custody_conserved(self) -> bool {
        self.fee_treasury_ata.conserved()
    }
}

/// Why `amount` cannot be taken, if it cannot: the caller is not the owner,
/// or the move is refused.
pub open spec fn withdraw_spl_fees_rejection(ctx: WithdrawSplFees, amount: u64) -> Option<RaffleError> {
    if ctx.raffle_config.raffle_owner != ctx.owner {
        Some(RaffleError::Config(ConfigStateErrors::InvalidRaffleOwner))
    } else {
        transfer_rejection(
            token_transfer_rejection(
                ctx.fee_treasury_ata,
                ctx.receiver_fee_ata,
                ctx.config_treasury.key,
                ctx.fee_mint,
                amount,
            ),
        )
    }
}

/// Moves `amount` tokens from the house's treasury to `ctx.receiver_fee_ata`.
pub fn withdraw_spl_fees(ctx: &mut WithdrawSplFees, amount: u64) -> (r: Result<
    SplFeesWithdrawn,
    RaffleError,
>)
    ensures
        match r {
            Ok(event) => {
                &&& withdraw_spl_fees_rejection(*old(ctx), amount) is None
                &&& *final(ctx) == (WithdrawSplFees {
                    fee_treasury_ata: old(ctx).fee_treasury_ata.debited(amount),
                    receiver_fee_ata: old(ctx).receiver_fee_ata.credited(amount),
                    ..*old(ctx)
                })
                &&& event == (SplFeesWithdrawn {
                    amount,
                    mint: old(ctx).fee_mint.key,
                    receiver: old(ctx).owner,
                })
            },
            Err(e) => {
                &&& withdraw_spl_fees_rejection(*old(ctx), amount) == Some(e)
                &&& *final(ctx) == *old(ctx)
            },
        },
        final(ctx).custody_conserved(),
{
    proof {
        use_type_invariant(&ctx.fee_treasury_ata.balance);
    }
    let mut work = *ctx;
    if !work.raffle_config.raffle_owner.same(&work.owner) {
        return Err(RaffleError::Config(ConfigStateErrors::InvalidRaffleOwner));
    }
    let authority = work.config_treasury.key;
    let fee_mint = work.fee_mint;
    match transfer_tokens_with_seeds(
        &mut work.fee_treasury_ata,
        &mut work.receiver_fee_ata,
        &authority,
        &fee_mint,
        amount,
    ) {
        Ok(()) => {},
        Err(e) => {
            return Err(RaffleError::Transfer(e));
        },
    }
    *ctx = work;
    Ok(SplFeesWithdrawn { amount, mint: fee_mint.key, receiver: ctx.owner })
}

} // verus!
