//! After the auction was completed, the creator takes what is theirs: the
//! price without the fee, or, where nobody bid, the item. The custody
//! account of bids in tokens is emptied to the creator and closed.

use vstd::prelude::*;
use crate::auction::errors::{
    transfer_rejection,
    AuctionError,
    AuctionStateErrors,
    ConfigStateErrors,
    KeysMismatchErrors,
};
use crate::auction::states::{Auction, AuctionConfig, AuctionState};
use crate::custody::{
    can_close,
    close_token_account_with_seeds,
    sol_transfer_rejection,
    token_transfer_rejection,
    transfer_sol_with_seeds,
    transfer_tokens_with_seeds,
    Mint,
    SystemAccount,
    TokenAccount,
    TransferErrors,
};
use crate::pubkey::Pubkey;

verus! {

/// What `claim_amount_back` reports.
#[derive(Clone, Copy, Debug, PartialEq, Eq)]
pub struct AmountClaimBack {
    pub auction_id: u32,
    pub claimer: Pubkey,
    pub prize_amount_claimable: u64,
    pub bid_amount_claimable: u64,
    pub claimed_time: i64,
}

/// The accounts of `claim_amount_back`.
#[derive(Clone, Copy)]
pub struct ClaimAmountBack {
    pub auction_config: AuctionConfig,
    pub auction: Auction,
    pub auction_vault: SystemAccount,
    pub creator: SystemAccount,
    pub auction_admin: Pubkey,
    pub prize_mint: Mint,
    pub bid_mint: Mint,
    pub prize_escrow: TokenAccount,
    pub bid_escrow: TokenAccount,
    pub creator_prize_ata: TokenAccount,
    pub creator_bid_ata: TokenAccount,
}

impl ClaimAmountBack {
    /// Custody conservation: of each account that holds value for the sale,
    /// what went out never exceeded what came in.
    pub open spec fn custody_conserved(self) -> bool {
        self.auction_vault.conserved() && self.prize_escrow.conserved() && self.bid_escrow.conserved()
    }
}

/// Why the item cannot go back to the creator, if it cannot. Nothing goes
/// back where nothing of the item can be claimed.
pub open spec fn prize_side_rejection(ctx: ClaimAmountBack) -> Option<AuctionError> {
    if ctx.auction.claimable_prize_back == 0 {
        None
    } else if ctx.prize_mint.key != ctx.auction.prize_mint || ctx.creator_prize_ata.mint
        != ctx.auction.prize_mint {
        Some(AuctionError::Keys(KeysMismatchErrors::InvalidPrizeMint))
    } else if ctx.creator_prize_ata.owner != ctx.creator.key {
        Some(AuctionError::Keys(KeysMismatchErrors::InvalidPrizeAtaOwner))
    } else {
        transfer_rejection(
            token_transfer_rejection(
                ctx.prize_escrow,
                ctx.creator_prize_ata,
                ctx.auction_vault.key,
                ctx.prize_mint,
                ctx.auction.claimable_prize_back,
            ),
        )
    }
}

/// The accounts after the item went back to the creator.
pub open spec fn prize_side_effect(ctx: ClaimAmountBack) -> ClaimAmountBack {
    if ctx.auction.claimable_prize_back == 0 {
        ctx
    } else {
        ClaimAmountBack {
            prize_escrow: ctx.prize_escrow.debited(ctx.auction.claimable_prize_back),
            creator_prize_ata: ctx.creator_prize_ata.credited(ctx.auction.claimable_prize_back),
            ..ctx
        }
    }
}

/// What the creator gets of the price: what was written down for them, or,
/// for bids in tokens, all that the custody account holds where that is
/// more, so that no remainder is stranded in it.
pub open spec fn bid_claim(ctx: ClaimAmountBack) -> u64 {
    if ctx.auction.bid_mint is Some && ctx.auction.claimable_bid_amount < ctx.bid_escrow.amount() {
        ctx.bid_escrow.amount()
    } else {
        ctx.auction.claimable_bid_amount
    }
}

/// Why `amount` of the price cannot be paid to the creator, if it cannot.
/// Nothing is paid where the amount is zero. The custody account of bids in
/// tokens is closed after the payment.
pub open spec fn bid_side_rejection(ctx: ClaimAmountBack, amount: u64) -> Option<AuctionError> {
    if amount == 0 {
        None
    } else {
        match ctx.auction.bid_mint {
            None => transfer_rejection(sol_transfer_rejection(ctx.auction_vault, ctx.creator, amount)),
            Some(stored_mint) => {
                if ctx.bid_mint.key != stored_mint || ctx.bid_escrow.mint != stored_mint
                    || ctx.creator_bid_ata.mint != stored_mint {
                    Some(AuctionError::Keys(KeysMismatchErrors::InvalidBidMint))
                } else if ctx.bid_escrow.owner != ctx.auction_vault.key {
                    Some(AuctionError::Keys(KeysMismatchErrors::InvalidBidEscrowOwner))
                } else if ctx.creator_bid_ata.owner != ctx.creator.key {
                    Some(AuctionError::Keys(KeysMismatchErrors::InvalidBidAtaOwner))
                } else if token_transfer_rejection(
                    ctx.bid_escrow,
                    ctx.creator_bid_ata,
                    ctx.auction_vault.key,
                    ctx.bid_mint,
                    amount,
                ) is Some {
                    transfer_rejection(
                        token_transfer_rejection(
                            ctx.bid_escrow,
                            ctx.creator_bid_ata,
                            ctx.auction_vault.key,
                            ctx.bid_mint,
                            amount,
                        ),
                    )
                } else if !can_close(ctx.bid_escrow.debited(amount), ctx.auction_vault.key) {
                    Some(AuctionError::Transfer(TransferErrors::CloseAccountFailed))
                } else {
                    None
                }
            },
        }
    }
}

/// The accounts after `amount` of the price was paid to the creator.
pub open spec fn bid_side_effect(ctx: ClaimAmountBack, amount: u64) -> ClaimAmountBack {
    if amount == 0 {
        ctx
    } else {
        match ctx.auction.bid_mint {
            None => ClaimAmountBack {
                auction_vault: ctx.auction_vault.debited(amount),
                creator: ctx.creator.credited(amount),
                ..ctx
            },
            Some(_) => ClaimAmountBack {
                bid_escrow: ctx.bid_escrow.debited(amount).shut(),
                creator_bid_ata: ctx.creator_bid_ata.credited(amount),
                ..ctx
            },
        }
    }
}

/// Why the creator cannot claim, if they cannot: the first of these that
/// holds. The admin is not the configured one; the auction has another
/// number; the caller is not the creator; the auction was not completed;
/// there is nothing to claim on either side; the item cannot go back; the
/// price cannot be paid.
pub open spec fn claim_amount_back_rejection(ctx: ClaimAmountBack, auction_id: u32) -> Option<
    AuctionError,
> {
    if ctx.auction_config.auction_admin != ctx.auction_admin {
        Some(AuctionError::Config(ConfigStateErrors::InvalidAuctionAdmin))
    } else if ctx.auction.auction_id != auction_id {
        Some(AuctionError::State(AuctionStateErrors::InvalidAuctionId))
    } else if ctx.auction.creator != ctx.creator.key {
        Some(AuctionError::State(AuctionStateErrors::InvalidCreator))
    } else if ctx.auction.status != AuctionState::CompletedSuccessfully && ctx.auction.status
        != AuctionState::CompletedFailed {
        Some(AuctionError::State(AuctionStateErrors::AuctionNotCompleted))
    } else if ctx.auction.claimable_prize_back == 0 && bid_claim(ctx) == 0 {
        Some(AuctionError::State(AuctionStateErrors::InvalidZeroAmount))
    } else if prize_side_rejection(ctx) is Some {
        prize_side_rejection(ctx)
    } else {
        bid_side_rejection(prize_side_effect(ctx), bid_claim(ctx))
    }
}

/// The accounts after the creator claimed: both sides are paid, and nothing
/// is left to claim.
pub open spec fn claim_amount_back_effect(ctx: ClaimAmountBack) -> ClaimAmountBack {
    let paid = bid_side_effect(prize_side_effect(ctx), bid_claim(ctx));
    ClaimAmountBack {
        auction: Auction { claimable_prize_back: 0, claimable_bid_amount: 0, ..ctx.auction },
        ..paid
    }
}

/// After the creator claimed, a second claim by the same accounts finds
/// nothing and is turned away with `InvalidZeroAmount`.
pub proof fn claim_back_is_at_most_once(ctx: ClaimAmountBack, auction_id: u32)
    requires
        claim_amount_back_rejection(ctx, auction_id) is None,
    ensures
        claim_amount_back_rejection(claim_amount_back_effect(ctx), auction_id) == Some(
            AuctionError::State(AuctionStateErrors::InvalidZeroAmount),
        ),
{
}

fn pay_prize_side(work: &mut ClaimAmountBack) -> (r: Result<(), AuctionError>)
    ensures
        match r {
            Ok(()) => prize_side_rejection(*old(work)) is None && *final(work) == prize_side_effect(
                *old(work),
            ),
            Err(e) => prize_side_rejection(*old(work)) == Some(e),
        },
{
    let amount = work.auction.claimable_prize_back;
    if amount == 0 {
        return Ok(());
    }
    if !work.prize_mint.key.same(&work.auction.prize_mint) || !work.creator_prize_ata.mint.same(
        &work.auction.prize_mint,
    ) {
        return Err(AuctionError::Keys(KeysMismatchErrors::InvalidPrizeMint));
    }
    if !work.creator_prize_ata.owner.same(&work.creator.key) {
        return Err(AuctionError::Keys(KeysMismatchErrors::InvalidPrizeAtaOwner));
    }
    let authority = work.auction_vault.key;
    let prize_mint = work.prize_mint;
    match transfer_tokens_with_seeds(
        &mut work.prize_escrow,
        &mut work.creator_prize_ata,
        &authority,
        &prize_mint,
        amount,
    ) {
        Ok(()) => Ok(()),
        Err(e) => Err(AuctionError::Transfer(e)),
    }
}

fn pay_bid_side(work: &mut ClaimAmountBack, amount: u64) -> (r: Result<(), AuctionError>)
    ensures
        match r {
            Ok(()) => bid_side_rejection(*old(work), amount) is None && *final(work) == bid_side_effect(
                *old(work),
                amount,
            ),
            Err(e) => bid_side_rejection(*old(work), amount) == Some(e),
        },
{
    if amount == 0 {
        return Ok(());
    }
    match work.auction.bid_mint {
        None => {
            match transfer_sol_with_seeds(&mut work.auction_vault, &mut work.creator, amount) {
                Ok(()) => Ok(()),
                Err(e) => Err(AuctionError::Transfer(e)),
            }
        },
        Some(stored_mint) => {
            if !work.bid_mint.key.same(&stored_mint) || !work.bid_escrow.mint.same(&stored_mint)
                || !work.creator_bid_ata.mint.same(&stored_mint) {
                return Err(AuctionError::Keys(KeysMismatchErrors::InvalidBidMint));
            }
            if !work.bid_escrow.owner.same(&work.auction_vault.key) {
                return Err(AuctionError::Keys(KeysMismatchErrors::InvalidBidEscrowOwner));
            }
            if !work.creator_bid_ata.owner.same(&work.creator.key) {
                return Err(AuctionError::Keys(KeysMismatchErrors::InvalidBidAtaOwner));
            }
            let authority = work.auction_vault.key;
            let bid_mint = work.bid_mint;
            match transfer_tokens_with_seeds(
                &mut work.bid_escrow,
                &mut work.creator_bid_ata,
                &authority,
                &bid_mint,
                amount,
            ) {
                Ok(()) => {},
                Err(e) => {
                    return Err(AuctionError::Transfer(e));
                },
            }
            match close_token_account_with_seeds(&mut work.bid_escrow, &authority) {
                Ok(()) => Ok(()),
                Err(e) => Err(AuctionError::Transfer(e)),
            }
        },
    }
}

/// Pays the creator, at the time `now`, what they may claim of the item and
/// of the price, and writes both claims down to zero. Where the bids were in
/// tokens, whatever their custody account holds goes to the creator, and the
/// account is closed.
pub fn claim_amount_back(ctx: &mut ClaimAmountBack, auction_id: u32, now: i64) -> (r: Result<
    AmountClaimBack,
    AuctionError,
>)
    ensures
        match r {
            Ok(event) => {
                &&& claim_amount_back_rejection(*old(ctx), auction_id) is None
                &&& *final(ctx) == claim_amount_back_effect(*old(ctx))
                &&& event == (AmountClaimBack {
                    auction_id,
                    claimer: old(ctx).creator.key,
                    prize_amount_claimable: old(ctx).auction.claimable_prize_back,
                    bid_amount_claimable: bid_claim(*old(ctx)),
                    claimed_time: now,
                })
            },
            Err(e) => {
                &&& claim_amount_back_rejection(*old(ctx), auction_id) == Some(e)
                &&& *final(ctx) == *old(ctx)
            },
        },
        final(ctx).custody_conserved(),
        r is Ok && old(ctx).auction.well_formed() ==> final(ctx).auction.well_formed(),
{
    proof {
        use_type_invariant(&ctx.auction_vault.balance);
        use_type_invariant(&ctx.prize_escrow.balance);
        use_type_invariant(&ctx.bid_escrow.balance);
    }
    let mut work = *ctx;
    if !work.auction_config.auction_admin.same(&work.auction_admin) {
        return Err(AuctionError::Config(ConfigStateErrors::InvalidAuctionAdmin));
    }
    if work.auction.auction_id != auction_id {
        return Err(AuctionError::State(AuctionStateErrors::InvalidAuctionId));
    }
    if !work.auction.creator.same(&work.creator.key) {
        return Err(AuctionError::State(AuctionStateErrors::InvalidCreator));
    }
    if work.auction.status != AuctionState::CompletedSuccessfully && work.auction.status
        != AuctionState::CompletedFailed {
        return Err(AuctionError::State(AuctionStateErrors::AuctionNotCompleted));
    }
    let prize_amount_claimable = work.auction.claimable_prize_back;
    let bid_amount_claimable = if work.auction.bid_mint.is_some() && work.auction.claimable_bid_amount
        < work.bid_escrow.amount() {
        work.bid_escrow.amount()
    } else {
        work.auction.claimable_bid_amount
    };
    if prize_amount_claimable == 0 && bid_amount_claimable == 0 {
        return Err(AuctionError::State(AuctionStateErrors::InvalidZeroAmount));
    }
    pay_prize_side(&mut work)?;
    pay_bid_side(&mut work, bid_amount_claimable)?;
    work.auction.claimable_prize_back = 0;
    work.auction.claimable_bid_amount = 0;
    *ctx = work;
    Ok(
        AmountClaimBack {
            auction_id,
            claimer: ctx.creator.key,
            prize_amount_claimable,
            bid_amount_claimable,
            claimed_time: now,
        },
    )
}

} // verus!
