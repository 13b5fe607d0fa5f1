use prize_sales::auction::cancel_auction::{cancel_auction, AuctionCancelled, CancelAuction};
use prize_sales::auction::claim_amount_back::{claim_amount_back, AmountClaimBack, ClaimAmountBack};
use prize_sales::auction::claim_prize::{claim_prize, ClaimPrize, PrizeClaimed};
use prize_sales::auction::complete_auction::{complete_auction, AuctionCompleted, CompleteAuction};
use prize_sales::auction::create_auction::{create_auction, AuctionCreated, CreateAuction};
use prize_sales::auction::errors::{
    AuctionError,
    AuctionStateErrors,
    ConfigStateErrors,
    KeysMismatchErrors,
};
use prize_sales::auction::place_bid::{place_bid, BidPlaced, PlaceBid};
use prize_sales::auction::start_auction::{start_auction, AuctionStarted, StartAuction};
use prize_sales::auction::states::{Auction, AuctionConfig, AuctionState};
use prize_sales::auction::update_auction::{update_auction, AuctionUpdated, UpdateAuction};
use prize_sales::custody::{Mint, SystemAccount, TokenAccount, TransferErrors};
use prize_sales::pubkey::Pubkey;

const OWNER: u8 = 1;
const ADMIN: u8 = 2;
const CREATOR: u8 = 3;
const ALICE: u8 = 4;
const BOB: u8 = 5;
const TREASURY: u8 = 20;
const VAULT: u8 = 21;
const NFT: u8 = 30;
const USDC: u8 = 31;
const T: i64 = 10_000;

fn key(n: u8) -> Pubkey {
    Pubkey::new_from_array([n; 32])
}

fn state(e: AuctionStateErrors) -> AuctionError {
    AuctionError::State(e)
}

fn keys(e: KeysMismatchErrors) -> AuctionError {
    AuctionError::Keys(e)
}

fn config() -> AuctionConfig {
    AuctionConfig {
        auction_owner: key(OWNER),
        auction_admin: key(ADMIN),
        creation_fee_lamports: 1_000,
        commission_bps: 250,
        minimum_auction_period: 60,
        maximum_auction_period: 100_000,
        minimum_time_extension: 0,
        maximum_time_extension: 600,
        auction_count: 1,
        pause_flags: 0,
        config_bump: 254,
    }
}

fn blank_auction() -> Auction {
    Auction {
        auction_id: 0,
        creator: Pubkey::default(),
        prize_mint: Pubkey::default(),
        start_time: 0,
        end_time: 0,
        bid_mint: None,
        base_bid: 0,
        min_increment: 0,
        time_extension: 0,
        highest_bid_amount: 0,
        highest_bidder: Pubkey::default(),
        has_any_bid: false,
        status: AuctionState::Uninitialized,
        claimable_prize_back: 0,
        claimable_bid_amount: 0,
        is_prize_claimed: false,
        auction_bump: 0,
    }
}

fn nft_mint() -> Mint {
    Mint { key: key(NFT), decimals: 0, supply: 1 }
}

fn usdc_mint() -> Mint {
    Mint { key: key(USDC), decimals: 6, supply: 1_000_000_000 }
}

fn token(address: u8, mint: u8, owner: u8, amount: u64) -> TokenAccount {
    TokenAccount::new(key(address), key(mint), key(owner), amount)
}

fn create_ctx() -> CreateAuction {
    CreateAuction {
        auction_config: config(),
        config_treasury: SystemAccount::new(key(TREASURY), 0),
        auction: blank_auction(),
        auction_vault: SystemAccount::new(key(VAULT), 0),
        creator: SystemAccount::new(key(CREATOR), 5_000),
        auction_admin: key(ADMIN),
        prize_mint: nft_mint(),
        bid_mint: usdc_mint(),
        creator_prize_ata: token(40, NFT, CREATOR, 1),
        prize_escrow: token(41, NFT, VAULT, 0),
    }
}

/// An auction that runs from `T` to `T + 1000`, with a base bid of 100, an
/// increment of 10 and an extension of 300.
fn running_auction(bid_mint: Option<Pubkey>) -> Auction {
    Auction {
        auction_id: 1,
        creator: key(CREATOR),
        prize_mint: key(NFT),
        start_time: T,
        end_time: T + 1_000,
        bid_mint,
        base_bid: 100,
        min_increment: 10,
        time_extension: 300,
        highest_bid_amount: 100,
        highest_bidder: Pubkey::default(),
        has_any_bid: false,
        status: AuctionState::Active,
        claimable_prize_back: 0,
        claimable_bid_amount: 0,
        is_prize_claimed: false,
        auction_bump: 7,
    }
}

fn bid_ctx(auction: Auction, bidder: u8, previous: u8) -> PlaceBid {
    PlaceBid {
        auction_config: config(),
        auction,
        auction_vault: SystemAccount::new(key(VAULT), 0),
        bidder: SystemAccount::new(key(bidder), 10_000),
        auction_admin: key(ADMIN),
        prev_bidder_account: SystemAccount::new(key(previous), 0),
        bid_mint: usdc_mint(),
        current_bidder_ata: token(50, USDC, bidder, 10_000),
        prev_bidder_ata: token(51, USDC, previous, 0),
        bid_escrow: token(52, USDC, VAULT, 0),
    }
}

fn complete_ctx(auction: Auction, custody: u64) -> CompleteAuction {
    CompleteAuction {
        auction_config: config(),
        config_treasury: SystemAccount::new(key(TREASURY), 0),
        auction,
        auction_vault: SystemAccount::new(key(VAULT), custody),
        auction_admin: key(ADMIN),
        creator: key(CREATOR),
        bid_mint: usdc_mint(),
        bid_escrow: token(52, USDC, VAULT, custody),
        bid_fee_treasury_ata: token(53, USDC, TREASURY, 0),
    }
}

/// An auction that was completed with a highest bid of 1000 by Alice, of
/// which 975 are the creator's.
fn completed_auction(bid_mint: Option<Pubkey>) -> Auction {
    Auction {
        highest_bid_amount: 1_000,
        highest_bidder: key(ALICE),
        has_any_bid: true,
        status: AuctionState::CompletedSuccessfully,
        claimable_bid_amount: 975,
        ..running_auction(bid_mint)
    }
}

fn prize_ctx(auction: Auction) -> ClaimPrize {
    ClaimPrize {
        auction_config: config(),
        auction,
        auction_vault: SystemAccount::new(key(VAULT), 975),
        auction_admin: key(ADMIN),
        winner: key(ALICE),
        prize_mint: nft_mint(),
        prize_escrow: token(41, NFT, VAULT, 1),
        winner_prize_ata: token(42, NFT, ALICE, 0),
    }
}

fn back_ctx(auction: Auction) -> ClaimAmountBack {
    ClaimAmountBack {
        auction_config: config(),
        auction,
        auction_vault: SystemAccount::new(key(VAULT), 975),
        creator: SystemAccount::new(key(CREATOR), 0),
        auction_admin: key(ADMIN),
        prize_mint: nft_mint(),
        bid_mint: usdc_mint(),
        prize_escrow: token(41, NFT, VAULT, 1),
        bid_escrow: token(52, USDC, VAULT, 975),
        creator_prize_ata: token(40, NFT, CREATOR, 0),
        creator_bid_ata: token(54, USDC, CREATOR, 0),
    }
}

#[test]
fn an_auction_is_created_and_the_item_locked() {
    let mut ctx = create_ctx();
    let event = create_auction(&mut ctx, T + 10, T + 1_010, false, true, 100, 10, 300, T, 7);
    assert_eq!(
        event,
        Ok(AuctionCreated {
            auction_id: 1,
            creator: key(CREATOR),
            prize_mint: key(NFT),
            start_time: T + 10,
            end_time: T + 1_010,
            created_at: T,
        })
    );
    assert_eq!(
        ctx.auction,
        Auction {
            auction_id: 1,
            creator: key(CREATOR),
            prize_mint: key(NFT),
            start_time: T + 10,
            end_time: T + 1_010,
            bid_mint: None,
            base_bid: 100,
            min_increment: 10,
            time_extension: 300,
            highest_bid_amount: 100,
            highest_bidder: Pubkey::default(),
            has_any_bid: false,
            status: AuctionState::Initialized,
            claimable_prize_back: 0,
            claimable_bid_amount: 0,
            is_prize_claimed: false,
            auction_bump: 7,
        }
    );
    assert_eq!(ctx.auction_config.auction_count, 2);
    assert_eq!(ctx.creator_prize_ata.amount(), 0);
    assert_eq!(ctx.prize_escrow.amount(), 1);
    assert_eq!(ctx.creator.lamports(), 4_000);
    assert_eq!(ctx.config_treasury.lamports(), 1_000);
}

#[test]
fn an_auction_that_starts_immediately_is_active_from_now() {
    let mut ctx = create_ctx();
    let event = create_auction(&mut ctx, 1, T + 500, true, false, 0, 1, 0, T, 7).unwrap();
    assert_eq!(event.start_time, T);
    assert_eq!(ctx.auction.start_time, T);
    assert_eq!(ctx.auction.status, AuctionState::Active);
    assert_eq!(ctx.auction.bid_mint, Some(key(USDC)));
    assert_eq!(ctx.auction.highest_bid_amount, 0);
}

#[test]
fn create_auction_names_what_is_wrong() {
    let attempt = |change: &dyn Fn(&mut CreateAuction), start: i64, end: i64, increment: u64, extension: u32| {
        let mut ctx = create_ctx();
        change(&mut ctx);
        let result = create_auction(&mut ctx, start, end, false, true, 100, increment, extension, T, 7);
        // A refused creation changes nothing.
        if result.is_err() {
            let mut untouched = create_ctx();
            change(&mut untouched);
            assert_eq!(ctx.auction, untouched.auction);
            assert_eq!(ctx.auction_config, untouched.auction_config);
            assert_eq!(ctx.prize_escrow.amount(), untouched.prize_escrow.amount());
            assert_eq!(ctx.creator.lamports(), untouched.creator.lamports());
            assert_eq!(ctx.creator_prize_ata.amount(), untouched.creator_prize_ata.amount());
        }
        result.map(|_| ())
    };
    let fine = |_: &mut CreateAuction| {};
    assert_eq!(attempt(&fine, T, T + 60, 10, 300), Ok(()));
    assert_eq!(
        attempt(&|c| c.auction_admin = key(99), T, T + 60, 10, 300),
        Err(AuctionError::Config(ConfigStateErrors::InvalidAuctionAdmin))
    );
    assert_eq!(
        attempt(&|c| c.auction_config.pause_flags = 1, T, T + 60, 10, 300),
        Err(state(AuctionStateErrors::FunctionPaused))
    );
    assert_eq!(attempt(&fine, T, T + 60, 0, 300), Err(state(AuctionStateErrors::InvalidZeroAmount)));
    assert_eq!(
        attempt(&fine, i64::MIN, i64::MAX, 10, 300),
        Err(state(AuctionStateErrors::StartTimeExceedEndTime))
    );
    assert_eq!(
        attempt(&fine, T, T + 59, 10, 300),
        Err(AuctionError::Config(ConfigStateErrors::InvalidAuctionPeriod))
    );
    assert_eq!(
        attempt(&fine, T, T + 100_001, 10, 300),
        Err(AuctionError::Config(ConfigStateErrors::InvalidAuctionPeriod))
    );
    assert_eq!(
        attempt(&fine, T + 100, T, 10, 300),
        Err(AuctionError::Config(ConfigStateErrors::InvalidAuctionPeriod))
    );
    assert_eq!(
        attempt(&fine, T, T + 60, 10, 601),
        Err(AuctionError::Config(ConfigStateErrors::InvalidTimeExtension))
    );
    assert_eq!(attempt(&fine, T - 1, T + 60, 10, 300), Err(state(AuctionStateErrors::StartTimeInPast)));
    assert_eq!(
        attempt(&|c| c.prize_mint.supply = 2, T, T + 60, 10, 300),
        Err(state(AuctionStateErrors::InvalidNFT))
    );
    assert_eq!(
        attempt(&|c| c.prize_mint.decimals = 1, T, T + 60, 10, 300),
        Err(state(AuctionStateErrors::InvalidNFT))
    );
    assert_eq!(
        attempt(&|c| c.auction_config.auction_count = u32::MAX, T, T + 60, 10, 300),
        Err(state(AuctionStateErrors::Overflow))
    );
    assert_eq!(
        attempt(&|c| c.creator_prize_ata = token(40, NFT, CREATOR, 0), T, T + 60, 10, 300),
        Err(AuctionError::Transfer(TransferErrors::InsufficientTokenBalance))
    );
    assert_eq!(
        attempt(&|c| c.creator_prize_ata = token(40, NFT, ALICE, 1), T, T + 60, 10, 300),
        Err(AuctionError::Transfer(TransferErrors::TokenTransferFailed))
    );
    assert_eq!(
        attempt(&|c| c.creator = SystemAccount::new(key(CREATOR), 999), T, T + 60, 10, 300),
        Err(AuctionError::Transfer(TransferErrors::InsufficientSolBalance))
    );
    assert_eq!(
        attempt(
            &|c| {
                c.creator = SystemAccount::new(key(CREATOR), 0);
                c.auction_config.creation_fee_lamports = 0;
            },
            T,
            T + 60,
            10,
            300
        ),
        Ok(())
    );
}

#[test]
fn an_auction_starts_when_its_time_has_come() {
    let mut auction = running_auction(None);
    auction.status = AuctionState::Initialized;
    let mut ctx = StartAuction { auction_config: config(), auction, auction_admin: key(ADMIN) };
    assert_eq!(start_auction(&mut ctx, 1, T - 1), Err(state(AuctionStateErrors::AuctionNotStarted)));
    assert_eq!(ctx.auction.status, AuctionState::Initialized);
    assert_eq!(start_auction(&mut ctx, 2, T), Err(state(AuctionStateErrors::InvalidAuctionId)));
    assert_eq!(start_auction(&mut ctx, 1, T), Ok(AuctionStarted { auction_id: 1, started_at: T }));
    assert_eq!(ctx.auction.status, AuctionState::Active);
    assert_eq!(start_auction(&mut ctx, 1, T), Err(state(AuctionStateErrors::AuctionAlreadyStarted)));
    ctx.auction_config.pause_flags = 1 << 4;
    assert_eq!(start_auction(&mut ctx, 1, T), Err(state(AuctionStateErrors::FunctionPaused)));
    ctx.auction_admin = key(ALICE);
    assert_eq!(
        start_auction(&mut ctx, 1, T),
        Err(AuctionError::Config(ConfigStateErrors::InvalidAuctionAdmin))
    );
}

#[test]
fn the_first_bid_is_paid_into_custody_and_nobody_is_refunded() {
    let mut ctx = bid_ctx(running_auction(None), ALICE, 0);
    let event = place_bid(&mut ctx, 1, 110, T + 1);
    assert_eq!(event, Ok(BidPlaced { auction_id: 1, bidder: key(ALICE), new_bid: 110, bid_time: T + 1 }));
    assert_eq!(ctx.auction.highest_bid_amount, 110);
    assert_eq!(ctx.auction.highest_bidder, key(ALICE));
    assert!(ctx.auction.has_any_bid);
    assert_eq!(ctx.auction.end_time, T + 1_000);
    assert_eq!(ctx.bidder.lamports(), 10_000 - 110);
    assert_eq!(ctx.auction_vault.lamports(), 110);
    assert_eq!(ctx.prev_bidder_account.lamports(), 0);
}

#[test]
fn a_late_bid_pays_back_the_one_it_beats_and_moves_the_end() {
    // An increment of 10, an end at `T + 1000`, an extension of 300.
    let end = T + 1_000;
    let mut auction = running_auction(None);
    auction.highest_bid_amount = 500;
    auction.highest_bidder = key(ALICE);
    auction.has_any_bid = true;
    let mut ctx = bid_ctx(auction, BOB, ALICE);
    ctx.auction_vault = SystemAccount::new(key(VAULT), 500);
    ctx.prev_bidder_account = SystemAccount::new(key(ALICE), 40);

    // One below the highest bid plus the increment is too low.
    assert_eq!(place_bid(&mut ctx, 1, 509, end - 1), Err(state(AuctionStateErrors::BidTooLow)));
    assert_eq!(ctx.auction.end_time, end);
    assert_eq!(ctx.auction_vault.lamports(), 500);

    let event = place_bid(&mut ctx, 1, 510, end - 1).unwrap();
    assert_eq!(event.new_bid, 510);
    assert_eq!(ctx.auction.end_time, end - 1 + 300);
    assert_eq!(ctx.auction.highest_bid_amount, 510);
    assert_eq!(ctx.auction.highest_bidder, key(BOB));
    assert_eq!(ctx.prev_bidder_account.lamports(), 40 + 500);
    assert_eq!(ctx.auction_vault.lamports(), 510);
    assert_eq!(ctx.bidder.lamports(), 10_000 - 510);
}

#[test]
fn an_early_bid_leaves_the_end_where_it_was() {
    let mut ctx = bid_ctx(running_auction(None), ALICE, 0);
    place_bid(&mut ctx, 1, 110, T + 100).unwrap();
    assert_eq!(ctx.auction.end_time, T + 1_000);
    let mut ctx = bid_ctx(running_auction(None), ALICE, 0);
    place_bid(&mut ctx, 1, 110, T + 700).unwrap();
    assert_eq!(ctx.auction.end_time, T + 1_000);
    let mut ctx = bid_ctx(running_auction(None), ALICE, 0);
    place_bid(&mut ctx, 1, 110, T + 701).unwrap();
    assert_eq!(ctx.auction.end_time, T + 1_001);
    let mut auction = running_auction(None);
    auction.time_extension = 0;
    let mut ctx = bid_ctx(auction, ALICE, 0);
    place_bid(&mut ctx, 1, 110, T + 999).unwrap();
    assert_eq!(ctx.auction.end_time, T + 1_000);
}

#[test]
fn bids_in_tokens_go_through_the_escrow() {
    let mut auction = running_auction(Some(key(USDC)));
    auction.highest_bid_amount = 500;
    auction.highest_bidder = key(ALICE);
    auction.has_any_bid = true;
    let mut ctx = bid_ctx(auction, BOB, ALICE);
    ctx.bid_escrow = token(52, USDC, VAULT, 500);
    let event = place_bid(&mut ctx, 1, 700, T + 5);
    assert_eq!(event, Ok(BidPlaced { auction_id: 1, bidder: key(BOB), new_bid: 700, bid_time: T + 5 }));
    assert_eq!(ctx.current_bidder_ata.amount(), 10_000 - 700);
    assert_eq!(ctx.bid_escrow.amount(), 700);
    assert_eq!(ctx.prev_bidder_ata.amount(), 500);
    // Nothing moved in the native currency.
    assert_eq!(ctx.bidder.lamports(), 10_000);
    assert_eq!(ctx.auction_vault.lamports(), 0);
}

#[test]
fn place_bid_names_what_is_wrong() {
    let attempt = |change: &dyn Fn(&mut PlaceBid), id: u32, amount: u64, now: i64| {
        let mut auction = running_auction(None);
        auction.highest_bid_amount = 500;
        auction.highest_bidder = key(ALICE);
        auction.has_any_bid = true;
        let mut ctx = bid_ctx(auction, BOB, ALICE);
        ctx.auction_vault = SystemAccount::new(key(VAULT), 500);
        change(&mut ctx);
        let before = (ctx.auction, ctx.bidder.lamports(), ctx.auction_vault.lamports(), ctx.bid_escrow.amount());
        let result = place_bid(&mut ctx, id, amount, now);
        if result.is_err() {
            let after =
                (ctx.auction, ctx.bidder.lamports(), ctx.auction_vault.lamports(), ctx.bid_escrow.amount());
            assert_eq!(before, after);
        }
        result.map(|_| ())
    };
    let fine = |_: &mut PlaceBid| {};
    let tokens = |c: &mut PlaceBid| {
        c.auction.bid_mint = Some(key(USDC));
        c.bid_escrow = token(52, USDC, VAULT, 500);
    };
    assert_eq!(attempt(&fine, 1, 510, T), Ok(()));
    assert_eq!(attempt(&tokens, 1, 510, T), Ok(()));
    assert_eq!(
        attempt(&|c| c.auction_admin = key(9), 1, 510, T),
        Err(AuctionError::Config(ConfigStateErrors::InvalidAuctionAdmin))
    );
    assert_eq!(attempt(&fine, 2, 510, T), Err(state(AuctionStateErrors::InvalidAuctionId)));
    assert_eq!(
        attempt(&|c| c.auction_config.pause_flags = 1 << 3, 1, 510, T),
        Err(state(AuctionStateErrors::FunctionPaused))
    );
    for status in [
        AuctionState::Uninitialized,
        AuctionState::Initialized,
        AuctionState::Cancelled,
        AuctionState::CompletedSuccessfully,
        AuctionState::CompletedFailed,
    ] {
        assert_eq!(
            attempt(&|c| c.auction.status = status, 1, 510, T),
            Err(state(AuctionStateErrors::AuctionNotActive))
        );
    }
    assert_eq!(attempt(&fine, 1, 510, T - 1), Err(state(AuctionStateErrors::AuctionNotStarted)));
    assert_eq!(attempt(&fine, 1, 510, T + 1_000), Err(state(AuctionStateErrors::AuctionNotStarted)));
    assert_eq!(attempt(&fine, 1, 510, T + 999), Ok(()));
    assert_eq!(
        attempt(&|c| c.bidder = SystemAccount::new(key(ALICE), 10_000), 1, 510, T),
        Err(state(AuctionStateErrors::CannotBidOwnHighBid))
    );
    assert_eq!(
        attempt(&|c| c.auction.min_increment = u64::MAX, 1, 510, T),
        Err(state(AuctionStateErrors::Overflow))
    );
    assert_eq!(attempt(&fine, 1, 509, T), Err(state(AuctionStateErrors::BidTooLow)));
    assert_eq!(
        attempt(&fine, 1, 10_001, T),
        Err(AuctionError::Transfer(TransferErrors::InsufficientSolBalance))
    );
    assert_eq!(
        attempt(&|c| c.auction_vault = SystemAccount::new(key(VAULT), u64::MAX), 1, 510, T),
        Err(AuctionError::Transfer(TransferErrors::SolTransferFailed))
    );
    assert_eq!(
        attempt(&|c| c.prev_bidder_account = SystemAccount::new(key(CREATOR), 0), 1, 510, T),
        Err(keys(KeysMismatchErrors::InvalidPreviousBidOwner))
    );
    assert_eq!(
        attempt(&|c| c.auction_vault = SystemAccount::new(key(VAULT), 0), 1, 510, T),
        Ok(())
    );
    assert_eq!(
        attempt(
            &|c| {
                c.auction_vault = SystemAccount::new(key(VAULT), 0);
                c.auction.highest_bid_amount = 9_000;
            },
            1,
            9_010,
            T
        ),
        Ok(())
    );
    assert_eq!(
        attempt(
            &|c| {
                c.auction_vault = SystemAccount::new(key(VAULT), 0);
                c.auction.highest_bid_amount = 9_000;
                c.auction.min_increment = 0;
                c.bidder = SystemAccount::new(key(BOB), 8_000);
            },
            1,
            9_000,
            T
        ),
        Err(AuctionError::Transfer(TransferErrors::InsufficientSolBalance))
    );
    assert_eq!(
        attempt(&|c| c.prev_bidder_account = SystemAccount::new(key(ALICE), u64::MAX), 1, 510, T),
        Err(AuctionError::Transfer(TransferErrors::SolTransferFailed))
    );
    assert_eq!(
        attempt(
            &|c| {
                c.auction.end_time = i64::MAX;
                c.auction.time_extension = 600;
            },
            1,
            510,
            i64::MAX - 100
        ),
        Err(state(AuctionStateErrors::Overflow))
    );
    // The token path holds every account to the auction's mint and owners.
    let with = |change: &'static dyn Fn(&mut PlaceBid)| {
        move |c: &mut PlaceBid| {
            c.auction.bid_mint = Some(key(USDC));
            c.bid_escrow = token(52, USDC, VAULT, 500);
            change(c);
        }
    };
    assert_eq!(
        attempt(&with(&|c| c.bid_mint.key = key(NFT)), 1, 510, T),
        Err(keys(KeysMismatchErrors::InvalidBidMint))
    );
    assert_eq!(
        attempt(&with(&|c| c.bid_escrow = token(52, NFT, VAULT, 500)), 1, 510, T),
        Err(keys(KeysMismatchErrors::InvalidBidMint))
    );
    assert_eq!(
        attempt(&with(&|c| c.bid_escrow = token(52, USDC, ALICE, 500)), 1, 510, T),
        Err(keys(KeysMismatchErrors::InvalidBidEscrowOwner))
    );
    assert_eq!(
        attempt(&with(&|c| c.current_bidder_ata = token(50, NFT, BOB, 10_000)), 1, 510, T),
        Err(keys(KeysMismatchErrors::InvalidBidMint))
    );
    assert_eq!(
        attempt(&with(&|c| c.current_bidder_ata = token(50, USDC, ALICE, 10_000)), 1, 510, T),
        Err(keys(KeysMismatchErrors::InvalidBidAtaOwner))
    );
    assert_eq!(
        attempt(&with(&|c| c.current_bidder_ata = token(50, USDC, BOB, 509)), 1, 510, T),
        Err(AuctionError::Transfer(TransferErrors::InsufficientTokenBalance))
    );
    assert_eq!(
        attempt(&with(&|c| c.prev_bidder_ata = token(51, NFT, ALICE, 0)), 1, 510, T),
        Err(keys(KeysMismatchErrors::InvalidBidMint))
    );
    assert_eq!(
        attempt(&with(&|c| c.prev_bidder_ata = token(51, USDC, CREATOR, 0)), 1, 510, T),
        Err(keys(KeysMismatchErrors::InvalidPreviousBidOwner))
    );
    assert_eq!(
        attempt(&with(&|c| c.prev_bidder_ata.closed = true), 1, 510, T),
        Err(AuctionError::Transfer(TransferErrors::TokenTransferFailed))
    );
}

#[test]
fn an_auction_with_bids_pays_the_house_and_writes_down_the_claims() {
    let mut auction = running_auction(None);
    auction.highest_bid_amount = 1_000;
    auction.highest_bidder = key(ALICE);
    auction.has_any_bid = true;
    let mut ctx = complete_ctx(auction, 1_000);
    let event = complete_auction(&mut ctx, 1, T + 1_000);
    assert_eq!(
        event,
        Ok(AuctionCompleted {
            auction_id: 1,
            winner: Some(key(ALICE)),
            final_price: 1_000,
            creator_amount: 975,
            fee_amount: 25,
            completed_at: T + 1_000,
        })
    );
    assert_eq!(ctx.auction, completed_auction(None));
    assert_eq!(ctx.config_treasury.lamports(), 25);
    assert_eq!(ctx.auction_vault.lamports(), 975);
    // It is completed once.
    assert_eq!(
        complete_auction(&mut ctx, 1, T + 2_000),
        Err(state(AuctionStateErrors::AuctionAlreadyCompleted))
    );
    assert_eq!(ctx.config_treasury.lamports(), 25);
}

#[test]
fn an_auction_in_tokens_pays_the_fee_out_of_the_escrow() {
    let mut auction = running_auction(Some(key(USDC)));
    auction.highest_bid_amount = 999;
    auction.highest_bidder = key(ALICE);
    auction.has_any_bid = true;
    let mut ctx = complete_ctx(auction, 999);
    let event = complete_auction(&mut ctx, 1, T + 5_000).unwrap();
    assert_eq!((event.fee_amount, event.creator_amount, event.final_price), (24, 975, 999));
    assert_eq!(ctx.bid_fee_treasury_ata.amount(), 24);
    assert_eq!(ctx.bid_escrow.amount(), 975);
    assert_eq!(ctx.auction.claimable_bid_amount, 975);
    assert_eq!(ctx.auction_vault.lamports(), 999);
    assert_eq!(ctx.config_treasury.lamports(), 0);
}

#[test]
fn an_auction_without_bids_fails_and_moves_nothing() {
    let mut ctx = complete_ctx(running_auction(None), 40);
    let event = complete_auction(&mut ctx, 1, T + 1_000);
    assert_eq!(
        event,
        Ok(AuctionCompleted {
            auction_id: 1,
            winner: None,
            final_price: 0,
            creator_amount: 0,
            fee_amount: 0,
            completed_at: T + 1_000,
        })
    );
    assert_eq!(ctx.auction.status, AuctionState::CompletedFailed);
    assert_eq!(ctx.auction.claimable_prize_back, 1);
    assert_eq!(ctx.auction.claimable_bid_amount, 0);
    assert_eq!(ctx.auction_vault.lamports(), 40);
    assert_eq!(ctx.bid_escrow.amount(), 40);
    assert_eq!(ctx.config_treasury.lamports(), 0);
    assert_eq!(ctx.bid_fee_treasury_ata.amount(), 0);
}

#[test]
fn complete_auction_names_what_is_wrong() {
    let attempt = |change: &dyn Fn(&mut CompleteAuction), id: u32, now: i64| {
        let mut auction = running_auction(None);
        auction.highest_bid_amount = 1_000;
        auction.highest_bidder = key(ALICE);
        auction.has_any_bid = true;
        let mut ctx = complete_ctx(auction, 1_000);
        change(&mut ctx);
        let held = |c: &CompleteAuction| {
            (
                c.auction,
                c.auction_vault.lamports(),
                c.bid_escrow.amount(),
                c.config_treasury.lamports(),
                c.bid_fee_treasury_ata.amount(),
            )
        };
        let before = held(&ctx);
        let result = complete_auction(&mut ctx, id, now);
        if result.is_err() {
            assert_eq!(before, held(&ctx));
        }
        result.map(|_| ())
    };
    let end = T + 1_000;
    let fine = |_: &mut CompleteAuction| {};
    assert_eq!(attempt(&fine, 1, end), Ok(()));
    assert_eq!(attempt(&fine, 1, end - 1), Err(state(AuctionStateErrors::AuctionNotStarted)));
    assert_eq!(attempt(&fine, 3, end), Err(state(AuctionStateErrors::InvalidAuctionId)));
    assert_eq!(
        attempt(&|c| c.auction_admin = key(9), 1, end),
        Err(AuctionError::Config(ConfigStateErrors::InvalidAuctionAdmin))
    );
    assert_eq!(attempt(&|c| c.creator = key(BOB), 1, end), Err(state(AuctionStateErrors::InvalidCreator)));
    assert_eq!(
        attempt(&|c| c.auction_config.pause_flags = 1 << 2, 1, end),
        Err(state(AuctionStateErrors::FunctionPaused))
    );
    assert_eq!(
        attempt(&|c| c.auction.status = AuctionState::Initialized, 1, end),
        Err(state(AuctionStateErrors::AuctionAlreadyCompleted))
    );
    assert_eq!(
        attempt(&|c| c.auction.highest_bid_amount = u64::MAX, 1, end),
        Err(state(AuctionStateErrors::Overflow))
    );
    assert_eq!(
        attempt(&|c| c.auction_config.commission_bps = 10_010, 1, end),
        Err(state(AuctionStateErrors::Overflow))
    );
    assert_eq!(attempt(&|c| c.auction_config.commission_bps = 10_009, 1, end), Ok(()));
    assert_eq!(attempt(&|c| c.auction_config.commission_bps = 10_000, 1, end), Ok(()));
    assert_eq!(
        attempt(&|c| c.auction_vault = SystemAccount::new(key(VAULT), 24), 1, end),
        Err(AuctionError::Transfer(TransferErrors::InsufficientSolBalance))
    );
    assert_eq!(attempt(&|c| c.auction_vault = SystemAccount::new(key(VAULT), 25), 1, end), Ok(()));
    assert_eq!(
        attempt(&|c| c.config_treasury = SystemAccount::new(key(TREASURY), u64::MAX), 1, end),
        Err(AuctionError::Transfer(TransferErrors::SolTransferFailed))
    );
    let with = |change: &'static dyn Fn(&mut CompleteAuction)| {
        move |c: &mut CompleteAuction| {
            c.auction.bid_mint = Some(key(USDC));
            change(c);
        }
    };
    assert_eq!(attempt(&with(&|_| {}), 1, end), Ok(()));
    assert_eq!(
        attempt(&with(&|c| c.bid_fee_treasury_ata = token(53, NFT, TREASURY, 0)), 1, end),
        Err(keys(KeysMismatchErrors::InvalidBidMint))
    );
    assert_eq!(
        attempt(&with(&|c| c.bid_mint.key = key(NFT)), 1, end),
        Err(keys(KeysMismatchErrors::InvalidBidMint))
    );
    assert_eq!(
        attempt(&with(&|c| c.bid_escrow = token(52, USDC, CREATOR, 1_000)), 1, end),
        Err(keys(KeysMismatchErrors::InvalidBidEscrowOwner))
    );
    assert_eq!(
        attempt(&with(&|c| c.bid_fee_treasury_ata = token(53, USDC, CREATOR, 0)), 1, end),
        Err(keys(KeysMismatchErrors::InvalidBidAtaOwner))
    );
    assert_eq!(
        attempt(&with(&|c| c.bid_escrow = token(52, USDC, VAULT, 24)), 1, end),
        Err(AuctionError::Transfer(TransferErrors::InsufficientTokenBalance))
    );
}

#[test]
fn the_winner_takes_the_item_once() {
    let mut ctx = prize_ctx(completed_auction(None));
    assert_eq!(
        claim_prize(&mut ctx, 1, T + 2_000),
        Ok(PrizeClaimed { auction_id: 1, winner: key(ALICE), prize_mint: key(NFT), claimed_time: T + 2_000 })
    );
    assert!(ctx.auction.is_prize_claimed);
    assert_eq!(ctx.auction.status, AuctionState::CompletedSuccessfully);
    assert_eq!(ctx.winner_prize_ata.amount(), 1);
    assert_eq!(ctx.prize_escrow.amount(), 0);
    assert_eq!(claim_prize(&mut ctx, 1, T + 2_001), Err(state(AuctionStateErrors::PrizeAlreadyClaimed)));
    assert_eq!(ctx.winner_prize_ata.amount(), 1);

    let attempt = |change: &dyn Fn(&mut ClaimPrize), id: u32| {
        let mut ctx = prize_ctx(completed_auction(None));
        change(&mut ctx);
        let before = (ctx.auction, ctx.prize_escrow.amount(), ctx.winner_prize_ata.amount());
        let result = claim_prize(&mut ctx, id, T + 2_000);
        if result.is_err() {
            assert_eq!(before, (ctx.auction, ctx.prize_escrow.amount(), ctx.winner_prize_ata.amount()));
        }
        result.map(|_| ())
    };
    assert_eq!(attempt(&|_| {}, 1), Ok(()));
    assert_eq!(attempt(&|_| {}, 2), Err(state(AuctionStateErrors::InvalidAuctionId)));
    assert_eq!(
        attempt(&|c| c.auction_admin = key(9), 1),
        Err(AuctionError::Config(ConfigStateErrors::InvalidAuctionAdmin))
    );
    for status in [
        AuctionState::Initialized,
        AuctionState::Active,
        AuctionState::Cancelled,
        AuctionState::CompletedFailed,
    ] {
        assert_eq!(
            attempt(&|c| c.auction.status = status, 1),
            Err(state(AuctionStateErrors::AuctionNotCompleted))
        );
    }
    assert_eq!(
        attempt(
            &|c| {
                c.winner = key(BOB);
                c.winner_prize_ata = token(42, NFT, BOB, 0);
            },
            1
        ),
        Err(keys(KeysMismatchErrors::InvalidHighestBidder))
    );
    assert_eq!(
        attempt(&|c| c.auction.is_prize_claimed = true, 1),
        Err(state(AuctionStateErrors::PrizeAlreadyClaimed))
    );
    assert_eq!(
        attempt(&|c| c.prize_mint.key = key(USDC), 1),
        Err(keys(KeysMismatchErrors::InvalidPrizeMint))
    );
    assert_eq!(
        attempt(&|c| c.winner_prize_ata = token(42, USDC, ALICE, 0), 1),
        Err(keys(KeysMismatchErrors::InvalidPrizeMint))
    );
    assert_eq!(
        attempt(&|c| c.winner_prize_ata = token(42, NFT, BOB, 0), 1),
        Err(keys(KeysMismatchErrors::InvalidPrizeAtaOwner))
    );
    assert_eq!(
        attempt(&|c| c.prize_escrow = token(41, NFT, VAULT, 0), 1),
        Err(AuctionError::Transfer(TransferErrors::InsufficientTokenBalance))
    );
    assert_eq!(
        attempt(&|c| c.prize_escrow = token(41, NFT, BOB, 1), 1),
        Err(AuctionError::Transfer(TransferErrors::TokenTransferFailed))
    );
}

#[test]
fn the_creator_of_an_auction_claims_once() {
    // The price without the fee, in the native currency.
    let mut ctx = back_ctx(completed_auction(None));
    assert_eq!(
        claim_amount_back(&mut ctx, 1, T + 2_000),
        Ok(AmountClaimBack {
            auction_id: 1,
            claimer: key(CREATOR),
            prize_amount_claimable: 0,
            bid_amount_claimable: 975,
            claimed_time: T + 2_000,
        })
    );
    assert_eq!(ctx.creator.lamports(), 975);
    assert_eq!(ctx.auction_vault.lamports(), 0);
    assert_eq!(ctx.auction.claimable_bid_amount, 0);
    assert_eq!(ctx.auction.status, AuctionState::CompletedSuccessfully);
    assert_eq!(ctx.prize_escrow.amount(), 1);
    assert_eq!(claim_amount_back(&mut ctx, 1, T + 2_001), Err(state(AuctionStateErrors::InvalidZeroAmount)));
    assert_eq!(ctx.creator.lamports(), 975);

    // The price without the fee, in tokens.
    let mut ctx = back_ctx(completed_auction(Some(key(USDC))));
    claim_amount_back(&mut ctx, 1, T + 2_000).unwrap();
    assert_eq!(ctx.creator_bid_ata.amount(), 975);
    assert_eq!(ctx.bid_escrow.amount(), 0);
    assert_eq!(ctx.creator.lamports(), 0);
    assert!(ctx.bid_escrow.closed);
    assert_eq!(claim_amount_back(&mut ctx, 1, T + 2_001), Err(state(AuctionStateErrors::InvalidZeroAmount)));

    // What the escrow holds beyond the claim goes to the creator too.
    let mut ctx = back_ctx(completed_auction(Some(key(USDC))));
    ctx.bid_escrow = token(52, USDC, VAULT, 980);
    let event = claim_amount_back(&mut ctx, 1, T + 2_000).unwrap();
    assert_eq!(event.bid_amount_claimable, 980);
    assert_eq!(ctx.creator_bid_ata.amount(), 980);
    assert_eq!(ctx.bid_escrow.amount(), 0);
    assert!(ctx.bid_escrow.closed);
    // In the native currency only the claim is paid.
    let mut ctx = back_ctx(completed_auction(None));
    ctx.auction_vault = SystemAccount::new(key(VAULT), 980);
    let event = claim_amount_back(&mut ctx, 1, T + 2_000).unwrap();
    assert_eq!(event.bid_amount_claimable, 975);
    assert_eq!(ctx.auction_vault.lamports(), 5);

    // The item of an auction that failed.
    let failed = Auction {
        status: AuctionState::CompletedFailed,
        claimable_prize_back: 1,
        ..running_auction(None)
    };
    let mut ctx = back_ctx(failed);
    let event = claim_amount_back(&mut ctx, 1, T + 2_000).unwrap();
    assert_eq!((event.prize_amount_claimable, event.bid_amount_claimable), (1, 0));
    assert_eq!(ctx.creator_prize_ata.amount(), 1);
    assert_eq!(ctx.prize_escrow.amount(), 0);
    assert_eq!(ctx.auction.claimable_prize_back, 0);
    assert_eq!(ctx.auction_vault.lamports(), 975);
    assert_eq!(claim_amount_back(&mut ctx, 1, T + 2_001), Err(state(AuctionStateErrors::InvalidZeroAmount)));

    let attempt = |change: &dyn Fn(&mut ClaimAmountBack), id: u32| {
        let mut ctx = back_ctx(Auction { claimable_prize_back: 1, ..completed_auction(Some(key(USDC))) });
        change(&mut ctx);
        let before =
            (ctx.auction, ctx.prize_escrow.amount(), ctx.bid_escrow.amount(), ctx.auction_vault.lamports());
        let result = claim_amount_back(&mut ctx, id, T + 2_000);
        if result.is_err() {
            assert_eq!(
                before,
                (ctx.auction, ctx.prize_escrow.amount(), ctx.bid_escrow.amount(), ctx.auction_vault.lamports())
            );
            assert_eq!(ctx.creator_prize_ata.amount(), 0);
            assert_eq!(ctx.creator_bid_ata.amount(), 0);
        }
        result.map(|_| ())
    };
    assert_eq!(attempt(&|_| {}, 1), Ok(()));
    assert_eq!(attempt(&|_| {}, 2), Err(state(AuctionStateErrors::InvalidAuctionId)));
    assert_eq!(
        attempt(&|c| c.auction_admin = key(9), 1),
        Err(AuctionError::Config(ConfigStateErrors::InvalidAuctionAdmin))
    );
    assert_eq!(
        attempt(&|c| c.creator = SystemAccount::new(key(BOB), 0), 1),
        Err(state(AuctionStateErrors::InvalidCreator))
    );
    for status in [AuctionState::Initialized, AuctionState::Active, AuctionState::Cancelled] {
        assert_eq!(
            attempt(&|c| c.auction.status = status, 1),
            Err(state(AuctionStateErrors::AuctionNotCompleted))
        );
    }
    assert_eq!(
        attempt(
            &|c| {
                c.auction.claimable_prize_back = 0;
                c.auction.claimable_bid_amount = 0;
                c.bid_escrow = token(52, USDC, VAULT, 0);
            },
            1
        ),
        Err(state(AuctionStateErrors::InvalidZeroAmount))
    );
    assert_eq!(
        attempt(&|c| c.prize_mint.key = key(USDC), 1),
        Err(keys(KeysMismatchErrors::InvalidPrizeMint))
    );
    assert_eq!(
        attempt(&|c| c.creator_prize_ata = token(40, NFT, BOB, 0), 1),
        Err(keys(KeysMismatchErrors::InvalidPrizeAtaOwner))
    );
    assert_eq!(
        attempt(&|c| c.prize_escrow = token(41, NFT, VAULT, 0), 1),
        Err(AuctionError::Transfer(TransferErrors::InsufficientTokenBalance))
    );
    assert_eq!(
        attempt(&|c| c.creator_bid_ata = token(54, NFT, CREATOR, 0), 1),
        Err(keys(KeysMismatchErrors::InvalidBidMint))
    );
    assert_eq!(
        attempt(&|c| c.bid_escrow = token(52, USDC, BOB, 975), 1),
        Err(keys(KeysMismatchErrors::InvalidBidEscrowOwner))
    );
    assert_eq!(
        attempt(&|c| c.creator_bid_ata = token(54, USDC, BOB, 0), 1),
        Err(keys(KeysMismatchErrors::InvalidBidAtaOwner))
    );
    assert_eq!(
        attempt(&|c| c.bid_escrow = token(52, USDC, VAULT, 974), 1),
        Err(AuctionError::Transfer(TransferErrors::InsufficientTokenBalance))
    );
    assert_eq!(
        attempt(
            &|c| {
                c.auction.bid_mint = None;
                c.auction_vault = SystemAccount::new(key(VAULT), 974);
            },
            1
        ),
        Err(AuctionError::Transfer(TransferErrors::InsufficientSolBalance))
    );
}

#[test]
fn an_auction_without_bids_can_be_called_off() {
    let mut auction = running_auction(None);
    auction.status = AuctionState::Initialized;
    let fresh = |auction: Auction| CancelAuction {
        auction_config: config(),
        auction,
        auction_vault: SystemAccount::new(key(VAULT), 0),
        creator: key(CREATOR),
        auction_admin: key(ADMIN),
        prize_mint: nft_mint(),
        prize_escrow: token(41, NFT, VAULT, 1),
        creator_prize_ata: token(40, NFT, CREATOR, 0),
    };
    let mut ctx = fresh(auction);
    assert_eq!(
        cancel_auction(&mut ctx, 1, T),
        Ok(AuctionCancelled { auction_id: 1, cancelled_by: key(CREATOR), cancelled_time: T })
    );
    assert_eq!(ctx.auction.status, AuctionState::Cancelled);
    assert_eq!(ctx.creator_prize_ata.amount(), 1);
    assert_eq!(ctx.prize_escrow.amount(), 0);
    assert!(ctx.prize_escrow.closed);
    assert_eq!(cancel_auction(&mut ctx, 1, T), Err(state(AuctionStateErrors::AuctionAlreadyCompleted)));

    let mut ctx = fresh(running_auction(None));
    assert_eq!(cancel_auction(&mut ctx, 1, T).map(|_| ()), Ok(()));

    let mut with_bid = running_auction(None);
    with_bid.has_any_bid = true;
    let mut ctx = fresh(with_bid);
    assert_eq!(cancel_auction(&mut ctx, 1, T), Err(state(AuctionStateErrors::AuctionHasBids)));
    assert_eq!(ctx.prize_escrow.amount(), 1);

    let mut ctx = fresh(running_auction(None));
    ctx.creator = key(BOB);
    assert_eq!(cancel_auction(&mut ctx, 1, T), Err(state(AuctionStateErrors::InvalidCreator)));
    let mut ctx = fresh(running_auction(None));
    ctx.auction_config.pause_flags = 1 << 1;
    assert_eq!(cancel_auction(&mut ctx, 1, T), Err(state(AuctionStateErrors::FunctionPaused)));
    let mut ctx = fresh(running_auction(None));
    ctx.prize_escrow = token(41, NFT, VAULT, 2);
    assert_eq!(
        cancel_auction(&mut ctx, 1, T),
        Err(AuctionError::Transfer(TransferErrors::CloseAccountFailed))
    );
    assert_eq!(ctx.prize_escrow.amount(), 2);
    assert_eq!(ctx.auction.status, AuctionState::Active);
    assert!(!ctx.prize_escrow.closed);
}

#[test]
fn the_terms_of_an_auction_change_before_it_starts() {
    let fresh = || {
        let mut auction = running_auction(None);
        auction.status = AuctionState::Initialized;
        UpdateAuction { auction_config: config(), auction, creator: key(CREATOR), auction_admin: key(ADMIN) }
    };
    let now = T - 100;
    let mut ctx = fresh();
    let event = update_auction(&mut ctx, 1, T + 50, T + 500, false, 7, 3, 60, now);
    assert_eq!(
        event,
        Ok(AuctionUpdated {
            auction_id: 1,
            start_time: T + 50,
            end_time: T + 500,
            base_bid: 7,
            min_increment: 3,
            time_extension: 60,
            updated_at: now,
        })
    );
    assert_eq!(ctx.auction.highest_bid_amount, 7);
    assert_eq!(ctx.auction.base_bid, 7);
    assert_eq!(ctx.auction.status, AuctionState::Initialized);

    let mut ctx = fresh();
    let event = update_auction(&mut ctx, 1, 0, now + 60, true, 7, 3, 60, now).unwrap();
    assert_eq!(event.start_time, now);
    assert_eq!(ctx.auction.start_time, now);
    assert_eq!(ctx.auction.status, AuctionState::Initialized);

    let attempt = |change: &dyn Fn(&mut UpdateAuction), start: i64, end: i64, increment: u64, extension: u32, now: i64| {
        let mut ctx = fresh();
        change(&mut ctx);
        let before = ctx.auction;
        let result = update_auction(&mut ctx, 1, start, end, false, 7, increment, extension, now);
        if result.is_err() {
            assert_eq!(ctx.auction, before);
        }
        result.map(|_| ())
    };
    let fine = |_: &mut UpdateAuction| {};
    assert_eq!(
        attempt(&|c| c.auction.status = AuctionState::Active, T, T + 60, 1, 0, now),
        Err(state(AuctionStateErrors::AuctionNotActive))
    );
    assert_eq!(attempt(&fine, T, T + 60, 1, 0, T), Err(state(AuctionStateErrors::AuctionAlreadyStarted)));
    assert_eq!(
        attempt(&|c| c.auction.has_any_bid = true, T, T + 60, 1, 0, now),
        Err(state(AuctionStateErrors::AuctionHasBids))
    );
    assert_eq!(attempt(&fine, now - 1, T + 60, 1, 0, now), Err(state(AuctionStateErrors::StartTimeInPast)));
    assert_eq!(
        attempt(&fine, T, T + 59, 1, 0, now),
        Err(AuctionError::Config(ConfigStateErrors::InvalidAuctionPeriod))
    );
    assert_eq!(
        attempt(&fine, T, T + 60, 1, 601, now),
        Err(AuctionError::Config(ConfigStateErrors::InvalidTimeExtension))
    );
    assert_eq!(attempt(&fine, T, T + 60, 0, 0, now), Err(state(AuctionStateErrors::InvalidZeroAmount)));
    assert_eq!(
        attempt(&|c| c.creator = key(BOB), T, T + 60, 1, 0, now),
        Err(state(AuctionStateErrors::InvalidCreator))
    );
    assert_eq!(
        attempt(&|c| c.auction_config.pause_flags = 1 << 5, T, T + 60, 1, 0, now),
        Err(state(AuctionStateErrors::FunctionPaused))
    );
    assert_eq!(
        attempt(&fine, now, i64::MAX, 1, 0, -5),
        Err(AuctionError::Config(ConfigStateErrors::InvalidAuctionPeriod))
    );
    assert_eq!(
        attempt(&|c| c.auction.start_time = i64::MAX, -10, i64::MAX, 1, 0, -20),
        Err(state(AuctionStateErrors::StartTimeExceedEndTime))
    );
}
