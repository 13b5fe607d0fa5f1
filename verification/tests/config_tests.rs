use prize_sales::auction::errors::{
    AuctionError,
    AuctionStateErrors,
    ConfigStateErrors as AuctionConfigErrors,
};
use prize_sales::auction::process_auction_config::{
    initialize_auction_config,
    update_auction_admin,
    update_auction_owner,
    update_config_data,
    update_pause_and_unpause,
    InitializeAuctionConfig,
    UpdateAuctionConfig,
};
use prize_sales::auction::states::AuctionConfig;
use prize_sales::auction::utils::{get_pct_amount, is_paused, validate_nft};
use prize_sales::auction::withdraw_sol_fees::{withdraw_sol_fees, FeesWithdrawn, WithdrawSolFees};
use prize_sales::auction::withdraw_spl_fees::{withdraw_spl_fees, SplFeesWithdrawn, WithdrawSplFees};
use prize_sales::custody::{Mint, SystemAccount, TokenAccount, TransferErrors};
use prize_sales::pubkey::Pubkey;
use prize_sales::raffle::errors::{
    ConfigStateErrors as RaffleConfigErrors,
    RaffleError,
    RaffleStateErrors,
};
use prize_sales::raffle::process_raffle_config::{
    initialize_raffle_config,
    update_pause_and_unpause as update_raffle_pause,
    update_raffle_config_admin,
    update_raffle_config_data,
    update_raffle_config_owner,
    InitializeRaffleConfig,
    UpdateRaffleConfig,
};
use prize_sales::raffle::states::{PrizeType, Raffle, RaffleConfig, RaffleState};
use prize_sales::raffle::update_raffle_ticketing::{
    update_raffle_ticketing,
    RaffleTicketingUpdated,
    UpdateRaffleTicketing,
};
use prize_sales::raffle::update_raffle_time::{update_raffle_time, RaffleTimeUpdated, UpdateRaffleTime};
use prize_sales::raffle::update_raffle_winners::{update_raffle_winners, UpdateRaffleWinners};
use prize_sales::raffle::withdraw_sol_fees::{
    withdraw_sol_fees as withdraw_raffle_sol_fees,
    WithdrawSolFees as WithdrawRaffleSolFees,
};
use prize_sales::raffle::withdraw_spl_fees::{
    withdraw_spl_fees as withdraw_raffle_spl_fees,
    WithdrawSplFees as WithdrawRaffleSplFees,
};

const OWNER: u8 = 1;
const ADMIN: u8 = 2;
const CREATOR: u8 = 3;
const BOB: u8 = 5;
const TREASURY: u8 = 20;
const USDC: u8 = 31;
const T: i64 = 10_000;

fn key(n: u8) -> Pubkey {
    Pubkey::new_from_array([n; 32])
}

fn auction_config() -> AuctionConfig {
    AuctionConfig {
        auction_owner: key(OWNER),
        auction_admin: key(ADMIN),
        creation_fee_lamports: 1_000,
        commission_bps: 250,
        minimum_auction_period: 60,
        maximum_auction_period: 100_000,
        minimum_time_extension: 0,
        maximum_time_extension: 600,
        auction_count: 1,
        pause_flags: 0,
        config_bump: 254,
    }
}

fn raffle_config() -> RaffleConfig {
    RaffleConfig {
        raffle_owner: key(OWNER),
        raffle_admin: key(ADMIN),
        creation_fee_lamports: 1_000,
        ticket_fee_bps: 250,
        winning_fee_bps: 100,
        minimum_raffle_period: 60,
        maximum_raffle_period: 100_000,
        minimum_tickets: 3,
        maximum_tickets: 10_000,
        maximum_wallet_pct: 40,
        maximum_winners_count: 10,
        raffle_count: 1,
        pause_flags: 0,
        config_bump: 254,
    }
}

fn waiting_raffle() -> Raffle {
    Raffle {
        raffle_id: 1,
        creator: key(CREATOR),
        start_time: T,
        end_time: T + 1_000,
        total_tickets: 100,
        tickets_sold: 0,
        ticket_price: 50,
        ticket_mint: None,
        ticker_escrow: None,
        max_per_wallet_pct: 40,
        prize_type: PrizeType::Sol,
        prize_amount: 10_000,
        prize_mint: None,
        price_escrow: None,
        num_winners: 3,
        win_shares: vec![50, 30, 20],
        winners: vec![Pubkey::default(); 3],
        is_win_claimed: vec![false; 3],
        status: RaffleState::Initialized,
        is_unique_winners: true,
        claimable_prize_back: 0,
        claimable_ticket_amount: 0,
        raffle_bump: 9,
    }
}

#[test]
fn the_settings_of_the_auction_house() {
    let blank = AuctionConfig {
        auction_owner: Pubkey::default(),
        auction_admin: Pubkey::default(),
        creation_fee_lamports: 0,
        commission_bps: 0,
        minimum_auction_period: 0,
        maximum_auction_period: 0,
        minimum_time_extension: 0,
        maximum_time_extension: 0,
        auction_count: 0,
        pause_flags: 3,
        config_bump: 0,
    };
    let mut init = InitializeAuctionConfig { auction_config: blank, payer: key(OWNER) };
    let period = Err(AuctionError::Config(AuctionConfigErrors::InvalidAuctionPeriod));
    let extension = Err(AuctionError::Config(AuctionConfigErrors::InvalidTimeExtension));
    assert_eq!(
        initialize_auction_config(&mut init, key(OWNER), key(ADMIN), 1_000, 250, 0, 100_000, 0, 600, 254),
        period
    );
    assert_eq!(
        initialize_auction_config(&mut init, key(OWNER), key(ADMIN), 1_000, 250, 60, 60, 0, 600, 254),
        period
    );
    assert_eq!(
        initialize_auction_config(&mut init, key(OWNER), key(ADMIN), 1_000, 250, 60, 100_000, 600, 600, 254),
        extension
    );
    assert_eq!(init.auction_config, blank);
    assert_eq!(
        initialize_auction_config(&mut init, key(OWNER), key(ADMIN), 1_000, 250, 60, 100_000, 0, 600, 254),
        Ok(())
    );
    assert_eq!(init.auction_config, auction_config());

    let mut ctx = UpdateAuctionConfig { auction_config: auction_config(), auction_owner: key(BOB) };
    let stranger = Err(AuctionError::Config(AuctionConfigErrors::InvalidAuctionOwner));
    assert_eq!(update_auction_owner(&mut ctx, key(BOB)), stranger);
    assert_eq!(update_auction_admin(&mut ctx, key(BOB)), stranger);
    assert_eq!(update_pause_and_unpause(&mut ctx, 1), stranger);
    assert_eq!(update_config_data(&mut ctx, 1, 2, 3, 4, 5, 6), stranger);
    assert_eq!(ctx.auction_config, auction_config());
    ctx.auction_owner = key(OWNER);
    assert_eq!(update_config_data(&mut ctx, 1, 2, 4, 4, 5, 6), period);
    assert_eq!(update_config_data(&mut ctx, 1, 2, 3, 4, 6, 6), extension);
    assert_eq!(ctx.auction_config, auction_config());
    assert_eq!(update_config_data(&mut ctx, 1, 2, 3, 4, 5, 6), Ok(()));
    assert_eq!(update_pause_and_unpause(&mut ctx, 0b11), Ok(()));
    assert_eq!(update_auction_admin(&mut ctx, key(CREATOR)), Ok(()));
    assert_eq!(update_auction_owner(&mut ctx, key(BOB)), Ok(()));
    assert_eq!(
        ctx.auction_config,
        AuctionConfig {
            auction_owner: key(BOB),
            auction_admin: key(CREATOR),
            creation_fee_lamports: 1,
            commission_bps: 2,
            minimum_auction_period: 3,
            maximum_auction_period: 4,
            minimum_time_extension: 5,
            maximum_time_extension: 6,
            auction_count: 1,
            pause_flags: 0b11,
            config_bump: 254,
        }
    );
    assert_eq!(update_pause_and_unpause(&mut ctx, 0), stranger);
}

#[test]
fn the_fees_of_the_auction_house_are_withdrawn() {
    let fresh = || WithdrawSolFees {
        auction_config: auction_config(),
        config_treasury: SystemAccount::new(key(TREASURY), 1_000),
        owner: key(OWNER),
        receiver: SystemAccount::new(key(BOB), 1),
    };
    let mut ctx = fresh();
    assert_eq!(withdraw_sol_fees(&mut ctx, 600, 400), Ok(FeesWithdrawn { amount: 600, receiver: key(BOB) }));
    assert_eq!((ctx.config_treasury.lamports(), ctx.receiver.lamports()), (400, 601));
    let mut ctx = fresh();
    assert_eq!(
        withdraw_sol_fees(&mut ctx, 601, 400),
        Err(AuctionError::Transfer(TransferErrors::InsufficientSolBalance))
    );
    assert_eq!(
        withdraw_sol_fees(&mut ctx, u64::MAX, 400),
        Err(AuctionError::Transfer(TransferErrors::InsufficientSolBalance))
    );
    ctx.receiver = SystemAccount::new(key(BOB), u64::MAX);
    assert_eq!(
        withdraw_sol_fees(&mut ctx, 1, 0),
        Err(AuctionError::Transfer(TransferErrors::SolTransferFailed))
    );
    ctx.owner = key(ADMIN);
    assert_eq!(
        withdraw_sol_fees(&mut ctx, 1, 0),
        Err(AuctionError::Config(AuctionConfigErrors::InvalidAuctionOwner))
    );
    assert_eq!(ctx.config_treasury.lamports(), 1_000);

    let mut ctx = WithdrawSplFees {
        auction_config: auction_config(),
        config_treasury: SystemAccount::new(key(TREASURY), 0),
        owner: key(OWNER),
        fee_mint: Mint { key: key(USDC), decimals: 6, supply: 1_000 },
        fee_treasury_ata: TokenAccount::new(key(53), key(USDC), key(TREASURY), 70),
        receiver_fee_ata: TokenAccount::new(key(55), key(USDC), key(BOB), 0),
    };
    assert_eq!(
        withdraw_spl_fees(&mut ctx, 71),
        Err(AuctionError::Transfer(TransferErrors::InsufficientTokenBalance))
    );
    assert_eq!(
        withdraw_spl_fees(&mut ctx, 70),
        Ok(SplFeesWithdrawn { amount: 70, mint: key(USDC), receiver: key(OWNER) })
    );
    assert_eq!((ctx.fee_treasury_ata.amount(), ctx.receiver_fee_ata.amount()), (0, 70));
    ctx.owner = key(BOB);
    assert_eq!(
        withdraw_spl_fees(&mut ctx, 0),
        Err(AuctionError::Config(AuctionConfigErrors::InvalidAuctionOwner))
    );
}

#[test]
fn the_small_computations_of_the_auction() {
    assert_eq!(get_pct_amount(1000, 250, 10000), Ok(25));
    assert_eq!(get_pct_amount(999, 250, 10000), Ok(24));
    assert_eq!(
        get_pct_amount(u64::MAX, 2, 1),
        Err(AuctionError::State(AuctionStateErrors::Overflow))
    );
    assert_eq!(get_pct_amount(1, 1, 0), Err(AuctionError::State(AuctionStateErrors::Overflow)));
    let unique = Mint { key: key(30), decimals: 0, supply: 1 };
    assert_eq!(validate_nft(&unique), Ok(()));
    let invalid = Err(AuctionError::State(AuctionStateErrors::InvalidNFT));
    assert_eq!(validate_nft(&Mint { supply: 0, ..unique }), invalid);
    assert_eq!(validate_nft(&Mint { supply: 2, ..unique }), invalid);
    assert_eq!(validate_nft(&Mint { decimals: 9, ..unique }), invalid);
    assert!(is_paused(0b1000, 3));
    assert!(!is_paused(0b1000, 2));
}

#[test]
fn the_settings_of_the_raffle_house() {
    let blank = RaffleConfig { raffle_count: 0, pause_flags: 77, ..raffle_config() };
    let mut init = InitializeRaffleConfig { raffle_config: blank, payer: key(OWNER) };
    let period = Err(RaffleError::Config(RaffleConfigErrors::InvalidRafflePeriod));
    let tickets = Err(RaffleError::Config(RaffleConfigErrors::InvalidRaffleTickets));
    let start = |init: &mut InitializeRaffleConfig, min_period: u32, max_period: u32, min: u16, max: u16| {
        initialize_raffle_config(
            init,
            key(OWNER),
            key(ADMIN),
            1_000,
            250,
            100,
            min_period,
            max_period,
            min,
            max,
            40,
            10,
            254,
        )
    };
    assert_eq!(start(&mut init, 0, 100_000, 3, 10_000), period);
    assert_eq!(start(&mut init, 100_000, 100_000, 3, 10_000), period);
    assert_eq!(start(&mut init, 60, 100_000, 0, 10_000), tickets);
    assert_eq!(start(&mut init, 60, 100_000, 3, 3), tickets);
    assert_eq!(init.raffle_config, blank);
    assert_eq!(start(&mut init, 60, 100_000, 3, 10_000), Ok(()));
    assert_eq!(init.raffle_config, raffle_config());

    let mut ctx = UpdateRaffleConfig { raffle_config: raffle_config(), raffle_owner: key(BOB) };
    let stranger = Err(RaffleError::Config(RaffleConfigErrors::InvalidRaffleOwner));
    assert_eq!(update_raffle_config_owner(&mut ctx, key(BOB)), stranger);
    assert_eq!(update_raffle_config_admin(&mut ctx, key(BOB)), stranger);
    assert_eq!(update_raffle_pause(&mut ctx, 1), stranger);
    assert_eq!(update_raffle_config_data(&mut ctx, 1, 2, 3, 4, 5, 6, 7), stranger);
    assert_eq!(ctx.raffle_config, raffle_config());
    ctx.raffle_owner = key(OWNER);
    assert_eq!(update_raffle_config_data(&mut ctx, 1, 2, 0, 4, 5, 6, 7), period);
    assert_eq!(update_raffle_config_data(&mut ctx, 1, 2, 3, 4, 5, 6, 7), Ok(()));
    assert_eq!(update_raffle_pause(&mut ctx, 0b1000_0001), Ok(()));
    assert_eq!(update_raffle_config_admin(&mut ctx, key(CREATOR)), Ok(()));
    assert_eq!(update_raffle_config_owner(&mut ctx, key(BOB)), Ok(()));
    assert_eq!(
        ctx.raffle_config,
        RaffleConfig {
            raffle_owner: key(BOB),
            raffle_admin: key(CREATOR),
            creation_fee_lamports: 1,
            ticket_fee_bps: 2,
            winning_fee_bps: 100,
            minimum_raffle_period: 3,
            maximum_raffle_period: 4,
            minimum_tickets: 5,
            maximum_tickets: 6,
            maximum_wallet_pct: 40,
            maximum_winners_count: 7,
            raffle_count: 1,
            pause_flags: 0b1000_0001,
            config_bump: 254,
        }
    );
}

#[test]
fn the_fees_of_the_raffle_house_are_withdrawn() {
    let fresh = || WithdrawRaffleSolFees {
        raffle_config: raffle_config(),
        config_treasury: SystemAccount::new(key(TREASURY), 1_000),
        owner: key(OWNER),
        receiver: SystemAccount::new(key(BOB), 1),
    };
    let mut ctx = fresh();
    // The treasury keeps more than the rent.
    assert_eq!(
        withdraw_raffle_sol_fees(&mut ctx, 600, 400),
        Err(RaffleError::Transfer(TransferErrors::InsufficientSolBalance))
    );
    assert_eq!(withdraw_raffle_sol_fees(&mut ctx, 599, 400).map(|e| e.amount), Ok(599));
    assert_eq!((ctx.config_treasury.lamports(), ctx.receiver.lamports()), (401, 600));
    ctx.owner = key(ADMIN);
    assert_eq!(
        withdraw_raffle_sol_fees(&mut ctx, 0, 0),
        Err(RaffleError::Config(RaffleConfigErrors::InvalidRaffleOwner))
    );

    let mut ctx = WithdrawRaffleSplFees {
        raffle_config: raffle_config(),
        config_treasury: SystemAccount::new(key(TREASURY), 0),
        owner: key(OWNER),
        fee_mint: Mint { key: key(USDC), decimals: 6, supply: 1_000 },
        fee_treasury_ata: TokenAccount::new(key(53), key(USDC), key(TREASURY), 70),
        receiver_fee_ata: TokenAccount::new(key(55), key(USDC), key(BOB), 0),
    };
    assert_eq!(withdraw_raffle_spl_fees(&mut ctx, 20).map(|e| (e.amount, e.mint)), Ok((20, key(USDC))));
    assert_eq!((ctx.fee_treasury_ata.amount(), ctx.receiver_fee_ata.amount()), (50, 20));
    assert_eq!(
        withdraw_raffle_spl_fees(&mut ctx, 51),
        Err(RaffleError::Transfer(TransferErrors::InsufficientTokenBalance))
    );
    ctx.owner = key(BOB);
    assert_eq!(
        withdraw_raffle_spl_fees(&mut ctx, 1),
        Err(RaffleError::Config(RaffleConfigErrors::InvalidRaffleOwner))
    );
}

#[test]
fn the_tickets_of_a_raffle_change_before_it_starts() {
    let ctx = UpdateRaffleTicketing { raffle_config: raffle_config(), creator: key(CREATOR), raffle_admin: key(ADMIN) };
    let mut raffle = waiting_raffle();
    assert_eq!(
        update_raffle_ticketing(&ctx, &mut raffle, 1, 200, 7, 25),
        Ok(RaffleTicketingUpdated {
            raffle_id: 1,
            new_total_tickets: 200,
            new_ticket_price: 7,
            new_max_per_wallet_pct: 25,
        })
    );
    assert_eq!(
        raffle,
        Raffle { total_tickets: 200, ticket_price: 7, max_per_wallet_pct: 25, ..waiting_raffle() }
    );
    let attempt = |change: &dyn Fn(&mut Raffle), ctx: &UpdateRaffleTicketing, id: u32, tickets: u16, price: u64, pct: u8| {
        let mut raffle = waiting_raffle();
        change(&mut raffle);
        let before = raffle.clone();
        let result = update_raffle_ticketing(ctx, &mut raffle, id, tickets, price, pct);
        if result.is_err() {
            assert_eq!(before, raffle);
        }
        result.map(|_| ())
    };
    let state = |e: RaffleStateErrors| Err(RaffleError::State(e));
    assert_eq!(attempt(&|_| {}, &ctx, 2, 200, 7, 25), state(RaffleStateErrors::InvalidRaffleId));
    assert_eq!(
        attempt(&|r| r.status = RaffleState::Active, &ctx, 1, 200, 7, 25),
        state(RaffleStateErrors::InvalidRaffleStateForUpdate)
    );
    assert_eq!(
        attempt(&|r| r.tickets_sold = 1, &ctx, 1, 200, 7, 25),
        state(RaffleStateErrors::RaffleAlreadyStarted)
    );
    assert_eq!(attempt(&|_| {}, &ctx, 1, 200, 0, 25), state(RaffleStateErrors::InvalidTicketZeroPrice));
    assert_eq!(attempt(&|_| {}, &ctx, 1, 2, 7, 40), state(RaffleStateErrors::InvalidTotalTickets));
    assert_eq!(attempt(&|_| {}, &ctx, 1, 10_001, 7, 25), state(RaffleStateErrors::InvalidTotalTickets));
    assert_eq!(
        attempt(
            &|r| {
                r.num_winners = 4;
                r.win_shares = vec![25; 4];
            },
            &ctx,
            1,
            3,
            7,
            40
        ),
        state(RaffleStateErrors::WinnersExceedTotalTickets)
    );
    assert_eq!(attempt(&|_| {}, &ctx, 1, 200, 7, 41), state(RaffleStateErrors::MaxTicketsPerWalletExceeded));
    assert_eq!(attempt(&|_| {}, &ctx, 1, 200, 7, 0), state(RaffleStateErrors::MaxTicketsPerWalletExceeded));
    assert_eq!(attempt(&|_| {}, &ctx, 1, 3, 7, 33), state(RaffleStateErrors::MaxTicketsPerWalletExceeded));
    assert_eq!(attempt(&|_| {}, &ctx, 1, 3, 7, 34), Ok(()));
    let stranger = UpdateRaffleTicketing { creator: key(BOB), ..ctx };
    assert_eq!(attempt(&|_| {}, &stranger, 1, 200, 7, 25), state(RaffleStateErrors::InvalidCreator));
    let no_admin = UpdateRaffleTicketing { raffle_admin: key(BOB), ..ctx };
    assert_eq!(
        attempt(&|_| {}, &no_admin, 1, 200, 7, 25),
        Err(RaffleError::Config(RaffleConfigErrors::InvalidRaffleAdmin))
    );
    let paused = UpdateRaffleTicketing {
        raffle_config: RaffleConfig { pause_flags: 1 << 7, ..raffle_config() },
        ..ctx
    };
    assert_eq!(attempt(&|_| {}, &paused, 1, 200, 7, 25), state(RaffleStateErrors::FunctionPaused));
}

#[test]
fn the_window_of_a_raffle_changes_before_it_starts() {
    let ctx = UpdateRaffleTime { raffle_config: raffle_config(), creator: key(CREATOR), raffle_admin: key(ADMIN) };
    let now = T - 50;
    let mut raffle = waiting_raffle();
    assert_eq!(
        update_raffle_time(&ctx, &mut raffle, 1, now, now + 60, now),
        Ok(RaffleTimeUpdated { raffle_id: 1, new_start_time: now, new_end_time: now + 60, updated_time: now })
    );
    assert_eq!(raffle, Raffle { start_time: now, end_time: now + 60, ..waiting_raffle() });
    let attempt = |change: &dyn Fn(&mut Raffle), start: i64, end: i64, now: i64| {
        let mut raffle = waiting_raffle();
        change(&mut raffle);
        let before = raffle.clone();
        let result = update_raffle_time(&ctx, &mut raffle, 1, start, end, now);
        if result.is_err() {
            assert_eq!(before, raffle);
        }
        result.map(|_| ())
    };
    let state = |e: RaffleStateErrors| Err(RaffleError::State(e));
    assert_eq!(
        attempt(&|r| r.status = RaffleState::Active, T, T + 60, now),
        state(RaffleStateErrors::InvalidRaffleStateForUpdate)
    );
    assert_eq!(attempt(&|_| {}, T, T + 60, T), state(RaffleStateErrors::RaffleAlreadyStarted));
    assert_eq!(attempt(&|_| {}, now - 1, T + 60, now), state(RaffleStateErrors::StartTimeInPast));
    assert_eq!(
        attempt(&|r| r.start_time = i64::MAX, -10, i64::MAX, -20),
        state(RaffleStateErrors::StartTimeExceedEndTime)
    );
    assert_eq!(
        attempt(&|_| {}, T, T + 59, now),
        Err(RaffleError::Config(RaffleConfigErrors::InvalidRafflePeriod))
    );
    assert_eq!(
        attempt(&|_| {}, T, T + 100_001, now),
        Err(RaffleError::Config(RaffleConfigErrors::InvalidRafflePeriod))
    );
    assert_eq!(
        attempt(&|_| {}, T + 100, T, now),
        Err(RaffleError::Config(RaffleConfigErrors::InvalidRafflePeriod))
    );
}

#[test]
fn the_shares_of_a_raffle_change_before_it_starts() {
    let ctx = UpdateRaffleWinners { raffle_config: raffle_config(), creator: key(CREATOR), raffle_admin: key(ADMIN) };
    let mut raffle = waiting_raffle();
    let event = update_raffle_winners(&ctx, &mut raffle, 1, vec![80, 10, 10], false).unwrap();
    assert_eq!(event.raffle_id, 1);
    assert_eq!(event.win_shares, vec![80, 10, 10]);
    assert!(!event.is_unique_winners);
    assert_eq!(
        raffle,
        Raffle { win_shares: vec![80, 10, 10], is_unique_winners: false, ..waiting_raffle() }
    );
    let attempt = |change: &dyn Fn(&mut Raffle), shares: Vec<u8>| {
        let mut raffle = waiting_raffle();
        change(&mut raffle);
        let before = raffle.clone();
        let result = update_raffle_winners(&ctx, &mut raffle, 1, shares, true);
        if result.is_err() {
            assert_eq!(before, raffle);
        }
        result.map(|_| ())
    };
    let state = |e: RaffleStateErrors| Err(RaffleError::State(e));
    assert_eq!(attempt(&|_| {}, vec![34, 33, 33]), Ok(()));
    assert_eq!(attempt(&|_| {}, vec![50, 50]), state(RaffleStateErrors::InvalidWinShares));
    assert_eq!(attempt(&|_| {}, vec![30, 50, 20]), state(RaffleStateErrors::InvalidWinShares));
    assert_eq!(attempt(&|_| {}, vec![50, 30, 21]), state(RaffleStateErrors::InvalidWinShares));
    assert_eq!(attempt(&|r| r.tickets_sold = 1, vec![50, 30, 20]), state(RaffleStateErrors::TicketsSoldOut));
    assert_eq!(
        attempt(&|r| r.prize_type = PrizeType::Nft, vec![50, 30, 20]),
        state(RaffleStateErrors::CannotUpdateWinnersForNftPrize)
    );
    assert_eq!(
        attempt(&|r| r.status = RaffleState::Active, vec![50, 30, 20]),
        state(RaffleStateErrors::InvalidRaffleStateForUpdate)
    );
    assert_eq!(
        attempt(&|r| r.creator = key(BOB), vec![50, 30, 20]),
        state(RaffleStateErrors::InvalidCreator)
    );
}
