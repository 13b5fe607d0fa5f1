use prize_sales::custody::{find_associated_token_account, Mint, SystemAccount, TokenAccount, TransferErrors};
use prize_sales::pubkey::Pubkey;
use prize_sales::raffle::activate_raffle::{activate_raffle, ActivateRaffle, RaffleActivated};
use prize_sales::raffle::announce_winners::{
    announce_winners,
    AnnounceWinners,
    Announcement,
    ColledtedTicketRevenue,
    RaffleFailed,
    WinnersAnnounced,
};
use prize_sales::raffle::buy_ticket::{buy_ticket, BuyTicket, TicketPurchased};
use prize_sales::raffle::buyer_claim_prize::{buyer_claim_prize, BuyerClaimPrize, PrizeClaimed};
use prize_sales::raffle::cancel_raffle::{cancel_raffle, CancelRaffle, RaffleCancelled};
use prize_sales::raffle::claim_amount_back::{claim_amount_back, AmountClaimBack, ClaimAmountBack};
use prize_sales::raffle::claim_prize::{claim_prize, claim_prize_at, ClaimPrize};
use prize_sales::raffle::create_raffle::{create_raffle, CreateRaffle, RaffleCreated};
use prize_sales::raffle::creator_claim_prize_back::{
    creator_claim_prize_back,
    creator_claim_prize_back_at,
    CreatorClaimPrizeBack,
    PrizeBackClaimed,
};
use prize_sales::raffle::errors::{
    ConfigStateErrors,
    KeysMismatchErrors,
    RaffleError,
    RaffleStateErrors,
};
use prize_sales::raffle::states::{Buyer, PrizeType, Raffle, RaffleConfig, RaffleState};

const OWNER: u8 = 1;
const ADMIN: u8 = 2;
const CREATOR: u8 = 3;
const ALICE: u8 = 4;
const BOB: u8 = 5;
const CAROL: u8 = 6;
const TREASURY: u8 = 20;
const VAULT: u8 = 21;
const NFT: u8 = 30;
const USDC: u8 = 31;
const BONK: u8 = 32;
const PRIZE_ESCROW: u8 = 41;
const TICKET_ESCROW: u8 = 52;
const T: i64 = 10_000;

fn key(n: u8) -> Pubkey {
    Pubkey::new_from_array([n; 32])
}

fn state(e: RaffleStateErrors) -> RaffleError {
    RaffleError::State(e)
}

fn keys(e: KeysMismatchErrors) -> RaffleError {
    RaffleError::Keys(e)
}

fn moved(e: TransferErrors) -> RaffleError {
    RaffleError::Transfer(e)
}

fn config() -> RaffleConfig {
    RaffleConfig {
        raffle_owner: key(OWNER),
        raffle_admin: key(ADMIN),
        creation_fee_lamports: 1_000,
        ticket_fee_bps: 250,
        winning_fee_bps: 0,
        minimum_raffle_period: 60,
        maximum_raffle_period: 100_000,
        minimum_tickets: 3,
        maximum_tickets: 10_000,
        maximum_wallet_pct: 40,
        maximum_winners_count: 10,
        raffle_count: 1,
        pause_flags: 0,
        config_bump: 254,
    }
}

fn blank_raffle() -> Raffle {
    Raffle {
        raffle_id: 0,
        creator: Pubkey::default(),
        start_time: 0,
        end_time: 0,
        total_tickets: 0,
        tickets_sold: 0,
        ticket_price: 0,
        ticket_mint: None,
        ticker_escrow: None,
        max_per_wallet_pct: 0,
        prize_type: PrizeType::Sol,
        prize_amount: 0,
        prize_mint: None,
        price_escrow: None,
        num_winners: 0,
        win_shares: vec![],
        winners: vec![],
        is_win_claimed: vec![],
        status: RaffleState::Uninitialized,
        is_unique_winners: false,
        claimable_prize_back: 0,
        claimable_ticket_amount: 0,
        raffle_bump: 0,
    }
}

/// A raffle of 100 tickets at 50 each, open from `T` to `T + 1000`, with a
/// prize of 10 000 lamports for three winners at 50, 30 and 20 percent.
fn sol_raffle() -> Raffle {
    Raffle {
        raffle_id: 1,
        creator: key(CREATOR),
        start_time: T,
        end_time: T + 1_000,
        total_tickets: 100,
        tickets_sold: 0,
        ticket_price: 50,
        ticket_mint: None,
        ticker_escrow: None,
        max_per_wallet_pct: 40,
        prize_type: PrizeType::Sol,
        prize_amount: 10_000,
        prize_mint: None,
        price_escrow: None,
        num_winners: 3,
        win_shares: vec![50, 30, 20],
        winners: vec![Pubkey::default(); 3],
        is_win_claimed: vec![false; 3],
        status: RaffleState::Active,
        is_unique_winners: true,
        claimable_prize_back: 0,
        claimable_ticket_amount: 0,
        raffle_bump: 9,
    }
}

/// The same raffle with a prize of 10 000 tokens and tickets paid in tokens.
fn token_raffle() -> Raffle {
    let mut raffle = sol_raffle();
    raffle.prize_type = PrizeType::Spl;
    raffle.prize_mint = Some(key(BONK));
    raffle.price_escrow = Some(key(PRIZE_ESCROW));
    raffle.ticket_mint = Some(key(USDC));
    raffle.ticker_escrow = Some(key(TICKET_ESCROW));
    raffle
}

fn mint(n: u8) -> Mint {
    Mint { key: key(n), decimals: 6, supply: 1_000_000_000 }
}

fn nft_mint() -> Mint {
    Mint { key: key(NFT), decimals: 0, supply: 1 }
}

fn token(address: u8, mint: u8, owner: u8, amount: u64) -> TokenAccount {
    TokenAccount::new(key(address), key(mint), key(owner), amount)
}

fn create_ctx() -> CreateRaffle {
    CreateRaffle {
        raffle_config: config(),
        config_treasury: SystemAccount::new(key(TREASURY), 0),
        raffle_vault: SystemAccount::new(key(VAULT), 0),
        creator: SystemAccount::new(key(CREATOR), 50_000),
        raffle_admin: key(ADMIN),
        ticket_mint: mint(USDC),
        prize_mint: mint(BONK),
        ticket_escrow: token(TICKET_ESCROW, USDC, VAULT, 0),
        prize_escrow: token(PRIZE_ESCROW, BONK, VAULT, 0),
        creator_prize_ata: token(40, BONK, CREATOR, 20_000),
    }
}

fn buy_ctx(buyer: u8, held: u16) -> BuyTicket {
    BuyTicket {
        raffle_config: config(),
        raffle_vault: SystemAccount::new(key(VAULT), 10_000),
        buyer_account: if held == 0 {
            Buyer { raffle_id: 0, user: Pubkey::default(), tickets: 0 }
        } else {
            Buyer { raffle_id: 1, user: key(buyer), tickets: held }
        },
        buyer: SystemAccount::new(key(buyer), 100_000),
        raffle_admin: key(ADMIN),
        ticket_mint: mint(USDC),
        buyer_ticket_ata: token(50, USDC, buyer, 100_000),
        ticket_escrow: token(TICKET_ESCROW, USDC, VAULT, 0),
    }
}

fn announce_ctx(vault: u64, escrow: u64) -> AnnounceWinners {
    AnnounceWinners {
        raffle_config: config(),
        config_treasury: SystemAccount::new(key(TREASURY), 0),
        raffle_vault: SystemAccount::new(key(VAULT), vault),
        raffle_admin: key(ADMIN),
        ticket_mint: mint(USDC),
        ticket_escrow: token(TICKET_ESCROW, USDC, VAULT, escrow),
        ticket_fee_treasury: token(53, USDC, TREASURY, 0),
    }
}

fn claim_ctx(winner: u8, expected_ata: Pubkey) -> ClaimPrize {
    ClaimPrize {
        raffle_config: config(),
        raffle_vault: SystemAccount::new(key(VAULT), 20_000),
        raffle_admin: key(ADMIN),
        winner: SystemAccount::new(key(winner), 0),
        prize_mint: mint(BONK),
        prize_escrow: token(PRIZE_ESCROW, BONK, VAULT, 10_000),
        winner_prize_ata: TokenAccount::new(expected_ata, key(BONK), key(winner), 0),
        winner_prize_ata_is_empty: false,
    }
}

fn ended(mut raffle: Raffle, winners: Vec<Pubkey>) -> Raffle {
    raffle.status = RaffleState::SuccessEnded;
    raffle.tickets_sold = 10;
    raffle.winners = winners;
    raffle
}

#[test]
fn a_raffle_is_created_and_the_prize_locked() {
    let mut ctx = create_ctx();
    let mut raffle = blank_raffle();
    let event = create_raffle(
        &mut ctx,
        &mut raffle,
        T + 10,
        T + 1_010,
        100,
        50,
        false,
        40,
        PrizeType::Spl,
        10_000,
        3,
        vec![50, 30, 20],
        true,
        false,
        T,
        9,
    );
    assert_eq!(
        event,
        Ok(RaffleCreated {
            raffle_id: 1,
            creator: key(CREATOR),
            start_time: T + 10,
            end_time: T + 1_010,
            created_at: T,
        })
    );
    let mut expected = token_raffle();
    expected.start_time = T + 10;
    expected.end_time = T + 1_010;
    expected.status = RaffleState::Initialized;
    assert_eq!(raffle, expected);
    assert_eq!(ctx.raffle_config.raffle_count, 2);
    assert_eq!(ctx.creator.lamports(), 49_000);
    assert_eq!(ctx.config_treasury.lamports(), 1_000);
    assert_eq!(ctx.creator_prize_ata.amount(), 10_000);
    assert_eq!(ctx.prize_escrow.amount(), 10_000);
    assert_eq!(ctx.raffle_vault.lamports(), 0);
}

#[test]
fn a_raffle_with_a_native_prize_locks_it_in_its_own_account() {
    let mut ctx = create_ctx();
    let mut raffle = blank_raffle();
    create_raffle(
        &mut ctx,
        &mut raffle,
        0,
        T + 1_000,
        100,
        50,
        true,
        40,
        PrizeType::Sol,
        10_000,
        3,
        vec![50, 30, 20],
        true,
        true,
        T,
        9,
    )
    .unwrap();
    assert_eq!(raffle, sol_raffle());
    assert_eq!(ctx.creator.lamports(), 50_000 - 1_000 - 10_000);
    assert_eq!(ctx.raffle_vault.lamports(), 10_000);
    assert_eq!(ctx.prize_escrow.amount(), 0);
}

#[test]
fn a_unique_item_has_one_winner_who_gets_it_all() {
    let mut ctx = create_ctx();
    ctx.prize_mint = nft_mint();
    ctx.creator_prize_ata = token(40, NFT, CREATOR, 1);
    ctx.prize_escrow = token(PRIZE_ESCROW, NFT, VAULT, 0);
    let mut raffle = blank_raffle();
    create_raffle(
        &mut ctx,
        &mut raffle,
        T,
        T + 1_000,
        100,
        50,
        true,
        40,
        PrizeType::Nft,
        777,
        5,
        vec![1, 2, 3],
        false,
        false,
        T,
        9,
    )
    .unwrap();
    assert_eq!(raffle.prize_amount, 1);
    assert_eq!(raffle.num_winners, 1);
    assert_eq!(raffle.win_shares, vec![100]);
    assert_eq!(raffle.winners, vec![Pubkey::default()]);
    assert_eq!(raffle.is_win_claimed, vec![false]);
    assert_eq!(raffle.prize_mint, Some(key(NFT)));
    assert_eq!(ctx.prize_escrow.amount(), 1);
}

#[test]
fn create_raffle_names_what_is_wrong() {
    struct Terms {
        start: i64,
        end: i64,
        tickets: u16,
        price: u64,
        ticket_sol: bool,
        wallet_pct: u8,
        prize_type: PrizeType,
        prize: u64,
        winners: u8,
        shares: Vec<u8>,
    }
    let terms = || Terms {
        start: T,
        end: T + 1_000,
        tickets: 100,
        price: 50,
        ticket_sol: false,
        wallet_pct: 40,
        prize_type: PrizeType::Spl,
        prize: 10_000,
        winners: 3,
        shares: vec![50, 30, 20],
    };
    let attempt = |change: &dyn Fn(&mut CreateRaffle), t: Terms| {
        let mut ctx = create_ctx();
        change(&mut ctx);
        let mut raffle = blank_raffle();
        let result = create_raffle(
            &mut ctx,
            &mut raffle,
            t.start,
            t.end,
            t.tickets,
            t.price,
            t.ticket_sol,
            t.wallet_pct,
            t.prize_type,
            t.prize,
            t.winners,
            t.shares,
            true,
            false,
            T,
            9,
        );
        if result.is_err() {
            let mut untouched = create_ctx();
            change(&mut untouched);
            assert_eq!(raffle, blank_raffle());
            assert_eq!(ctx.raffle_config, untouched.raffle_config);
            assert_eq!(ctx.creator.lamports(), untouched.creator.lamports());
            assert_eq!(ctx.config_treasury.lamports(), untouched.config_treasury.lamports());
            assert_eq!(ctx.prize_escrow.amount(), untouched.prize_escrow.amount());
            assert_eq!(ctx.creator_prize_ata.amount(), untouched.creator_prize_ata.amount());
        }
        result.map(|_| ())
    };
    let fine = |_: &mut CreateRaffle| {};
    assert_eq!(attempt(&fine, terms()), Ok(()));
    assert_eq!(
        attempt(&|c| c.raffle_admin = key(9), terms()),
        Err(RaffleError::Config(ConfigStateErrors::InvalidRaffleAdmin))
    );
    assert_eq!(
        attempt(&|c| c.raffle_config.pause_flags = 1, terms()),
        Err(state(RaffleStateErrors::FunctionPaused))
    );
    assert_eq!(
        attempt(&fine, Terms { price: 0, ..terms() }),
        Err(state(RaffleStateErrors::InvalidTicketZeroPrice))
    );
    assert_eq!(
        attempt(&fine, Terms { tickets: 2, ..terms() }),
        Err(state(RaffleStateErrors::InvalidTotalTickets))
    );
    assert_eq!(
        attempt(&fine, Terms { tickets: 10_001, ..terms() }),
        Err(state(RaffleStateErrors::InvalidTotalTickets))
    );
    assert_eq!(
        attempt(&|c| c.raffle_config.minimum_tickets = 0, Terms { tickets: 0, ..terms() }),
        Err(state(RaffleStateErrors::InvalidTotalTickets))
    );
    assert_eq!(
        attempt(&fine, Terms { winners: 0, shares: vec![], ..terms() }),
        Err(state(RaffleStateErrors::InvalidZeroWinnersCount))
    );
    assert_eq!(
        attempt(&fine, Terms { tickets: 3, winners: 4, shares: vec![25; 4], ..terms() }),
        Err(state(RaffleStateErrors::WinnersExceedTotalTickets))
    );
    assert_eq!(
        attempt(&fine, Terms { winners: 11, shares: vec![10; 11], ..terms() }),
        Err(state(RaffleStateErrors::ExceedMaxWinners))
    );
    assert_eq!(
        attempt(&fine, Terms { prize: 2, ..terms() }),
        Err(state(RaffleStateErrors::InsufficientPrizeAmount))
    );
    assert_eq!(
        attempt(&fine, Terms { shares: vec![50, 50], ..terms() }),
        Err(state(RaffleStateErrors::InvalidWinShares))
    );
    assert_eq!(
        attempt(&fine, Terms { shares: vec![30, 50, 20], ..terms() }),
        Err(state(RaffleStateErrors::InvalidWinShares))
    );
    assert_eq!(
        attempt(&fine, Terms { shares: vec![50, 30, 21], ..terms() }),
        Err(state(RaffleStateErrors::InvalidWinShares))
    );
    assert_eq!(
        attempt(&fine, Terms { start: i64::MIN, end: i64::MAX, ..terms() }),
        Err(state(RaffleStateErrors::StartTimeExceedEndTime))
    );
    assert_eq!(
        attempt(&fine, Terms { start: T - 1, ..terms() }),
        Err(state(RaffleStateErrors::StartTimeInPast))
    );
    assert_eq!(
        attempt(&fine, Terms { end: T + 59, ..terms() }),
        Err(RaffleError::Config(ConfigStateErrors::InvalidRafflePeriod))
    );
    assert_eq!(
        attempt(&fine, Terms { wallet_pct: 41, ..terms() }),
        Err(state(RaffleStateErrors::InvalidMaxPerWalletPct))
    );
    assert_eq!(
        attempt(&fine, Terms { wallet_pct: 0, ..terms() }),
        Err(state(RaffleStateErrors::InvalidMaxPerWalletPct))
    );
    assert_eq!(attempt(&fine, Terms { wallet_pct: 1, ..terms() }), Ok(()));
    // With three tickets one ticket is 34 percent, rounded up.
    assert_eq!(
        attempt(&fine, Terms { tickets: 3, wallet_pct: 33, ..terms() }),
        Err(state(RaffleStateErrors::InvalidMaxPerWalletPct))
    );
    assert_eq!(attempt(&fine, Terms { tickets: 3, wallet_pct: 34, ..terms() }), Ok(()));
    assert_eq!(
        attempt(&|c| c.creator = SystemAccount::new(key(CREATOR), 999), terms()),
        Err(moved(TransferErrors::InsufficientSolBalance))
    );
    assert_eq!(
        attempt(&fine, Terms { prize_type: PrizeType::Sol, prize: 49_001, ..terms() }),
        Err(moved(TransferErrors::InsufficientSolBalance))
    );
    assert_eq!(attempt(&fine, Terms { prize_type: PrizeType::Sol, prize: 49_000, ..terms() }), Ok(()));
    assert_eq!(
        attempt(&fine, Terms { prize_type: PrizeType::Nft, ..terms() }),
        Err(state(RaffleStateErrors::InvalidNFT))
    );
    assert_eq!(attempt(&|c| c.prize_mint = nft_mint(), terms()), Err(state(RaffleStateErrors::InvalidNFT)));
    assert_eq!(
        attempt(&|c| c.creator_prize_ata = token(40, BONK, ALICE, 20_000), terms()),
        Err(keys(KeysMismatchErrors::InvalidPrizeAtaOwner))
    );
    assert_eq!(
        attempt(&|c| c.creator_prize_ata = token(40, USDC, CREATOR, 20_000), terms()),
        Err(keys(KeysMismatchErrors::InvalidPrizeMint))
    );
    assert_eq!(
        attempt(&|c| c.prize_escrow = token(PRIZE_ESCROW, BONK, CREATOR, 0), terms()),
        Err(keys(KeysMismatchErrors::InvalidPrizeEscrowOwner))
    );
    assert_eq!(
        attempt(&|c| c.prize_escrow = token(PRIZE_ESCROW, USDC, VAULT, 0), terms()),
        Err(keys(KeysMismatchErrors::InvalidPrizeMint))
    );
    assert_eq!(
        attempt(&fine, Terms { prize: 20_001, ..terms() }),
        Err(moved(TransferErrors::InsufficientTokenBalance))
    );
    assert_eq!(
        attempt(&|c| c.ticket_escrow = token(TICKET_ESCROW, USDC, CREATOR, 0), terms()),
        Err(keys(KeysMismatchErrors::InvalidTicketEscrowOwner))
    );
    assert_eq!(
        attempt(&|c| c.ticket_escrow = token(TICKET_ESCROW, BONK, VAULT, 0), terms()),
        Err(keys(KeysMismatchErrors::InvalidTicketMint))
    );
    assert_eq!(
        attempt(
            &|c| c.ticket_escrow = token(TICKET_ESCROW, BONK, CREATOR, 0),
            Terms { ticket_sol: true, ..terms() }
        ),
        Ok(())
    );
    assert_eq!(
        attempt(&|c| c.raffle_config.raffle_count = u32::MAX, terms()),
        Err(state(RaffleStateErrors::Overflow))
    );
}

#[test]
fn a_raffle_is_activated_when_its_time_has_come() {
    let ctx = ActivateRaffle { raffle_config: config(), raffle_admin: key(ADMIN) };
    let mut raffle = sol_raffle();
    raffle.status = RaffleState::Initialized;
    assert_eq!(activate_raffle(&ctx, &mut raffle, 1, T - 1), Err(state(RaffleStateErrors::StartTimeNotReached)));
    assert_eq!(activate_raffle(&ctx, &mut raffle, 7, T), Err(state(RaffleStateErrors::InvalidRaffleId)));
    assert_eq!(raffle.status, RaffleState::Initialized);
    assert_eq!(
        activate_raffle(&ctx, &mut raffle, 1, T),
        Ok(RaffleActivated { raffle_id: 1, activated_at: T })
    );
    assert_eq!(raffle.status, RaffleState::Active);
    assert_eq!(
        activate_raffle(&ctx, &mut raffle, 1, T),
        Err(state(RaffleStateErrors::StateShouldBeInInitialized))
    );
    let paused = ActivateRaffle {
        raffle_config: RaffleConfig { pause_flags: 1 << 1, ..config() },
        raffle_admin: key(ADMIN),
    };
    assert_eq!(activate_raffle(&paused, &mut raffle, 1, T), Err(state(RaffleStateErrors::FunctionPaused)));
    let stranger = ActivateRaffle { raffle_config: config(), raffle_admin: key(BOB) };
    assert_eq!(
        activate_raffle(&stranger, &mut raffle, 1, T),
        Err(RaffleError::Config(ConfigStateErrors::InvalidRaffleAdmin))
    );
}

#[test]
fn tickets_are_paid_into_custody() {
    let mut raffle = sol_raffle();
    let mut ctx = buy_ctx(ALICE, 0);
    let event = buy_ticket(&mut ctx, &mut raffle, 1, 4, T);
    assert_eq!(
        event,
        Ok(TicketPurchased {
            raffle_id: 1,
            buyer: key(ALICE),
            tickets_bought: 4,
            price_paid: 200,
            bought_time: T,
        })
    );
    assert_eq!(raffle.tickets_sold, 4);
    assert_eq!(ctx.buyer_account, Buyer { raffle_id: 1, user: key(ALICE), tickets: 4 });
    assert_eq!(ctx.buyer.lamports(), 100_000 - 200);
    assert_eq!(ctx.raffle_vault.lamports(), 10_000 + 200);

    let mut raffle = token_raffle();
    let mut ctx = buy_ctx(BOB, 3);
    buy_ticket(&mut ctx, &mut raffle, 1, 2, T + 999).unwrap();
    assert_eq!(raffle.tickets_sold, 2);
    assert_eq!(ctx.buyer_account.tickets, 5);
    assert_eq!(ctx.buyer_ticket_ata.amount(), 100_000 - 100);
    assert_eq!(ctx.ticket_escrow.amount(), 100);
    assert_eq!(ctx.buyer.lamports(), 100_000);
}

#[test]
fn no_wallet_gets_more_than_its_cap() {
    // A hundred tickets and a cap of forty percent: forty tickets for one wallet.
    let mut raffle = sol_raffle();
    let mut ctx = buy_ctx(ALICE, 35);
    assert_eq!(
        buy_ticket(&mut ctx, &mut raffle, 1, 6, T),
        Err(state(RaffleStateErrors::MaxTicketsPerWalletExceeded))
    );
    assert_eq!(raffle.tickets_sold, 0);
    assert_eq!(ctx.buyer_account.tickets, 35);
    assert_eq!(ctx.buyer.lamports(), 100_000);
    let event = buy_ticket(&mut ctx, &mut raffle, 1, 5, T).unwrap();
    assert_eq!(event.tickets_bought, 5);
    assert_eq!(ctx.buyer_account.tickets, 40);
    assert_eq!(raffle.tickets_sold, 5);
    assert_eq!(
        buy_ticket(&mut ctx, &mut raffle, 1, 1, T),
        Err(state(RaffleStateErrors::MaxTicketsPerWalletExceeded))
    );
}

#[test]
fn buy_ticket_names_what_is_wrong() {
    let attempt = |change: &dyn Fn(&mut BuyTicket, &mut Raffle), id: u32, count: u16, now: i64| {
        let mut raffle = sol_raffle();
        let mut ctx = buy_ctx(ALICE, 0);
        change(&mut ctx, &mut raffle);
        let before = (raffle.clone(), ctx.buyer_account, ctx.buyer.lamports(), ctx.raffle_vault.lamports());
        let result = buy_ticket(&mut ctx, &mut raffle, id, count, now);
        if result.is_err() {
            assert_eq!(
                before,
                (raffle.clone(), ctx.buyer_account, ctx.buyer.lamports(), ctx.raffle_vault.lamports())
            );
        }
        result.map(|_| ())
    };
    let fine = |_: &mut BuyTicket, _: &mut Raffle| {};
    assert_eq!(attempt(&fine, 1, 1, T), Ok(()));
    assert_eq!(attempt(&fine, 1, 40, T + 999), Ok(()));
    assert_eq!(
        attempt(&|c, _| c.raffle_admin = key(9), 1, 1, T),
        Err(RaffleError::Config(ConfigStateErrors::InvalidRaffleAdmin))
    );
    assert_eq!(attempt(&fine, 2, 1, T), Err(state(RaffleStateErrors::InvalidRaffleId)));
    assert_eq!(
        attempt(&|c, _| c.raffle_config.pause_flags = 1 << 3, 1, 1, T),
        Err(state(RaffleStateErrors::FunctionPaused))
    );
    assert_eq!(
        attempt(&|_, r| r.status = RaffleState::Initialized, 1, 1, T),
        Err(state(RaffleStateErrors::RaffleNotActive))
    );
    assert_eq!(attempt(&fine, 1, 1, T - 1), Err(state(RaffleStateErrors::StartTimeNotReached)));
    assert_eq!(attempt(&fine, 1, 1, T + 1_000), Err(state(RaffleStateErrors::EndTimeIsCrossed)));
    assert_eq!(attempt(&fine, 1, 0, T), Err(state(RaffleStateErrors::InvalidZeroTickets)));
    assert_eq!(attempt(&|_, r| r.tickets_sold = 101, 1, 1, T), Err(state(RaffleStateErrors::Overflow)));
    assert_eq!(attempt(&|_, r| r.tickets_sold = 99, 1, 2, T), Err(state(RaffleStateErrors::TicketsSoldOut)));
    assert_eq!(attempt(&|_, r| r.tickets_sold = 99, 1, 1, T), Ok(()));
    assert_eq!(attempt(&|_, r| r.tickets_sold = 100, 1, 1, T), Err(state(RaffleStateErrors::TicketsSoldOut)));
    assert_eq!(
        attempt(
            &|_, r| {
                r.total_tickets = 65_535;
                r.max_per_wallet_pct = 200;
            },
            1,
            1,
            T
        ),
        Err(state(RaffleStateErrors::Overflow))
    );
    assert_eq!(
        attempt(
            &|c, r| {
                r.total_tickets = 65_535;
                r.max_per_wallet_pct = 100;
                c.buyer_account = Buyer { raffle_id: 1, user: key(ALICE), tickets: 65_000 };
            },
            1,
            536,
            T
        ),
        Err(state(RaffleStateErrors::Overflow))
    );
    assert_eq!(attempt(&fine, 1, 41, T), Err(state(RaffleStateErrors::MaxTicketsPerWalletExceeded)));
    assert_eq!(
        attempt(&|c, _| c.buyer_account = Buyer { raffle_id: 1, user: key(BOB), tickets: 1 }, 1, 1, T),
        Err(keys(KeysMismatchErrors::InvalidBuyerAccountUser))
    );
    assert_eq!(
        attempt(&|c, _| c.buyer_account = Buyer { raffle_id: 1, user: key(BOB), tickets: 0 }, 1, 1, T),
        Err(keys(KeysMismatchErrors::InvalidBuyerAccountUser))
    );
    assert_eq!(
        attempt(&|c, _| c.buyer_account = Buyer { raffle_id: 2, user: key(ALICE), tickets: 1 }, 1, 1, T),
        Err(state(RaffleStateErrors::InvalidRaffleId))
    );
    assert_eq!(
        attempt(&|_, r| r.ticket_price = u64::MAX / 2, 1, 3, T),
        Err(state(RaffleStateErrors::Overflow))
    );
    assert_eq!(
        attempt(&|c, _| c.buyer = SystemAccount::new(key(ALICE), 49), 1, 1, T),
        Err(moved(TransferErrors::InsufficientSolBalance))
    );
    assert_eq!(
        attempt(&|c, _| c.raffle_vault = SystemAccount::new(key(VAULT), u64::MAX - 49), 1, 1, T),
        Err(moved(TransferErrors::SolTransferFailed))
    );
    let tokens = |change: &'static dyn Fn(&mut BuyTicket)| {
        move |c: &mut BuyTicket, r: &mut Raffle| {
            *r = token_raffle();
            change(c);
        }
    };
    assert_eq!(attempt(&tokens(&|_| {}), 1, 1, T), Ok(()));
    assert_eq!(
        attempt(&tokens(&|c| c.ticket_mint = mint(BONK)), 1, 1, T),
        Err(keys(KeysMismatchErrors::InvalidTicketMint))
    );
    assert_eq!(
        attempt(&tokens(&|c| c.buyer_ticket_ata = token(50, BONK, ALICE, 100)), 1, 1, T),
        Err(keys(KeysMismatchErrors::InvalidTicketMint))
    );
    assert_eq!(
        attempt(&tokens(&|c| c.ticket_escrow = token(TICKET_ESCROW, BONK, VAULT, 0)), 1, 1, T),
        Err(keys(KeysMismatchErrors::InvalidTicketMint))
    );
    assert_eq!(
        attempt(&tokens(&|c| c.buyer_ticket_ata = token(50, USDC, BOB, 100)), 1, 1, T),
        Err(keys(KeysMismatchErrors::InvalidTicketAtaOwner))
    );
    assert_eq!(
        attempt(&tokens(&|c| c.ticket_escrow = token(TICKET_ESCROW, USDC, BOB, 0)), 1, 1, T),
        Err(keys(KeysMismatchErrors::InvalidTicketEscrowOwner))
    );
    assert_eq!(
        attempt(&tokens(&|c| c.buyer_ticket_ata = token(50, USDC, ALICE, 49)), 1, 1, T),
        Err(moved(TransferErrors::InsufficientTokenBalance))
    );
}

#[test]
fn a_raffle_that_sold_nothing_fails_and_moves_nothing() {
    let mut raffle = sol_raffle();
    let mut ctx = announce_ctx(10_000, 0);
    let event = announce_winners(&mut ctx, &mut raffle, 1, vec![key(ALICE)], T + 1_000);
    assert_eq!(
        event,
        Ok(Announcement::Failed(RaffleFailed {
            raffle_id: 1,
            claimable_prize_back: 10_000,
            announce_time: T + 1_000,
        }))
    );
    assert_eq!(raffle.status, RaffleState::FailedEnded);
    assert_eq!(raffle.claimable_prize_back, 10_000);
    assert_eq!(raffle.claimable_ticket_amount, 0);
    assert_eq!(raffle.winners, vec![Pubkey::default(); 3]);
    assert_eq!(ctx.raffle_vault.lamports(), 10_000);
    assert_eq!(ctx.config_treasury.lamports(), 0);
    assert_eq!(ctx.ticket_escrow.amount(), 0);
    assert_eq!(ctx.ticket_fee_treasury.amount(), 0);
    assert_eq!(
        announce_winners(&mut ctx, &mut raffle, 1, vec![], T + 1_000),
        Err(state(RaffleStateErrors::RaffleNotActive))
    );
}

#[test]
fn winners_are_announced_and_the_revenue_split() {
    let mut raffle = sol_raffle();
    raffle.tickets_sold = 20;
    let mut ctx = announce_ctx(10_000 + 1_000, 0);
    let winners = vec![key(ALICE), key(BOB), key(CAROL)];
    let event = announce_winners(&mut ctx, &mut raffle, 1, winners.clone(), T + 1_000);
    assert_eq!(
        event,
        Ok(Announcement::Announced(
            WinnersAnnounced {
                raffle_id: 1,
                effective_winners: 3,
                claimable_prize_back: 0,
                announce_time: T + 1_000,
            },
            ColledtedTicketRevenue {
                raffle_id: 1,
                creator_amount: 975,
                fee_amount: 25,
                total_tickets_sold: 20,
            },
        ))
    );
    assert_eq!(raffle.status, RaffleState::SuccessEnded);
    assert_eq!(raffle.winners, winners);
    assert_eq!(raffle.claimable_prize_back, 0);
    assert_eq!(raffle.claimable_ticket_amount, 975);
    assert_eq!(raffle.is_win_claimed, vec![false; 3]);
    assert_eq!(ctx.config_treasury.lamports(), 25);
    assert_eq!(ctx.raffle_vault.lamports(), 11_000 - 25);
}

#[test]
fn slots_without_a_winner_leave_their_share_to_the_creator() {
    let mut raffle = token_raffle();
    raffle.tickets_sold = 2;
    let mut ctx = announce_ctx(0, 100);
    let event = announce_winners(&mut ctx, &mut raffle, 1, vec![key(ALICE), key(BOB)], T + 2_000).unwrap();
    assert_eq!(
        event,
        Announcement::Announced(
            WinnersAnnounced {
                raffle_id: 1,
                effective_winners: 2,
                claimable_prize_back: 2_000,
                announce_time: T + 2_000,
            },
            ColledtedTicketRevenue { raffle_id: 1, creator_amount: 98, fee_amount: 2, total_tickets_sold: 2 },
        )
    );
    assert_eq!(raffle.claimable_prize_back, 2_000);
    assert_eq!(raffle.claimable_ticket_amount, 98);
    assert_eq!(ctx.ticket_escrow.amount(), 98);
    assert_eq!(ctx.ticket_fee_treasury.amount(), 2);

    let mut raffle = token_raffle();
    raffle.tickets_sold = 1;
    raffle.prize_amount = 999;
    let mut ctx = announce_ctx(0, 50);
    announce_winners(&mut ctx, &mut raffle, 1, vec![key(ALICE)], T + 2_000).unwrap();
    // Half of 999, rounded down.
    assert_eq!(raffle.claimable_prize_back, 499);
    assert_eq!(raffle.claimable_ticket_amount, 49);
}

#[test]
fn announce_winners_names_what_is_wrong() {
    let three = || vec![key(ALICE), key(BOB), key(CAROL)];
    let attempt = |change: &dyn Fn(&mut AnnounceWinners, &mut Raffle), id: u32, winners: Vec<Pubkey>, now: i64| {
        let mut raffle = token_raffle();
        raffle.tickets_sold = 20;
        let mut ctx = announce_ctx(0, 1_000);
        change(&mut ctx, &mut raffle);
        let before = (raffle.clone(), ctx.ticket_escrow.amount(), ctx.raffle_vault.lamports());
        let result = announce_winners(&mut ctx, &mut raffle, id, winners, now);
        if result.is_err() {
            assert_eq!(before, (raffle.clone(), ctx.ticket_escrow.amount(), ctx.raffle_vault.lamports()));
            assert_eq!(ctx.ticket_fee_treasury.amount(), 0);
        }
        result.map(|_| ())
    };
    let end = T + 1_000;
    let fine = |_: &mut AnnounceWinners, _: &mut Raffle| {};
    assert_eq!(attempt(&fine, 1, three(), end), Ok(()));
    assert_eq!(attempt(&fine, 1, three(), end - 1), Err(state(RaffleStateErrors::EndTimeNotReached)));
    assert_eq!(attempt(&fine, 9, three(), end), Err(state(RaffleStateErrors::InvalidRaffleId)));
    assert_eq!(
        attempt(&|c, _| c.raffle_admin = key(9), 1, three(), end),
        Err(RaffleError::Config(ConfigStateErrors::InvalidRaffleAdmin))
    );
    assert_eq!(
        attempt(&|c, _| c.raffle_config.pause_flags = 1 << 2, 1, three(), end),
        Err(state(RaffleStateErrors::FunctionPaused))
    );
    assert_eq!(
        attempt(&|_, r| r.status = RaffleState::SuccessEnded, 1, three(), end),
        Err(state(RaffleStateErrors::RaffleNotActive))
    );
    assert_eq!(
        attempt(&fine, 1, vec![key(ALICE), key(BOB)], end),
        Err(state(RaffleStateErrors::InvalidWinnersLength))
    );
    assert_eq!(
        attempt(&|_, r| r.tickets_sold = 2, 1, three(), end),
        Err(state(RaffleStateErrors::InvalidWinnersLength))
    );
    assert_eq!(
        attempt(&fine, 1, vec![key(ALICE), key(BOB), key(ALICE)], end),
        Err(state(RaffleStateErrors::DuplicateWinnersNotAllowed))
    );
    assert_eq!(
        attempt(&|_, r| r.is_unique_winners = false, 1, vec![key(ALICE), key(BOB), key(ALICE)], end),
        Ok(())
    );
    assert_eq!(
        attempt(
            &|_, r| {
                r.tickets_sold = 2;
                r.win_shares = vec![90, 80, 70];
            },
            1,
            vec![key(ALICE), key(BOB)],
            end
        ),
        Err(state(RaffleStateErrors::InvalidWinShares))
    );
    assert_eq!(
        attempt(
            &|_, r| {
                r.tickets_sold = 2;
                r.prize_amount = u64::MAX;
            },
            1,
            vec![key(ALICE), key(BOB)],
            end
        ),
        Err(state(RaffleStateErrors::Overflow))
    );
    assert_eq!(
        attempt(&|_, r| r.ticket_price = u64::MAX, 1, three(), end),
        Err(state(RaffleStateErrors::Overflow))
    );
    assert_eq!(
        attempt(&|c, _| c.raffle_config.ticket_fee_bps = 20_000, 1, three(), end),
        Err(state(RaffleStateErrors::Overflow))
    );
    assert_eq!(
        attempt(
            &|_, r| {
                r.prize_type = PrizeType::Nft;
                r.num_winners = 1;
            },
            1,
            three(),
            end
        ),
        Err(state(RaffleStateErrors::InvalidWinnersLength))
    );
    assert_eq!(
        attempt(
            &|_, r| {
                r.prize_type = PrizeType::Nft;
                r.num_winners = 1;
            },
            1,
            vec![key(BOB)],
            end
        ),
        Ok(())
    );
    assert_eq!(
        attempt(&|c, _| c.ticket_mint = mint(BONK), 1, three(), end),
        Err(keys(KeysMismatchErrors::InvalidTicketMint))
    );
    assert_eq!(
        attempt(&|_, r| r.ticker_escrow = None, 1, three(), end),
        Err(keys(KeysMismatchErrors::MissingTicketEscrow))
    );
    assert_eq!(
        attempt(&|_, r| r.ticker_escrow = Some(key(PRIZE_ESCROW)), 1, three(), end),
        Err(keys(KeysMismatchErrors::InvalidTicketEscrow))
    );
    assert_eq!(
        attempt(&|c, _| c.ticket_fee_treasury = token(53, USDC, CREATOR, 0), 1, three(), end),
        Err(keys(KeysMismatchErrors::InvalidFeeTreasuryAtaOwner))
    );
    assert_eq!(
        attempt(&|c, _| c.ticket_fee_treasury = token(53, BONK, TREASURY, 0), 1, three(), end),
        Err(keys(KeysMismatchErrors::InvalidTicketMint))
    );
    assert_eq!(
        attempt(&|c, _| c.ticket_escrow = token(TICKET_ESCROW, USDC, VAULT, 24), 1, three(), end),
        Err(moved(TransferErrors::InsufficientTokenBalance))
    );
    assert_eq!(
        attempt(&|_, r| *r = Raffle { tickets_sold: 20, ..sol_raffle() }, 1, three(), end),
        Err(moved(TransferErrors::InsufficientSolBalance))
    );
}

#[test]
fn a_slot_pays_once() {
    let raffle_ended = ended(sol_raffle(), vec![key(ALICE), key(BOB), key(CAROL)]);
    let mut raffle = raffle_ended.clone();
    let mut ctx = claim_ctx(BOB, key(60));
    let first = claim_prize(&mut ctx, &mut raffle, 1, 1, T + 2_000);
    assert_eq!(
        first,
        Ok(PrizeClaimed {
            raffle_id: 1,
            winner: key(BOB),
            winner_index: 1,
            prize_type: PrizeType::Sol,
            prize_amount: 3_000,
            claimed_time: T + 2_000,
        })
    );
    assert_eq!(raffle.is_win_claimed, vec![false, true, false]);
    assert_eq!(raffle.status, RaffleState::SuccessEnded);
    assert_eq!(ctx.winner.lamports(), 3_000);
    assert_eq!(ctx.raffle_vault.lamports(), 17_000);

    let second = claim_prize(&mut ctx, &mut raffle, 1, 1, T + 2_001);
    assert_eq!(second, Err(state(RaffleStateErrors::PrizeAlreadyClaimed)));
    assert_eq!(raffle.is_win_claimed, vec![false, true, false]);
    assert_eq!(ctx.winner.lamports(), 3_000);
    assert_eq!(ctx.raffle_vault.lamports(), 17_000);

    // The other slots are as they were.
    let mut alice = claim_ctx(ALICE, key(60));
    assert_eq!(claim_prize(&mut alice, &mut raffle, 1, 0, T + 2_002).unwrap().prize_amount, 5_000);
    let mut carol = claim_ctx(CAROL, key(60));
    assert_eq!(claim_prize(&mut carol, &mut raffle, 1, 2, T + 2_003).unwrap().prize_amount, 2_000);
    assert_eq!(raffle.is_win_claimed, vec![true, true, true]);
    assert_eq!(
        claim_prize(&mut alice, &mut raffle, 1, 0, T + 2_004),
        Err(state(RaffleStateErrors::PrizeAlreadyClaimed))
    );
}

#[test]
fn a_prize_in_tokens_goes_to_the_winners_associated_account() {
    let ata = find_associated_token_account(&key(ALICE), &key(BONK)).unwrap();
    let mut raffle = ended(token_raffle(), vec![key(ALICE), key(BOB), key(CAROL)]);
    let mut ctx = claim_ctx(ALICE, ata);
    ctx.winner_prize_ata_is_empty = true;
    ctx.winner_prize_ata = TokenAccount::new(ata, key(0), key(0), 0);
    let event = claim_prize(&mut ctx, &mut raffle, 1, 0, T + 2_000).unwrap();
    assert_eq!(event.prize_amount, 5_000);
    assert_eq!(ctx.winner_prize_ata.amount(), 5_000);
    assert_eq!(ctx.winner_prize_ata.owner, key(ALICE));
    assert_eq!(ctx.winner_prize_ata.mint, key(BONK));
    assert_eq!(ctx.winner_prize_ata.key, ata);
    assert!(!ctx.winner_prize_ata_is_empty);
    assert_eq!(ctx.prize_escrow.amount(), 5_000);
    assert_eq!(raffle.is_win_claimed, vec![true, false, false]);

    // Any other address is refused.
    let mut raffle = ended(token_raffle(), vec![key(ALICE), key(BOB), key(CAROL)]);
    let mut wrong = claim_ctx(ALICE, key(60));
    assert_eq!(
        claim_prize(&mut wrong, &mut raffle, 1, 0, T + 2_000),
        Err(moved(TransferErrors::InvalidAtaAddressMismatch))
    );
    assert_eq!(raffle.is_win_claimed, vec![false; 3]);
    let bobs = find_associated_token_account(&key(BOB), &key(BONK)).unwrap();
    let mut wrong = claim_ctx(ALICE, bobs);
    assert_eq!(
        claim_prize(&mut wrong, &mut raffle, 1, 0, T + 2_000),
        Err(moved(TransferErrors::InvalidAtaAddressMismatch))
    );
}

#[test]
fn claim_prize_names_what_is_wrong() {
    let attempt = |change: &dyn Fn(&mut ClaimPrize, &mut Raffle), id: u32, slot: u8| {
        let mut raffle = ended(token_raffle(), vec![key(ALICE), key(BOB), key(CAROL)]);
        let mut ctx = claim_ctx(ALICE, key(60));
        change(&mut ctx, &mut raffle);
        let before = (raffle.clone(), ctx.prize_escrow.amount(), ctx.raffle_vault.lamports());
        let result = claim_prize_at(&mut ctx, &mut raffle, id, slot, &Some(key(60)), T + 2_000);
        if result.is_err() {
            assert_eq!(before, (raffle.clone(), ctx.prize_escrow.amount(), ctx.raffle_vault.lamports()));
            assert_eq!(ctx.winner_prize_ata.amount(), 0);
        }
        result.map(|event| event.prize_amount)
    };
    let fine = |_: &mut ClaimPrize, _: &mut Raffle| {};
    assert_eq!(attempt(&fine, 1, 0), Ok(5_000));
    assert_eq!(
        attempt(&|c, _| c.raffle_admin = key(9), 1, 0),
        Err(RaffleError::Config(ConfigStateErrors::InvalidRaffleAdmin))
    );
    assert_eq!(attempt(&fine, 2, 0), Err(state(RaffleStateErrors::InvalidRaffleId)));
    assert_eq!(
        attempt(&|_, r| r.status = RaffleState::FailedEnded, 1, 0),
        Err(state(RaffleStateErrors::RaffleNotSuccessEnded))
    );
    assert_eq!(attempt(&fine, 1, 3), Err(state(RaffleStateErrors::InvalidWinnerIndex)));
    assert_eq!(
        attempt(&|_, r| r.winners = vec![key(ALICE)], 1, 1),
        Err(state(RaffleStateErrors::InvalidWinnerIndex))
    );
    assert_eq!(attempt(&|_, r| r.winners = vec![key(ALICE)], 1, 0), Ok(5_000));
    assert_eq!(attempt(&fine, 1, 1), Err(state(RaffleStateErrors::InvalidWinner)));
    assert_eq!(
        attempt(&|_, r| r.is_win_claimed = vec![true, false, false], 1, 0),
        Err(state(RaffleStateErrors::PrizeAlreadyClaimed))
    );
    assert_eq!(
        attempt(&|_, r| r.prize_mint = None, 1, 0),
        Err(keys(KeysMismatchErrors::MissingPrizeMint))
    );
    assert_eq!(
        attempt(&|c, _| c.prize_mint = mint(USDC), 1, 0),
        Err(keys(KeysMismatchErrors::InvalidPrizeMint))
    );
    assert_eq!(
        attempt(&|_, r| r.price_escrow = None, 1, 0),
        Err(keys(KeysMismatchErrors::MissingPrizeEscrow))
    );
    assert_eq!(
        attempt(&|_, r| r.price_escrow = Some(key(TICKET_ESCROW)), 1, 0),
        Err(keys(KeysMismatchErrors::InvalidPrizeEscrow))
    );
    assert_eq!(
        attempt(&|c, _| c.prize_escrow = token(PRIZE_ESCROW, BONK, CREATOR, 10_000), 1, 0),
        Err(keys(KeysMismatchErrors::InvalidPrizeEscrowOwner))
    );
    assert_eq!(
        attempt(&|c, _| c.prize_escrow = token(PRIZE_ESCROW, USDC, VAULT, 10_000), 1, 0),
        Err(keys(KeysMismatchErrors::InvalidPrizeMint))
    );
    assert_eq!(attempt(&|_, r| r.prize_amount = u64::MAX, 1, 0), Err(state(RaffleStateErrors::Overflow)));
    assert_eq!(
        attempt(&|_, r| r.prize_amount = 1, 1, 0),
        Err(state(RaffleStateErrors::ZeroPrizeForWinner))
    );
    assert_eq!(attempt(&|_, r| r.prize_amount = 2, 1, 0), Ok(1));
    assert_eq!(
        attempt(&|c, _| c.winner_prize_ata = token(61, BONK, ALICE, 0), 1, 0),
        Err(moved(TransferErrors::InvalidAtaAddressMismatch))
    );
    assert_eq!(
        attempt(&|c, _| c.prize_escrow = token(PRIZE_ESCROW, BONK, VAULT, 4_999), 1, 0),
        Err(moved(TransferErrors::InsufficientTokenBalance))
    );
    assert_eq!(
        attempt(&|c, _| c.winner_prize_ata = token(60, USDC, ALICE, 0), 1, 0),
        Err(moved(TransferErrors::TokenTransferFailed))
    );
    let nft = |c: &mut ClaimPrize, r: &mut Raffle| {
        r.prize_type = PrizeType::Nft;
        r.prize_mint = Some(key(NFT));
        r.prize_amount = 1;
        r.num_winners = 1;
        r.win_shares = vec![100];
        r.winners = vec![key(ALICE)];
        r.is_win_claimed = vec![false];
        c.prize_mint = nft_mint();
        c.prize_escrow = token(PRIZE_ESCROW, NFT, VAULT, 1);
        c.winner_prize_ata = token(60, NFT, ALICE, 0);
    };
    assert_eq!(attempt(&nft, 1, 0), Ok(1));
    assert_eq!(
        attempt(
            &|c, r| {
                nft(c, r);
                r.num_winners = 2;
            },
            1,
            0
        ),
        Err(state(RaffleStateErrors::InvalidWinnerIndex))
    );
    let sol = |_: &mut ClaimPrize, r: &mut Raffle| {
        *r = ended(sol_raffle(), vec![key(ALICE), key(BOB), key(CAROL)]);
    };
    assert_eq!(attempt(&sol, 1, 0), Ok(5_000));
    assert_eq!(
        attempt(
            &|c, r| {
                sol(c, r);
                c.raffle_vault = SystemAccount::new(key(VAULT), 4_999);
            },
            1,
            0
        ),
        Err(moved(TransferErrors::InsufficientSolBalance))
    );
    assert_eq!(
        attempt(
            &|c, r| {
                sol(c, r);
                r.prize_amount = 1;
            },
            1,
            0
        ),
        Err(state(RaffleStateErrors::ZeroPrizeForWinner))
    );
}

fn batch_ctx(winner: u8) -> BuyerClaimPrize {
    BuyerClaimPrize {
        raffle_config: config(),
        raffle_vault: SystemAccount::new(key(VAULT), 20_000),
        buyer_account: Buyer { raffle_id: 1, user: key(winner), tickets: 5 },
        raffle_admin: key(ADMIN),
        winner: SystemAccount::new(key(winner), 0),
        prize_mint: mint(BONK),
        prize_escrow: token(PRIZE_ESCROW, BONK, VAULT, 10_000),
        winner_prize_ata: token(60, BONK, winner, 0),
    }
}

#[test]
fn a_winner_of_several_slots_claims_them_in_one_sum() {
    let mut raffle = ended(sol_raffle(), vec![key(ALICE), key(BOB), key(ALICE)]);
    raffle.is_unique_winners = false;
    let mut ctx = batch_ctx(ALICE);
    let events = buyer_claim_prize(&mut ctx, &mut raffle, 1, T + 2_000).unwrap();
    let report = |slot: u8, amount: u64| PrizeClaimed {
        raffle_id: 1,
        winner: key(ALICE),
        winner_index: slot,
        prize_type: PrizeType::Sol,
        prize_amount: amount,
        claimed_time: T + 2_000,
    };
    assert_eq!(events, vec![report(0, 5_000), report(2, 2_000)]);
    assert_eq!(raffle.is_win_claimed, vec![true, false, true]);
    assert_eq!(ctx.winner.lamports(), 7_000);
    assert_eq!(ctx.raffle_vault.lamports(), 13_000);

    assert_eq!(
        buyer_claim_prize(&mut ctx, &mut raffle, 1, T + 2_001),
        Err(state(RaffleStateErrors::PrizeAlreadyClaimed))
    );
    assert_eq!(ctx.winner.lamports(), 7_000);
    assert_eq!(raffle.is_win_claimed, vec![true, false, true]);

    let mut bob = batch_ctx(BOB);
    let events = buyer_claim_prize(&mut bob, &mut raffle, 1, T + 2_002).unwrap();
    assert_eq!(events.len(), 1);
    assert_eq!(events[0].prize_amount, 3_000);
    assert_eq!(events[0].winner_index, 1);
    assert_eq!(raffle.is_win_claimed, vec![true; 3]);
}

#[test]
fn a_slot_claimed_alone_is_left_out_of_the_batch() {
    let mut raffle = ended(token_raffle(), vec![key(ALICE), key(ALICE), key(ALICE)]);
    raffle.is_win_claimed = vec![false, true, false];
    let mut ctx = batch_ctx(ALICE);
    let events = buyer_claim_prize(&mut ctx, &mut raffle, 1, T + 2_000).unwrap();
    assert_eq!(events.iter().map(|e| (e.winner_index, e.prize_amount)).collect::<Vec<_>>(), vec![
        (0, 5_000),
        (2, 2_000)
    ]);
    assert_eq!(ctx.winner_prize_ata.amount(), 7_000);
    assert_eq!(ctx.prize_escrow.amount(), 3_000);
    assert_eq!(raffle.is_win_claimed, vec![true; 3]);
}

#[test]
fn buyer_claim_prize_names_what_is_wrong() {
    let attempt = |change: &dyn Fn(&mut BuyerClaimPrize, &mut Raffle), id: u32| {
        let mut raffle = ended(token_raffle(), vec![key(ALICE), key(BOB), key(ALICE)]);
        let mut ctx = batch_ctx(ALICE);
        change(&mut ctx, &mut raffle);
        let before = (raffle.clone(), ctx.prize_escrow.amount(), ctx.raffle_vault.lamports());
        let result = buyer_claim_prize(&mut ctx, &mut raffle, id, T + 2_000);
        if result.is_err() {
            assert_eq!(before, (raffle.clone(), ctx.prize_escrow.amount(), ctx.raffle_vault.lamports()));
            assert_eq!(ctx.winner_prize_ata.amount(), 0);
        }
        result.map(|events| events.iter().map(|e| e.prize_amount).sum::<u64>())
    };
    let fine = |_: &mut BuyerClaimPrize, _: &mut Raffle| {};
    assert_eq!(attempt(&fine, 1), Ok(7_000));
    assert_eq!(
        attempt(&|c, _| c.raffle_admin = key(9), 1),
        Err(RaffleError::Config(ConfigStateErrors::InvalidRaffleAdmin))
    );
    assert_eq!(attempt(&fine, 2), Err(state(RaffleStateErrors::InvalidRaffleId)));
    assert_eq!(
        attempt(&|c, _| c.buyer_account.raffle_id = 2, 1),
        Err(state(RaffleStateErrors::InvalidRaffleId))
    );
    assert_eq!(
        attempt(&|c, _| c.buyer_account.user = key(BOB), 1),
        Err(keys(KeysMismatchErrors::InvalidBuyerAccountUser))
    );
    assert_eq!(
        attempt(&|c, _| c.raffle_config.pause_flags = 1 << 4, 1),
        Err(state(RaffleStateErrors::FunctionPaused))
    );
    assert_eq!(
        attempt(&|_, r| r.status = RaffleState::Active, 1),
        Err(state(RaffleStateErrors::RaffleNotSuccessEnded))
    );
    assert_eq!(
        attempt(&|_, r| r.winners = vec![key(BOB), key(BOB), key(CAROL)], 1),
        Err(state(RaffleStateErrors::PrizeAlreadyClaimed))
    );
    assert_eq!(
        attempt(&|_, r| r.prize_mint = None, 1),
        Err(keys(KeysMismatchErrors::MissingPrizeMint))
    );
    assert_eq!(
        attempt(&|c, _| c.winner_prize_ata = token(60, USDC, ALICE, 0), 1),
        Err(keys(KeysMismatchErrors::InvalidPrizeMint))
    );
    assert_eq!(
        attempt(&|c, _| c.prize_escrow = token(PRIZE_ESCROW, BONK, BOB, 10_000), 1),
        Err(keys(KeysMismatchErrors::InvalidPrizeEscrowOwner))
    );
    assert_eq!(
        attempt(&|c, _| c.winner_prize_ata = token(60, BONK, BOB, 0), 1),
        Err(keys(KeysMismatchErrors::InvalidPrizeAtaOwner))
    );
    assert_eq!(attempt(&|_, r| r.prize_amount = u64::MAX, 1), Err(state(RaffleStateErrors::Overflow)));
    assert_eq!(attempt(&|_, r| r.prize_amount = 4, 1), Err(state(RaffleStateErrors::ZeroPrizeForWinner)));
    assert_eq!(attempt(&|_, r| r.prize_amount = 5, 1), Ok(3));
    assert_eq!(
        attempt(&|c, _| c.prize_escrow = token(PRIZE_ESCROW, BONK, VAULT, 6_999), 1),
        Err(moved(TransferErrors::InsufficientTokenBalance))
    );
    assert_eq!(
        attempt(
            &|c, r| {
                r.prize_type = PrizeType::Nft;
                r.prize_mint = Some(key(NFT));
                c.prize_mint = nft_mint();
                c.prize_escrow = token(PRIZE_ESCROW, NFT, VAULT, 1);
                c.winner_prize_ata = token(60, NFT, ALICE, 0);
            },
            1
        ),
        Err(state(RaffleStateErrors::InvalidWinnerIndex))
    );
    assert_eq!(
        attempt(
            &|c, r| {
                r.prize_type = PrizeType::Nft;
                r.prize_mint = Some(key(NFT));
                r.winners = vec![key(ALICE)];
                c.prize_mint = nft_mint();
                c.prize_escrow = token(PRIZE_ESCROW, NFT, VAULT, 1);
                c.winner_prize_ata = token(60, NFT, ALICE, 0);
            },
            1
        ),
        Ok(1)
    );
    assert_eq!(
        attempt(
            &|c, r| {
                *r = ended(sol_raffle(), vec![key(ALICE), key(BOB), key(ALICE)]);
                c.raffle_vault = SystemAccount::new(key(VAULT), 6_999);
            },
            1
        ),
        Err(moved(TransferErrors::InsufficientSolBalance))
    );
}

fn cancel_ctx() -> CancelRaffle {
    CancelRaffle {
        raffle_config: config(),
        raffle_vault: SystemAccount::new(key(VAULT), 10_500),
        creator: SystemAccount::new(key(CREATOR), 0),
        raffle_admin: key(ADMIN),
        prize_mint: mint(BONK),
        prize_escrow: token(PRIZE_ESCROW, BONK, VAULT, 10_000),
        creator_prize_ata: token(40, BONK, CREATOR, 0),
    }
}

#[test]
fn a_raffle_without_sales_can_be_called_off() {
    let mut raffle = sol_raffle();
    let mut ctx = cancel_ctx();
    assert_eq!(
        cancel_raffle(&mut ctx, &mut raffle, 1, T + 5),
        Ok(RaffleCancelled { raffle_id: 1, cancelled_by: key(CREATOR), cancelled_time: T + 5 })
    );
    assert_eq!(raffle.status, RaffleState::Cancelled);
    assert_eq!(ctx.creator.lamports(), 10_000);
    assert_eq!(ctx.raffle_vault.lamports(), 500);
    assert_eq!(
        cancel_raffle(&mut ctx, &mut raffle, 1, T + 5),
        Err(state(RaffleStateErrors::InvalidRaffleStateForCancel))
    );

    let mut raffle = token_raffle();
    raffle.status = RaffleState::Initialized;
    let mut ctx = cancel_ctx();
    ctx.prize_escrow = token(PRIZE_ESCROW, BONK, VAULT, 10_003);
    cancel_raffle(&mut ctx, &mut raffle, 1, T).unwrap();
    // Everything in the custody account goes back, and the account is closed.
    assert_eq!(ctx.creator_prize_ata.amount(), 10_003);
    assert_eq!(ctx.prize_escrow.amount(), 0);
    assert!(ctx.prize_escrow.closed);
    assert_eq!(raffle.status, RaffleState::Cancelled);
}

#[test]
fn cancel_raffle_names_what_is_wrong() {
    let attempt = |change: &dyn Fn(&mut CancelRaffle, &mut Raffle), id: u32| {
        let mut raffle = token_raffle();
        let mut ctx = cancel_ctx();
        change(&mut ctx, &mut raffle);
        let before = (raffle.clone(), ctx.prize_escrow.amount(), ctx.raffle_vault.lamports());
        let result = cancel_raffle(&mut ctx, &mut raffle, id, T);
        if result.is_err() {
            assert_eq!(before, (raffle.clone(), ctx.prize_escrow.amount(), ctx.raffle_vault.lamports()));
            assert!(!ctx.prize_escrow.closed);
        }
        result.map(|_| ())
    };
    let fine = |_: &mut CancelRaffle, _: &mut Raffle| {};
    assert_eq!(attempt(&fine, 1), Ok(()));
    assert_eq!(
        attempt(&|c, _| c.raffle_admin = key(9), 1),
        Err(RaffleError::Config(ConfigStateErrors::InvalidRaffleAdmin))
    );
    assert_eq!(attempt(&fine, 4), Err(state(RaffleStateErrors::InvalidRaffleId)));
    assert_eq!(
        attempt(&|c, _| c.creator = SystemAccount::new(key(BOB), 0), 1),
        Err(state(RaffleStateErrors::InvalidCreator))
    );
    assert_eq!(
        attempt(&|c, _| c.raffle_config.pause_flags = 1 << 5, 1),
        Err(state(RaffleStateErrors::FunctionPaused))
    );
    assert_eq!(
        attempt(&|_, r| r.status = RaffleState::FailedEnded, 1),
        Err(state(RaffleStateErrors::InvalidRaffleStateForCancel))
    );
    assert_eq!(
        attempt(&|_, r| r.tickets_sold = 1, 1),
        Err(state(RaffleStateErrors::MoreThanOneTicketSolded))
    );
    assert_eq!(
        attempt(&|_, r| r.prize_mint = None, 1),
        Err(keys(KeysMismatchErrors::MissingPrizeMint))
    );
    assert_eq!(
        attempt(&|c, _| c.prize_mint = mint(USDC), 1),
        Err(keys(KeysMismatchErrors::InvalidPrizeMint))
    );
    assert_eq!(
        attempt(&|c, _| c.prize_escrow = token(PRIZE_ESCROW, BONK, BOB, 10_000), 1),
        Err(keys(KeysMismatchErrors::InvalidPrizeEscrowOwner))
    );
    assert_eq!(
        attempt(&|c, _| c.creator_prize_ata = token(40, BONK, BOB, 0), 1),
        Err(keys(KeysMismatchErrors::InvalidPrizeAtaOwner))
    );
    assert_eq!(
        attempt(
            &|c, r| {
                r.prize_amount = 0;
                c.prize_escrow = token(PRIZE_ESCROW, BONK, VAULT, 0);
            },
            1
        ),
        Err(state(RaffleStateErrors::InvalidZeroAmount))
    );
    assert_eq!(
        attempt(&|c, _| c.prize_escrow = token(PRIZE_ESCROW, BONK, VAULT, 9_999), 1),
        Err(moved(TransferErrors::InsufficientTokenBalance))
    );
    assert_eq!(
        attempt(
            &|c, r| {
                r.prize_type = PrizeType::Nft;
                c.prize_escrow = token(PRIZE_ESCROW, BONK, VAULT, 2);
            },
            1
        ),
        Err(moved(TransferErrors::CloseAccountFailed))
    );
    assert_eq!(
        attempt(
            &|c, r| {
                *r = sol_raffle();
                c.raffle_vault = SystemAccount::new(key(VAULT), 10_000);
            },
            1
        ),
        Err(moved(TransferErrors::InsufficientSolBalance))
    );
}

fn claim_back_ctx() -> ClaimAmountBack {
    ClaimAmountBack {
        raffle_config: config(),
        raffle_vault: SystemAccount::new(key(VAULT), 20_000),
        creator: SystemAccount::new(key(CREATOR), 0),
        raffle_admin: key(ADMIN),
        prize_mint: mint(BONK),
        ticket_mint: mint(USDC),
        prize_escrow: token(PRIZE_ESCROW, BONK, VAULT, 10_000),
        ticket_escrow: token(TICKET_ESCROW, USDC, VAULT, 0),
        creator_prize_ata: token(40, BONK, CREATOR, 0),
        creator_ticket_ata: token(43, USDC, CREATOR, 0),
    }
}

#[test]
fn the_creator_claims_both_sides_once() {
    let mut raffle = ended(sol_raffle(), vec![key(ALICE), key(BOB)]);
    raffle.claimable_prize_back = 2_000;
    raffle.claimable_ticket_amount = 975;
    let mut ctx = claim_back_ctx();
    let event = claim_amount_back(&mut ctx, &mut raffle, 1, T + 3_000);
    assert_eq!(
        event,
        Ok(AmountClaimBack {
            raffle_id: 1,
            claimer: key(CREATOR),
            prize_amount_claimable: 2_000,
            ticket_amount_claimable: 975,
            claimed_time: T + 3_000,
        })
    );
    assert_eq!(raffle.claimable_prize_back, 0);
    assert_eq!(raffle.claimable_ticket_amount, 0);
    assert_eq!(raffle.status, RaffleState::SuccessEnded);
    assert_eq!(ctx.creator.lamports(), 2_975);
    assert_eq!(ctx.raffle_vault.lamports(), 20_000 - 2_975);
    assert_eq!(
        claim_amount_back(&mut ctx, &mut raffle, 1, T + 3_001),
        Err(state(RaffleStateErrors::InvalidZeroAmount))
    );
    assert_eq!(ctx.creator.lamports(), 2_975);
}

#[test]
fn what_is_left_in_the_ticket_escrow_is_swept_to_the_creator() {
    let mut raffle = ended(token_raffle(), vec![key(ALICE), key(BOB), key(CAROL)]);
    raffle.claimable_ticket_amount = 975;
    let mut ctx = claim_back_ctx();
    ctx.ticket_escrow = token(TICKET_ESCROW, USDC, VAULT, 980);
    let event = claim_amount_back(&mut ctx, &mut raffle, 1, T + 3_000).unwrap();
    assert_eq!(event.prize_amount_claimable, 0);
    assert_eq!(event.ticket_amount_claimable, 980);
    assert_eq!(ctx.creator_ticket_ata.amount(), 980);
    assert_eq!(ctx.ticket_escrow.amount(), 0);
    assert!(ctx.ticket_escrow.closed);
    assert_eq!(ctx.prize_escrow.amount(), 10_000);
    assert_eq!(
        claim_amount_back(&mut ctx, &mut raffle, 1, T + 3_001),
        Err(state(RaffleStateErrors::InvalidZeroAmount))
    );
}

#[test]
fn a_failed_raffle_hands_the_whole_prize_back() {
    let mut raffle = token_raffle();
    let mut announce = announce_ctx(0, 0);
    announce_winners(&mut announce, &mut raffle, 1, vec![], T + 1_000).unwrap();
    assert_eq!(raffle.status, RaffleState::FailedEnded);
    let mut ctx = claim_back_ctx();
    let event = claim_amount_back(&mut ctx, &mut raffle, 1, T + 1_001).unwrap();
    assert_eq!(event.prize_amount_claimable, 10_000);
    assert_eq!(event.ticket_amount_claimable, 0);
    assert_eq!(ctx.creator_prize_ata.amount(), 10_000);
    assert_eq!(ctx.prize_escrow.amount(), 0);
    assert_eq!(raffle.claimable_prize_back, 0);
    assert_eq!(raffle.status, RaffleState::FailedEnded);
}

#[test]
fn claim_amount_back_names_what_is_wrong() {
    let attempt = |change: &dyn Fn(&mut ClaimAmountBack, &mut Raffle), id: u32| {
        let mut raffle = ended(token_raffle(), vec![key(ALICE), key(BOB)]);
        raffle.claimable_prize_back = 2_000;
        raffle.claimable_ticket_amount = 975;
        let mut ctx = claim_back_ctx();
        ctx.ticket_escrow = token(TICKET_ESCROW, USDC, VAULT, 975);
        change(&mut ctx, &mut raffle);
        let before = (
            raffle.clone(),
            ctx.prize_escrow.amount(),
            ctx.ticket_escrow.amount(),
            ctx.raffle_vault.lamports(),
            ctx.creator_prize_ata.amount(),
        );
        let result = claim_amount_back(&mut ctx, &mut raffle, id, T + 3_000);
        if result.is_err() {
            assert_eq!(
                before,
                (
                    raffle.clone(),
                    ctx.prize_escrow.amount(),
                    ctx.ticket_escrow.amount(),
                    ctx.raffle_vault.lamports(),
                    ctx.creator_prize_ata.amount(),
                )
            );
        }
        result.map(|_| ())
    };
    let fine = |_: &mut ClaimAmountBack, _: &mut Raffle| {};
    assert_eq!(attempt(&fine, 1), Ok(()));
    assert_eq!(
        attempt(&|c, _| c.raffle_admin = key(9), 1),
        Err(RaffleError::Config(ConfigStateErrors::InvalidRaffleAdmin))
    );
    assert_eq!(attempt(&fine, 5), Err(state(RaffleStateErrors::InvalidRaffleId)));
    assert_eq!(
        attempt(&|c, _| c.creator = SystemAccount::new(key(ALICE), 0), 1),
        Err(state(RaffleStateErrors::InvalidCreator))
    );
    assert_eq!(
        attempt(&|c, _| c.raffle_config.pause_flags = 1 << 6, 1),
        Err(state(RaffleStateErrors::FunctionPaused))
    );
    for status in [RaffleState::Initialized, RaffleState::Active, RaffleState::Cancelled] {
        assert_eq!(attempt(&|_, r| r.status = status, 1), Err(state(RaffleStateErrors::RaffleNotEnded)));
    }
    assert_eq!(
        attempt(
            &|c, r| {
                r.claimable_prize_back = 0;
                r.claimable_ticket_amount = 0;
                c.ticket_escrow = token(TICKET_ESCROW, USDC, VAULT, 0);
            },
            1
        ),
        Err(state(RaffleStateErrors::InvalidZeroAmount))
    );
    assert_eq!(
        attempt(&|_, r| r.prize_mint = None, 1),
        Err(keys(KeysMismatchErrors::MissingPrizeMint))
    );
    assert_eq!(
        attempt(&|c, _| c.creator_prize_ata = token(40, USDC, CREATOR, 0), 1),
        Err(keys(KeysMismatchErrors::InvalidPrizeMint))
    );
    assert_eq!(
        attempt(&|c, _| c.prize_escrow = token(PRIZE_ESCROW, BONK, BOB, 10_000), 1),
        Err(keys(KeysMismatchErrors::InvalidPrizeEscrowOwner))
    );
    assert_eq!(
        attempt(&|c, _| c.creator_prize_ata = token(40, BONK, BOB, 0), 1),
        Err(keys(KeysMismatchErrors::InvalidPrizeAtaOwner))
    );
    assert_eq!(
        attempt(&|c, _| c.prize_escrow = token(PRIZE_ESCROW, BONK, VAULT, 1_999), 1),
        Err(moved(TransferErrors::InsufficientTokenBalance))
    );
    assert_eq!(
        attempt(&|c, _| c.ticket_mint = mint(BONK), 1),
        Err(keys(KeysMismatchErrors::InvalidTicketMint))
    );
    assert_eq!(
        attempt(&|c, _| c.ticket_escrow = token(TICKET_ESCROW, USDC, BOB, 975), 1),
        Err(keys(KeysMismatchErrors::InvalidTicketEscrowOwner))
    );
    assert_eq!(
        attempt(&|c, _| c.creator_ticket_ata = token(43, USDC, BOB, 0), 1),
        Err(keys(KeysMismatchErrors::InvalidTicketAtaOwner))
    );
    assert_eq!(
        attempt(&|c, _| c.ticket_escrow = token(TICKET_ESCROW, USDC, VAULT, 974), 1),
        Err(moved(TransferErrors::InsufficientTokenBalance))
    );
    assert_eq!(
        attempt(
            &|c, r| {
                r.prize_type = PrizeType::Sol;
                c.raffle_vault = SystemAccount::new(key(VAULT), 2_000);
            },
            1
        ),
        Err(moved(TransferErrors::InsufficientSolBalance))
    );
    assert_eq!(
        attempt(
            &|c, r| {
                r.prize_type = PrizeType::Sol;
                r.ticket_mint = None;
                c.raffle_vault = SystemAccount::new(key(VAULT), 2_975);
            },
            1
        ),
        Err(moved(TransferErrors::InsufficientSolBalance))
    );
    assert_eq!(
        attempt(
            &|c, r| {
                r.prize_type = PrizeType::Sol;
                r.ticket_mint = None;
                c.raffle_vault = SystemAccount::new(key(VAULT), 2_976);
            },
            1
        ),
        Ok(())
    );
}

#[test]
fn the_creator_claims_the_prize_back_alone() {
    let mut raffle = ended(sol_raffle(), vec![key(ALICE)]);
    raffle.claimable_prize_back = 5_000;
    let fresh = || CreatorClaimPrizeBack {
        raffle_config: config(),
        raffle_vault: SystemAccount::new(key(VAULT), 5_000),
        creator: SystemAccount::new(key(CREATOR), 1),
        raffle_admin: key(ADMIN),
        prize_mint: mint(BONK),
        prize_escrow: token(PRIZE_ESCROW, BONK, VAULT, 10_000),
        creator_prize_ata: token(40, BONK, CREATOR, 0),
        creator_prize_ata_is_empty: false,
    };
    let mut ctx = fresh();
    assert_eq!(
        creator_claim_prize_back(&mut ctx, &mut raffle, 1),
        Ok(PrizeBackClaimed { raffle_id: 1, creator: key(CREATOR), prize_type: PrizeType::Sol, amount: 5_000 })
    );
    assert_eq!(raffle.claimable_prize_back, 0);
    assert_eq!(ctx.creator.lamports(), 5_001);
    assert_eq!(ctx.raffle_vault.lamports(), 0);
    assert_eq!(
        creator_claim_prize_back(&mut ctx, &mut raffle, 1),
        Err(state(RaffleStateErrors::InvalidZeroAmount))
    );

    let ata = find_associated_token_account(&key(CREATOR), &key(BONK)).unwrap();
    let mut raffle = ended(token_raffle(), vec![key(ALICE)]);
    raffle.claimable_prize_back = 5_000;
    let mut ctx = fresh();
    assert_eq!(
        creator_claim_prize_back(&mut ctx, &mut raffle, 1),
        Err(moved(TransferErrors::InvalidAtaAddressMismatch))
    );
    ctx.creator_prize_ata = TokenAccount::new(ata, key(0), key(0), 0);
    ctx.creator_prize_ata_is_empty = true;
    assert_eq!(creator_claim_prize_back(&mut ctx, &mut raffle, 1).unwrap().amount, 5_000);
    assert_eq!(ctx.creator_prize_ata.amount(), 5_000);
    assert_eq!(ctx.creator_prize_ata.owner, key(CREATOR));
    assert_eq!(ctx.prize_escrow.amount(), 5_000);

    let attempt = |change: &dyn Fn(&mut CreatorClaimPrizeBack, &mut Raffle), id: u32| {
        let mut raffle = ended(token_raffle(), vec![key(ALICE)]);
        raffle.claimable_prize_back = 5_000;
        let mut ctx = fresh();
        change(&mut ctx, &mut raffle);
        let result = creator_claim_prize_back_at(&mut ctx, &mut raffle, id, &Some(key(40)));
        if result.is_err() {
            assert_eq!(ctx.creator_prize_ata.amount(), 0);
            assert_eq!(ctx.creator.lamports(), fresh().creator.lamports());
        }
        result.map(|_| ())
    };
    let fine = |_: &mut CreatorClaimPrizeBack, _: &mut Raffle| {};
    assert_eq!(attempt(&fine, 1), Ok(()));
    assert_eq!(attempt(&fine, 2), Err(state(RaffleStateErrors::InvalidRaffleId)));
    assert_eq!(
        attempt(&|c, _| c.raffle_admin = key(9), 1),
        Err(RaffleError::Config(ConfigStateErrors::InvalidRaffleAdmin))
    );
    assert_eq!(
        attempt(&|c, _| c.creator = SystemAccount::new(key(BOB), 1), 1),
        Err(state(RaffleStateErrors::InvalidCreator))
    );
    assert_eq!(
        attempt(&|_, r| r.status = RaffleState::Active, 1),
        Err(state(RaffleStateErrors::RaffleNotEnded))
    );
    assert_eq!(
        attempt(&|_, r| r.claimable_prize_back = 0, 1),
        Err(state(RaffleStateErrors::InvalidZeroAmount))
    );
    assert_eq!(attempt(&|_, r| r.prize_mint = None, 1), Err(keys(KeysMismatchErrors::MissingPrizeMint)));
    assert_eq!(
        attempt(&|c, _| c.prize_mint = mint(USDC), 1),
        Err(keys(KeysMismatchErrors::InvalidPrizeMint))
    );
    assert_eq!(
        attempt(&|_, r| r.price_escrow = None, 1),
        Err(keys(KeysMismatchErrors::MissingPrizeEscrow))
    );
    assert_eq!(
        attempt(&|_, r| r.price_escrow = Some(key(9)), 1),
        Err(keys(KeysMismatchErrors::InvalidPrizeEscrow))
    );
    assert_eq!(
        attempt(&|c, _| c.prize_escrow = token(PRIZE_ESCROW, BONK, BOB, 10_000), 1),
        Err(keys(KeysMismatchErrors::InvalidPrizeEscrowOwner))
    );
    assert_eq!(
        attempt(&|c, _| c.prize_escrow = token(PRIZE_ESCROW, BONK, VAULT, 4_999), 1),
        Err(moved(TransferErrors::InsufficientTokenBalance))
    );
}
