use prize_sales::math::split_revenue;
use prize_sales::pubkey::Pubkey;
use prize_sales::raffle::errors::{RaffleError, RaffleStateErrors};
use prize_sales::raffle::utils::{
    calculate_max_tickets,
    get_pct_amount,
    has_duplicate_pubkeys,
    is_paused,
    validate_win_shares,
};

fn key(n: u8) -> Pubkey {
    Pubkey::new_from_array([n; 32])
}

#[test]
fn fee_of_one_thousand_at_two_and_a_half_percent() {
    assert_eq!(get_pct_amount(1000, 250, 10000), Ok(25));
    let fee = get_pct_amount(1000, 250, 10000).unwrap();
    let creator_share = 1000 - fee;
    assert_eq!(creator_share, 975);
    assert_eq!(fee + creator_share, 1000);
}

#[test]
fn pct_amount_rounds_down_and_never_up() {
    assert_eq!(get_pct_amount(999, 250, 10000), Ok(24));
    assert_eq!(get_pct_amount(39, 250, 10000), Ok(0));
    assert_eq!(get_pct_amount(40, 250, 10000), Ok(1));
    assert_eq!(get_pct_amount(10, 33, 100), Ok(3));
    assert_eq!(get_pct_amount(0, 50, 100), Ok(0));
    assert_eq!(get_pct_amount(7, 0, 100), Ok(0));
    assert_eq!(get_pct_amount(7, 100, 100), Ok(7));
}

#[test]
fn pct_amount_overflow_is_an_error() {
    let overflow = Err(RaffleError::State(RaffleStateErrors::Overflow));
    assert_eq!(get_pct_amount(u64::MAX, 2, 100), overflow);
    assert_eq!(get_pct_amount(u64::MAX / 2 + 1, 2, 100), overflow);
    assert_eq!(get_pct_amount(u64::MAX, 1, 100), Ok(u64::MAX / 100));
    assert_eq!(get_pct_amount(5, 5, 0), overflow);
}

#[test]
fn fee_and_rest_always_make_the_revenue() {
    for revenue in [0u64, 1, 39, 40, 999, 1000, 123_456_789, u64::MAX / 10_000] {
        for bps in [0u64, 1, 250, 9_999, 10_000] {
            let fee = get_pct_amount(revenue, bps, 10_000).unwrap();
            assert!(fee <= revenue);
            assert_eq!(fee + (revenue - fee), revenue);
        }
    }
}

#[test]
fn wallet_cap_of_forty_percent_of_a_hundred() {
    assert_eq!(calculate_max_tickets(100, 40), Ok(40));
}

#[test]
fn wallet_cap_rounds_up_and_is_at_least_one() {
    assert_eq!(calculate_max_tickets(3, 40), Ok(2));
    assert_eq!(calculate_max_tickets(10, 1), Ok(1));
    assert_eq!(calculate_max_tickets(0, 40), Ok(1));
    assert_eq!(calculate_max_tickets(10, 0), Ok(1));
    assert_eq!(calculate_max_tickets(101, 40), Ok(41));
    assert_eq!(calculate_max_tickets(10_000, 40), Ok(4_000));
    assert_eq!(calculate_max_tickets(65_535, 100), Ok(65_535));
}

#[test]
fn wallet_cap_beyond_a_ticket_count_is_overflow() {
    assert_eq!(
        calculate_max_tickets(65_535, 101),
        Err(RaffleError::State(RaffleStateErrors::Overflow))
    );
    assert_eq!(
        calculate_max_tickets(65_535, 255),
        Err(RaffleError::State(RaffleStateErrors::Overflow))
    );
}

#[test]
fn share_schedule_examples() {
    assert!(validate_win_shares(&[50, 30, 20]));
    assert!(!validate_win_shares(&[30, 50, 20]));
    assert!(!validate_win_shares(&[50, 30, 21]));
}

#[test]
fn share_schedule_edges() {
    assert!(validate_win_shares(&[100]));
    assert!(!validate_win_shares(&[]));
    assert!(!validate_win_shares(&[99]));
    assert!(!validate_win_shares(&[101]));
    assert!(!validate_win_shares(&[100, 0]));
    assert!(!validate_win_shares(&[0, 100]));
    assert!(validate_win_shares(&[50, 50]));
    assert!(validate_win_shares(&[10; 10]));
    assert!(!validate_win_shares(&[50, 30, 19]));
    assert!(!validate_win_shares(&[200, 156]));
    assert!(validate_win_shares(&[5; 20]));
    assert!(validate_win_shares(&[1; 100]));
    assert!(!validate_win_shares(&[1; 101]));
    assert!(!validate_win_shares(&[255; 300]));
}

#[test]
fn duplicates_are_found_wherever_they_stand() {
    assert!(!has_duplicate_pubkeys(&[]));
    assert!(!has_duplicate_pubkeys(&[key(1)]));
    assert!(!has_duplicate_pubkeys(&[key(1), key(2), key(3)]));
    assert!(has_duplicate_pubkeys(&[key(1), key(1)]));
    assert!(has_duplicate_pubkeys(&[key(1), key(2), key(1)]));
    assert!(has_duplicate_pubkeys(&[key(1), key(2), key(3), key(3)]));
    assert!(has_duplicate_pubkeys(&[key(0), key(2), key(3), key(2), key(5)]));
}

#[test]
fn pause_flags_are_read_bit_by_bit() {
    assert!(!is_paused(0, 0));
    assert!(is_paused(1, 0));
    assert!(!is_paused(1, 1));
    assert!(is_paused(0b1000_0000, 7));
    assert!(!is_paused(0b0111_1111, 7));
    assert!(is_paused(0b0010_0100, 2));
    assert!(is_paused(0b0010_0100, 5));
    assert!(!is_paused(0b0010_0100, 3));
    for index in 0..8u8 {
        assert!(is_paused(0xff, index));
        assert!(!is_paused(0, index));
    }
}

#[test]
fn pubkey_equality_and_default() {
    assert_eq!(key(7), key(7));
    assert_ne!(key(7), key(8));
    assert!(key(7).same(&key(7)));
    assert!(!key(7).same(&key(8)));
    assert!(Pubkey::default().is_default());
    assert!(key(0).is_default());
    assert!(!key(1).is_default());
    assert_eq!(key(9).to_bytes(), [9u8; 32]);
    let mut bytes = [0u8; 32];
    bytes[31] = 1;
    assert!(!Pubkey::new_from_array(bytes).is_default());
    assert!(!Pubkey::new_from_array(bytes).same(&Pubkey::default()));
}

#[test]
fn a_revenue_is_split_without_loss() {
    assert_eq!(split_revenue(1000, 250), Some((25, 975)));
    assert_eq!(split_revenue(999, 250), Some((24, 975)));
    assert_eq!(split_revenue(0, 250), Some((0, 0)));
    assert_eq!(split_revenue(56, 333), Some((1, 55)));
    assert_eq!(split_revenue(1000, 0), Some((0, 1000)));
    assert_eq!(split_revenue(1000, 10_000), Some((1000, 0)));
    assert_eq!(split_revenue(1000, 10_009), Some((1000, 0)));
    assert_eq!(split_revenue(1000, 10_010), None);
    assert_eq!(split_revenue(u64::MAX, 2), None);
    assert_eq!(split_revenue(u64::MAX, 1), Some((u64::MAX / 10_000, u64::MAX - u64::MAX / 10_000)));
    for revenue in [1u64, 39, 40, 41, 12_345, 1 << 40] {
        for bps in [1u16, 250, 333, 9_999, 10_000] {
            let (fee, rest) = split_revenue(revenue, bps).unwrap();
            assert_eq!(fee + rest, revenue);
            assert_eq!(fee as u128, revenue as u128 * bps as u128 / 10_000);
        }
    }
}
