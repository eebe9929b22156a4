use degendevil::fees::oracle_fee_computable;
use degendevil::{calculate_amount, fee, oracle_fee, Bet};

fn table() -> Bet {
    Bet {
        fee_finality: 12_000_000,
        fee_epoch: 20_000_000,
        fee_cluster: 25_000_000,
        fee_lamport: 30_000_000,
        amount_finality: 700,
        amount_epoch: 1750,
        amount_cluster: 3500,
        amount_lamport: 5250,
    }
}

#[test]
fn fee_pairs_each_size_with_the_opposite_fee() {
    let bet = table();
    assert_eq!(fee(&bet, 5250), 12_000_000);
    assert_eq!(fee(&bet, 3500), 20_000_000);
    assert_eq!(fee(&bet, 1750), 25_000_000);
    assert_eq!(fee(&bet, 700), 30_000_000);
    assert_eq!(fee(&bet, 1), 12_000_000);
}

#[test]
fn fee_first_match_wins() {
    let mut bet = table();
    bet.amount_cluster = 5250;
    assert_eq!(fee(&bet, 5250), 12_000_000);
    let zero = Bet::default();
    assert_eq!(fee(&zero, 0), 0);
}

#[test]
fn calculate_amount_scales_by_decimals() {
    assert_eq!(calculate_amount(0, 7), 7);
    assert_eq!(calculate_amount(2, 5), 500);
    assert_eq!(calculate_amount(9, 3), 3_000_000_000);
    assert_eq!(calculate_amount(19, 1), 10_000_000_000_000_000_000);
    assert_eq!(calculate_amount(19, 2), u64::MAX);
    assert_eq!(calculate_amount(3, u64::MAX / 10), u64::MAX);
    assert_eq!(calculate_amount(5, 0), 0);
}

#[test]
fn oracle_fee_shares() {
    assert_eq!(oracle_fee(133, 1000), 30);
    assert_eq!(oracle_fee(200, 1000), 30);
    assert_eq!(oracle_fee(400, 1000), 40);
    assert_eq!(oracle_fee(1000, 1000), 55);
    assert_eq!(oracle_fee(2000, 1000), 65);
    assert_eq!(oracle_fee(7, 1000), 0);
    assert_eq!(oracle_fee(200, 99), 2);
    assert_eq!(oracle_fee(2000, 10), 0);
}

#[test]
fn oracle_fee_overflow_is_detected() {
    assert!(oracle_fee_computable(133, u64::MAX / 3));
    assert!(!oracle_fee_computable(133, u64::MAX / 3 + 1));
    assert!(!oracle_fee_computable(2000, u64::MAX / 65 + 1));
    assert!(oracle_fee_computable(7, u64::MAX));
}
