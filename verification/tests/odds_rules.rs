use degendevil::odds::listed_multiplier;
use degendevil::{calculate_probability, rand50};

fn pattern(p: u8) -> [u8; 5] {
    [p & 1, (p >> 1) & 1, (p >> 2) & 1, (p >> 3) & 1, 0]
}

#[test]
fn rand50_is_the_low_bit() {
    assert_eq!(rand50(0), 0);
    assert_eq!(rand50(1), 1);
    assert_eq!(rand50(2), 0);
    assert_eq!(rand50(255), 1);
    assert_eq!(rand50(254), 0);
}

#[test]
fn odds_over_all_patterns() {
    let expected = [(133u64, 12u32), (200, 8), (400, 4), (1000, 2), (2000, 1)];
    for (multiplier, wins) in expected {
        let count: u32 = (0u8..16)
            .map(|p| calculate_probability(multiplier, &pattern(p)) as u32)
            .sum();
        assert_eq!(count, wins, "multiplier {}", multiplier);
    }
}

#[test]
fn forced_win_bytes() {
    let random = [1u8; 64];
    assert_eq!(calculate_probability(133, &random), 1);
    assert_eq!(calculate_probability(200, &random), 1);
    assert_eq!(calculate_probability(400, &random), 0);
    assert_eq!(calculate_probability(1000, &random), 0);
    assert_eq!(calculate_probability(2000, &random), 0);
}

#[test]
fn all_tails_bytes() {
    let random = [0u8; 5];
    assert_eq!(calculate_probability(133, &random), 0);
    assert_eq!(calculate_probability(200, &random), 0);
    assert_eq!(calculate_probability(400, &random), 1);
    assert_eq!(calculate_probability(1000, &random), 1);
    assert_eq!(calculate_probability(2000, &random), 0);
    let heads_first = [1u8, 0, 0, 0];
    assert_eq!(calculate_probability(2000, &heads_first), 1);
    assert_eq!(calculate_probability(1000, &heads_first), 1);
}

#[test]
fn only_low_bits_decide() {
    for p in 0u8..16 {
        let low = pattern(p);
        let high: Vec<u8> = low.iter().map(|b| b | 0b1010_1110).collect();
        for multiplier in [133u64, 200, 400, 1000, 2000] {
            assert_eq!(
                calculate_probability(multiplier, &low),
                calculate_probability(multiplier, &high)
            );
        }
    }
}

#[test]
fn unlisted_multiplier_returns_fifth_byte() {
    let random = [1u8, 1, 1, 1, 77, 9];
    assert_eq!(calculate_probability(150, &random), 77);
    assert_eq!(calculate_probability(0, &random), 77);
    assert!(listed_multiplier(2000));
    assert!(!listed_multiplier(150));
}

#[test]
fn nested_outcomes() {
    for p in 0u8..16 {
        let r = pattern(p);
        let w = |m: u64| calculate_probability(m, &r) == 1;
        assert_eq!(w(400), !w(133));
        assert!(!w(1000) || w(400));
        assert_eq!(w(2000), w(1000) && w(200));
    }
}
