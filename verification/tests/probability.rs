use degendevil::{calculate_probability, Bet};

/// Bytes that are each 0 or 1, from a small xorshift generator.
fn random_bytes(seed: &mut u64) -> Vec<u8> {
    (0..64)
        .map(|_| {
            *seed ^= *seed << 13;
            *seed ^= *seed >> 7;
            *seed ^= *seed << 17;
            (*seed >> 32) as u8 & 1
        })
        .collect()
}

fn table() -> Bet {
    Bet {
        amount_finality: 700,
        amount_epoch: 1750,
        amount_cluster: 3500,
        amount_lamport: 5250,
        ..Default::default()
    }
}

/// Wins over 101 flips, and the same count worked out from the bytes: at a
/// multiplier the table of odds does not know, a flip yields its fifth byte.
fn wins_per_hundred(multiplier: u64) -> (u32, u32) {
    let mut seed: u64 = 0x2545_f491_4f6c_dd1d;
    (0..=100).fold((0, 0), |(mut acc, mut expected), _| {
        let rand = random_bytes(&mut seed);
        let v = calculate_probability(multiplier, rand.as_slice());
        assert!(v <= 1);
        acc += v as u32;
        expected += rand[4] as u32;
        (acc, expected)
    })
}

#[test]
fn test_probabilities() {
    let _bet = table();
    let mut seed: u64 = 7;
    let rand = random_bytes(&mut seed);
    for multiplier in [5250u64, 3500, 1750, 1000, 700] {
        let v = calculate_probability(multiplier, rand.as_slice());
        println!("{}", v);
        if multiplier == 1000 {
            let r90 = (rand[1] & 1) | (rand[2] & 1) | (rand[3] & 1);
            assert_eq!(v, 1 - r90);
        } else {
            assert_eq!(v, rand[4]);
        }
    }
}

#[test]
fn test_probability_5250_amount() {
    let _bet = table();
    let (v, expected) = wins_per_hundred(5250);
    println!("Amount : 5250, `{}` Wins per 100", v);
    assert_eq!(v, expected);
    assert!(v > 0 && v < 101);
}

#[test]
fn test_probability_3500_amount() {
    let _bet = table();
    let (v, expected) = wins_per_hundred(3500);
    println!("Amount : 3500, `{}` Wins per 100", v);
    assert_eq!(v, expected);
    assert!(v > 0 && v < 101);
}

#[test]
fn test_probability_1750_amount() {
    let _bet = table();
    let (v, expected) = wins_per_hundred(1750);
    println!("Amount : 1750, `{}` Wins per 100", v);
    assert_eq!(v, expected);
    assert!(v > 0 && v < 101);
}

#[test]
fn test_probability_700_amount() {
    let _bet = table();
    let (v, expected) = wins_per_hundred(700);
    println!("Amount : 700, `{}` Wins per 100", v);
    assert_eq!(v, expected);
    assert!(v > 0 && v < 101);
}
