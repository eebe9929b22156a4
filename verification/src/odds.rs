use vstd::prelude::*;

verus! {

/// Whether a random byte's low bit is set: each byte is a fair coin.
pub open spec fn heads(b: u8) -> bool {
    b % 2 == 1
}

/// The multipliers (in hundredths) that the table of odds knows.
pub open spec fn is_listed_multiplier(multiplier: u64) -> bool {
    multiplier == 133 || multiplier == 200 || multiplier == 400 || multiplier == 1000
        || multiplier == 2000
}

/// Whether the first four random bytes win a flip at a listed multiplier:
/// ×1.33 wins unless bytes 1 and 2 are both tails, ×2 wins on byte 0,
/// ×4 wins when bytes 1 and 2 are both tails, ×10 when bytes 1, 2 and 3 are
/// all tails, ×20 when in addition byte 0 is heads.
pub open spec fn flip_wins(multiplier: u64, random: Seq<u8>) -> bool {
    let r50 = heads(random[0]);
    let r75 = heads(random[1]) || heads(random[2]);
    let r90 = heads(random[3]) || r75;
    if multiplier == 133 {
        r75
    } else if multiplier == 200 {
        r50
    } else if multiplier == 400 {
        !r75
    } else if multiplier == 1000 {
        !r90
    } else {
        !r90 && r50
    }
}

/// What `calculate_probability` yields: 1 for a win and 0 for a loss at a
/// listed multiplier; at any other multiplier, the fifth random byte itself.
pub open spec fn flip_outcome(multiplier: u64, random: Seq<u8>) -> u8 {
    if is_listed_multiplier(multiplier) {
        if flip_wins(multiplier, random) {
            1
        } else {
            0
        }
    } else {
        random[4]
    }
}

/// The random bytes that `calculate_probability` reads are there.
pub open spec fn enough_random(multiplier: u64, random: Seq<u8>) -> bool {
    &&& random.len() >= 4
    &&& !is_listed_multiplier(multiplier) ==> random.len() >= 5
}

/// Whether the table of odds knows `multiplier`.
pub fn listed_multiplier(multiplier: u64) -> (listed: bool)
    ensures
        listed == is_listed_multiplier(multiplier),
{
    multiplier == 133 || multiplier == 200 || multiplier == 400 || multiplier == 1000
        || multiplier == 2000
}

/// The low bit of a random byte.
pub fn rand50(rand: u8) -> (bit: u8)
    ensures
        bit == rand % 2,
{
    assert(rand & 1 == rand % 2) by (bit_vector);
    rand & 1
}

proof fn lemma_bit_ops(a: u8, b: u8)
    requires
        a < 2,
        b < 2,
    ensures
        (a | b) == (if a == 1 || b == 1 { 1u8 } else { 0u8 }),
        ((1 - a) as u8 & b) == (if a == 0 && b == 1 { 1u8 } else { 0u8 }),
{
    assert(a < 2 && b < 2 ==> (a | b) == (if a == 1 || b == 1 { 1u8 } else { 0u8 }))
        by (bit_vector);
    assert(a < 2 && b < 2 ==> ((1 - a) as u8 & b) == (if a == 0 && b == 1 { 1u8 } else { 0u8 }))
        by (bit_vector);
}

/// Decides a flip from the oracle's random bytes: 1 is a win.
pub fn calculate_probability(multiplier: u64, random: &[u8]) -> (outcome: u8)
    requires
        enough_random(multiplier, random@),
    ensures
        outcome == flip_outcome(multiplier, random@),
        is_listed_multiplier(multiplier) ==> outcome <= 1,
        multiplier == 200 ==> outcome == random@[0] % 2,
        multiplier == 133 ==> (outcome == 1 <==> random@[1] % 2 == 1 || random@[2] % 2 == 1),
        multiplier == 400 ==> (outcome == 1 <==> random@[1] % 2 == 0 && random@[2] % 2 == 0),
        multiplier == 1000 ==> (outcome == 1 <==> random@[1] % 2 == 0 && random@[2] % 2 == 0
            && random@[3] % 2 == 0),
        multiplier == 2000 ==> (outcome == 1 <==> random@[0] % 2 == 1 && random@[1] % 2 == 0
            && random@[2] % 2 == 0 && random@[3] % 2 == 0),
        !is_listed_multiplier(multiplier) ==> outcome == random@[4],
{
    let r50 = rand50(random[0]);
    let b1 = rand50(random[1]);
    let b2 = rand50(random[2]);
    let b3 = rand50(random[3]);
    proof {
        lemma_bit_ops(b1, b2);
    }
    let r75 = b1 | b2;
    proof {
        lemma_bit_ops(b3, r75);
    }
    let r90 = b3 | r75;
    proof {
        lemma_bit_ops(r90, r50);
    }
    let r5 = (1 - r90) & r50;
    match multiplier {
        133 => r75,
        200 => r50,
        400 => 1 - r75,
        1000 => 1 - r90,
        2000 => r5,
        _ => random[4],
    }
}

/// The first four random bytes whose low bits spell `pattern` (bit i of
/// `pattern` is the low bit of byte i).
pub open spec fn pattern_bytes(pattern: int) -> Seq<u8> {
    seq![
        (pattern % 2) as u8,
        ((pattern / 2) % 2) as u8,
        ((pattern / 4) % 2) as u8,
        ((pattern / 8) % 2) as u8,
    ]
}

/// How many of the patterns `0 .. n` win at `multiplier`.
pub open spec fn winning_patterns(multiplier: u64, n: nat) -> nat
    decreases n,
{
    if n == 0 {
        0
    } else {
        winning_patterns(multiplier, (n - 1) as nat) + if flip_wins(
            multiplier,
            pattern_bytes(n - 1),
        ) {
            1nat
        } else {
            0nat
        }
    }
}

/// The odds: of the sixteen ways the low bits of the first four random bytes
/// can fall, a flip wins in 12 at ×1.33, 8 at ×2, 4 at ×4, 2 at ×10 and 1 at
/// ×20.
pub proof fn law_win_odds()
    ensures
        winning_patterns(133, 16) == 12,
        winning_patterns(200, 16) == 8,
        winning_patterns(400, 16) == 4,
        winning_patterns(1000, 16) == 2,
        winning_patterns(2000, 16) == 1,
{
    reveal_with_fuel(winning_patterns, 17);
}

/// Only the low bit of each of the first four random bytes decides a flip
/// at a listed multiplier.
pub proof fn law_only_low_bits_decide(multiplier: u64, a: Seq<u8>, b: Seq<u8>)
    requires
        is_listed_multiplier(multiplier),
        a.len() >= 4,
        b.len() >= 4,
        forall|i: int| 0 <= i < 4 ==> a[i] % 2 == b[i] % 2,
    ensures
        flip_outcome(multiplier, a) == flip_outcome(multiplier, b),
{
    assert(a[0] % 2 == b[0] % 2);
    assert(a[1] % 2 == b[1] % 2);
    assert(a[2] % 2 == b[2] % 2);
    assert(a[3] % 2 == b[3] % 2);
}

/// Every random input decides a flip at a listed multiplier as the pattern
/// of its low bits does.
pub proof fn law_pattern_decides(multiplier: u64, random: Seq<u8>)
    requires
        is_listed_multiplier(multiplier),
        random.len() >= 4,
    ensures
        flip_outcome(multiplier, random) == flip_outcome(
            multiplier,
            pattern_bytes(
                (random[0] % 2) + 2 * (random[1] % 2) + 4 * (random[2] % 2) + 8 * (random[3] % 2),
            ),
        ),
{
    let p = (random[0] % 2) + 2 * (random[1] % 2) + 4 * (random[2] % 2) + 8 * (random[3] % 2);
    let q = pattern_bytes(p);
    assert(q[0] % 2 == random[0] % 2);
    assert(q[1] % 2 == random[1] % 2);
    assert(q[2] % 2 == random[2] % 2);
    assert(q[3] % 2 == random[3] % 2);
    law_only_low_bits_decide(multiplier, random, q);
}

/// On the same random bytes: ×4 wins exactly when ×1.33 loses; ×10 wins only
/// where ×4 wins; ×20 wins exactly where both ×10 and ×2 win.
pub proof fn law_nested_outcomes(random: Seq<u8>)
    requires
        random.len() >= 4,
    ensures
        flip_wins(400, random) == !flip_wins(133, random),
        flip_wins(1000, random) ==> flip_wins(400, random),
        flip_wins(2000, random) == (flip_wins(1000, random) && flip_wins(200, random)),
{
}

/// The table of odds, tier by tier, on any random bytes: ×2 yields the low
/// bit of byte 0 whatever the other bytes hold; ×1.33 wins when byte 1 or
/// byte 2 is odd; ×4 when both are even; ×10 when bytes 1, 2 and 3 are all
/// even; ×20 when in addition byte 0 is odd; any other multiplier yields
/// byte 4 itself.
pub proof fn law_odds_by_tier(random: Seq<u8>, multiplier: u64)
    requires
        enough_random(multiplier, random),
    ensures
        flip_outcome(200, random) == random[0] % 2,
        flip_outcome(133, random) == 1 <==> (random[1] % 2 == 1 || random[2] % 2 == 1),
        flip_outcome(133, random) == 0 <==> (random[1] % 2 == 0 && random[2] % 2 == 0),
        flip_outcome(400, random) == 1 <==> (random[1] % 2 == 0 && random[2] % 2 == 0),
        flip_outcome(400, random) == 0 <==> (random[1] % 2 == 1 || random[2] % 2 == 1),
        flip_outcome(1000, random) == 1 <==> (random[1] % 2 == 0 && random[2] % 2 == 0
            && random[3] % 2 == 0),
        flip_outcome(1000, random) <= 1,
        flip_outcome(2000, random) == 1 <==> (random[0] % 2 == 1 && random[1] % 2 == 0
            && random[2] % 2 == 0 && random[3] % 2 == 0),
        flip_outcome(2000, random) <= 1,
        !is_listed_multiplier(multiplier) ==> flip_outcome(multiplier, random) == random[4],
{
}

} // verus!
