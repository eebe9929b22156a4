use vstd::prelude::*;

use crate::state::Bet;

verus! {

/// The fee the house charges for a flip of `amount`, read from its table.
/// The table is searched in the order lamport, cluster, epoch, finality, and
/// each bet size is charged the fee stored at the opposite end: lamport with
/// finality, cluster with epoch, epoch with cluster, finality with lamport.
/// Any other amount is charged the finality fee.
pub open spec fn bet_fee(bet: Bet, amount: u64) -> u64 {
    if amount == bet.amount_lamport {
        bet.fee_finality
    } else if amount == bet.amount_cluster {
        bet.fee_epoch
    } else if amount == bet.amount_epoch {
        bet.fee_cluster
    } else if amount == bet.amount_finality {
        bet.fee_lamport
    } else {
        bet.fee_finality
    }
}

/// The fee the house charges for a flip of `amount`.
pub fn fee(bet: &Bet, amount: u64) -> (charged: u64)
    ensures
        charged == bet_fee(*bet, amount),
{
    match amount {
        amount if amount == bet.amount_lamport => bet.fee_finality,
        amount if amount == bet.amount_cluster => bet.fee_epoch,
        amount if amount == bet.amount_epoch => bet.fee_cluster,
        amount if amount == bet.amount_finality => bet.fee_lamport,
        _ => bet.fee_finality,
    }
}

/// Ten to the `n`.
pub open spec fn pow10(n: nat) -> nat
    decreases n,
{
    if n == 0 {
        1
    } else {
        10 * pow10((n - 1) as nat)
    }
}

/// `a * b`, or `u64::MAX` where the product does not fit.
pub open spec fn saturating_product(a: int, b: int) -> int {
    if a * b > u64::MAX {
        u64::MAX as int
    } else {
        a * b
    }
}

proof fn lemma_pow10_monotone(a: nat, b: nat)
    requires
        a <= b,
    ensures
        pow10(a) <= pow10(b),
    decreases b,
{
    if a < b {
        lemma_pow10_monotone(a, (b - 1) as nat);
    }
}

proof fn lemma_pow10_19()
    ensures
        pow10(19) == 10000000000000000000,
{
    reveal_with_fuel(pow10, 20);
}

/// A whole-token amount in the token's smallest units: `amount` times ten
/// to the mint's decimals, saturating at `u64::MAX`. The power itself
/// overflows a `u64` beyond 19 decimals, which `requires` leaves out.
pub fn calculate_amount(mint_decimals: u8, amount: u64) -> (units: u64)
    requires
        mint_decimals <= 19,
    ensures
        units == saturating_product(amount as int, pow10(mint_decimals as nat) as int),
{
    let mut scale: u64 = 1;
    let mut i: u8 = 0;
    while i < mint_decimals
        invariant
            i <= mint_decimals <= 19,
            scale == pow10(i as nat),
        decreases mint_decimals - i,
    {
        proof {
            lemma_pow10_monotone((i + 1) as nat, 19);
            lemma_pow10_19();
            assert(pow10((i + 1) as nat) == 10 * pow10(i as nat));
        }
        scale = scale * 10;
        i = i + 1;
    }
    match amount.checked_mul(scale) {
        Some(product) => product,
        None => u64::MAX,
    }
}

/// The multiplier's product with the staked lamports that the oracle's
/// share is taken from fits in a `u64`.
pub open spec fn oracle_fee_fits(multiplier: u64, sol_amount: u64) -> bool {
    if multiplier == 133 || multiplier == 200 {
        sol_amount * 3 <= u64::MAX
    } else if multiplier == 400 {
        sol_amount * 4 <= u64::MAX
    } else if multiplier == 1000 {
        sol_amount * 55 <= u64::MAX
    } else if multiplier == 2000 {
        sol_amount * 65 <= u64::MAX
    } else {
        true
    }
}

/// The oracle's share of the staked lamports: 3% at ×1.33 and ×2, 4% at ×4,
/// 5.5% at ×10, 6.5% at ×20, nothing at any other multiplier (rounded down).
pub open spec fn oracle_share(multiplier: u64, sol_amount: u64) -> int {
    if multiplier == 133 || multiplier == 200 {
        sol_amount * 3 / 100
    } else if multiplier == 400 {
        sol_amount * 4 / 100
    } else if multiplier == 1000 {
        sol_amount * 55 / 1000
    } else if multiplier == 2000 {
        sol_amount * 65 / 1000
    } else {
        0
    }
}

/// The oracle's share of the staked lamports.
pub fn oracle_fee(multiplier: u64, sol_amount: u64) -> (share: u64)
    requires
        oracle_fee_fits(multiplier, sol_amount),
    ensures
        share == oracle_share(multiplier, sol_amount),
        share <= sol_amount,
        share <= u64::MAX / 10,
{
    match multiplier {
        133 => sol_amount * 3 / 100,
        200 => sol_amount * 3 / 100,
        400 => sol_amount * 4 / 100,
        1000 => sol_amount * 55 / 1000,
        2000 => sol_amount * 65 / 1000,
        _ => 0,
    }
}

/// Whether the oracle's share of `sol_amount` can be worked out at
/// `multiplier` without overflow.
pub fn oracle_fee_computable(multiplier: u64, sol_amount: u64) -> (fits: bool)
    ensures
        fits == oracle_fee_fits(multiplier, sol_amount),
{
    let factor: u64 = match multiplier {
        133 => 3,
        200 => 3,
        400 => 4,
        1000 => 55,
        2000 => 65,
        _ => 0,
    };
    match sol_amount.checked_mul(factor) {
        Some(_) => true,
        None => false,
    }
}

/// Scaling an amount by a mint's decimals: no decimals leave it as it is;
/// each decimal multiplies it by ten; the result is the exact product where
/// it fits in a `u64` and `u64::MAX` where it does not.
pub proof fn law_scaling_by_decimals(amount: u64, decimals: nat)
    ensures
        pow10(0) == 1,
        pow10(decimals + 1) == 10 * pow10(decimals),
        amount * pow10(decimals) <= u64::MAX ==> saturating_product(
            amount as int,
            pow10(decimals) as int,
        ) == amount * pow10(decimals),
        amount * pow10(decimals) > u64::MAX ==> saturating_product(
            amount as int,
            pow10(decimals) as int,
        ) == u64::MAX,
{
}

/// The oracle's share of the staked lamports, tier by tier, rounded down:
/// 3 in 100 at ×1.33 and ×2, 4 in 100 at ×4, 55 in 1000 at ×10, 65 in 1000
/// at ×20, nothing at any other multiplier; it never exceeds the stake.
pub proof fn law_oracle_share_by_tier(multiplier: u64, sol_amount: u64)
    ensures
        (multiplier == 133 || multiplier == 200) ==> (oracle_share(multiplier, sol_amount) * 100
            <= sol_amount * 3 < oracle_share(multiplier, sol_amount) * 100 + 100),
        multiplier == 400 ==> (oracle_share(multiplier, sol_amount) * 100 <= sol_amount * 4
            < oracle_share(multiplier, sol_amount) * 100 + 100),
        multiplier == 1000 ==> (oracle_share(multiplier, sol_amount) * 1000 <= sol_amount * 55
            < oracle_share(multiplier, sol_amount) * 1000 + 1000),
        multiplier == 2000 ==> (oracle_share(multiplier, sol_amount) * 1000 <= sol_amount * 65
            < oracle_share(multiplier, sol_amount) * 1000 + 1000),
        !(multiplier == 133 || multiplier == 200 || multiplier == 400 || multiplier == 1000
            || multiplier == 2000) ==> oracle_share(multiplier, sol_amount) == 0,
        0 <= oracle_share(multiplier, sol_amount) <= sol_amount,
{
}

} // verus!
