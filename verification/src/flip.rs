use vstd::prelude::*;
use vstd::string::StringSliceAdditionalSpecFns;

use crate::address::program_address;
use crate::error::DegenErrorCode;
use crate::fees::{bet_fee, fee, oracle_fee, oracle_fee_computable, oracle_fee_fits, oracle_share};
use crate::key::Pubkey;
use crate::odds::{calculate_probability, enough_random, flip_outcome, listed_multiplier};
use crate::program::{
    admin_account_pubkey, admin_bet_pda, admin_bet_seeds, check_account_equals, house_key_bytes,
    program_id_bytes, ADMIN_BET_PREFIX, ORACLE_FEE, SOL_VAULT,
};
use crate::state::{Bet, CoinInfo, Vault};

verus! {

// ----- who may act -----

/// What the house's check gives for a signer: `Ok` for the house,
/// `Unauthorized` for anyone else.
pub open spec fn admin_check(signer: Seq<u8>) -> Result<(), DegenErrorCode> {
    if signer == house_key_bytes() {
        Ok(())
    } else {
        Err(DegenErrorCode::Unauthorized)
    }
}

/// `Ok` exactly when `signer` is `admin`; `Unauthorized` otherwise.
pub fn check_admin(signer: &Pubkey, admin: &Pubkey) -> (checked: Result<(), DegenErrorCode>)
    ensures
        checked == (if signer@ == admin@ {
            Ok(())
        } else {
            Err(DegenErrorCode::Unauthorized)
        }),
{
    if !signer.key_eq(admin) {
        return Err(DegenErrorCode::Unauthorized);
    }
    Ok(())
}

/// The house's check of a signer.
pub fn authorize_admin(signer: &Pubkey) -> (checked: Result<(), DegenErrorCode>)
    ensures
        checked == admin_check(signer@),
{
    match admin_account_pubkey() {
        Ok(admin) => check_admin(signer, &admin),
        Err(e) => Err(e),
    }
}

// ----- the house's table -----

/// The table with its four fees replaced.
pub open spec fn with_fees(
    bet: Bet,
    fee_finality: u64,
    fee_epoch: u64,
    fee_cluster: u64,
    fee_lamport: u64,
) -> Bet {
    Bet {
        fee_finality,
        fee_epoch,
        fee_cluster,
        fee_lamport,
        amount_finality: bet.amount_finality,
        amount_epoch: bet.amount_epoch,
        amount_cluster: bet.amount_cluster,
        amount_lamport: bet.amount_lamport,
    }
}

/// The table with its four bet sizes replaced.
pub open spec fn with_amounts(
    bet: Bet,
    amount_finality: u64,
    amount_epoch: u64,
    amount_cluster: u64,
    amount_lamport: u64,
) -> Bet {
    Bet {
        fee_finality: bet.fee_finality,
        fee_epoch: bet.fee_epoch,
        fee_cluster: bet.fee_cluster,
        fee_lamport: bet.fee_lamport,
        amount_finality,
        amount_epoch,
        amount_cluster,
        amount_lamport,
    }
}

/// The house sets up its whole table. Anyone else is refused and the table
/// stays as it was.
pub fn admin_bet(
    bet: &mut Bet,
    authority: &Pubkey,
    fee_finality: u64,
    fee_epoch: u64,
    fee_cluster: u64,
    fee_lamport: u64,
    amount_finality: u64,
    amount_epoch: u64,
    amount_cluster: u64,
    amount_lamport: u64,
) -> (done: Result<(), DegenErrorCode>)
    ensures
        done == admin_check(authority@),
        done is Ok ==> *final(bet) == with_amounts(
            with_fees(*old(bet), fee_finality, fee_epoch, fee_cluster, fee_lamport),
            amount_finality,
            amount_epoch,
            amount_cluster,
            amount_lamport,
        ),
        done is Ok ==> final(bet).fee_finality == fee_finality && final(bet).fee_epoch == fee_epoch
            && final(bet).fee_cluster == fee_cluster && final(bet).fee_lamport == fee_lamport,
        done is Ok ==> final(bet).amount_finality == amount_finality && final(bet).amount_epoch
            == amount_epoch && final(bet).amount_cluster == amount_cluster
            && final(bet).amount_lamport == amount_lamport,
        done is Err ==> *final(bet) == *old(bet),
{
    if let Err(e) = authorize_admin(authority) {
        return Err(e);
    }
    bet.fee_cluster = fee_cluster;
    bet.fee_epoch = fee_epoch;
    bet.fee_finality = fee_finality;
    bet.fee_lamport = fee_lamport;
    bet.amount_cluster = amount_cluster;
    bet.amount_epoch = amount_epoch;
    bet.amount_finality = amount_finality;
    bet.amount_lamport = amount_lamport;
    Ok(())
}

/// The house changes its four fees; the bet sizes stay.
pub fn update_admin_fee(
    bet: &mut Bet,
    authority: &Pubkey,
    fee_finality: u64,
    fee_epoch: u64,
    fee_cluster: u64,
    fee_lamport: u64,
) -> (done: Result<(), DegenErrorCode>)
    ensures
        done == admin_check(authority@),
        done is Ok ==> *final(bet) == with_fees(
            *old(bet),
            fee_finality,
            fee_epoch,
            fee_cluster,
            fee_lamport,
        ),
        done is Ok ==> final(bet).fee_finality == fee_finality && final(bet).fee_epoch == fee_epoch
            && final(bet).fee_cluster == fee_cluster && final(bet).fee_lamport == fee_lamport,
        done is Ok ==> final(bet).amount_finality == old(bet).amount_finality
            && final(bet).amount_epoch == old(bet).amount_epoch && final(bet).amount_cluster
            == old(bet).amount_cluster && final(bet).amount_lamport == old(bet).amount_lamport,
        done is Err ==> *final(bet) == *old(bet),
{
    if let Err(e) = authorize_admin(authority) {
        return Err(e);
    }
    bet.fee_cluster = fee_cluster;
    bet.fee_epoch = fee_epoch;
    bet.fee_finality = fee_finality;
    bet.fee_lamport = fee_lamport;
    Ok(())
}

/// The house changes its four bet sizes; the fees stay.
pub fn update_bet_amount(
    bet: &mut Bet,
    authority: &Pubkey,
    amount_finality: u64,
    amount_epoch: u64,
    amount_cluster: u64,
    amount_lamport: u64,
) -> (done: Result<(), DegenErrorCode>)
    ensures
        done == admin_check(authority@),
        done is Ok ==> *final(bet) == with_amounts(
            *old(bet),
            amount_finality,
            amount_epoch,
            amount_cluster,
            amount_lamport,
        ),
        done is Ok ==> final(bet).amount_finality == amount_finality && final(bet).amount_epoch
            == amount_epoch && final(bet).amount_cluster == amount_cluster
            && final(bet).amount_lamport == amount_lamport,
        done is Ok ==> final(bet).fee_finality == old(bet).fee_finality && final(bet).fee_epoch
            == old(bet).fee_epoch && final(bet).fee_cluster == old(bet).fee_cluster
            && final(bet).fee_lamport == old(bet).fee_lamport,
        done is Err ==> *final(bet) == *old(bet),
{
    if let Err(e) = authorize_admin(authority) {
        return Err(e);
    }
    bet.amount_cluster = amount_cluster;
    bet.amount_epoch = amount_epoch;
    bet.amount_finality = amount_finality;
    bet.amount_lamport = amount_lamport;
    Ok(())
}

/// The house's check before it lets the bet account spend from its token
/// account.
pub fn update_admin_ata(authority: &Pubkey) -> (done: Result<(), DegenErrorCode>)
    ensures
        done == admin_check(authority@),
{
    authorize_admin(authority)
}

// ----- making a flip -----

/// What a flip puts at stake: tokens, moved from the flipper's token
/// account to the house's, or lamports, moved to the program's lamport vault.
#[derive(Clone, Copy, Debug, PartialEq, Eq, Structural)]
pub enum Stake {
    Tokens(u64),
    Lamports(u64),
}

/// A flip with no lamports stakes `amount` tokens, which the flipper must
/// hold; otherwise it stakes its lamports.
pub open spec fn stake_of(
    initiator_token_balance: u64,
    amount: u64,
    sol_amount: u64,
) -> Result<Stake, DegenErrorCode> {
    if sol_amount == 0 {
        if initiator_token_balance < amount {
            Err(DegenErrorCode::NotEnoughTokens)
        } else {
            Ok(Stake::Tokens(amount))
        }
    } else {
        Ok(Stake::Lamports(sol_amount))
    }
}

/// What a flip stakes, or `NotEnoughTokens`.
pub fn stake_for(initiator_token_balance: u64, amount: u64, sol_amount: u64) -> (stake: Result<
    Stake,
    DegenErrorCode,
>)
    ensures
        stake == stake_of(initiator_token_balance, amount, sol_amount),
{
    if sol_amount == 0 {
        if initiator_token_balance < amount {
            return Err(DegenErrorCode::NotEnoughTokens);
        }
        Ok(Stake::Tokens(amount))
    } else {
        Ok(Stake::Lamports(sol_amount))
    }
}

/// One step of making a flip, carried out in order.
#[derive(Clone, Copy, Debug, PartialEq, Eq, Structural)]
pub enum CreationStep {
    /// The flipper's token account pays this many tokens to the house's,
    /// signed by the flipper.
    TransferTokens(u64),
    /// The flipper pays this many lamports into the program's lamport vault.
    TransferLamports(u64),
    /// The flip's vault stores the record of the flip.
    RecordFlip,
    /// The flipper pays this many lamports to the oracle's vault.
    PayOracle(u64),
    /// The flipper pays this many lamports to the house.
    PayHouse(u64),
    /// The oracle program is asked for random bytes, with the flipper's
    /// request account, the oracle's vault, the flipper as authority, and
    /// the oracle.
    RequestRandom,
}

/// The steps that make a flip.
#[derive(Clone, Debug, PartialEq)]
pub struct CreateCoinPlan {
    pub steps: Vec<CreationStep>,
}

/// The step that moves a stake.
pub open spec fn stake_step(stake: Stake) -> CreationStep {
    match stake {
        Stake::Tokens(amount) => CreationStep::TransferTokens(amount),
        Stake::Lamports(lamports) => CreationStep::TransferLamports(lamports),
    }
}

/// The checks of a new flip, in order: the house's signature, then the stake.
pub open spec fn create_coin_checks(
    admin: Seq<u8>,
    initiator_token_balance: u64,
    amount: u64,
    sol_amount: u64,
) -> Result<Stake, DegenErrorCode> {
    match admin_check(admin) {
        Err(e) => Err(e),
        Ok(_) => stake_of(initiator_token_balance, amount, sol_amount),
    }
}

/// The record of a flip as its vault keeps it.
pub open spec fn recorded_coin(
    initiator: Pubkey,
    amount: u64,
    sol_amount: u64,
    multiplier: u64,
) -> CoinInfo {
    CoinInfo { initiator, amount, sol_amount, multiplier }
}

/// The steps of a flip whose checks passed, in order: the stake, the
/// record, the oracle's payment (fixed fee plus its share of the staked
/// lamports), the house's fee, and last the request for random bytes.
pub open spec fn creation_steps(
    stake: Stake,
    bet: Bet,
    multiplier: u64,
    amount: u64,
    sol_amount: u64,
) -> Seq<CreationStep> {
    seq![
        stake_step(stake),
        CreationStep::RecordFlip,
        CreationStep::PayOracle((ORACLE_FEE + oracle_share(multiplier, sol_amount)) as u64),
        CreationStep::PayHouse(bet_fee(bet, amount)),
        CreationStep::RequestRandom,
    ]
}

/// Makes a flip: the house co-signs (`admin`), the flipper `initiator`
/// stakes tokens or lamports, the vault records the flip, and the oracle
/// and the house are paid. Refused flips leave the vault as it was.
pub fn create_coin(
    vault: &mut Vault,
    bet: &Bet,
    admin: &Pubkey,
    initiator: &Pubkey,
    initiator_token_balance: u64,
    multiplier: u64,
    amount: u64,
    sol_amount: u64,
) -> (plan: Result<CreateCoinPlan, DegenErrorCode>)
    requires
        create_coin_checks(admin@, initiator_token_balance, amount, sol_amount) is Ok
            ==> oracle_fee_fits(multiplier, sol_amount),
    ensures
        match create_coin_checks(admin@, initiator_token_balance, amount, sol_amount) {
            Err(e) => plan == Err::<CreateCoinPlan, DegenErrorCode>(e) && *final(vault) == *old(
                vault,
            ),
            Ok(stake) => (plan matches Ok(p) && p.steps@ == creation_steps(
                stake,
                *bet,
                multiplier,
                amount,
                sol_amount,
            )) && final(vault).coin_info == recorded_coin(
                *initiator,
                amount,
                sol_amount,
                multiplier,
            ),
        },
{
    if let Err(e) = authorize_admin(admin) {
        return Err(e);
    }
    let stake = match stake_for(initiator_token_balance, amount, sol_amount) {
        Ok(stake) => stake,
        Err(e) => return Err(e),
    };
    vault.coin_info = CoinInfo { initiator: *initiator, amount, sol_amount, multiplier };
    let oracle_share = oracle_fee(multiplier, sol_amount);
    let admin_fee = fee(bet, amount);
    let stake_move = match stake {
        Stake::Tokens(tokens) => CreationStep::TransferTokens(tokens),
        Stake::Lamports(lamports) => CreationStep::TransferLamports(lamports),
    };
    let mut steps: Vec<CreationStep> = Vec::new();
    steps.push(stake_move);
    steps.push(CreationStep::RecordFlip);
    steps.push(CreationStep::PayOracle(ORACLE_FEE + oracle_share));
    steps.push(CreationStep::PayHouse(admin_fee));
    steps.push(CreationStep::RequestRandom);
    assert(steps@ =~= creation_steps(stake, *bet, multiplier, amount, sol_amount));
    Ok(CreateCoinPlan { steps })
}

/// `create_coin` where its arithmetic stays in range: `None` exactly where
/// a flip passes its checks but the oracle's share of its lamports would
/// overflow a `u64`.
pub fn try_create_coin(
    vault: &mut Vault,
    bet: &Bet,
    admin: &Pubkey,
    initiator: &Pubkey,
    initiator_token_balance: u64,
    multiplier: u64,
    amount: u64,
    sol_amount: u64,
) -> (plan: Option<Result<CreateCoinPlan, DegenErrorCode>>)
    ensures
        plan is None <==> create_coin_checks(admin@, initiator_token_balance, amount, sol_amount)
            is Ok && !oracle_fee_fits(multiplier, sol_amount),
        plan is None ==> *final(vault) == *old(vault),
        plan matches Some(made) ==> match create_coin_checks(
            admin@,
            initiator_token_balance,
            amount,
            sol_amount,
        ) {
            Err(e) => made == Err::<CreateCoinPlan, DegenErrorCode>(e) && *final(vault) == *old(
                vault,
            ),
            Ok(stake) => (made matches Ok(p) && p.steps@ == creation_steps(
                stake,
                *bet,
                multiplier,
                amount,
                sol_amount,
            )) && final(vault).coin_info == recorded_coin(
                *initiator,
                amount,
                sol_amount,
                multiplier,
            ),
        },
{
    if !oracle_fee_computable(multiplier, sol_amount) {
        if let Err(e) = authorize_admin(admin) {
            return Some(Err(e));
        }
        if let Err(e) = stake_for(initiator_token_balance, amount, sol_amount) {
            return Some(Err(e));
        }
        return None;
    }
    Some(
        create_coin(
            vault,
            bet,
            admin,
            initiator,
            initiator_token_balance,
            multiplier,
            amount,
            sol_amount,
        ),
    )
}

// ----- settling a flip -----

/// What a settled flip pays back: tokens and lamports.
#[derive(Clone, Copy, Debug, PartialEq, Eq, Structural)]
pub struct Payout {
    pub amount: u64,
    pub sol_amount: u64,
}

/// A win pays both stakes times the multiplier, in hundredths, rounded
/// down; a loss pays nothing.
pub open spec fn payout_of(info: CoinInfo, random: Seq<u8>) -> Payout {
    if flip_outcome(info.multiplier, random) == 1 {
        Payout {
            amount: (info.amount * info.multiplier / 100) as u64,
            sol_amount: (info.sol_amount * info.multiplier / 100) as u64,
        }
    } else {
        Payout { amount: 0, sol_amount: 0 }
    }
}

/// A won flip's stakes times its multiplier fit in a `u64`.
pub open spec fn payout_fits(info: CoinInfo, random: Seq<u8>) -> bool {
    flip_outcome(info.multiplier, random) == 1 ==> {
        &&& info.sol_amount * info.multiplier <= u64::MAX
        &&& info.amount * info.multiplier <= u64::MAX
    }
}

/// What the flip recorded in `info` pays on the oracle's `random` bytes.
pub fn flip_payout(info: &CoinInfo, random: &[u8]) -> (payout: Payout)
    requires
        enough_random(info.multiplier, random@),
        payout_fits(*info, random@),
    ensures
        payout == payout_of(*info, random@),
{
    let mut sol_amount: u64 = 0;
    let mut amount: u64 = 0;
    let multiplier = info.multiplier;
    if calculate_probability(multiplier, random) == 1 {
        sol_amount = info.sol_amount * multiplier / 100;
        amount = info.amount * multiplier / 100;
    }
    Payout { amount, sol_amount }
}

/// `Ok` exactly when `initiator` made the flip recorded in `info`;
/// `Unauthorized` otherwise.
pub fn check_initiator(info: &CoinInfo, initiator: &Pubkey) -> (checked: Result<
    (),
    DegenErrorCode,
>)
    ensures
        checked == (if info.initiator@ == initiator@ {
            Ok(())
        } else {
            Err(DegenErrorCode::Unauthorized)
        }),
{
    if !info.initiator.key_eq(initiator) {
        return Err(DegenErrorCode::Unauthorized);
    }
    Ok(())
}

/// The house's bet account and its bump, derived from the house's address;
/// `None` where no bump gives an address off the curve.
pub open spec fn bet_account_of(admin: Seq<u8>) -> Option<(Seq<u8>, u8)> {
    program_address(admin_bet_seeds(admin), program_id_bytes())
}

/// The bump of the house's bet account, where it can be derived.
pub open spec fn house_bet_bump() -> u8 {
    match bet_account_of(house_key_bytes()) {
        Some(found) => found.1,
        None => 0,
    }
}

/// A settlement gets as far as deriving the house's bet account: the
/// flipper signed and the oracle has answered.
pub open spec fn reveal_reaches_derivation(
    initiator: Seq<u8>,
    info: CoinInfo,
    oracle_pending: bool,
) -> bool {
    info.initiator@ == initiator && !oracle_pending
}

/// The checks of a settlement, in order: the flipper's signature, the
/// oracle's answer being in, and the bet account being the house's. (Where
/// the house's bet account cannot be derived, no check refuses; that input
/// is not owed, see `reveal_owed`.)
pub open spec fn reveal_check(
    initiator: Seq<u8>,
    info: CoinInfo,
    oracle_pending: bool,
    bet_account: Seq<u8>,
) -> Result<(), DegenErrorCode> {
    if info.initiator@ != initiator {
        Err(DegenErrorCode::Unauthorized)
    } else if oracle_pending {
        Err(DegenErrorCode::OracleNotCompleted)
    } else {
        match bet_account_of(house_key_bytes()) {
            None => Ok(()),
            Some(found) => if found.0 != bet_account {
                Err(DegenErrorCode::AccountMismatch)
            } else {
                Ok(())
            },
        }
    }
}

/// The seeds with which the house's bet account signs the token payout.
pub open spec fn bet_signer_seed_bytes(admin: Seq<u8>, bump: u8) -> Seq<Seq<u8>> {
    seq![ADMIN_BET_PREFIX.spec_bytes(), admin, seq![bump]]
}

/// The seeds with which the lamport vault signs the lamport payout.
pub open spec fn sol_vault_seed_bytes(vault_bump: u8) -> Seq<Seq<u8>> {
    seq![SOL_VAULT.spec_bytes(), seq![vault_bump]]
}

/// The seeds with which the house's bet account signs.
pub fn bet_signer_seeds(admin: &Pubkey, bump: u8) -> (seeds: Vec<Vec<u8>>)
    ensures
        seeds@.map_values(|s: Vec<u8>| s@) == bet_signer_seed_bytes(admin@, bump),
{
    let mut seeds: Vec<Vec<u8>> = Vec::new();
    seeds.push(vstd::slice::slice_to_vec(ADMIN_BET_PREFIX.as_bytes()));
    seeds.push(vstd::slice::slice_to_vec(admin.bytes.as_slice()));
    let mut bump_seed: Vec<u8> = Vec::new();
    bump_seed.push(bump);
    seeds.push(bump_seed);
    assert(seeds@.map_values(|s: Vec<u8>| s@) =~= bet_signer_seed_bytes(admin@, bump));
    seeds
}

/// The seeds with which the lamport vault signs.
pub fn sol_vault_seeds(vault_bump: u8) -> (seeds: Vec<Vec<u8>>)
    ensures
        seeds@.map_values(|s: Vec<u8>| s@) == sol_vault_seed_bytes(vault_bump),
{
    let mut seeds: Vec<Vec<u8>> = Vec::new();
    seeds.push(vstd::slice::slice_to_vec(SOL_VAULT.as_bytes()));
    let mut bump_seed: Vec<u8> = Vec::new();
    bump_seed.push(vault_bump);
    seeds.push(bump_seed);
    assert(seeds@.map_values(|s: Vec<u8>| s@) =~= sol_vault_seed_bytes(vault_bump));
    seeds
}

/// One step of a settlement, carried out in order.
#[derive(Clone, Copy, Debug, PartialEq, Eq, Structural)]
pub enum SettlementStep {
    /// The house's token account pays this many tokens to the flipper's,
    /// signed by the house's bet account.
    PayTokens(u64),
    /// The program's lamport vault pays this many lamports to the flipper,
    /// signed by its own seeds; the settlement goes on whether or not this
    /// transfer goes through.
    PayLamports(u64),
    /// The flip's vault is closed: all its lamports move to the flipper, as
    /// `remove_pda` moves them.
    CloseVault,
}

/// The steps of a settlement with `payout`: the token payout, then the same
/// number as lamports (the lamport payout is the token figure; the lamport
/// winnings in `payout.sol_amount` are worked out and not paid), then the
/// closing of the flip's vault.
pub open spec fn settlement_steps(payout: Payout) -> Seq<SettlementStep> {
    seq![
        SettlementStep::PayTokens(payout.amount),
        SettlementStep::PayLamports(payout.amount),
        SettlementStep::CloseVault,
    ]
}

/// What a step does to the lamports of the flipper, the flip's vault and
/// the program's lamport vault, in that order.
pub open spec fn apply_step(balances: (int, int, int), step: SettlementStep) -> (int, int, int) {
    match step {
        SettlementStep::PayTokens(_) => balances,
        SettlementStep::PayLamports(lamports) => (
            balances.0 + lamports,
            balances.1,
            balances.2 - lamports,
        ),
        SettlementStep::CloseVault => (balances.0 + balances.1, 0, balances.2),
    }
}

/// What a sequence of steps does to those three balances.
pub open spec fn apply_steps(balances: (int, int, int), steps: Seq<SettlementStep>) -> (
    int,
    int,
    int,
)
    decreases steps.len(),
{
    if steps.len() == 0 {
        balances
    } else {
        apply_steps(apply_step(balances, steps[0]), steps.drop_first())
    }
}

/// The settlement of a flip: what it pays, the steps that carry it out,
/// and the seeds that sign the two payouts.
#[derive(Clone, Debug)]
pub struct RevealPlan {
    pub payout: Payout,
    pub steps: Vec<SettlementStep>,
    pub bet_signer_seeds: Vec<Vec<u8>>,
    pub sol_vault_seeds: Vec<Vec<u8>>,
}

/// The settlement of a flip can be worked out: the random bytes it reads
/// are there and a win's payout fits in a `u64`.
pub open spec fn reveal_payable(info: CoinInfo, random: Seq<u8>) -> bool {
    &&& enough_random(info.multiplier, random)
    &&& payout_fits(info, random)
}

/// A settlement that passes its checks can be carried out: the house's bet
/// account can be derived, and the payout can be worked out.
pub open spec fn reveal_owed(
    initiator: Seq<u8>,
    info: CoinInfo,
    oracle_pending: bool,
    bet_account: Seq<u8>,
    random: Seq<u8>,
) -> bool {
    &&& reveal_reaches_derivation(initiator, info, oracle_pending) ==> bet_account_of(
        house_key_bytes(),
    ) is Some
    &&& reveal_check(initiator, info, oracle_pending, bet_account) is Ok ==> reveal_payable(
        info,
        random,
    )
}

/// Whether the settlement of the flip in `info` on `random` can be worked
/// out.
pub fn payout_computable(info: &CoinInfo, random: &[u8]) -> (payable: bool)
    ensures
        payable == reveal_payable(*info, random@),
{
    let multiplier = info.multiplier;
    if random.len() < 4 {
        return false;
    }
    if !listed_multiplier(multiplier) && random.len() < 5 {
        return false;
    }
    if calculate_probability(multiplier, random) != 1 {
        return true;
    }
    let sol_fits = match info.sol_amount.checked_mul(multiplier) {
        Some(_) => true,
        None => false,
    };
    let amount_fits = match info.amount.checked_mul(multiplier) {
        Some(_) => true,
        None => false,
    };
    sol_fits && amount_fits
}

/// The settlement that passes its checks owes: the payout, the steps, and
/// the seeds of the house's bet account and of the lamport vault.
pub open spec fn reveal_plan_matches(
    plan: RevealPlan,
    info: CoinInfo,
    random: Seq<u8>,
    vault_bump: u8,
) -> bool {
    &&& plan.payout == payout_of(info, random)
    &&& plan.steps@ == settlement_steps(payout_of(info, random))
    &&& plan.bet_signer_seeds@.map_values(|s: Vec<u8>| s@) == bet_signer_seed_bytes(
        house_key_bytes(),
        house_bet_bump(),
    )
    &&& plan.sol_vault_seeds@.map_values(|s: Vec<u8>| s@) == sol_vault_seed_bytes(vault_bump)
}

/// Settles the flip in `vault` once the oracle has answered with `random`:
/// only the flipper may settle, only after the oracle's answer, and only
/// against the house's bet account. The plan pays out and closes the flip's
/// vault into the flipper's account.
pub fn reveal_coin(
    initiator: &Pubkey,
    vault: &Vault,
    oracle_pending: bool,
    random: &[u8],
    bet_account: &Pubkey,
    vault_bump: u8,
) -> (plan: Result<RevealPlan, DegenErrorCode>)
    requires
        reveal_owed(initiator@, vault.coin_info, oracle_pending, bet_account@, random@),
    ensures
        reveal_check(initiator@, vault.coin_info, oracle_pending, bet_account@) matches Err(e)
            ==> plan matches Err(f) && f == e,
        reveal_check(initiator@, vault.coin_info, oracle_pending, bet_account@) is Ok
            ==> (plan matches Ok(p) && reveal_plan_matches(p, vault.coin_info, random@, vault_bump)),
{
    if let Err(e) = check_initiator(&vault.coin_info, initiator) {
        return Err(e);
    }
    if oracle_pending {
        return Err(DegenErrorCode::OracleNotCompleted);
    }
    let found = match admin_bet_pda() {
        Ok(found) => found,
        Err(e) => return Err(e),
    };
    let (bet_pda, admin_bet_bump) = match found {
        Some(found) => found,
        None => {
            proof {
                assert(false);
            }
            return Err(DegenErrorCode::AccountMismatch);
        },
    };
    if let Err(e) = check_account_equals(&bet_pda, bet_account) {
        return Err(e);
    }
    let admin = match admin_account_pubkey() {
        Ok(admin) => admin,
        Err(e) => return Err(e),
    };
    let bet_seeds = bet_signer_seeds(&admin, admin_bet_bump);
    let payout = flip_payout(&vault.coin_info, random);
    let vault_seeds = sol_vault_seeds(vault_bump);
    let mut steps: Vec<SettlementStep> = Vec::new();
    steps.push(SettlementStep::PayTokens(payout.amount));
    steps.push(SettlementStep::PayLamports(payout.amount));
    steps.push(SettlementStep::CloseVault);
    assert(steps@ =~= settlement_steps(payout));
    Ok(RevealPlan { payout, steps, bet_signer_seeds: bet_seeds, sol_vault_seeds: vault_seeds })
}

/// `reveal_coin` where it can be carried out: `None` exactly where a
/// settlement is not owed (the house's bet account cannot be derived, or a
/// settlement that passes its checks cannot be worked out).
pub fn try_reveal_coin(
    initiator: &Pubkey,
    vault: &Vault,
    oracle_pending: bool,
    random: &[u8],
    bet_account: &Pubkey,
    vault_bump: u8,
) -> (plan: Option<Result<RevealPlan, DegenErrorCode>>)
    ensures
        plan is None <==> !reveal_owed(
            initiator@,
            vault.coin_info,
            oracle_pending,
            bet_account@,
            random@,
        ),
        plan matches Some(settled) ==> {
            &&& reveal_check(initiator@, vault.coin_info, oracle_pending, bet_account@) matches Err(
                e,
            ) ==> settled matches Err(f) && f == e
            &&& reveal_check(initiator@, vault.coin_info, oracle_pending, bet_account@) is Ok
                ==> (settled matches Ok(p) && reveal_plan_matches(
                p,
                vault.coin_info,
                random@,
                vault_bump,
            ))
        },
{
    if let Err(e) = check_initiator(&vault.coin_info, initiator) {
        return Some(Err(e));
    }
    if oracle_pending {
        return Some(Err(DegenErrorCode::OracleNotCompleted));
    }
    let found = match admin_bet_pda() {
        Ok(found) => found,
        Err(e) => return Some(Err(e)),
    };
    let (bet_pda, _bump) = match found {
        Some(found) => found,
        None => return None,
    };
    if let Err(e) = check_account_equals(&bet_pda, bet_account) {
        return Some(Err(e));
    }
    if !payout_computable(&vault.coin_info, random) {
        return None;
    }
    Some(reveal_coin(initiator, vault, oracle_pending, random, bet_account, vault_bump))
}

// ----- laws -----

/// A settlement pays what the flip recorded: its stakes times its
/// multiplier, in hundredths, on a win, and nothing on a loss; and nobody
/// but the flipper may settle it.
pub proof fn law_settlement_follows_record(
    initiator: Pubkey,
    other: Pubkey,
    amount: u64,
    sol_amount: u64,
    multiplier: u64,
    random: Seq<u8>,
    oracle_pending: bool,
    bet_account: Seq<u8>,
)
    ensures
        flip_outcome(multiplier, random) == 1 ==> payout_of(
            recorded_coin(initiator, amount, sol_amount, multiplier),
            random,
        ) == (Payout {
            amount: (amount * multiplier / 100) as u64,
            sol_amount: (sol_amount * multiplier / 100) as u64,
        }),
        flip_outcome(multiplier, random) != 1 ==> payout_of(
            recorded_coin(initiator, amount, sol_amount, multiplier),
            random,
        ) == (Payout { amount: 0, sol_amount: 0 }),
        other@ != initiator@ ==> reveal_check(
            other@,
            recorded_coin(initiator, amount, sol_amount, multiplier),
            oracle_pending,
            bet_account,
        ) == Err::<(), DegenErrorCode>(DegenErrorCode::Unauthorized),
{
}

/// Carrying out a settlement whose lamport payout goes through pays that
/// payout out of the program's lamport vault and closes the flip's vault
/// into the flipper's account: the flip's vault ends empty, so the flip
/// cannot be settled and paid again; the flipper gains the payout and all
/// the vault held; no lamports appear or vanish.
pub proof fn law_settlement_closes_the_vault(
    payout: Payout,
    initiator: int,
    vault: int,
    sol_vault: int,
)
    ensures
        apply_steps((initiator, vault, sol_vault), settlement_steps(payout)) == (
            initiator + payout.amount + vault,
            0int,
            sol_vault - payout.amount,
        ),
{
    let steps = settlement_steps(payout);
    let b1 = apply_step((initiator, vault, sol_vault), steps[0]);
    let b2 = apply_step(b1, steps[1]);
    let b3 = apply_step(b2, steps[2]);
    assert(steps.drop_first().drop_first().drop_first() =~= Seq::<SettlementStep>::empty());
    assert(apply_steps(b3, steps.drop_first().drop_first().drop_first()) == b3);
    assert(apply_steps(b2, steps.drop_first().drop_first()) == b3);
    assert(apply_steps(b1, steps.drop_first()) == b3);
}

/// Changing the fees and changing the bet sizes commute, and together they
/// give the table that a full set-up with the same values gives, whatever
/// the table was before.
pub proof fn law_table_updates_compose(
    before: Bet,
    other: Bet,
    fee_finality: u64,
    fee_epoch: u64,
    fee_cluster: u64,
    fee_lamport: u64,
    amount_finality: u64,
    amount_epoch: u64,
    amount_cluster: u64,
    amount_lamport: u64,
)
    ensures
        with_amounts(
            with_fees(before, fee_finality, fee_epoch, fee_cluster, fee_lamport),
            amount_finality,
            amount_epoch,
            amount_cluster,
            amount_lamport,
        ) == with_fees(
            with_amounts(before, amount_finality, amount_epoch, amount_cluster, amount_lamport),
            fee_finality,
            fee_epoch,
            fee_cluster,
            fee_lamport,
        ),
        with_amounts(
            with_fees(before, fee_finality, fee_epoch, fee_cluster, fee_lamport),
            amount_finality,
            amount_epoch,
            amount_cluster,
            amount_lamport,
        ) == with_amounts(
            with_fees(other, fee_finality, fee_epoch, fee_cluster, fee_lamport),
            amount_finality,
            amount_epoch,
            amount_cluster,
            amount_lamport,
        ),
{
}

/// On a table whose four bet sizes differ, each bet size is charged the fee
/// stored at the opposite end of the table, and any other amount the
/// finality fee.
pub proof fn law_fees_of_a_table(bet: Bet, amount: u64)
    requires
        bet.amount_finality != bet.amount_epoch,
        bet.amount_finality != bet.amount_cluster,
        bet.amount_finality != bet.amount_lamport,
        bet.amount_epoch != bet.amount_cluster,
        bet.amount_epoch != bet.amount_lamport,
        bet.amount_cluster != bet.amount_lamport,
    ensures
        bet_fee(bet, bet.amount_lamport) == bet.fee_finality,
        bet_fee(bet, bet.amount_cluster) == bet.fee_epoch,
        bet_fee(bet, bet.amount_epoch) == bet.fee_cluster,
        bet_fee(bet, bet.amount_finality) == bet.fee_lamport,
        amount != bet.amount_finality && amount != bet.amount_epoch && amount
            != bet.amount_cluster && amount != bet.amount_lamport ==> bet_fee(bet, amount)
            == bet.fee_finality,
{
}

/// Only the house passes the house's check.
pub proof fn law_only_the_house(signer: Seq<u8>)
    ensures
        admin_check(signer) is Ok <==> signer == house_key_bytes(),
{
}

/// A fee update sets each fee to its own argument, whatever the others are,
/// and leaves every bet size as it was.
pub proof fn law_fee_update_sets_each_fee(
    bet: Bet,
    fee_finality: u64,
    fee_epoch: u64,
    fee_cluster: u64,
    fee_lamport: u64,
)
    ensures
        with_fees(bet, fee_finality, fee_epoch, fee_cluster, fee_lamport).fee_finality
            == fee_finality,
        with_fees(bet, fee_finality, fee_epoch, fee_cluster, fee_lamport).fee_epoch == fee_epoch,
        with_fees(bet, fee_finality, fee_epoch, fee_cluster, fee_lamport).fee_cluster
            == fee_cluster,
        with_fees(bet, fee_finality, fee_epoch, fee_cluster, fee_lamport).fee_lamport
            == fee_lamport,
        with_fees(bet, fee_finality, fee_epoch, fee_cluster, fee_lamport).amount_finality
            == bet.amount_finality,
        with_fees(bet, fee_finality, fee_epoch, fee_cluster, fee_lamport).amount_epoch
            == bet.amount_epoch,
        with_fees(bet, fee_finality, fee_epoch, fee_cluster, fee_lamport).amount_cluster
            == bet.amount_cluster,
        with_fees(bet, fee_finality, fee_epoch, fee_cluster, fee_lamport).amount_lamport
            == bet.amount_lamport,
{
}

/// A bet-size update sets each size to its own argument, whatever the others
/// are, and leaves every fee as it was.
pub proof fn law_size_update_sets_each_size(
    bet: Bet,
    amount_finality: u64,
    amount_epoch: u64,
    amount_cluster: u64,
    amount_lamport: u64,
)
    ensures
        with_amounts(bet, amount_finality, amount_epoch, amount_cluster, amount_lamport).amount_finality
            == amount_finality,
        with_amounts(bet, amount_finality, amount_epoch, amount_cluster, amount_lamport).amount_epoch
            == amount_epoch,
        with_amounts(bet, amount_finality, amount_epoch, amount_cluster, amount_lamport).amount_cluster
            == amount_cluster,
        with_amounts(bet, amount_finality, amount_epoch, amount_cluster, amount_lamport).amount_lamport
            == amount_lamport,
        with_amounts(bet, amount_finality, amount_epoch, amount_cluster, amount_lamport).fee_finality
            == bet.fee_finality,
        with_amounts(bet, amount_finality, amount_epoch, amount_cluster, amount_lamport).fee_epoch
            == bet.fee_epoch,
        with_amounts(bet, amount_finality, amount_epoch, amount_cluster, amount_lamport).fee_cluster
            == bet.fee_cluster,
        with_amounts(bet, amount_finality, amount_epoch, amount_cluster, amount_lamport).fee_lamport
            == bet.fee_lamport,
{
}

/// The stake of a flip: with no lamports, the flipper's `amount` tokens if it
/// holds them, else `NotEnoughTokens`; with lamports, those lamports, whatever
/// the token balance.
pub proof fn law_stake_of_a_flip(initiator_token_balance: u64, amount: u64, sol_amount: u64)
    ensures
        sol_amount == 0 && initiator_token_balance >= amount ==> stake_of(
            initiator_token_balance,
            amount,
            sol_amount,
        ) == Ok::<Stake, DegenErrorCode>(Stake::Tokens(amount)),
        sol_amount == 0 && initiator_token_balance < amount ==> stake_of(
            initiator_token_balance,
            amount,
            sol_amount,
        ) == Err::<Stake, DegenErrorCode>(DegenErrorCode::NotEnoughTokens),
        sol_amount != 0 ==> stake_of(initiator_token_balance, amount, sol_amount) == Ok::<
            Stake,
            DegenErrorCode,
        >(Stake::Lamports(sol_amount)),
{
}

/// The steps of a made flip, in terms of its inputs: first the stake moves
/// (tokens to the house, or lamports to the lamport vault), then the flip is
/// recorded, then the oracle is paid its fixed fee plus 3% (×1.33, ×2), 4%
/// (×4), 5.5% (×10) or 6.5% (×20) of the staked lamports, rounded down,
/// then the house is paid the fee of the first bet size in the order
/// lamport, cluster, epoch, finality that equals the amount (lamport pays
/// the finality fee, cluster the epoch fee, epoch the cluster fee, finality
/// the lamport fee, any other amount the finality fee), and last the oracle
/// is asked for random bytes.
pub proof fn law_steps_of_a_made_flip(
    stake: Stake,
    bet: Bet,
    multiplier: u64,
    amount: u64,
    sol_amount: u64,
)
    ensures
        creation_steps(stake, bet, multiplier, amount, sol_amount).len() == 5,
        stake matches Stake::Tokens(t) ==> creation_steps(
            stake,
            bet,
            multiplier,
            amount,
            sol_amount,
        )[0] == CreationStep::TransferTokens(t),
        stake matches Stake::Lamports(l) ==> creation_steps(
            stake,
            bet,
            multiplier,
            amount,
            sol_amount,
        )[0] == CreationStep::TransferLamports(l),
        creation_steps(stake, bet, multiplier, amount, sol_amount)[1] == CreationStep::RecordFlip,
        (multiplier == 133 || multiplier == 200) ==> creation_steps(
            stake,
            bet,
            multiplier,
            amount,
            sol_amount,
        )[2] == CreationStep::PayOracle((1_000_000 + sol_amount * 3 / 100) as u64),
        multiplier == 400 ==> creation_steps(stake, bet, multiplier, amount, sol_amount)[2]
            == CreationStep::PayOracle((1_000_000 + sol_amount * 4 / 100) as u64),
        multiplier == 1000 ==> creation_steps(stake, bet, multiplier, amount, sol_amount)[2]
            == CreationStep::PayOracle((1_000_000 + sol_amount * 55 / 1000) as u64),
        multiplier == 2000 ==> creation_steps(stake, bet, multiplier, amount, sol_amount)[2]
            == CreationStep::PayOracle((1_000_000 + sol_amount * 65 / 1000) as u64),
        !(multiplier == 133 || multiplier == 200 || multiplier == 400 || multiplier == 1000
            || multiplier == 2000) ==> creation_steps(stake, bet, multiplier, amount, sol_amount)[2]
            == CreationStep::PayOracle(1_000_000),
        amount == bet.amount_lamport ==> creation_steps(stake, bet, multiplier, amount, sol_amount)[3]
            == CreationStep::PayHouse(bet.fee_finality),
        amount != bet.amount_lamport && amount == bet.amount_cluster ==> creation_steps(
            stake,
            bet,
            multiplier,
            amount,
            sol_amount,
        )[3] == CreationStep::PayHouse(bet.fee_epoch),
        amount != bet.amount_lamport && amount != bet.amount_cluster && amount == bet.amount_epoch
            ==> creation_steps(stake, bet, multiplier, amount, sol_amount)[3]
            == CreationStep::PayHouse(bet.fee_cluster),
        amount != bet.amount_lamport && amount != bet.amount_cluster && amount != bet.amount_epoch
            && amount == bet.amount_finality ==> creation_steps(
            stake,
            bet,
            multiplier,
            amount,
            sol_amount,
        )[3] == CreationStep::PayHouse(bet.fee_lamport),
        amount != bet.amount_lamport && amount != bet.amount_cluster && amount != bet.amount_epoch
            && amount != bet.amount_finality ==> creation_steps(
            stake,
            bet,
            multiplier,
            amount,
            sol_amount,
        )[3] == CreationStep::PayHouse(bet.fee_finality),
        creation_steps(stake, bet, multiplier, amount, sol_amount)[4] == CreationStep::RequestRandom,
{
}

/// The steps of a settlement, in terms of the flip's record: first the
/// house pays in tokens the flip's token stake times its multiplier, in
/// hundredths, rounded down, on a win, and nothing on a loss; then the same
/// figure as lamports; then the flip's vault is closed. On a win the token
/// figure lies within one hundredth of stake × multiplier / 100.
pub proof fn law_steps_of_a_settlement(info: CoinInfo, random: Seq<u8>)
    requires
        payout_fits(info, random),
    ensures
        settlement_steps(payout_of(info, random)).len() == 3,
        flip_outcome(info.multiplier, random) == 1 ==> settlement_steps(payout_of(info, random))[0]
            == SettlementStep::PayTokens((info.amount * info.multiplier / 100) as u64),
        flip_outcome(info.multiplier, random) == 1 ==> settlement_steps(payout_of(info, random))[1]
            == SettlementStep::PayLamports((info.amount * info.multiplier / 100) as u64),
        flip_outcome(info.multiplier, random) != 1 ==> settlement_steps(payout_of(info, random))[0]
            == SettlementStep::PayTokens(0),
        flip_outcome(info.multiplier, random) != 1 ==> settlement_steps(payout_of(info, random))[1]
            == SettlementStep::PayLamports(0),
        settlement_steps(payout_of(info, random))[2] == SettlementStep::CloseVault,
        flip_outcome(info.multiplier, random) == 1 ==> {
            &&& payout_of(info, random).amount * 100 <= info.amount * info.multiplier
            &&& info.amount * info.multiplier < payout_of(info, random).amount * 100 + 100
            &&& payout_of(info, random).sol_amount * 100 <= info.sol_amount * info.multiplier
            &&& info.sol_amount * info.multiplier < payout_of(info, random).sol_amount * 100 + 100
        },
{
}

/// The record a made flip leaves in its vault holds the flipper, both
/// stakes and the multiplier, each as given.
pub proof fn law_record_of_a_flip(
    initiator: Pubkey,
    amount: u64,
    sol_amount: u64,
    multiplier: u64,
)
    ensures
        recorded_coin(initiator, amount, sol_amount, multiplier).initiator == initiator,
        recorded_coin(initiator, amount, sol_amount, multiplier).amount == amount,
        recorded_coin(initiator, amount, sol_amount, multiplier).sol_amount == sol_amount,
        recorded_coin(initiator, amount, sol_amount, multiplier).multiplier == multiplier,
{
}

/// The checks of a settlement, one by one: anyone but the flipper is
/// refused first; the flipper is refused while the oracle has not answered;
/// after that, a bet account other than the house's is refused; the house's
/// own bet account passes.
pub proof fn law_settlement_checks(
    initiator: Seq<u8>,
    info: CoinInfo,
    oracle_pending: bool,
    bet_account: Seq<u8>,
    house_bet: (Seq<u8>, u8),
)
    ensures
        info.initiator@ != initiator ==> reveal_check(initiator, info, oracle_pending, bet_account)
            == Err::<(), DegenErrorCode>(DegenErrorCode::Unauthorized),
        info.initiator@ == initiator && oracle_pending ==> reveal_check(
            initiator,
            info,
            oracle_pending,
            bet_account,
        ) == Err::<(), DegenErrorCode>(DegenErrorCode::OracleNotCompleted),
        info.initiator@ == initiator && !oracle_pending && program_address(
            admin_bet_seeds(house_key_bytes()),
            program_id_bytes(),
        ) == Some(house_bet) && house_bet.0 == bet_account ==> reveal_check(
            initiator,
            info,
            oracle_pending,
            bet_account,
        ) == Ok::<(), DegenErrorCode>(()),
        info.initiator@ == initiator && !oracle_pending && program_address(
            admin_bet_seeds(house_key_bytes()),
            program_id_bytes(),
        ) == Some(house_bet) && house_bet.0 != bet_account ==> reveal_check(
            initiator,
            info,
            oracle_pending,
            bet_account,
        ) == Err::<(), DegenErrorCode>(DegenErrorCode::AccountMismatch),
{
}

} // verus!
