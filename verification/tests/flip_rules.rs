use degendevil::flip::{
    authorize_admin, check_admin, flip_payout, try_create_coin, try_reveal_coin, CreateCoinPlan,
    CreationStep, Payout, SettlementStep,
};
use degendevil::{
    admin_account_pubkey, admin_bet, admin_bet_pda, create_coin, reveal_coin, update_admin_ata,
    update_admin_fee, update_bet_amount, Bet, CoinInfo, DegenErrorCode, Pubkey, Vault,
};

fn admin() -> Pubkey {
    admin_account_pubkey().unwrap()
}

fn alice() -> Pubkey {
    Pubkey::new_from_array([11u8; 32])
}

fn table() -> Bet {
    Bet {
        fee_finality: 12_000_000,
        fee_epoch: 20_000_000,
        fee_cluster: 25_000_000,
        fee_lamport: 30_000_000,
        amount_finality: 700,
        amount_epoch: 1750,
        amount_cluster: 3500,
        amount_lamport: 5250,
    }
}

fn staked_vault(multiplier: u64, amount: u64, sol_amount: u64) -> Vault {
    Vault { coin_info: CoinInfo { initiator: alice(), amount, sol_amount, multiplier } }
}

#[test]
fn only_the_house_signs() {
    assert_eq!(authorize_admin(&admin()), Ok(()));
    assert_eq!(authorize_admin(&alice()), Err(DegenErrorCode::Unauthorized));
    assert_eq!(check_admin(&alice(), &alice()), Ok(()));
    assert_eq!(check_admin(&admin(), &alice()), Err(DegenErrorCode::Unauthorized));
    assert_eq!(update_admin_ata(&admin()), Ok(()));
    assert_eq!(update_admin_ata(&alice()), Err(DegenErrorCode::Unauthorized));
}

#[test]
fn admin_bet_sets_the_table() {
    let mut bet = Bet::default();
    let done = admin_bet(
        &mut bet, &admin(), 12_000_000, 20_000_000, 25_000_000, 30_000_000, 700, 1750, 3500, 5250,
    );
    assert_eq!(done, Ok(()));
    assert_eq!(bet, table());
    let mut other = table();
    let refused = admin_bet(&mut other, &alice(), 1, 2, 3, 4, 5, 6, 7, 8);
    assert_eq!(refused, Err(DegenErrorCode::Unauthorized));
    assert_eq!(other, table());
}

#[test]
fn updates_touch_only_their_half() {
    let mut bet = table();
    assert_eq!(update_admin_fee(&mut bet, &admin(), 1, 2, 3, 4), Ok(()));
    assert_eq!((bet.fee_finality, bet.fee_epoch, bet.fee_cluster, bet.fee_lamport), (1, 2, 3, 4));
    assert_eq!(bet.amount_lamport, 5250);
    assert_eq!(bet.amount_finality, 700);
    assert_eq!(update_bet_amount(&mut bet, &admin(), 10, 20, 30, 40), Ok(()));
    assert_eq!(
        (bet.amount_finality, bet.amount_epoch, bet.amount_cluster, bet.amount_lamport),
        (10, 20, 30, 40)
    );
    assert_eq!(bet.fee_cluster, 3);
    let before = bet;
    assert_eq!(update_admin_fee(&mut bet, &alice(), 9, 9, 9, 9), Err(DegenErrorCode::Unauthorized));
    assert_eq!(update_bet_amount(&mut bet, &alice(), 9, 9, 9, 9), Err(DegenErrorCode::Unauthorized));
    assert_eq!(bet, before);
}

#[test]
fn table_updates_compose() {
    let mut a = Bet::default();
    update_admin_fee(&mut a, &admin(), 12_000_000, 20_000_000, 25_000_000, 30_000_000).unwrap();
    update_bet_amount(&mut a, &admin(), 700, 1750, 3500, 5250).unwrap();
    let mut b = Bet { fee_finality: 5, ..Bet::default() };
    update_bet_amount(&mut b, &admin(), 700, 1750, 3500, 5250).unwrap();
    update_admin_fee(&mut b, &admin(), 12_000_000, 20_000_000, 25_000_000, 30_000_000).unwrap();
    assert_eq!(a, table());
    assert_eq!(b, table());
}

#[test]
fn create_coin_refuses_strangers() {
    let mut vault = Vault::default();
    let before = vault;
    let plan = create_coin(&mut vault, &table(), &alice(), &alice(), 10_000, 200, 5250, 0);
    assert_eq!(plan, Err(DegenErrorCode::Unauthorized));
    assert_eq!(vault, before);
}

#[test]
fn create_coin_needs_the_tokens() {
    let mut vault = Vault::default();
    let before = vault;
    let plan = create_coin(&mut vault, &table(), &admin(), &alice(), 5249, 200, 5250, 0);
    assert_eq!(plan, Err(DegenErrorCode::NotEnoughTokens));
    assert_eq!(vault, before);
}

#[test]
fn create_coin_with_tokens() {
    let mut vault = Vault::default();
    let plan = create_coin(&mut vault, &table(), &admin(), &alice(), 1_000_000, 200, 5250, 0);
    assert_eq!(
        plan,
        Ok(CreateCoinPlan {
            steps: vec![
                CreationStep::TransferTokens(5250),
                CreationStep::RecordFlip,
                CreationStep::PayOracle(1_000_000),
                CreationStep::PayHouse(12_000_000),
                CreationStep::RequestRandom,
            ]
        })
    );
    assert_eq!(vault, staked_vault(200, 5250, 0));
}

#[test]
fn create_coin_with_lamports() {
    let mut vault = Vault::default();
    let plan = create_coin(&mut vault, &table(), &admin(), &alice(), 0, 1000, 700, 2_000_000);
    assert_eq!(
        plan,
        Ok(CreateCoinPlan {
            steps: vec![
                CreationStep::TransferLamports(2_000_000),
                CreationStep::RecordFlip,
                CreationStep::PayOracle(1_000_000 + 110_000),
                CreationStep::PayHouse(30_000_000),
                CreationStep::RequestRandom,
            ]
        })
    );
    assert_eq!(vault, staked_vault(1000, 700, 2_000_000));
}

#[test]
fn create_coin_overflow_is_refused_up_front() {
    let mut vault = Vault::default();
    let before = vault;
    let big = u64::MAX / 3 + 1;
    assert_eq!(try_create_coin(&mut vault, &table(), &admin(), &alice(), 0, 133, 1, big), None);
    assert_eq!(vault, before);
    assert_eq!(
        try_create_coin(&mut vault, &table(), &alice(), &alice(), 0, 133, 1, big),
        Some(Err(DegenErrorCode::Unauthorized))
    );
    assert_eq!(
        try_create_coin(&mut vault, &table(), &admin(), &alice(), 0, 7, 1, big),
        Some(Ok(CreateCoinPlan {
            steps: vec![
                CreationStep::TransferLamports(big),
                CreationStep::RecordFlip,
                CreationStep::PayOracle(1_000_000),
                CreationStep::PayHouse(12_000_000),
                CreationStep::RequestRandom,
            ]
        }))
    );
}

#[test]
fn payout_of_a_flip() {
    let info = staked_vault(200, 5250, 3_000).coin_info;
    assert_eq!(flip_payout(&info, &[1u8; 64]), Payout { amount: 10_500, sol_amount: 6_000 });
    assert_eq!(flip_payout(&info, &[0u8; 64]), Payout { amount: 0, sol_amount: 0 });
    let info = staked_vault(133, 100, 1).coin_info;
    assert_eq!(flip_payout(&info, &[1u8; 64]), Payout { amount: 133, sol_amount: 1 });
}

#[test]
fn reveal_coin_checks_in_order() {
    let (bet_account, _) = admin_bet_pda().unwrap().unwrap();
    let vault = staked_vault(200, 5250, 0);
    let random = [1u8; 64];
    let stranger = Pubkey::new_from_array([12u8; 32]);
    assert_eq!(
        reveal_coin(&stranger, &vault, true, &random, &alice(), 254).unwrap_err(),
        DegenErrorCode::Unauthorized
    );
    assert_eq!(
        reveal_coin(&alice(), &vault, true, &random, &bet_account, 254).unwrap_err(),
        DegenErrorCode::OracleNotCompleted
    );
    assert_eq!(
        reveal_coin(&alice(), &vault, false, &random, &alice(), 254).unwrap_err(),
        DegenErrorCode::AccountMismatch
    );
}

#[test]
fn reveal_coin_pays_a_win() {
    let (bet_account, bump) = admin_bet_pda().unwrap().unwrap();
    let vault = staked_vault(200, 5250, 0);
    let plan = reveal_coin(&alice(), &vault, false, &[1u8; 64], &bet_account, 254).unwrap();
    assert_eq!(plan.payout, Payout { amount: 10_500, sol_amount: 0 });
    assert_eq!(
        plan.bet_signer_seeds,
        vec![b"DEGENDEVIL_ADMIN_BET_V1.0".to_vec(), admin().to_bytes().to_vec(), vec![bump]]
    );
    assert_eq!(plan.sol_vault_seeds, vec![b"SOL_VAULT".to_vec(), vec![254]]);
    assert_eq!(
        plan.steps,
        vec![
            SettlementStep::PayTokens(10_500),
            SettlementStep::PayLamports(10_500),
            SettlementStep::CloseVault,
        ]
    );
}

#[test]
fn reveal_coin_pays_nothing_on_a_loss() {
    let (bet_account, _) = admin_bet_pda().unwrap().unwrap();
    let vault = staked_vault(400, 5250, 9);
    let plan = reveal_coin(&alice(), &vault, false, &[1u8; 64], &bet_account, 1).unwrap();
    assert_eq!(plan.payout, Payout { amount: 0, sol_amount: 0 });
    assert_eq!(
        plan.steps,
        vec![SettlementStep::PayTokens(0), SettlementStep::PayLamports(0), SettlementStep::CloseVault]
    );
}

#[test]
fn try_reveal_coin_refuses_unowed_settlements() {
    let (bet_account, _) = admin_bet_pda().unwrap().unwrap();
    let vault = staked_vault(200, u64::MAX / 100, 0);
    assert!(try_reveal_coin(&alice(), &vault, false, &[1u8; 64], &bet_account, 1).is_none());
    let short = staked_vault(7, 1, 0);
    assert!(try_reveal_coin(&alice(), &short, false, &[1u8; 4], &bet_account, 1).is_none());
    assert_eq!(
        try_reveal_coin(&alice(), &short, true, &[1u8; 4], &bet_account, 1).unwrap().unwrap_err(),
        DegenErrorCode::OracleNotCompleted
    );
    let fine = try_reveal_coin(&alice(), &short, false, &[1u8; 5], &bet_account, 1).unwrap().unwrap();
    assert_eq!(fine.payout, Payout { amount: 0, sol_amount: 0 });
}

#[test]
fn flip() {
    let mut bet = Bet::default();
    admin_bet(
        &mut bet, &admin(), 12_000_000, 20_000_000, 25_000_000, 30_000_000, 700, 1750, 3500, 5250,
    )
    .unwrap();
    let amount = 5250;
    let mut vault = Vault::default();
    let plan = create_coin(&mut vault, &bet, &admin(), &alice(), 1_000_000, 133, amount, 0).unwrap();
    assert_eq!(plan.steps[0], CreationStep::TransferTokens(5250));
    assert_eq!(plan.steps[3], CreationStep::PayHouse(12_000_000));
    assert_eq!(plan.steps[2], CreationStep::PayOracle(1_000_000));
    assert_eq!(plan.steps.last(), Some(&CreationStep::RequestRandom));
    let (bet_account, _) = admin_bet_pda().unwrap().unwrap();
    let settled = reveal_coin(&alice(), &vault, false, &[1u8; 64], &bet_account, 255).unwrap();
    assert_eq!(settled.payout.amount, 5250 * 133 / 100);
}

#[test]
fn settlement_closes_the_vault() {
    let (bet_account, _) = admin_bet_pda().unwrap().unwrap();
    let vault = staked_vault(200, 300, 0);
    let plan = reveal_coin(&alice(), &vault, false, &[1u8; 64], &bet_account, 7).unwrap();
    let (mut initiator, mut vault_lamports, mut sol_vault) = (1_000u64, 2_039_280u64, 5_000u64);
    for step in &plan.steps {
        match *step {
            SettlementStep::PayTokens(_) => {}
            SettlementStep::PayLamports(lamports) => {
                sol_vault -= lamports;
                initiator += lamports;
            }
            SettlementStep::CloseVault => {
                degendevil::remove_pda(&mut initiator, &mut vault_lamports);
            }
        }
    }
    assert_eq!((initiator, vault_lamports, sol_vault), (1_000 + 600 + 2_039_280, 0, 5_000 - 600));
}
