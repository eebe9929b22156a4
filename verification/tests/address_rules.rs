use std::str::FromStr;

use anchor_lang::prelude::Pubkey as SolanaPubkey;
use anchor_lang::solana_program::hash::hash;
use degendevil::degenrand;
use degendevil::program::{ADMIN_PUBKEY, ORACLE_FEE};
use degendevil::{
    admin_account_pubkey, admin_bet_pda, check_account_equals, id, vault_pda, DegenErrorCode,
    Pubkey,
};

const PROGRAM_ID: &str = "H2LCFgiKNFwdZyVQoJFhhhygvvuV8twbfzJ8nJpJHgG1";

const ADMIN_BYTES: [u8; 32] = [
    103, 50, 169, 192, 69, 107, 216, 133, 97, 211, 126, 242, 132, 226, 94, 50, 121, 112, 17, 127,
    182, 147, 166, 128, 2, 23, 62, 116, 46, 40, 164, 130,
];

fn key(fill: u8) -> Pubkey {
    Pubkey::new_from_array([fill; 32])
}

#[test]
fn program_id_matches_its_text() {
    let expected = SolanaPubkey::from_str(PROGRAM_ID).unwrap();
    assert_eq!(id().to_bytes(), expected.to_bytes());
}

#[test]
fn admin_key_decodes() {
    let admin = admin_account_pubkey().unwrap();
    assert_eq!(admin.to_bytes(), ADMIN_BYTES);
    assert_eq!(admin.to_bytes(), SolanaPubkey::from_str(ADMIN_PUBKEY).unwrap().to_bytes());
    assert_eq!(ORACLE_FEE, 1_000_000);
}

#[test]
fn key_equality() {
    assert!(key(1).key_eq(&key(1)));
    assert!(!key(1).key_eq(&key(2)));
    let mut bytes = [9u8; 32];
    bytes[31] = 10;
    assert!(key(9) != Pubkey::new_from_array(bytes));
    assert!(key(9) == Pubkey::new_from_array([9u8; 32]));
}

#[test]
fn check_account_equals_both_ways() {
    assert_eq!(check_account_equals(&key(3), &key(3)), Ok(()));
    assert_eq!(check_account_equals(&key(3), &key(4)), Err(DegenErrorCode::AccountMismatch));
}

#[test]
fn vault_pda_matches_the_derivation() {
    let mint = key(5);
    let initiator = key(6);
    let program = SolanaPubkey::from_str(PROGRAM_ID).unwrap();
    let (expected, bump) = SolanaPubkey::find_program_address(
        &[
            b"DEGENDEVIL_VAULT_SEED_V1.0",
            mint.to_bytes().as_ref(),
            initiator.to_bytes().as_ref(),
            program.as_ref(),
        ],
        &program,
    );
    let (found, found_bump) = vault_pda(&mint, &initiator).unwrap();
    assert_eq!(found.to_bytes(), expected.to_bytes());
    assert_eq!(found_bump, bump);
    assert_ne!(found.to_bytes(), program.to_bytes());
    assert_ne!(vault_pda(&initiator, &mint).unwrap().0, found);
}

#[test]
fn admin_bet_pda_matches_the_derivation() {
    let program = SolanaPubkey::from_str(PROGRAM_ID).unwrap();
    let (expected, bump) = SolanaPubkey::find_program_address(
        &[b"DEGENDEVIL_ADMIN_BET_V1.0", ADMIN_BYTES.as_ref()],
        &program,
    );
    let (found, found_bump) = admin_bet_pda().unwrap().unwrap();
    assert_eq!(found.to_bytes(), expected.to_bytes());
    assert_eq!(found_bump, bump);
}

#[test]
fn oracle_addresses_match_the_derivation() {
    let oracle = key(42);
    let authority = key(7);
    let solana_oracle = SolanaPubkey::new_from_array([42u8; 32]);
    let (expected_vault, vault_bump) = SolanaPubkey::find_program_address(
        &[b"VAULT", authority.to_bytes().as_ref(), solana_oracle.as_ref()],
        &solana_oracle,
    );
    let (found, found_bump) = degenrand::vault_pda(&authority, b"VAULT", &oracle).unwrap();
    assert_eq!(found.to_bytes(), expected_vault.to_bytes());
    assert_eq!(found_bump, vault_bump);
    let (expected_req, req_bump) = SolanaPubkey::find_program_address(
        &[b"REQUESTER", authority.to_bytes().as_ref()],
        &solana_oracle,
    );
    let (found, found_bump) = degenrand::requestor_pda(&authority, b"REQUESTER", &oracle).unwrap();
    assert_eq!(found.to_bytes(), expected_req.to_bytes());
    assert_eq!(found_bump, req_bump);
}

#[test]
fn long_seeds_find_no_address() {
    let oracle = key(42);
    let authority = key(7);
    assert!(degenrand::vault_pda(&authority, &[1u8; 33], &oracle).is_none());
    assert!(degenrand::requestor_pda(&authority, &[1u8; 33], &oracle).is_none());
    assert!(degenrand::requestor_pda(&authority, &[1u8; 32], &oracle).is_some());
}

#[test]
fn closing_accounts_moves_all_lamports() {
    let mut creator = 10u64;
    let mut pda = 32u64;
    degendevil::remove_pda(&mut creator, &mut pda);
    assert_eq!((creator, pda), (42, 0));
    let mut creator = 1u64;
    let mut pda = 0u64;
    degenrand::remove_pda(&mut creator, &mut pda);
    assert_eq!((creator, pda), (1, 0));
}

#[test]
fn error_messages() {
    assert_eq!(DegenErrorCode::Unauthorized.message(), "You are not authorized to complete this transaction");
    assert_eq!(DegenErrorCode::NotEnoughTokens.message(), "Not enough Tokens");
    assert_eq!(DegenErrorCode::AccountMismatch.message(), "Account Mismatch");
    assert_eq!(DegenErrorCode::OracleNotCompleted.message(), "The Oracle has not provided a response yet");
    assert_eq!(DegenErrorCode::InvalidAdminPubkey.message(), "Admin Token Pubkey Invalid");
}

#[test]
fn anchor_tags_are_digest_prefixes() {
    assert_eq!(
        degenrand::requester_discriminator(),
        hash(b"account:Requester").to_bytes()[..8].to_vec()
    );
    assert_eq!(
        degenrand::request_random_discriminator(),
        hash(b"global:request_random").to_bytes()[..8].to_vec()
    );
    assert_eq!(
        degenrand::anchor_discriminator("account", "Vault"),
        hash(b"account:Vault").to_bytes()[..8].to_vec()
    );
}
