use degendevil::degenrand::{load_requester, OracleAccountError, RequesterLayout};
use degendevil::Pubkey;

const TAG: [u8; 8] = [1, 2, 3, 4, 5, 6, 7, 8];

fn layout() -> RequesterLayout {
    RequesterLayout { record_len: 100, random_offset: 10, active_offset: 80 }
}

fn account(active: u8) -> Vec<u8> {
    let mut data = TAG.to_vec();
    let mut record = vec![0u8; 100];
    for (i, b) in record[10..74].iter_mut().enumerate() {
        *b = i as u8;
    }
    record[80] = active;
    data.extend(record);
    data
}

#[test]
fn reads_the_record() {
    let oracle = Pubkey::new_from_array([9u8; 32]);
    let state = load_requester(&oracle, &account(0), &oracle, &TAG, &layout()).unwrap().unwrap();
    assert!(!state.active_request);
    assert_eq!(state.random, (0u8..64).collect::<Vec<u8>>());
    let open = load_requester(&oracle, &account(1), &oracle, &TAG, &layout()).unwrap().unwrap();
    assert!(open.active_request);
}

#[test]
fn refuses_in_order() {
    let oracle = Pubkey::new_from_array([9u8; 32]);
    let stranger = Pubkey::new_from_array([3u8; 32]);
    let refused = load_requester(&stranger, &[0u8; 2], &oracle, &TAG, &layout());
    assert_eq!(refused.unwrap().unwrap_err(), OracleAccountError::AccountOwnedByWrongProgram);
    let short = load_requester(&oracle, &[1u8, 2], &oracle, &TAG, &layout());
    assert_eq!(short.unwrap().unwrap_err(), OracleAccountError::AccountDiscriminatorNotFound);
    let mut forged = account(0);
    forged[0] = 99;
    let mismatch = load_requester(&oracle, &forged, &oracle, &TAG, &layout());
    assert_eq!(mismatch.unwrap().unwrap_err(), OracleAccountError::AccountDiscriminatorMismatch);
    let truncated = account(0)[..50].to_vec();
    assert!(load_requester(&oracle, &truncated, &oracle, &TAG, &layout()).is_none());
}
