use vstd::prelude::*;

use crate::key::Pubkey;

verus! {

/// What a pending flip staked: who flipped, the tokens and the lamports put
/// in, and the multiplier (in hundredths) that a win pays.
#[derive(Clone, Copy, Debug, PartialEq)]
pub struct CoinInfo {
    pub initiator: Pubkey,
    pub amount: u64,
    pub sol_amount: u64,
    pub multiplier: u64,
}

/// The house's table: four bet sizes and the fee that goes with each.
#[derive(Clone, Copy, Debug, PartialEq, Eq, Structural)]
pub struct Bet {
    pub fee_finality: u64,
    pub fee_epoch: u64,
    pub fee_cluster: u64,
    pub fee_lamport: u64,
    pub amount_finality: u64,
    pub amount_epoch: u64,
    pub amount_cluster: u64,
    pub amount_lamport: u64,
}

/// The account that holds a pending flip.
#[derive(Clone, Copy, Debug, PartialEq)]
pub struct Vault {
    pub coin_info: CoinInfo,
}

/// The all-zero table.
pub open spec fn empty_bet() -> Bet {
    Bet {
        fee_finality: 0,
        fee_epoch: 0,
        fee_cluster: 0,
        fee_lamport: 0,
        amount_finality: 0,
        amount_epoch: 0,
        amount_cluster: 0,
        amount_lamport: 0,
    }
}

impl Default for Bet {
    fn default() -> (bet: Bet)
        ensures
            bet == empty_bet(),
    {
        Bet {
            fee_finality: 0,
            fee_epoch: 0,
            fee_cluster: 0,
            fee_lamport: 0,
            amount_finality: 0,
            amount_epoch: 0,
            amount_cluster: 0,
            amount_lamport: 0,
        }
    }
}

/// The flip record of a freshly made account: every byte zero.
pub open spec fn is_empty_coin_info(info: CoinInfo) -> bool {
    &&& info.initiator@ == Seq::new(32, |_i: int| 0u8)
    &&& info.amount == 0
    &&& info.sol_amount == 0
    &&& info.multiplier == 0
}

impl Default for CoinInfo {
    fn default() -> (info: CoinInfo)
        ensures
            is_empty_coin_info(info),
    {
        let info = CoinInfo {
            initiator: Pubkey { bytes: [0u8; 32] },
            amount: 0,
            sol_amount: 0,
            multiplier: 0,
        };
        assert(info.initiator@ =~= Seq::new(32, |_i: int| 0u8));
        info
    }
}

impl Default for Vault {
    fn default() -> (vault: Vault)
        ensures
            is_empty_coin_info(vault.coin_info),
    {
        Vault { coin_info: CoinInfo::default() }
    }
}

} // verus!
