use vstd::prelude::*;

verus! {

/// Why an instruction of the program is refused.
#[derive(Clone, Copy, Debug, PartialEq, Eq, Structural)]
pub enum DegenErrorCode {
    Unauthorized,
    AlreadyCompleted,
    InflightRequest,
    OracleNotCompleted,
    InvalidAdminPubkey,
    NotEnoughTokens,
    FallBacked,
    AccountMismatch,
}

/// The message that goes with each error.
pub open spec fn error_message(code: DegenErrorCode) -> Seq<char> {
    match code {
        DegenErrorCode::Unauthorized => "You are not authorized to complete this transaction"@,
        DegenErrorCode::AlreadyCompleted => "The coin is has already been flipped"@,
        DegenErrorCode::InflightRequest => "A coin is already flipping. Only one flip may be made at a time"@,
        DegenErrorCode::OracleNotCompleted => "The Oracle has not provided a response yet"@,
        DegenErrorCode::InvalidAdminPubkey => "Admin Token Pubkey Invalid"@,
        DegenErrorCode::NotEnoughTokens => "Not enough Tokens"@,
        DegenErrorCode::FallBacked => "Failed to understand Instruction"@,
        DegenErrorCode::AccountMismatch => "Account Mismatch"@,
    }
}

impl DegenErrorCode {
    /// The message that goes with this error.
    pub fn message(&self) -> (text: &'static str)
        ensures
            text@ == error_message(*self),
    {
        match self {
            DegenErrorCode::Unauthorized => "You are not authorized to complete this transaction",
            DegenErrorCode::AlreadyCompleted => "The coin is has already been flipped",
            DegenErrorCode::InflightRequest => "A coin is already flipping. Only one flip may be made at a time",
            DegenErrorCode::OracleNotCompleted => "The Oracle has not provided a response yet",
            DegenErrorCode::InvalidAdminPubkey => "Admin Token Pubkey Invalid",
            DegenErrorCode::NotEnoughTokens => "Not enough Tokens",
            DegenErrorCode::FallBacked => "Failed to understand Instruction",
            DegenErrorCode::AccountMismatch => "Account Mismatch",
        }
    }
}

} // verus!
