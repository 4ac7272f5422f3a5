use vstd::prelude::*;

verus! {

/// Why an operation of the ledger was refused.
#[derive(Clone, Copy, Debug, PartialEq, Eq, Structural)]
pub enum ErrorCode {
    /// The principal already has an active stake.
    AlreadyStaked,
    /// The principal has no active stake.
    NotStaked,
    /// The amount to stake is zero.
    ZeroAmount,
    /// An amount does not fit in 64 bits.
    Overflow,
    /// The clock reads earlier than the start of the stake.
    Underflow,
    /// The vault holds less than the reward that is due.
    InsufficientVaultReserve,
    /// The account to debit holds less than the amount to move.
    InsufficientFunds,
    /// The authority given for a transfer is not the owner of the account to debit.
    Unauthorized,
    /// Two accounts of one operation hold different tokens.
    MintMismatch,
    /// An account is not at the address derived for it, or no address can be derived.
    InvalidAddress,
}

impl ErrorCode {
    /// The text shown to a caller for this error.
    pub open spec fn message_text(self) -> Seq<char> {
        match self {
            ErrorCode::AlreadyStaked => "Tokens are already staked."@,
            ErrorCode::NotStaked => "Tokens are not staked."@,
            ErrorCode::ZeroAmount => "No Tokens to stake"@,
            ErrorCode::Overflow => "Amount exceeds the 64-bit range."@,
            ErrorCode::Underflow => "Clock is behind the start of the stake."@,
            ErrorCode::InsufficientVaultReserve => "Vault reserve is below the reward."@,
            ErrorCode::InsufficientFunds => "Account balance is below the amount."@,
            ErrorCode::Unauthorized => "Authority does not own the account."@,
            ErrorCode::MintMismatch => "Accounts hold different tokens."@,
            ErrorCode::InvalidAddress => "Account is not at its derived address."@,
        }
    }

    pub fn message(&self) -> (text: String)
        ensures
            text@ == self.message_text(),
    {
        let text: &str = match self {
            ErrorCode::AlreadyStaked => "Tokens are already staked.",
            ErrorCode::NotStaked => "Tokens are not staked.",
            ErrorCode::ZeroAmount => "No Tokens to stake",
            ErrorCode::Overflow => "Amount exceeds the 64-bit range.",
            ErrorCode::Underflow => "Clock is behind the start of the stake.",
            ErrorCode::InsufficientVaultReserve => "Vault reserve is below the reward.",
            ErrorCode::InsufficientFunds => "Account balance is below the amount.",
            ErrorCode::Unauthorized => "Authority does not own the account.",
            ErrorCode::MintMismatch => "Accounts hold different tokens.",
            ErrorCode::InvalidAddress => "Account is not at its derived address.",
        };
        text.to_owned()
    }
}

} // verus!
