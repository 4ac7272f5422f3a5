use vstd::prelude::*;
use crate::address::Address;
use crate::error::ErrorCode;

verus! {

/// A token: its address and the number of decimal places of its display amounts.
#[derive(Clone, Copy, Debug, PartialEq, Eq)]
pub struct Mint {
    pub address: Address,
    pub decimals: u8,
}

/// The ledger's clock: a counter of time units that never goes back.
#[derive(Clone, Copy, Debug, PartialEq, Eq)]
pub struct Clock {
    pub slot: u64,
}

/// A custody account: a balance in base units of one token, which only its
/// owner can debit.
#[derive(Clone, Copy, Debug, PartialEq, Eq)]
pub struct TokenAccount {
    pub address: Address,
    pub mint: Address,
    pub owner: Address,
    pub amount: u64,
}

impl TokenAccount {
    /// The account with `amount` less.
    pub open spec fn debited(self, amount: u64) -> TokenAccount
        recommends
            amount <= self.amount,
    {
        TokenAccount { amount: (self.amount - amount) as u64, ..self }
    }

    /// The account with `amount` more.
    pub open spec fn credited(self, amount: u64) -> TokenAccount
        recommends
            self.amount + amount <= u64::MAX,
    {
        TokenAccount { amount: (self.amount + amount) as u64, ..self }
    }

    /// An empty account at `address` that is its own owner, so that only the
    /// program that derives `address` can debit it.
    pub fn custody(address: Address, mint: Address) -> (account: TokenAccount)
        ensures
            account == (TokenAccount { address, mint, owner: address, amount: 0 }),
    {
        TokenAccount { address, mint, owner: address, amount: 0 }
    }
}

/// Whether the ledger accepts a transfer, and why not.
pub open spec fn transfer_outcome(
    from: TokenAccount,
    to: TokenAccount,
    authority: Address,
    amount: u64,
) -> Result<(), ErrorCode> {
    if authority != from.owner {
        Err(ErrorCode::Unauthorized)
    } else if from.mint != to.mint {
        Err(ErrorCode::MintMismatch)
    } else if from.amount < amount {
        Err(ErrorCode::InsufficientFunds)
    } else if to.amount + amount > u64::MAX {
        Err(ErrorCode::Overflow)
    } else {
        Ok(())
    }
}

/// Moves `amount` base units from one account to another, on the word of
/// `authority`.
///
/// The transfer is refused, and both accounts stay as they are, where
/// `authority` is not the owner of `from`, where the accounts hold different
/// tokens, where `from` holds less than `amount`, or where `to` would hold
/// more than 64 bits can count.
pub fn transfer(
    from: &mut TokenAccount,
    to: &mut TokenAccount,
    authority: &Address,
    amount: u64,
) -> (r: Result<(), ErrorCode>)
    ensures
        r == transfer_outcome(*old(from), *old(to), *authority, amount),
        r is Ok ==> *final(from) == old(from).debited(amount) && *final(to) == old(to).credited(
            amount,
        ),
        r is Err ==> *final(from) == *old(from) && *final(to) == *old(to),
{
    if !authority.same(&from.owner) {
        return Err(ErrorCode::Unauthorized);
    }
    if !from.mint.same(&to.mint) {
        return Err(ErrorCode::MintMismatch);
    }
    if from.amount < amount {
        return Err(ErrorCode::InsufficientFunds);
    }
    match to.amount.checked_add(amount) {
        None => Err(ErrorCode::Overflow),
        Some(sum) => {
            from.amount = from.amount - amount;
            to.amount = sum;
            Ok(())
        },
    }
}

} // verus!
