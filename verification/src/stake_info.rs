use vstd::prelude::*;
use crate::amount::{scaled, to_base_units};
use crate::error::ErrorCode;

verus! {

/// The stake record of one principal.
#[derive(Clone, Copy, Debug, PartialEq, Eq, Structural)]
pub struct StakeInfo {
    /// The time unit at which the record last changed state.
    pub started_at: u64,
    /// Whether the principal has an active stake.
    pub is_staked: bool,
}

impl Default for StakeInfo {
    /// The record of a principal that has never staked.
    fn default() -> (record: StakeInfo)
        ensures
            record == (StakeInfo { started_at: 0, is_staked: false }),
    {
        StakeInfo { started_at: 0, is_staked: false }
    }
}

/// What a stake that was accepted asks for: the deposit to move into the
/// holding, and the record to store.
#[derive(Clone, Copy, Debug, PartialEq, Eq, Structural)]
pub struct StakeOrder {
    pub base_amount: u64,
    pub record: StakeInfo,
}

/// What a destake that was accepted asks for: the reward to pay from the
/// vault, the deposit to return from the holding, and the record to store.
#[derive(Clone, Copy, Debug, PartialEq, Eq, Structural)]
pub struct DestakeOrder {
    pub reward: u64,
    pub principal: u64,
    pub record: StakeInfo,
}

impl StakeInfo {
    /// The decision on a request to stake `amount` whole tokens at time `now`.
    pub open spec fn stake_order(self, amount: u64, decimals: u8, now: u64) -> Result<
        StakeOrder,
        ErrorCode,
    > {
        if self.is_staked {
            Err(ErrorCode::AlreadyStaked)
        } else if amount == 0 {
            Err(ErrorCode::ZeroAmount)
        } else if scaled(amount, decimals) > u64::MAX {
            Err(ErrorCode::Overflow)
        } else {
            Ok(
                StakeOrder {
                    base_amount: scaled(amount, decimals) as u64,
                    record: StakeInfo { started_at: now, is_staked: true },
                },
            )
        }
    }

    /// The decision on a request to destake at time `now`, with the vault
    /// holding `reserve` and the principal's holding `held`.
    pub open spec fn destake_order(self, decimals: u8, now: u64, reserve: u64, held: u64) -> Result<
        DestakeOrder,
        ErrorCode,
    > {
        if !self.is_staked {
            Err(ErrorCode::NotStaked)
        } else if now < self.started_at {
            Err(ErrorCode::Underflow)
        } else if scaled((now - self.started_at) as u64, decimals) > u64::MAX {
            Err(ErrorCode::Overflow)
        } else if reserve < scaled((now - self.started_at) as u64, decimals) {
            Err(ErrorCode::InsufficientVaultReserve)
        } else {
            Ok(
                DestakeOrder {
                    reward: scaled((now - self.started_at) as u64, decimals) as u64,
                    principal: held,
                    record: StakeInfo { started_at: now, is_staked: false },
                },
            )
        }
    }

    /// Decides on a request to stake `amount` whole tokens of a token with
    /// `decimals` decimal places at time `now`.
    ///
    /// Refused with `AlreadyStaked` where a stake is active, else with
    /// `ZeroAmount` where `amount` is zero, else with `Overflow` where
    /// `amount * 10^decimals` exceeds 64 bits.
    pub fn plan_stake(&self, amount: u64, decimals: u8, now: u64) -> (r: Result<
        StakeOrder,
        ErrorCode,
    >)
        ensures
            r == self.stake_order(amount, decimals, now),
    {
        if self.is_staked {
            return Err(ErrorCode::AlreadyStaked);
        }
        if amount == 0 {
            return Err(ErrorCode::ZeroAmount);
        }
        match to_base_units(amount, decimals) {
            Err(e) => Err(e),
            Ok(base_amount) => Ok(
                StakeOrder { base_amount, record: StakeInfo { started_at: now, is_staked: true } },
            ),
        }
    }

    /// Decides on a request to destake at time `now`.
    ///
    /// The reward is one whole token, `10^decimals` base units, for each time
    /// unit since the stake began. Refused with `NotStaked` where no stake is
    /// active, else with `Underflow` where `now` is before the start, else
    /// with `Overflow` where the reward exceeds 64 bits, else with
    /// `InsufficientVaultReserve` where the reward exceeds `reserve`.
    pub fn plan_destake(&self, decimals: u8, now: u64, reserve: u64, held: u64) -> (r: Result<
        DestakeOrder,
        ErrorCode,
    >)
        ensures
            r == self.destake_order(decimals, now, reserve, held),
    {
        if !self.is_staked {
            return Err(ErrorCode::NotStaked);
        }
        if now < self.started_at {
            return Err(ErrorCode::Underflow);
        }
        let elapsed: u64 = now - self.started_at;
        match to_base_units(elapsed, decimals) {
            Err(e) => Err(e),
            Ok(reward) => {
                if reserve < reward {
                    Err(ErrorCode::InsufficientVaultReserve)
                } else {
                    Ok(
                        DestakeOrder {
                            reward,
                            principal: held,
                            record: StakeInfo { started_at: now, is_staked: false },
                        },
                    )
                }
            },
        }
    }
}

} // verus!
