use vstd::prelude::*;
use crate::account::{Clock, TokenAccount};
use crate::address::Address;
use crate::amount::{lemma_scaled_zero, pow10, scaled};
use crate::error::ErrorCode;
use crate::program::{custody_outcome, Destake, Stake};
use crate::stake_info::StakeInfo;

verus! {

/// The accounts of the destake that follows a stake: the record, the holding
/// and the wallet as the stake left them, with a vault and the clock of the
/// later call.
pub open spec fn destake_after(staked: Stake, token_vault: TokenAccount, clock: Clock) -> Destake
    recommends
        staked.stake_info_account is Some,
        staked.stake_account is Some,
{
    Destake {
        program_id: staked.program_id,
        signer: staked.signer,
        token_vault,
        stake_info_account: staked.stake_info_account->0,
        stake_account: staked.stake_account->0,
        user_token_account: staked.user_token_account,
        mint: staked.mint,
        clock,
    }
}

/// While a principal's stake is active, every further stake is refused with
/// `AlreadyStaked`, whatever the amount, the clock and the other accounts,
/// and changes nothing.
pub proof fn law_no_double_stake(ctx: Stake, amount: u64, derived: Option<(Address, u8)>)
    requires
        ctx.record().is_staked,
    ensures
        ctx.outcome(amount, derived) == Err::<(), ErrorCode>(ErrorCode::AlreadyStaked),
        ctx.staked(amount, derived) == ctx,
{
}

/// A stake that was accepted leaves the stake active: a second stake at any
/// later time, for any amount, is refused with `AlreadyStaked` and moves
/// nothing.
pub proof fn law_stake_twice(
    ctx: Stake,
    amount: u64,
    derived: Option<(Address, u8)>,
    later: Clock,
    second_amount: u64,
    second_derived: Option<(Address, u8)>,
)
    requires
        ctx.outcome(amount, derived) is Ok,
    ensures
        ({
            let second = Stake { clock: later, ..ctx.staked(amount, derived) };
            &&& second.outcome(second_amount, second_derived) == Err::<(), ErrorCode>(
                ErrorCode::AlreadyStaked,
            )
            &&& second.staked(second_amount, second_derived) == second
        }),
{
}

/// While a principal has no active stake, every destake is refused with
/// `NotStaked` and changes nothing.
pub proof fn law_no_double_destake(
    ctx: Destake,
    vault: Option<(Address, u8)>,
    holding: Option<(Address, u8)>,
)
    requires
        !ctx.stake_info_account.is_staked,
    ensures
        ctx.outcome(vault, holding) == Err::<(), ErrorCode>(ErrorCode::NotStaked),
        ctx.destaked(vault, holding) == ctx,
{
}

/// A destake that was accepted ends the stake: a second destake at any later
/// time is refused with `NotStaked` and moves nothing.
pub proof fn law_destake_twice(
    ctx: Destake,
    vault: Option<(Address, u8)>,
    holding: Option<(Address, u8)>,
    later: Clock,
    second_vault: Option<(Address, u8)>,
    second_holding: Option<(Address, u8)>,
)
    requires
        ctx.outcome(vault, holding) is Ok,
    ensures
        ({
            let second = Destake { clock: later, ..ctx.destaked(vault, holding) };
            &&& second.outcome(second_vault, second_holding) == Err::<(), ErrorCode>(
                ErrorCode::NotStaked,
            )
            &&& second.destaked(second_vault, second_holding) == second
        }),
{
}

/// A stake that was accepted takes exactly `amount * 10^decimals` base units
/// from the wallet and adds exactly as much to the holding; the record then
/// says staked, since the clock's time. Where the holding was empty, it then
/// holds exactly the deposit. Nothing else changes: the accounts of a stake
/// are the record, the holding and the wallet, and the vault is not among
/// them.
pub proof fn law_stake_conserves(ctx: Stake, amount: u64, derived: Option<(Address, u8)>)
    requires
        ctx.outcome(amount, derived) is Ok,
    ensures
        ({
            let after = ctx.staked(amount, derived);
            let deposit = scaled(amount, ctx.mint.decimals);
            &&& amount > 0
            &&& deposit <= u64::MAX
            &&& after.user_token_account.amount == ctx.user_token_account.amount - deposit
            &&& after.held() == ctx.held() + deposit
            &&& after.user_token_account.amount + after.held() == ctx.user_token_account.amount
                + ctx.held()
            &&& after.stake_info_account == Some(
                StakeInfo { started_at: ctx.clock.slot, is_staked: true },
            )
            &&& after.stake_account is Some
            &&& after.user_token_account == (TokenAccount {
                amount: after.user_token_account.amount,
                ..ctx.user_token_account
            })
            &&& after == (Stake {
                stake_info_account: after.stake_info_account,
                stake_account: after.stake_account,
                user_token_account: after.user_token_account,
                ..ctx
            })
        }),
{
}

/// A destake that was accepted, of a stake begun at `t0` and ended at
/// `t1 >= t0`, pays a reward of exactly `(t1 - t0) * 10^decimals` base units
/// from the vault to the wallet, returns all that the holding has to the
/// wallet, and stores the record as not staked since `t1`.
pub proof fn law_reward(ctx: Destake, vault: Option<(Address, u8)>, holding: Option<(Address, u8)>)
    requires
        ctx.outcome(vault, holding) is Ok,
    ensures
        ({
            let after = ctx.destaked(vault, holding);
            let reward = (ctx.clock.slot - ctx.stake_info_account.started_at) * pow10(
                ctx.mint.decimals as nat,
            );
            &&& ctx.clock.slot >= ctx.stake_info_account.started_at
            &&& after.token_vault.amount == ctx.token_vault.amount - reward
            &&& after.user_token_account.amount == ctx.user_token_account.amount + reward
                + ctx.stake_account.amount
            &&& after.stake_account.amount == 0
            &&& after.stake_info_account == (StakeInfo {
                started_at: ctx.clock.slot,
                is_staked: false,
            })
            &&& after.token_vault == (TokenAccount {
                amount: after.token_vault.amount,
                ..ctx.token_vault
            })
            &&& after.stake_account == (TokenAccount { amount: 0, ..ctx.stake_account })
            &&& after.user_token_account == (TokenAccount {
                amount: after.user_token_account.amount,
                ..ctx.user_token_account
            })
        }),
{
}

/// Where a stake into an empty holding was accepted and the destake that
/// follows it at a time `t1` is accepted, the wallet gets back exactly the
/// deposit of that stake, `amount * 10^decimals`, and on top of it the reward
/// for the time from the stake to `t1`.
pub proof fn law_deposit_returned(
    ctx: Stake,
    amount: u64,
    derived: Option<(Address, u8)>,
    token_vault: TokenAccount,
    vault: Option<(Address, u8)>,
    later: Clock,
)
    requires
        ctx.held() == 0,
        ctx.outcome(amount, derived) is Ok,
        destake_after(ctx.staked(amount, derived), token_vault, later).outcome(vault, derived) is Ok,
    ensures
        ({
            let staked = ctx.staked(amount, derived);
            let after = destake_after(staked, token_vault, later).destaked(vault, derived);
            let deposit = scaled(amount, ctx.mint.decimals);
            let reward = (later.slot - ctx.clock.slot) * pow10(ctx.mint.decimals as nat);
            &&& later.slot >= ctx.clock.slot
            &&& staked.held() == deposit
            &&& after.user_token_account.amount == staked.user_token_account.amount + deposit
                + reward
            &&& after.user_token_account.amount == ctx.user_token_account.amount + reward
            &&& after.token_vault.amount == token_vault.amount - reward
            &&& after.stake_account.amount == 0
            &&& !after.stake_info_account.is_staked
        }),
{
}

/// A stake into an empty holding and a destake at the same time undo each
/// other: with a valid vault the destake is accepted, the wallet gets back
/// exactly `amount * 10^decimals` and holds what it held before the stake, no
/// reward is paid, and the record says not staked.
pub proof fn law_round_trip(
    ctx: Stake,
    amount: u64,
    derived: Option<(Address, u8)>,
    token_vault: TokenAccount,
    vault: Option<(Address, u8)>,
)
    requires
        ctx.held() == 0,
        ctx.outcome(amount, derived) is Ok,
        custody_outcome(token_vault, vault, ctx.mint.address) is Ok,
    ensures
        ({
            let staked = ctx.staked(amount, derived);
            let again = destake_after(staked, token_vault, ctx.clock);
            let after = again.destaked(vault, derived);
            &&& again.outcome(vault, derived) is Ok
            &&& after.user_token_account.amount == staked.user_token_account.amount + scaled(
                amount,
                ctx.mint.decimals,
            )
            &&& after.user_token_account == ctx.user_token_account
            &&& after.token_vault == token_vault
            &&& after.stake_account.amount == 0
            &&& after.stake_info_account == (StakeInfo {
                started_at: ctx.clock.slot,
                is_staked: false,
            })
        }),
{
    lemma_scaled_zero(ctx.mint.decimals);
}

/// With no stake active, a stake of an amount whose `amount * 10^decimals`
/// exceeds 64 bits is refused with `Overflow` and moves nothing.
pub proof fn law_overflow_guard(ctx: Stake, amount: u64, derived: Option<(Address, u8)>)
    requires
        !ctx.record().is_staked,
        scaled(amount, ctx.mint.decimals) > u64::MAX,
    ensures
        ctx.outcome(amount, derived) == Err::<(), ErrorCode>(ErrorCode::Overflow),
        ctx.staked(amount, derived) == ctx,
{
    if amount == 0 {
        lemma_scaled_zero(ctx.mint.decimals);
    }
}

} // verus!
