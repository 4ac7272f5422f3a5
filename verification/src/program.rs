use vstd::prelude::*;
use crate::account::{transfer, transfer_outcome, Clock, Mint, TokenAccount};
use crate::address::{
    program_address, stake_account_address, stake_account_seeds, vault_address, vault_seeds,
    Address,
};
use crate::error::ErrorCode;
use crate::stake_info::StakeInfo;

verus! {

/// The accounts of a call of `initialize`.
#[derive(Clone, Copy, Debug, PartialEq, Eq)]
pub struct Initialize {
    pub program_id: Address,
    pub signer: Address,
    /// The vault, or `None` while it does not exist.
    pub token_vault: Option<TokenAccount>,
    pub mint: Mint,
}

/// The accounts of a call of `stake`.
#[derive(Clone, Copy, Debug, PartialEq, Eq)]
pub struct Stake {
    pub program_id: Address,
    /// The principal, who authorizes the call.
    pub signer: Address,
    /// The principal's stake record, or `None` before the first stake.
    pub stake_info_account: Option<StakeInfo>,
    /// The principal's stake holding, or `None` before the first stake.
    pub stake_account: Option<TokenAccount>,
    /// The principal's wallet.
    pub user_token_account: TokenAccount,
    pub mint: Mint,
    pub clock: Clock,
}

/// The accounts of a call of `destake`.
#[derive(Clone, Copy, Debug, PartialEq, Eq)]
pub struct Destake {
    pub program_id: Address,
    /// The principal, who authorizes the call.
    pub signer: Address,
    pub token_vault: TokenAccount,
    pub stake_info_account: StakeInfo,
    pub stake_account: TokenAccount,
    /// The principal's wallet.
    pub user_token_account: TokenAccount,
    pub mint: Mint,
    pub clock: Clock,
}

/// The authority over `account`, where it is the custody account of `mint`
/// that the program owns at the address `derived`, and why it is not.
pub open spec fn custody_outcome(
    account: TokenAccount,
    derived: Option<(Address, u8)>,
    mint: Address,
) -> Result<Address, ErrorCode> {
    match derived {
        None => Err(ErrorCode::InvalidAddress),
        Some((address, _)) => if account.address != address {
            Err(ErrorCode::InvalidAddress)
        } else if account.owner != address {
            Err(ErrorCode::Unauthorized)
        } else if account.mint != mint {
            Err(ErrorCode::MintMismatch)
        } else {
            Ok(address)
        },
    }
}

/// Checks that `account` is the custody account of `mint` that the program
/// owns at the address `derived`: that it lies at that address, that the
/// address is its owner, and that it holds `mint`. Returns the address, on
/// whose authority the program can then debit the account.
pub fn check_custody(account: &TokenAccount, derived: Option<(Address, u8)>, mint: &Address) -> (r:
    Result<Address, ErrorCode>)
    ensures
        r == custody_outcome(*account, derived, *mint),
{
    match derived {
        None => Err(ErrorCode::InvalidAddress),
        Some((address, _)) => {
            if !account.address.same(&address) {
                Err(ErrorCode::InvalidAddress)
            } else if !account.owner.same(&address) {
                Err(ErrorCode::Unauthorized)
            } else if !account.mint.same(mint) {
                Err(ErrorCode::MintMismatch)
            } else {
                Ok(address)
            }
        },
    }
}

impl Initialize {
    /// Whether the vault can be provided at the address `derived`, and why not.
    pub open spec fn outcome(self, derived: Option<(Address, u8)>) -> Result<(), ErrorCode> {
        match self.token_vault {
            Some(vault) => match custody_outcome(vault, derived, self.mint.address) {
                Ok(_) => Ok(()),
                Err(e) => Err(e),
            },
            None => match derived {
                Some(_) => Ok(()),
                None => Err(ErrorCode::InvalidAddress),
            },
        }
    }

    /// The accounts after the call.
    pub open spec fn initialized(self, derived: Option<(Address, u8)>) -> Initialize {
        match (self.token_vault, derived) {
            (None, Some((address, _))) => Initialize {
                token_vault: Some(
                    TokenAccount { address, mint: self.mint.address, owner: address, amount: 0 },
                ),
                ..self
            },
            _ => self,
        }
    }
}

impl Stake {
    /// The principal's record: the stored one, or that of a principal that
    /// has never staked.
    pub open spec fn record(self) -> StakeInfo {
        match self.stake_info_account {
            Some(record) => record,
            None => StakeInfo { started_at: 0, is_staked: false },
        }
    }

    /// The principal's holding: the existing one, or an empty one at `address`.
    pub open spec fn holding(self, address: Address) -> TokenAccount {
        match self.stake_account {
            Some(holding) => holding,
            None => TokenAccount { address, mint: self.mint.address, owner: address, amount: 0 },
        }
    }

    /// The balance of the principal's holding.
    pub open spec fn held(self) -> u64 {
        match self.stake_account {
            Some(holding) => holding.amount,
            None => 0,
        }
    }

    /// Whether a stake of `amount` whole tokens is accepted, with the holding
    /// at the address `derived`, and why not.
    pub open spec fn outcome(self, amount: u64, derived: Option<(Address, u8)>) -> Result<
        (),
        ErrorCode,
    > {
        match self.record().stake_order(amount, self.mint.decimals, self.clock.slot) {
            Err(e) => Err(e),
            Ok(order) => match derived {
                None => Err(ErrorCode::InvalidAddress),
                Some((address, _)) => match custody_outcome(
                    self.holding(address),
                    derived,
                    self.mint.address,
                ) {
                    Err(e) => Err(e),
                    Ok(_) => transfer_outcome(
                        self.user_token_account,
                        self.holding(address),
                        self.signer,
                        order.base_amount,
                    ),
                },
            },
        }
    }

    /// The accounts after the call: as before where the stake is refused.
    pub open spec fn staked(self, amount: u64, derived: Option<(Address, u8)>) -> Stake {
        match (
            self.outcome(amount, derived),
            self.record().stake_order(amount, self.mint.decimals, self.clock.slot),
            derived,
        ) {
            (Ok(()), Ok(order), Some((address, _))) => Stake {
                stake_info_account: Some(order.record),
                stake_account: Some(self.holding(address).credited(order.base_amount)),
                user_token_account: self.user_token_account.debited(order.base_amount),
                ..self
            },
            _ => self,
        }
    }
}

impl Destake {
    /// Whether a destake is accepted, with the vault and the holding at the
    /// addresses derived for them, and why not.
    pub open spec fn outcome(
        self,
        vault: Option<(Address, u8)>,
        holding: Option<(Address, u8)>,
    ) -> Result<(), ErrorCode> {
        match self.stake_info_account.destake_order(
            self.mint.decimals,
            self.clock.slot,
            self.token_vault.amount,
            self.stake_account.amount,
        ) {
            Err(e) => Err(e),
            Ok(order) => match custody_outcome(self.token_vault, vault, self.mint.address) {
                Err(e) => Err(e),
                Ok(vault_authority) => match custody_outcome(
                    self.stake_account,
                    holding,
                    self.mint.address,
                ) {
                    Err(e) => Err(e),
                    Ok(holding_authority) => match transfer_outcome(
                        self.token_vault,
                        self.user_token_account,
                        vault_authority,
                        order.reward,
                    ) {
                        Err(e) => Err(e),
                        Ok(()) => transfer_outcome(
                            self.stake_account,
                            self.user_token_account.credited(order.reward),
                            holding_authority,
                            order.principal,
                        ),
                    },
                },
            },
        }
    }

    /// The accounts after the call: as before where the destake is refused.
    pub open spec fn destaked(
        self,
        vault: Option<(Address, u8)>,
        holding: Option<(Address, u8)>,
    ) -> Destake {
        match (
            self.outcome(vault, holding),
            self.stake_info_account.destake_order(
                self.mint.decimals,
                self.clock.slot,
                self.token_vault.amount,
                self.stake_account.amount,
            ),
        ) {
            (Ok(()), Ok(order)) => Destake {
                token_vault: self.token_vault.debited(order.reward),
                stake_info_account: order.record,
                stake_account: self.stake_account.debited(order.principal),
                user_token_account: self.user_token_account.credited(order.reward).credited(
                    order.principal,
                ),
                ..self
            },
            _ => self,
        }
    }
}

/// Provides the vault at the address `derived`.
///
/// Where the vault does not exist, it is created empty at that address, for
/// the token of the call and as its own owner. Where it exists, it is checked
/// and left as it is. Nothing changes where the call is refused.
pub fn initialize_with(ctx: &mut Initialize, derived: Option<(Address, u8)>) -> (r: Result<
    (),
    ErrorCode,
>)
    ensures
        r == old(ctx).outcome(derived),
        *final(ctx) == old(ctx).initialized(derived),
        r is Err ==> *final(ctx) == *old(ctx),
        old(ctx).token_vault is Some ==> *final(ctx) == *old(ctx),
{
    match ctx.token_vault {
        Some(vault) => match check_custody(&vault, derived, &ctx.mint.address) {
            Ok(_) => Ok(()),
            Err(e) => Err(e),
        },
        None => match derived {
            None => Err(ErrorCode::InvalidAddress),
            Some((address, _)) => {
                ctx.token_vault = Some(TokenAccount::custody(address, ctx.mint.address));
                Ok(())
            },
        },
    }
}

/// Provides the vault of the program: `initialize_with` at the address that
/// the ledger derives from the vault's seed.
pub fn initialize(ctx: &mut Initialize) -> (r: Result<(), ErrorCode>)
    ensures
        r == old(ctx).outcome(program_address(vault_seeds(), old(ctx).program_id@)),
        *final(ctx) == old(ctx).initialized(program_address(vault_seeds(), old(ctx).program_id@)),
{
    let derived = vault_address(&ctx.program_id);
    initialize_with(ctx, derived)
}

/// Stakes `amount` whole tokens of the principal, with the holding at the
/// address `derived`.
///
/// The stake is decided as `StakeInfo::plan_stake` says. Then the holding is
/// checked, or created where it does not exist; the deposit,
/// `amount * 10^decimals` base units, moves from the wallet to the holding on
/// the principal's authority; and the record is stored as staked at the
/// clock's time. Nothing changes where the call is refused.
pub fn stake_with(ctx: &mut Stake, amount: u64, derived: Option<(Address, u8)>) -> (r: Result<
    (),
    ErrorCode,
>)
    ensures
        r == old(ctx).outcome(amount, derived),
        *final(ctx) == old(ctx).staked(amount, derived),
        r is Err ==> *final(ctx) == *old(ctx),
        old(ctx).record().is_staked ==> r == Err::<(), ErrorCode>(ErrorCode::AlreadyStaked),
{
    let record = match ctx.stake_info_account {
        Some(record) => record,
        None => StakeInfo::default(),
    };
    let order = match record.plan_stake(amount, ctx.mint.decimals, ctx.clock.slot) {
        Err(e) => {
            return Err(e);
        },
        Ok(order) => order,
    };
    let address = match derived {
        None => {
            return Err(ErrorCode::InvalidAddress);
        },
        Some((address, _)) => address,
    };
    let mut holding = match ctx.stake_account {
        Some(holding) => holding,
        None => TokenAccount::custody(address, ctx.mint.address),
    };
    match check_custody(&holding, derived, &ctx.mint.address) {
        Err(e) => {
            return Err(e);
        },
        Ok(_) => {},
    }
    let mut wallet = ctx.user_token_account;
    match transfer(&mut wallet, &mut holding, &ctx.signer, order.base_amount) {
        Err(e) => Err(e),
        Ok(()) => {
            ctx.stake_info_account = Some(order.record);
            ctx.stake_account = Some(holding);
            ctx.user_token_account = wallet;
            Ok(())
        },
    }
}

/// Stakes `amount` whole tokens of the principal: `stake_with` at the address
/// that the ledger derives from the holding's seed and the principal.
pub fn stake(ctx: &mut Stake, amount: u64) -> (r: Result<(), ErrorCode>)
    ensures
        r == old(ctx).outcome(
            amount,
            program_address(stake_account_seeds(old(ctx).signer), old(ctx).program_id@),
        ),
        *final(ctx) == old(ctx).staked(
            amount,
            program_address(stake_account_seeds(old(ctx).signer), old(ctx).program_id@),
        ),
        old(ctx).record().is_staked ==> r == Err::<(), ErrorCode>(ErrorCode::AlreadyStaked)
            && *final(ctx) == *old(ctx),
{
    let derived = stake_account_address(&ctx.program_id, &ctx.signer);
    stake_with(ctx, amount, derived)
}

/// Ends the principal's stake, with the vault and the holding at the
/// addresses derived for them.
///
/// The destake is decided as `StakeInfo::plan_destake` says. Then the vault
/// and the holding are checked; the reward moves from the vault to the
/// wallet, and all that the holding has moves to the wallet, both on the
/// program's authority; and the record is stored as not staked at the clock's
/// time. Nothing changes where the call is refused.
pub fn destake_with(
    ctx: &mut Destake,
    vault: Option<(Address, u8)>,
    holding: Option<(Address, u8)>,
) -> (r: Result<(), ErrorCode>)
    ensures
        r == old(ctx).outcome(vault, holding),
        *final(ctx) == old(ctx).destaked(vault, holding),
        r is Err ==> *final(ctx) == *old(ctx),
        !old(ctx).stake_info_account.is_staked ==> r == Err::<(), ErrorCode>(ErrorCode::NotStaked),
{
    let order = match ctx.stake_info_account.plan_destake(
        ctx.mint.decimals,
        ctx.clock.slot,
        ctx.token_vault.amount,
        ctx.stake_account.amount,
    ) {
        Err(e) => {
            return Err(e);
        },
        Ok(order) => order,
    };
    let vault_authority = match check_custody(&ctx.token_vault, vault, &ctx.mint.address) {
        Err(e) => {
            return Err(e);
        },
        Ok(authority) => authority,
    };
    let holding_authority = match check_custody(&ctx.stake_account, holding, &ctx.mint.address) {
        Err(e) => {
            return Err(e);
        },
        Ok(authority) => authority,
    };
    let mut reserve = ctx.token_vault;
    let mut held = ctx.stake_account;
    let mut wallet = ctx.user_token_account;
    match transfer(&mut reserve, &mut wallet, &vault_authority, order.reward) {
        Err(e) => {
            return Err(e);
        },
        Ok(()) => {},
    }
    match transfer(&mut held, &mut wallet, &holding_authority, order.principal) {
        Err(e) => Err(e),
        Ok(()) => {
            ctx.token_vault = reserve;
            ctx.stake_info_account = order.record;
            ctx.stake_account = held;
            ctx.user_token_account = wallet;
            Ok(())
        },
    }
}

/// Ends the principal's stake: `destake_with` at the addresses that the
/// ledger derives from the vault's seed, and from the holding's seed and the
/// principal.
pub fn destake(ctx: &mut Destake) -> (r: Result<(), ErrorCode>)
    ensures
        r == old(ctx).outcome(
            program_address(vault_seeds(), old(ctx).program_id@),
            program_address(stake_account_seeds(old(ctx).signer), old(ctx).program_id@),
        ),
        *final(ctx) == old(ctx).destaked(
            program_address(vault_seeds(), old(ctx).program_id@),
            program_address(stake_account_seeds(old(ctx).signer), old(ctx).program_id@),
        ),
        !old(ctx).stake_info_account.is_staked ==> r == Err::<(), ErrorCode>(ErrorCode::NotStaked)
            && *final(ctx) == *old(ctx),
{
    let vault = vault_address(&ctx.program_id);
    let holding = stake_account_address(&ctx.program_id, &ctx.signer);
    destake_with(ctx, vault, holding)
}

} // verus!
