use vstd::prelude::*;

use crate::error::TipJarError;
use crate::pubkey::Pubkey;

verus! {

/// The record a vault keeps: who controls it, and how much was ever deposited.
#[derive(Clone, Copy, Debug)]
pub struct TipVault {
    /// The only identity that may withdraw.
    pub owner: Pubkey,
    /// Lamports ever deposited; withdrawals leave it as it is.
    pub total_tips: u64,
}

/// A vault's record together with the lamports it currently holds.
#[derive(Clone, Copy, Debug)]
pub struct VaultAccount {
    pub data: TipVault,
    /// The spendable balance.
    pub lamports: u64,
}

/// The accounts of a vault's creation: the vault's slot and the signer who will own it.
#[derive(Clone, Copy, Debug)]
pub struct InitVault {
    pub vault: VaultAccount,
    pub owner: Pubkey,
}

/// The accounts of a deposit: the vault and the signer who pays.
#[derive(Clone, Copy, Debug)]
pub struct SendTip {
    pub vault: VaultAccount,
    pub tipper: Pubkey,
}

/// The accounts of a withdrawal: the vault and the signer who asks for the lamports.
#[derive(Clone, Copy, Debug)]
pub struct Withdraw {
    pub vault: VaultAccount,
    pub owner: Pubkey,
}

/// A freshly created vault of `owner`: nothing deposited, nothing held.
pub open spec fn created(owner: Pubkey) -> VaultAccount {
    VaultAccount { data: TipVault { owner, total_tips: 0 }, lamports: 0 }
}

/// What a deposit of `amount` makes of `v`, or why it is refused.
/// The depositor's identity plays no part.
pub open spec fn tip_outcome(v: VaultAccount, amount: u64) -> Result<VaultAccount, TipJarError> {
    if amount == 0 {
        Err(TipJarError::InvalidAmount)
    } else if v.data.total_tips + amount > u64::MAX {
        Err(TipJarError::MathOverflow)
    } else {
        Ok(
            VaultAccount {
                data: TipVault { owner: v.data.owner, total_tips: (v.data.total_tips + amount) as u64 },
                lamports: (v.lamports + amount) as u64,
            },
        )
    }
}

/// What a withdrawal of `amount` by `caller` makes of `v`, or why it is refused.
/// The amount is checked first, then the caller, then the balance.
pub open spec fn withdraw_outcome(v: VaultAccount, caller: Pubkey, amount: u64) -> Result<
    VaultAccount,
    TipJarError,
> {
    if amount == 0 {
        Err(TipJarError::InvalidAmount)
    } else if caller != v.data.owner {
        Err(TipJarError::Unauthorized)
    } else if v.lamports < amount {
        Err(TipJarError::InsufficientFunds)
    } else {
        Ok(VaultAccount { data: v.data, lamports: (v.lamports - amount) as u64 })
    }
}

/// The vault after an operation with outcome `outcome`: a refused operation leaves `v` as it was.
pub open spec fn after(v: VaultAccount, outcome: Result<VaultAccount, TipJarError>) -> VaultAccount {
    match outcome {
        Ok(w) => w,
        Err(_) => v,
    }
}

/// The error of an outcome, if it is one.
pub open spec fn error_of(outcome: Result<VaultAccount, TipJarError>) -> Result<(), TipJarError> {
    match outcome {
        Ok(_) => Ok(()),
        Err(e) => Err(e),
    }
}

/// The lamports of all accounts together fit in a `u64`, so a vault's balance and a
/// deposit into it do too.
pub open spec fn can_receive(v: VaultAccount, amount: u64) -> bool {
    v.lamports + amount <= u64::MAX
}

impl VaultAccount {
    /// The lamports the vault holds now.
    pub fn balance(&self) -> (r: u64)
        ensures
            r == self.lamports,
    {
        self.lamports
    }

    /// The lamports ever deposited into the vault.
    pub fn total_tips(&self) -> (r: u64)
        ensures
            r == self.data.total_tips,
    {
        self.data.total_tips
    }

    /// The identity that controls the vault.
    pub fn owner(&self) -> (r: Pubkey)
        ensures
            r == self.data.owner,
    {
        self.data.owner
    }
}

/// Creates the signer's vault: the signer becomes its owner, with nothing deposited
/// and nothing held. Never fails; that a vault is created only once per owner is the
/// runtime's part, through the address it derives from the owner.
pub fn init_vault(ctx: &mut InitVault) -> (r: Result<(), TipJarError>)
    ensures
        r is Ok,
        final(ctx).vault == created(old(ctx).owner),
        final(ctx).owner == old(ctx).owner,
{
    ctx.vault.data.owner = ctx.owner;
    ctx.vault.data.total_tips = 0;
    ctx.vault.lamports = 0;
    Ok(())
}

/// Moves `amount` lamports from the signer into the vault and adds them to its
/// lifetime counter. Anyone may deposit. Refused, with nothing changed, for a zero
/// amount (`InvalidAmount`) or when the counter would overflow (`MathOverflow`).
pub fn send_tip(ctx: &mut SendTip, amount: u64) -> (r: Result<(), TipJarError>)
    requires
        can_receive(old(ctx).vault, amount),
    ensures
        r == error_of(tip_outcome(old(ctx).vault, amount)),
        final(ctx).vault == after(old(ctx).vault, tip_outcome(old(ctx).vault, amount)),
        final(ctx).tipper == old(ctx).tipper,
{
    if amount == 0 {
        return Err(TipJarError::InvalidAmount);
    }
    let total = match ctx.vault.data.total_tips.checked_add(amount) {
        Some(t) => t,
        None => return Err(TipJarError::MathOverflow),
    };
    ctx.vault.lamports = ctx.vault.lamports + amount;
    ctx.vault.data.total_tips = total;
    Ok(())
}

/// Moves `amount` lamports from the vault to its owner. The lifetime counter stays as
/// it is. Refused, with nothing changed, for a zero amount (`InvalidAmount`), then for
/// a signer who is not the owner (`Unauthorized`), then for an amount over the
/// balance (`InsufficientFunds`).
pub fn withdraw(ctx: &mut Withdraw, amount: u64) -> (r: Result<(), TipJarError>)
    ensures
        r == error_of(withdraw_outcome(old(ctx).vault, old(ctx).owner, amount)),
        final(ctx).vault == after(old(ctx).vault, withdraw_outcome(old(ctx).vault, old(ctx).owner, amount)),
        final(ctx).owner == old(ctx).owner,
{
    if amount == 0 {
        return Err(TipJarError::InvalidAmount);
    }
    if !ctx.vault.data.owner.same_as(&ctx.owner) {
        return Err(TipJarError::Unauthorized);
    }
    if ctx.vault.lamports < amount {
        return Err(TipJarError::InsufficientFunds);
    }
    ctx.vault.lamports = ctx.vault.lamports - amount;
    Ok(())
}

} // verus!
