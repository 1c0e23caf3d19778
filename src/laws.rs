use vstd::prelude::*;

use crate::error::TipJarError;
use crate::pubkey::Pubkey;
use crate::vault::{after, can_receive, created, tip_outcome, withdraw_outcome, VaultAccount};

verus! {

/// A new vault holds nothing and has counted nothing.
pub proof fn lemma_created_vault_is_empty(owner: Pubkey)
    ensures
        created(owner).data.owner == owner,
        created(owner).data.total_tips == 0,
        created(owner).lamports == 0,
{
}

/// Two accepted deposits add both amounts to the counter and to the balance. The
/// outcome does not depend on who deposits.
pub proof fn lemma_deposits_accumulate(v: VaultAccount, a1: u64, a2: u64)
    requires
        a1 > 0,
        a2 > 0,
        v.data.total_tips + a1 + a2 <= u64::MAX,
        v.lamports + a1 + a2 <= u64::MAX,
    ensures
        tip_outcome(v, a1) is Ok,
        can_receive(after(v, tip_outcome(v, a1)), a2),
        tip_outcome(after(v, tip_outcome(v, a1)), a2) is Ok,
        after(after(v, tip_outcome(v, a1)), tip_outcome(after(v, tip_outcome(v, a1)), a2)).data.total_tips
            == v.data.total_tips + a1 + a2,
        after(after(v, tip_outcome(v, a1)), tip_outcome(after(v, tip_outcome(v, a1)), a2)).lamports
            == v.lamports + a1 + a2,
        after(after(v, tip_outcome(v, a1)), tip_outcome(after(v, tip_outcome(v, a1)), a2)).data.owner
            == v.data.owner,
{
}

/// A deposit of zero is refused with `InvalidAmount` and changes nothing.
pub proof fn lemma_zero_deposit_refused(v: VaultAccount)
    ensures
        tip_outcome(v, 0) == Err::<VaultAccount, TipJarError>(TipJarError::InvalidAmount),
        after(v, tip_outcome(v, 0)) == v,
{
}

/// A positive deposit that would carry the counter past `u64::MAX` is refused with
/// `MathOverflow` and changes neither the counter nor the balance.
pub proof fn lemma_overflowing_deposit_refused(v: VaultAccount, amount: u64)
    requires
        amount > 0,
        v.data.total_tips + amount > u64::MAX,
    ensures
        tip_outcome(v, amount) == Err::<VaultAccount, TipJarError>(TipJarError::MathOverflow),
        after(v, tip_outcome(v, amount)) == v,
{
}

/// A positive withdrawal by anyone but the owner is refused with `Unauthorized` and
/// changes nothing, whatever the balance.
pub proof fn lemma_stranger_cannot_withdraw(v: VaultAccount, caller: Pubkey, amount: u64)
    requires
        amount > 0,
        caller != v.data.owner,
    ensures
        withdraw_outcome(v, caller, amount) == Err::<VaultAccount, TipJarError>(
            TipJarError::Unauthorized,
        ),
        after(v, withdraw_outcome(v, caller, amount)) == v,
{
}

/// The owner's positive withdrawal is refused with `InsufficientFunds` when it asks for
/// more than the balance, changing nothing; otherwise it is accepted, takes exactly the
/// amount from the balance and leaves the counter as it was.
pub proof fn lemma_owner_withdrawal(v: VaultAccount, amount: u64)
    requires
        amount > 0,
    ensures
        amount > v.lamports ==> withdraw_outcome(v, v.data.owner, amount) == Err::<
            VaultAccount,
            TipJarError,
        >(TipJarError::InsufficientFunds),
        amount > v.lamports ==> after(v, withdraw_outcome(v, v.data.owner, amount)) == v,
        amount <= v.lamports ==> withdraw_outcome(v, v.data.owner, amount) is Ok,
        amount <= v.lamports ==> after(v, withdraw_outcome(v, v.data.owner, amount)).lamports
            == v.lamports - amount,
        amount <= v.lamports ==> after(v, withdraw_outcome(v, v.data.owner, amount)).data
            == v.data,
{
}

/// The vaults of a set of owners after an operation on the vault of `target` with
/// outcome `outcome`.
pub open spec fn commit(
    vaults: Map<Pubkey, VaultAccount>,
    target: Pubkey,
    outcome: Result<VaultAccount, TipJarError>,
) -> Map<Pubkey, VaultAccount> {
    vaults.insert(target, after(vaults[target], outcome))
}

/// Creating, depositing into or withdrawing from the vault of one owner leaves the
/// vault of every other owner as it was.
pub proof fn lemma_vaults_are_independent(
    vaults: Map<Pubkey, VaultAccount>,
    target: Pubkey,
    other: Pubkey,
    caller: Pubkey,
    amount: u64,
)
    requires
        vaults.contains_key(other),
        target != other,
    ensures
        vaults.insert(target, created(target))[other] == vaults[other],
        commit(vaults, target, tip_outcome(vaults[target], amount))[other] == vaults[other],
        commit(vaults, target, withdraw_outcome(vaults[target], caller, amount))[other]
            == vaults[other],
{
}

} // verus!
