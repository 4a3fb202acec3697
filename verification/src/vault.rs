use vstd::prelude::*;

use crate::keys::Key;

verus! {

/// One account's holding of the traded asset.
#[derive(Clone, Copy, Debug, PartialEq, Eq, Structural)]
pub struct AssetAccount {
    pub quantity: u64,
}

/// One account's balance of the payment currency, in its smallest unit.
#[derive(Clone, Copy, Debug, PartialEq, Eq, Structural)]
pub struct PaymentAccount {
    pub balance: u64,
}

/// Whether a vault still exists or has been terminally reclaimed.
#[derive(Clone, Copy, Debug, PartialEq, Eq, Structural)]
pub enum VaultStatus {
    Active,
    Decommissioned,
}

/// An asset holder controlled by whoever `authority` names.  While an
/// escrow is open, its authority is the custodian's derived capability,
/// so neither the seller nor a buyer can move the asset unilaterally.
///
/// Every operation demands presentation of the current authority's
/// credential, and a decommissioned vault accepts no operation at all.
#[derive(Clone, Copy, Debug, PartialEq, Eq, Structural)]
pub struct Vault {
    /// The identity under which escrow records reference this vault.
    pub id: Key,
    /// The identity currently allowed to operate on the vault.
    pub authority: Key,
    /// How many units of the asset the vault holds.
    pub quantity: u64,
    pub status: VaultStatus,
}

impl Vault {
    /// True while the vault exists.
    pub open spec fn is_active(self) -> bool {
        self.status == VaultStatus::Active
    }

    /// Moves one unit of the asset from `from` into the vault and hands
    /// control to `authority_to_set`; authorized by the vault's current
    /// authority (the seller handing the asset over).
    pub fn take_custody(&mut self, from: &mut AssetAccount, presented: Key, authority_to_set: Key)
        requires
            old(self).is_active(),
            presented == old(self).authority,
            old(from).quantity >= 1,
            old(self).quantity < u64::MAX,
        ensures
            *final(self) == (Vault {
                authority: authority_to_set,
                quantity: (old(self).quantity + 1) as u64,
                ..*old(self)
            }),
            *final(from) == (AssetAccount { quantity: (old(from).quantity - 1) as u64 }),
    {
        from.quantity = from.quantity - 1;
        self.quantity = self.quantity + 1;
        self.authority = authority_to_set;
    }

    /// Reassigns control of the vault to `to`; authorized by the current
    /// authority's credential.
    pub fn release(&mut self, to: Key, authorizing_capability: Key)
        requires
            old(self).is_active(),
            authorizing_capability == old(self).authority,
        ensures
            *final(self) == (Vault { authority: to, ..*old(self) }),
    {
        self.authority = to;
    }

    /// Moves `amount` units out of the vault into `to`; authorized by the
    /// current authority's credential.
    pub fn transfer_out(&mut self, to: &mut AssetAccount, amount: u64, authorizing_capability: Key)
        requires
            old(self).is_active(),
            authorizing_capability == old(self).authority,
            amount <= old(self).quantity,
            old(to).quantity + amount <= u64::MAX,
        ensures
            *final(self) == (Vault {
                quantity: (old(self).quantity - amount) as u64,
                ..*old(self)
            }),
            *final(to) == (AssetAccount { quantity: (old(to).quantity + amount) as u64 }),
    {
        self.quantity = self.quantity - amount;
        to.quantity = to.quantity + amount;
    }

    /// Terminally reclaims an emptied vault; authorized by the current
    /// authority's credential.  Nothing can operate on it afterwards.
    pub fn decommission(&mut self, authorizing_capability: Key)
        requires
            old(self).is_active(),
            authorizing_capability == old(self).authority,
            old(self).quantity == 0,
        ensures
            *final(self) == (Vault { status: VaultStatus::Decommissioned, ..*old(self) }),
    {
        self.status = VaultStatus::Decommissioned;
    }
}

} // verus!
