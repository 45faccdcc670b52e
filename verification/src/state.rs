use vstd::prelude::*;
use crate::errors::Error;
use crate::events::{Freeze, Modify, OptIn, OptOut, Transfer};

verus! {

/// An account identity as handed to the ledger by its host environment: an
/// opaque, comparable value. The host authenticates it; the ledger only
/// compares it.
pub type AccountId = u64;

/// The identity of the asset instance itself, established at construction.
pub type AssetId = AccountId;

/// A non-negative token quantity.
pub type Balance = u128;

/// The sentinel identifier written into a role slot that has no holder.
pub const SENTINEL_ID: AccountId = 0;

/// The role slot value for an optional holder: the given account, or the
/// sentinel when absent. Absence means "clear this role", not "leave it
/// unchanged".
pub open spec fn role_or_sentinel(holder: Option<AccountId>) -> AccountId {
    match holder {
        Option::Some(account) => account,
        Option::None => SENTINEL_ID,
    }
}

/// The mathematical state of one asset instance: the immutable parameters,
/// the four role slots, and the three per-account registries.
///
/// The registry maps are partial: an account absent from `balances` holds 0,
/// one absent from `opted_in` has never opted in, and one absent from
/// `frozen` is not frozen. Entries come into existence lazily on first write
/// and are never removed.
pub struct AssetView {
    pub asset_id: AssetId,
    pub creator: AccountId,
    pub asset_name: Seq<char>,
    pub unit_name: Seq<char>,
    pub total: Balance,
    pub decimals: u32,
    pub default_frozen: bool,
    pub url: Seq<char>,
    pub metadata_hash: Seq<u8>,
    pub manager_id: AccountId,
    pub reserve_id: AccountId,
    pub freeze_id: AccountId,
    pub clawback_id: AccountId,
    pub balances: Map<AccountId, Balance>,
    pub opted_in: Map<AccountId, bool>,
    pub frozen: Map<AccountId, bool>,
}

impl AssetView {
    /// The balance registry read with its default: absent accounts hold 0.
    pub open spec fn balance_of(self, account: AccountId) -> Balance {
        if self.balances.contains_key(account) {
            self.balances[account]
        } else {
            0
        }
    }

    /// The subscription registry read with its default: absent accounts have
    /// not opted in.
    pub open spec fn is_opted_in(self, account: AccountId) -> bool {
        self.opted_in.contains_key(account) && self.opted_in[account]
    }

    /// The freeze registry read with its default: absent accounts are not
    /// frozen.
    pub open spec fn is_frozen(self, account: AccountId) -> bool {
        self.frozen.contains_key(account) && self.frozen[account]
    }

    /// The state of a freshly constructed asset: parameters as given, role
    /// slots filled from the optional holders, all three registries empty.
    pub open spec fn init(
        creator: AccountId,
        asset_id: AssetId,
        asset_name: Seq<char>,
        unit_name: Seq<char>,
        total: Balance,
        decimals: u32,
        default_frozen: bool,
        url: Seq<char>,
        metadata_hash: Seq<u8>,
        manager: Option<AccountId>,
        reserve: Option<AccountId>,
        freeze: Option<AccountId>,
        clawback: Option<AccountId>,
    ) -> AssetView {
        AssetView {
            asset_id,
            creator,
            asset_name,
            unit_name,
            total,
            decimals,
            default_frozen,
            url,
            metadata_hash,
            manager_id: role_or_sentinel(manager),
            reserve_id: role_or_sentinel(reserve),
            freeze_id: role_or_sentinel(freeze),
            clawback_id: role_or_sentinel(clawback),
            balances: Map::empty(),
            opted_in: Map::empty(),
            frozen: Map::empty(),
        }
    }

    /// One transfer attempt by `caller`: the preconditions in their checked
    /// order, then the debit and the credit exactly as the ledger performs
    /// them (debit first, then credit read from the debited registry, so a
    /// self-transfer leaves the balance unchanged). On failure the state is
    /// returned untouched.
    pub open spec fn transfer_step(
        self,
        caller: AccountId,
        receiver: AccountId,
        amount: Balance,
    ) -> (Result<Transfer, Error>, AssetView) {
        if self.balance_of(caller) < amount {
            (Err(Error::NotEnoughBalance), self)
        } else if !self.is_opted_in(receiver) {
            (Err(Error::NotOptedIn), self)
        } else {
            let debited = AssetView {
                balances: self.balances.insert(caller, (self.balance_of(caller) - amount) as u128),
                ..self
            };
            let credited = AssetView {
                balances: debited.balances.insert(
                    receiver,
                    (debited.balance_of(receiver) + amount) as u128,
                ),
                ..debited
            };
            let event = Transfer {
                sender: caller,
                receiver,
                asset_id: self.asset_id,
                amount: Some(amount),
            };
            (Ok(event), credited)
        }
    }

    /// One opt-in attempt by `caller`: rejected if the flag is already set,
    /// otherwise the flag becomes true and nothing else changes.
    pub open spec fn opt_in_step(self, caller: AccountId) -> (Result<OptIn, Error>, AssetView) {
        if self.is_opted_in(caller) {
            (Err(Error::AlreadyOptedIn), self)
        } else {
            let event = OptIn { asset_id: self.asset_id, account: caller };
            (Ok(event), AssetView { opted_in: self.opted_in.insert(caller, true), ..self })
        }
    }

    /// One opt-out attempt by `caller`: rejected if the flag is not set,
    /// otherwise the flag becomes false and nothing else changes — in
    /// particular the account's balance is kept as it is.
    pub open spec fn opt_out_step(self, caller: AccountId) -> (Result<OptOut, Error>, AssetView) {
        if !self.is_opted_in(caller) {
            (Err(Error::NotOptedIn), self)
        } else {
            let event = OptOut { asset_id: self.asset_id, account: caller };
            (Ok(event), AssetView { opted_in: self.opted_in.insert(caller, false), ..self })
        }
    }

    /// One freeze attempt: the asset must carry the default-frozen policy,
    /// the caller must be the freeze authority, and the target must not be
    /// frozen yet. The guard inspects only the current flag, not whether the
    /// requested value differs from it, so an unfreeze request for a frozen
    /// account is rejected with `AlreadyFrozen` as well. On success the flag
    /// is set to the requested value, which may itself be false.
    pub open spec fn freeze_step(
        self,
        caller: AccountId,
        account: AccountId,
        freeze: bool,
    ) -> (Result<Freeze, Error>, AssetView) {
        if !self.default_frozen {
            (Err(Error::NotFreezable), self)
        } else if caller != self.freeze_id {
            (Err(Error::NotFreezeId), self)
        } else if self.is_frozen(account) {
            (Err(Error::AlreadyFrozen), self)
        } else {
            let event = Freeze {
                asset_id: self.asset_id,
                account,
                freeze_id: self.freeze_id,
                freeze,
            };
            (Ok(event), AssetView { frozen: self.frozen.insert(account, freeze), ..self })
        }
    }

    /// One reconfiguration attempt: only the current manager may call, and
    /// the four role slots are replaced wholesale — each absent argument
    /// clears its slot to the sentinel rather than keeping the old holder.
    pub open spec fn modify_asset_step(
        self,
        caller: AccountId,
        manager: Option<AccountId>,
        reserve: Option<AccountId>,
        freeze: Option<AccountId>,
        clawback: Option<AccountId>,
    ) -> (Result<Modify, Error>, AssetView) {
        if caller != self.manager_id {
            (Err(Error::NotManagerId), self)
        } else {
            let updated = AssetView {
                manager_id: role_or_sentinel(manager),
                reserve_id: role_or_sentinel(reserve),
                freeze_id: role_or_sentinel(freeze),
                clawback_id: role_or_sentinel(clawback),
                ..self
            };
            let event = Modify {
                manager_id: updated.manager_id,
                reserve_id: updated.reserve_id,
                freeze_id: updated.freeze_id,
                clawback_id: updated.clawback_id,
            };
            (Ok(event), updated)
        }
    }
}

} // verus!
