use std::collections::HashMap;
use vstd::prelude::*;
use crate::errors::Error;
use crate::events::{Freeze, Modify, OptIn, OptOut, Transfer};
use crate::state::{role_or_sentinel, AccountId, AssetId, AssetView, Balance, SENTINEL_ID};

verus! {

broadcast use vstd::std_specs::hash::group_hash_axioms;

/// The role slot value for an optional holder, as executed: the given
/// account, or the sentinel when absent.
fn role_value(holder: Option<AccountId>) -> (id: AccountId)
    ensures
        id == role_or_sentinel(holder),
{
    match holder {
        Some(account) => account,
        None => SENTINEL_ID,
    }
}

/// One instance of the asset ledger: the immutable parameters fixed at
/// construction, the four mutable role slots, and the three per-account
/// registries, each keyed by account identifier with lazy default-on-absent
/// semantics.
///
/// The host environment that authenticates callers passes the caller's
/// identity into every operation; each successful operation returns the one
/// domain event the host is expected to broadcast. Failure never mutates
/// state.
pub struct Subsa {
    asset_id: AssetId,
    creator: AccountId,
    asset_name: String,
    unit_name: String,
    total: Balance,
    decimals: u32,
    default_frozen: bool,
    url: String,
    metadata_hash: [u8; 4],
    manager_id: AccountId,
    reserve_id: AccountId,
    freeze_id: AccountId,
    clawback_id: AccountId,
    balances: HashMap<AccountId, Balance>,
    accounts_opted_in: HashMap<AccountId, bool>,
    frozen_holders: HashMap<AccountId, bool>,
}

impl View for Subsa {
    type V = AssetView;

    closed spec fn view(&self) -> AssetView {
        AssetView {
            asset_id: self.asset_id,
            creator: self.creator,
            asset_name: self.asset_name@,
            unit_name: self.unit_name@,
            total: self.total,
            decimals: self.decimals,
            default_frozen: self.default_frozen,
            url: self.url@,
            metadata_hash: self.metadata_hash@,
            manager_id: self.manager_id,
            reserve_id: self.reserve_id,
            freeze_id: self.freeze_id,
            clawback_id: self.clawback_id,
            balances: self.balances@,
            opted_in: self.accounts_opted_in@,
            frozen: self.frozen_holders@,
        }
    }
}

impl Subsa {
    /// Create the asset: `creator` is the authenticated identity that
    /// invoked construction and `asset_id` the instance identity, both
    /// supplied by the host. Role slots absent from the arguments start at
    /// the sentinel; all three registries start empty. No balance is
    /// credited to anyone — `total` is recorded but not distributed.
    pub fn new(
        creator: AccountId,
        asset_id: AssetId,
        asset_name: String,
        unit_name: String,
        total: Balance,
        decimals: u32,
        default_frozen: bool,
        url: String,
        metadata_hash: [u8; 4],
        manager: Option<AccountId>,
        reserve: Option<AccountId>,
        freeze: Option<AccountId>,
        clawback: Option<AccountId>,
    ) -> (asset: Subsa)
        ensures
            asset@ == AssetView::init(
                creator,
                asset_id,
                asset_name@,
                unit_name@,
                total,
                decimals,
                default_frozen,
                url@,
                metadata_hash@,
                manager,
                reserve,
                freeze,
                clawback,
            ),
    {
        Subsa {
            asset_id,
            creator,
            asset_name,
            unit_name,
            total,
            decimals,
            default_frozen,
            url,
            metadata_hash,
            manager_id: role_value(manager),
            reserve_id: role_value(reserve),
            freeze_id: role_value(freeze),
            clawback_id: role_value(clawback),
            balances: HashMap::new(),
            accounts_opted_in: HashMap::new(),
            frozen_holders: HashMap::new(),
        }
    }

    /// Transfer `amount` from `caller` to `receiver`.
    ///
    /// Fails with `NotEnoughBalance` when the caller holds less than
    /// `amount`, then with `NotOptedIn` when the receiver has not opted in;
    /// neither failure changes any state. On success the caller is debited
    /// and the receiver credited by exactly `amount`, and the returned
    /// `Transfer` event carries sender, receiver, asset identity and amount.
    /// Frozen flags are not consulted on either side.
    ///
    /// The one precondition is the machine limit: a credit that would
    /// overflow the receiver's balance cannot be represented.
    pub fn transfer(
        &mut self,
        caller: AccountId,
        receiver: AccountId,
        amount: Balance,
    ) -> (result: Result<Transfer, Error>)
        requires
            (old(self)@.balance_of(caller) >= amount && old(self)@.is_opted_in(receiver)
                && caller != receiver)
                ==> old(self)@.balance_of(receiver) + amount <= u128::MAX,
        ensures
            (result, final(self)@) == old(self)@.transfer_step(caller, receiver, amount),
            result is Ok <==> (old(self)@.balance_of(caller) >= amount
                && old(self)@.is_opted_in(receiver)),
            result is Err ==> final(self)@ == old(self)@,
    {
        let sender_balance: Balance = match self.balances.get(&caller) {
            Some(balance) => *balance,
            None => 0,
        };
        if sender_balance < amount {
            return Err(Error::NotEnoughBalance);
        }

        let receiver_opted_in: bool = match self.accounts_opted_in.get(&receiver) {
            Some(flag) => *flag,
            None => false,
        };
        if !receiver_opted_in {
            return Err(Error::NotOptedIn);
        }

        self.balances.insert(caller, sender_balance - amount);
        let receiver_balance: Balance = match self.balances.get(&receiver) {
            Some(balance) => *balance,
            None => 0,
        };
        self.balances.insert(receiver, receiver_balance + amount);

        Ok(Transfer { sender: caller, receiver, asset_id: self.asset_id, amount: Some(amount) })
    }

    /// Opt `caller` in to receive the asset. Fails with `AlreadyOptedIn`
    /// when the flag is already set, leaving all state unchanged; otherwise
    /// sets the flag and returns the `OptIn` event.
    pub fn opt_in(&mut self, caller: AccountId) -> (result: Result<OptIn, Error>)
        ensures
            (result, final(self)@) == old(self)@.opt_in_step(caller),
            result is Ok <==> !old(self)@.is_opted_in(caller),
            result is Err ==> final(self)@ == old(self)@,
    {
        let caller_opted_in: bool = match self.accounts_opted_in.get(&caller) {
            Some(flag) => *flag,
            None => false,
        };
        if caller_opted_in {
            return Err(Error::AlreadyOptedIn);
        }

        self.accounts_opted_in.insert(caller, true);

        Ok(OptIn { asset_id: self.asset_id, account: caller })
    }

    /// Opt `caller` out of receiving the asset. Fails with `NotOptedIn` when
    /// the flag is not currently set, leaving all state unchanged; otherwise
    /// clears the flag and returns the `OptOut` event. The caller's balance
    /// is never touched: an account may opt out while still holding tokens.
    pub fn opt_out(&mut self, caller: AccountId) -> (result: Result<OptOut, Error>)
        ensures
            (result, final(self)@) == old(self)@.opt_out_step(caller),
            result is Ok <==> old(self)@.is_opted_in(caller),
            result is Err ==> final(self)@ == old(self)@,
    {
        let caller_opted_in: bool = match self.accounts_opted_in.get(&caller) {
            Some(flag) => *flag,
            None => false,
        };
        if !caller_opted_in {
            return Err(Error::NotOptedIn);
        }

        self.accounts_opted_in.insert(caller, false);

        Ok(OptOut { asset_id: self.asset_id, account: caller })
    }

    /// Set `account`'s frozen flag to `freeze`, as the freeze authority.
    ///
    /// Checked in order: the asset must have been constructed with the
    /// default-frozen policy (`NotFreezable`), the caller must be the
    /// configured freeze authority (`NotFreezeId`), and the target's flag
    /// must not already be set (`AlreadyFrozen` — the guard looks only at
    /// the current flag, so an unfreeze request for a frozen account is
    /// rejected too). No failure changes any state. On success the flag is
    /// written with the requested value and the `Freeze` event is returned.
    pub fn freeze(
        &mut self,
        caller: AccountId,
        account: AccountId,
        freeze: bool,
    ) -> (result: Result<Freeze, Error>)
        ensures
            (result, final(self)@) == old(self)@.freeze_step(caller, account, freeze),
            result is Ok <==> (old(self)@.default_frozen && caller == old(self)@.freeze_id
                && !old(self)@.is_frozen(account)),
            result is Err ==> final(self)@ == old(self)@,
    {
        if !self.default_frozen {
            return Err(Error::NotFreezable);
        }

        if caller != self.freeze_id {
            return Err(Error::NotFreezeId);
        }

        let account_frozen: bool = match self.frozen_holders.get(&account) {
            Some(flag) => *flag,
            None => false,
        };
        if account_frozen {
            return Err(Error::AlreadyFrozen);
        }

        self.frozen_holders.insert(account, freeze);

        Ok(Freeze { asset_id: self.asset_id, account, freeze_id: self.freeze_id, freeze })
    }

    /// Replace the four role slots wholesale, as the manager.
    ///
    /// Fails with `NotManagerId` when the caller is not the current manager,
    /// leaving every role as it was. On success each slot is set to the
    /// given holder or cleared to the sentinel when the argument is absent —
    /// absence never means "keep the current holder" — and the `Modify`
    /// event carries the new role set.
    pub fn modify_asset(
        &mut self,
        caller: AccountId,
        manager: Option<AccountId>,
        reserve: Option<AccountId>,
        freeze: Option<AccountId>,
        clawback: Option<AccountId>,
    ) -> (result: Result<Modify, Error>)
        ensures
            (result, final(self)@) == old(self)@.modify_asset_step(
                caller,
                manager,
                reserve,
                freeze,
                clawback,
            ),
            result is Ok <==> caller == old(self)@.manager_id,
            result is Err ==> final(self)@ == old(self)@,
    {
        if caller != self.manager_id {
            return Err(Error::NotManagerId);
        }

        self.manager_id = role_value(manager);
        self.reserve_id = role_value(reserve);
        self.freeze_id = role_value(freeze);
        self.clawback_id = role_value(clawback);

        Ok(Modify {
            manager_id: self.manager_id,
            reserve_id: self.reserve_id,
            freeze_id: self.freeze_id,
            clawback_id: self.clawback_id,
        })
    }

    /// The balance held by `account`; 0 when the account was never credited.
    pub fn balance_of(&self, account: AccountId) -> (balance: Balance)
        ensures
            balance == self@.balance_of(account),
    {
        match self.balances.get(&account) {
            Some(balance) => *balance,
            None => 0,
        }
    }

    /// Whether `account` is currently opted in to receive the asset.
    pub fn is_opted_in(&self, account: AccountId) -> (opted_in: bool)
        ensures
            opted_in == self@.is_opted_in(account),
    {
        match self.accounts_opted_in.get(&account) {
            Some(flag) => *flag,
            None => false,
        }
    }

    /// Whether `account`'s frozen flag is currently set.
    pub fn is_frozen(&self, account: AccountId) -> (frozen: bool)
        ensures
            frozen == self@.is_frozen(account),
    {
        match self.frozen_holders.get(&account) {
            Some(flag) => *flag,
            None => false,
        }
    }

    /// The instance identity fixed at construction.
    pub fn asset_id(&self) -> (id: AssetId)
        ensures
            id == self@.asset_id,
    {
        self.asset_id
    }

    /// The identity that constructed the asset.
    pub fn creator(&self) -> (id: AccountId)
        ensures
            id == self@.creator,
    {
        self.creator
    }

    /// The declared total supply; recorded at construction, never
    /// distributed by any exposed operation.
    pub fn total(&self) -> (total: Balance)
        ensures
            total == self@.total,
    {
        self.total
    }

    /// Whether the asset carries the default-frozen policy that every
    /// `freeze` call requires.
    pub fn is_default_frozen(&self) -> (default_frozen: bool)
        ensures
            default_frozen == self@.default_frozen,
    {
        self.default_frozen
    }

    /// The current manager role slot.
    pub fn manager_id(&self) -> (id: AccountId)
        ensures
            id == self@.manager_id,
    {
        self.manager_id
    }

    /// The current reserve role slot.
    pub fn reserve_id(&self) -> (id: AccountId)
        ensures
            id == self@.reserve_id,
    {
        self.reserve_id
    }

    /// The current freeze-authority role slot.
    pub fn freeze_id(&self) -> (id: AccountId)
        ensures
            id == self@.freeze_id,
    {
        self.freeze_id
    }

    /// The current clawback-authority role slot.
    pub fn clawback_id(&self) -> (id: AccountId)
        ensures
            id == self@.clawback_id,
    {
        self.clawback_id
    }
}

} // verus!
