use vstd::prelude::*;
use crate::state::{AccountId, AssetId, Balance};

verus! {

/// Emitted when a token transfer succeeds.
#[derive(Debug, Clone, Copy, PartialEq, Eq)]
pub struct Transfer {
    pub sender: AccountId,
    pub receiver: AccountId,
    pub asset_id: AssetId,
    pub amount: Option<Balance>,
}

/// Declared for asset creation; the constructor does not currently emit it.
#[derive(Debug, Clone, PartialEq, Eq)]
pub struct Creation {
    pub asset_id: AssetId,
    pub asset_name: String,
    pub creator: AccountId,
    pub total: Balance,
}

/// Emitted when the freeze authority sets an account's frozen flag.
#[derive(Debug, Clone, Copy, PartialEq, Eq)]
pub struct Freeze {
    pub asset_id: AssetId,
    pub account: AccountId,
    pub freeze_id: AccountId,
    pub freeze: bool,
}

/// Emitted when the manager rewrites the four role slots; carries the new
/// role set.
#[derive(Debug, Clone, Copy, PartialEq, Eq)]
pub struct Modify {
    pub manager_id: AccountId,
    pub reserve_id: AccountId,
    pub freeze_id: AccountId,
    pub clawback_id: AccountId,
}

/// Emitted when an account opts in to receive the asset.
#[derive(Debug, Clone, Copy, PartialEq, Eq)]
pub struct OptIn {
    pub asset_id: AssetId,
    pub account: AccountId,
}

/// Emitted when an account opts out of receiving the asset. Only accounts
/// that have opted in can opt out.
#[derive(Debug, Clone, Copy, PartialEq, Eq)]
pub struct OptOut {
    pub asset_id: AssetId,
    pub account: AccountId,
}

/// Declared for clawback revocation; no exposed operation emits it.
#[derive(Debug, Clone, Copy, PartialEq, Eq)]
pub struct Revoke {
    pub asset_id: AssetId,
    pub from: AccountId,
    pub clawback: AccountId,
    pub amount: Option<Balance>,
}

/// Declared for asset destruction; no exposed operation emits it.
#[derive(Debug, Clone, Copy, PartialEq, Eq)]
pub struct Destruction {
    pub asset_id: AssetId,
    pub destroyer: AccountId,
}

} // verus!
