use vstd::prelude::*;

verus! {

/// Every failed precondition of a ledger operation surfaces to the caller as
/// one of these typed errors; no operation mutates state when it fails.
///
/// Some variants are declared for administrative operations (clawback,
/// reserve management, zero-amount rejection, unfreezing) that the ledger
/// does not currently expose: no operation produces them, and they are kept
/// so that the error surface of the asset stays stable when those operations
/// are added.
#[derive(Debug, Clone, Copy, PartialEq, Eq)]
pub enum Error {
    /// The caller is not the current manager.
    NotManagerId,
    /// The caller is not the current reserve holder (no operation checks this yet).
    NotReserveId,
    /// The caller is not the current freeze authority.
    NotFreezeId,
    /// The caller is not the current clawback authority (no operation checks this yet).
    NotClawbackId,
    /// The account in question has not opted in to the asset.
    NotOptedIn,
    /// The caller has already opted in.
    AlreadyOptedIn,
    /// The account in question is not frozen (no operation checks this yet).
    NotFrozen,
    /// The asset was not constructed with the default-frozen policy.
    NotFreezable,
    /// The target account's frozen flag is already set.
    AlreadyFrozen,
    /// The account in question is frozen (no operation checks this yet).
    FrozenAccount,
    /// The sender's balance is below the requested transfer amount.
    NotEnoughBalance,
    /// A zero amount was supplied (no operation checks this yet).
    ZeroAmount,
}

} // verus!
