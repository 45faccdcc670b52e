use vstd::prelude::*;
use crate::errors::Error;
use crate::events::Freeze;
use crate::state::{AccountId, AssetId, AssetView, Balance};

verus! {

/// A transfer between two distinct accounts that are both opted in, where
/// the sender holds at least `amount`, succeeds; it decreases the sender's
/// balance by `amount`, increases the receiver's by the same amount, and
/// conserves the sum of the two balances. The one caveat is the machine
/// limit: the receiver's credited balance must still be representable.
pub proof fn lemma_transfer_moves_amount(
    s: AssetView,
    sender: AccountId,
    receiver: AccountId,
    amount: Balance,
)
    requires
        s.is_opted_in(sender),
        s.balance_of(sender) >= amount,
        s.is_opted_in(receiver),
        sender != receiver,
        s.balance_of(receiver) + amount <= u128::MAX,
    ensures
        ({
            let (result, next) = s.transfer_step(sender, receiver, amount);
            &&& result is Ok
            &&& next.balance_of(sender) == s.balance_of(sender) - amount
            &&& next.balance_of(receiver) == s.balance_of(receiver) + amount
            &&& next.balance_of(sender) + next.balance_of(receiver) == s.balance_of(sender)
                + s.balance_of(receiver)
            &&& forall|other: AccountId|
                other != sender && other != receiver ==> #[trigger] next.balance_of(other)
                    == s.balance_of(other)
            &&& next.opted_in == s.opted_in
            &&& next.frozen == s.frozen
        }),
{
}

/// A transfer of more than the sender holds fails with `NotEnoughBalance`
/// and leaves the ledger unchanged.
pub proof fn lemma_transfer_insufficient_balance(
    s: AssetView,
    sender: AccountId,
    receiver: AccountId,
    amount: Balance,
)
    requires
        amount > s.balance_of(sender),
    ensures
        s.transfer_step(sender, receiver, amount) == (
            Result::<crate::events::Transfer, Error>::Err(Error::NotEnoughBalance),
            s,
        ),
{
}

/// A transfer to a receiver that is not opted in — never opted in, or opted
/// out again — fails with `NotOptedIn` and leaves the ledger unchanged.
pub proof fn lemma_transfer_receiver_not_opted_in(
    s: AssetView,
    sender: AccountId,
    receiver: AccountId,
    amount: Balance,
)
    requires
        s.balance_of(sender) >= amount,
        !s.is_opted_in(receiver),
    ensures
        s.transfer_step(sender, receiver, amount) == (
            Result::<crate::events::Transfer, Error>::Err(Error::NotOptedIn),
            s,
        ),
{
}

/// Opting in twice in a row cannot succeed twice: after a successful opt-in,
/// a second opt-in by the same account fails with `AlreadyOptedIn` and
/// changes nothing.
pub proof fn lemma_opt_in_twice(s: AssetView, caller: AccountId)
    requires
        s.opt_in_step(caller).0 is Ok,
    ensures
        ({
            let once = s.opt_in_step(caller).1;
            once.opt_in_step(caller) == (
                Result::<crate::events::OptIn, Error>::Err(Error::AlreadyOptedIn),
                once,
            )
        }),
{
}

/// Opting out twice in a row cannot succeed twice: after a successful
/// opt-out, a second opt-out by the same account fails with `NotOptedIn` and
/// changes nothing.
pub proof fn lemma_opt_out_twice(s: AssetView, caller: AccountId)
    requires
        s.opt_out_step(caller).0 is Ok,
    ensures
        ({
            let once = s.opt_out_step(caller).1;
            once.opt_out_step(caller) == (
                Result::<crate::events::OptOut, Error>::Err(Error::NotOptedIn),
                once,
            )
        }),
{
}

/// On an asset constructed without the default-frozen policy, `freeze`
/// fails with `NotFreezable` and changes nothing — whoever the caller is and
/// whatever the target's state.
pub proof fn lemma_freeze_not_freezable(
    s: AssetView,
    caller: AccountId,
    account: AccountId,
    freeze: bool,
)
    requires
        !s.default_frozen,
    ensures
        s.freeze_step(caller, account, freeze) == (
            Result::<Freeze, Error>::Err(Error::NotFreezable),
            s,
        ),
{
}

/// A `freeze` call by anyone but the configured freeze authority fails with
/// `NotFreezeId` and changes nothing, even when the requested transition
/// would otherwise be valid.
pub proof fn lemma_freeze_wrong_authority(
    s: AssetView,
    caller: AccountId,
    account: AccountId,
    freeze: bool,
)
    requires
        s.default_frozen,
        caller != s.freeze_id,
    ensures
        s.freeze_step(caller, account, freeze) == (
            Result::<Freeze, Error>::Err(Error::NotFreezeId),
            s,
        ),
{
}

/// A reconfiguration by anyone but the current manager fails with
/// `NotManagerId` and leaves all four role slots — and everything else —
/// unchanged.
pub proof fn lemma_modify_asset_not_manager(
    s: AssetView,
    caller: AccountId,
    manager: Option<AccountId>,
    reserve: Option<AccountId>,
    freeze: Option<AccountId>,
    clawback: Option<AccountId>,
)
    requires
        caller != s.manager_id,
    ensures
        s.modify_asset_step(caller, manager, reserve, freeze, clawback) == (
            Result::<crate::events::Modify, Error>::Err(Error::NotManagerId),
            s,
        ),
{
}

/// A reconfiguration by the manager with all four arguments absent clears
/// all four role slots to the sentinel identifier: absence means "clear",
/// never "keep".
pub proof fn lemma_modify_asset_absent_clears_roles(s: AssetView, caller: AccountId)
    requires
        caller == s.manager_id,
    ensures
        ({
            let (result, next) = s.modify_asset_step(caller, None, None, None, None);
            &&& result is Ok
            &&& next.manager_id == crate::state::SENTINEL_ID
            &&& next.reserve_id == crate::state::SENTINEL_ID
            &&& next.freeze_id == crate::state::SENTINEL_ID
            &&& next.clawback_id == crate::state::SENTINEL_ID
        }),
{
}

/// End to end: on a freshly constructed asset with the default-frozen policy
/// and freeze authority `authority`, freezing any account succeeds and
/// yields the `Freeze` event with the requested flag set; asking the same
/// authority to unfreeze that account afterwards fails with `AlreadyFrozen`,
/// because the guard inspects only the current flag.
pub proof fn lemma_freeze_then_unfreeze_rejected(
    creator: AccountId,
    asset_id: AssetId,
    asset_name: Seq<char>,
    unit_name: Seq<char>,
    total: Balance,
    decimals: u32,
    url: Seq<char>,
    metadata_hash: Seq<u8>,
    manager: Option<AccountId>,
    reserve: Option<AccountId>,
    authority: AccountId,
    clawback: Option<AccountId>,
    account: AccountId,
)
    ensures
        ({
            let s0 = AssetView::init(
                creator,
                asset_id,
                asset_name,
                unit_name,
                total,
                decimals,
                true,
                url,
                metadata_hash,
                manager,
                reserve,
                Some(authority),
                clawback,
            );
            let (first, s1) = s0.freeze_step(authority, account, true);
            &&& first == Result::<Freeze, Error>::Ok(
                Freeze { asset_id, account, freeze_id: authority, freeze: true },
            )
            &&& s1.freeze_step(authority, account, false) == (
                Result::<Freeze, Error>::Err(Error::AlreadyFrozen),
                s1,
            )
        }),
{
}

} // verus!
