use subsa::{Error, Subsa, SENTINEL_ID};

const CREATOR: u64 = 10;
const ASSET: u64 = 99;
const MANAGER: u64 = 11;
const RESERVE: u64 = 12;
const AUTHORITY: u64 = 13;
const CLAWBACK: u64 = 14;
const TARGET: u64 = 31;
const STRANGER: u64 = 42;

fn fresh_asset(default_frozen: bool) -> Subsa {
    Subsa::new(
        CREATOR,
        ASSET,
        String::from("Sub Asset"),
        String::from("SUB"),
        1_000_000,
        6,
        default_frozen,
        String::from("https://asset.example/sub"),
        [1, 2, 3, 4],
        Some(MANAGER),
        Some(RESERVE),
        Some(AUTHORITY),
        Some(CLAWBACK),
    )
}

#[test]
fn freeze_fails_when_not_freezable() {
    let mut asset = fresh_asset(false);
    // Rejected regardless of the caller: authority and stranger alike.
    assert_eq!(asset.freeze(AUTHORITY, TARGET, true), Err(Error::NotFreezable));
    assert_eq!(asset.freeze(STRANGER, TARGET, true), Err(Error::NotFreezable));
    assert!(!asset.is_frozen(TARGET));
}

#[test]
fn freeze_fails_for_wrong_authority() {
    let mut asset = fresh_asset(true);
    // The transition itself would be valid: the asset is freezable and the
    // target is not frozen yet. Only the caller is wrong.
    assert!(!asset.is_frozen(TARGET));
    assert_eq!(asset.freeze(STRANGER, TARGET, true), Err(Error::NotFreezeId));
    assert!(!asset.is_frozen(TARGET));
}

#[test]
fn freeze_then_unfreeze_is_rejected() {
    let mut asset = fresh_asset(true);

    let event = asset.freeze(AUTHORITY, TARGET, true).unwrap();
    assert_eq!(event.asset_id, ASSET);
    assert_eq!(event.account, TARGET);
    assert_eq!(event.freeze_id, AUTHORITY);
    assert!(event.freeze);
    assert!(asset.is_frozen(TARGET));

    // The guard looks only at the current flag, so the unfreeze request is
    // rejected too and the account stays frozen.
    assert_eq!(asset.freeze(AUTHORITY, TARGET, false), Err(Error::AlreadyFrozen));
    assert!(asset.is_frozen(TARGET));
}

#[test]
fn freeze_writes_the_requested_value_even_false() {
    let mut asset = fresh_asset(true);

    // Writing `false` into a not-yet-frozen account passes the guard and
    // records false, so a later freeze still goes through.
    let event = asset.freeze(AUTHORITY, TARGET, false).unwrap();
    assert!(!event.freeze);
    assert!(!asset.is_frozen(TARGET));

    assert!(asset.freeze(AUTHORITY, TARGET, true).is_ok());
    assert!(asset.is_frozen(TARGET));
}

#[test]
fn modify_asset_fails_for_non_manager() {
    let mut asset = fresh_asset(false);

    assert_eq!(
        asset.modify_asset(STRANGER, Some(STRANGER), Some(STRANGER), Some(STRANGER), Some(STRANGER)),
        Err(Error::NotManagerId)
    );
    // All four role slots are untouched.
    assert_eq!(asset.manager_id(), MANAGER);
    assert_eq!(asset.reserve_id(), RESERVE);
    assert_eq!(asset.freeze_id(), AUTHORITY);
    assert_eq!(asset.clawback_id(), CLAWBACK);
}

#[test]
fn modify_asset_absent_arguments_clear_all_roles() {
    let mut asset = fresh_asset(false);

    let event = asset.modify_asset(MANAGER, None, None, None, None).unwrap();
    assert_eq!(event.manager_id, SENTINEL_ID);
    assert_eq!(event.reserve_id, SENTINEL_ID);
    assert_eq!(event.freeze_id, SENTINEL_ID);
    assert_eq!(event.clawback_id, SENTINEL_ID);

    assert_eq!(asset.manager_id(), SENTINEL_ID);
    assert_eq!(asset.reserve_id(), SENTINEL_ID);
    assert_eq!(asset.freeze_id(), SENTINEL_ID);
    assert_eq!(asset.clawback_id(), SENTINEL_ID);

    // The manager slot was cleared as well, so even the old manager is now
    // locked out.
    assert_eq!(asset.modify_asset(MANAGER, None, None, None, None), Err(Error::NotManagerId));
}

#[test]
fn modify_asset_replaces_wholesale() {
    let mut asset = fresh_asset(false);
    let new_manager: u64 = 51;
    let new_authority: u64 = 53;

    let event = asset
        .modify_asset(MANAGER, Some(new_manager), None, Some(new_authority), None)
        .unwrap();
    assert_eq!(event.manager_id, new_manager);
    assert_eq!(event.reserve_id, SENTINEL_ID);
    assert_eq!(event.freeze_id, new_authority);
    assert_eq!(event.clawback_id, SENTINEL_ID);

    assert_eq!(asset.manager_id(), new_manager);
    assert_eq!(asset.reserve_id(), SENTINEL_ID);
    assert_eq!(asset.freeze_id(), new_authority);
    assert_eq!(asset.clawback_id(), SENTINEL_ID);

    // The previous manager lost the role with the replacement.
    assert_eq!(asset.modify_asset(MANAGER, None, None, None, None), Err(Error::NotManagerId));
    assert!(asset.modify_asset(new_manager, Some(MANAGER), None, None, None).is_ok());
    assert_eq!(asset.manager_id(), MANAGER);
}
