//! A single-asset, account-based ledger with role-gated administration.
//!
//! One instance of [`Subsa`] manages exactly one fungible asset: it tracks
//! per-account balances, participation (opt-in/opt-out) and frozen flags, and
//! enforces a small set of administrative roles. The host environment that
//! authenticates callers, persists state and broadcasts events stays outside:
//! every operation takes the authenticated caller as an explicit argument and
//! returns the domain event it wants emitted.

pub mod asset;
pub mod errors;
pub mod events;
pub mod laws;
pub mod state;

pub use asset::Subsa;
pub use errors::Error;
pub use events::{Creation, Destruction, Freeze, Modify, OptIn, OptOut, Revoke, Transfer};
pub use state::{AccountId, AssetId, AssetView, Balance, SENTINEL_ID};
