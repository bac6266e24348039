//! A single-owner administered parameter store.
//!
//! The store holds protocol-wide configuration values: per-asset collateral
//! ratios, per-asset synthetic-asset status flags, a global leverage-ratio
//! bound, an interest fee, a transaction fee, and the identity of the owner.
//! Every operation receives the calling principal explicitly; mutations are
//! permitted only to the current owner, and asset keys may never be the
//! sentinel principal.

pub mod laws;
pub mod principal;
pub mod store;

pub use principal::Principal;
pub use store::Error;
pub use store::Param;
pub use store::ParamState;
