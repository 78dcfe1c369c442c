//! A vault-backed token issuance and redemption ledger.
//!
//! One reserve asset, held in a vault, backs the creation, trading and
//! retirement of per-trader position assets. Each operation is a handler that
//! checks its inputs against the vault configuration and the position record,
//! updates them with checked arithmetic, and returns the list of calls
//! (transfers, mints, burns, metadata registration, relocation commits) that
//! the hosting environment must make. A handler that fails leaves every entity
//! as it was.
use vstd::prelude::*;

pub mod error;
pub mod state;
pub mod rules;
pub mod auth;
pub mod effects;
pub mod address;
pub mod trade;
pub mod vault;
pub mod relocation;

verus! {

} // verus!
