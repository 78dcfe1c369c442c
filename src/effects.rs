use vstd::prelude::*;
use crate::state::Key;

verus! {

/// A call that an operation asks of its outside collaborators: the token
/// ledger, the metadata registry and the relocation bridge. A trader is named
/// by identity; the vault by its holding account.
#[derive(Clone, Copy, Debug, PartialEq, Eq)]
pub enum Effect {
    /// Move `amount` of the reserve asset; `vault_signed` when the vault
    /// authority signs for `from`.
    Transfer { from: Key, to: Key, amount: u64, vault_signed: bool },
    /// Register the descriptive data of a new position asset.
    RegisterMetadata { position: Key, payer: Key, authority: Key },
    /// Create `amount` units of a position asset for `to`.
    MintTo { position: Key, to: Key, authority: Key, amount: u64 },
    /// Retire `amount` units of a position asset held by `from`.
    Burn { position: Key, from: Key, amount: u64 },
    /// Snapshot the configuration to the accelerated execution venue.
    CommitConfig,
    /// Hand the configuration to the accelerated execution venue.
    DelegateConfig { payer: Key },
    /// Flush the configuration and take it back from the venue.
    CommitAndUndelegateConfig { payer: Key },
}

} // verus!
