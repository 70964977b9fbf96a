use vstd::prelude::*;
use crate::identifier::Pubkey;

verus! {

/// What one completed instruction reports to the public log.
#[derive(Debug, Clone)]
pub enum Event {
    StandardTokenCreated { mint: Pubkey, name: String, symbol: String, uri: String, supply: u64 },
    TokenMinted { mint: Pubkey, amount: u64 },
    TokenTransferred { mint: Pubkey, from: Pubkey, to: Pubkey, amount: u64 },
    TokensLocked {
        mint: Pubkey,
        owner: Pubkey,
        amount: u64,
        unlock_timestamp: i64,
        lock_id: u64,
    },
    TokensWithdrawn { mint: Pubkey, owner: Pubkey, lock_id: u64, amount: u64 },
    /// A burn of one amount of one mint, from the owner's wallet or from a lock.
    Burned { mint: Pubkey, amount: u64, from_lock: bool },
    BatchBurned { burner: Pubkey, mints: Vec<Pubkey>, amounts: Vec<u64> },
    VaultClosed { mint: Pubkey, owner: Pubkey, lock_id: u64 },
    MetadataUpdated { mint: Pubkey, name: String, symbol: String, uri: String },
}

/// An event as it is appended to the log, stamped with the clock reading
/// taken when it was emitted.
#[derive(Debug, Clone)]
pub struct EventRecord {
    pub event: Event,
    pub timestamp: i64,
}

} // verus!
