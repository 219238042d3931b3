//! The values that cross the feed's boundary: identities, heights, budgets,
//! log records, notifications and errors.

use vstd::prelude::*;

verus! {

/// Identifier of an account of the host ledger.
pub type AccountId = u64;

/// Height of a block of the host ledger.
pub type BlockNumber = u64;

/// Longest payload, in bytes, that one submission may carry.
pub const MAX_DATA_LEN: usize = 1024;

/// Largest number of records that the log holds.
pub const MAX_EVENTS: usize = 1000;

/// Number of blocks for which a record is kept: a record whose age has
/// reached this many blocks is stale.
pub const RETENTION_BLOCKS: u64 = 600;

/// A computation budget, as the host meters it.
#[derive(Clone, Copy, Debug, PartialEq, Eq, Structural)]
pub struct Weight {
    /// Computation time on reference hardware.
    pub ref_time: u64,
    /// Size of the storage proof.
    pub proof_size: u64,
}

impl Weight {
    /// The budget that stands for no cost at all.
    pub open spec fn spec_zero() -> Weight {
        Weight { ref_time: 0, proof_size: 0 }
    }

    /// Returns the budget that stands for no cost at all.
    #[verifier::when_used_as_spec(spec_zero)]
    pub fn zero() -> (w: Weight)
        ensures
            w == Weight::spec_zero(),
    {
        Weight { ref_time: 0, proof_size: 0 }
    }
}

/// One record of the log.
#[derive(Clone, Debug, PartialEq, Eq)]
pub struct OracleEvent {
    /// The submitted bytes, at most [`MAX_DATA_LEN`] of them.
    pub data: Vec<u8>,
    /// The account that submitted them: the oracle at that time.
    pub oracle: AccountId,
    /// The block height at which they were submitted.
    pub timestamp: BlockNumber,
}

/// What a log record holds, as mathematical values.
pub struct EventRecord {
    /// The submitted bytes.
    pub data: Seq<u8>,
    /// The account that submitted them.
    pub oracle: AccountId,
    /// The block height at which they were submitted.
    pub timestamp: BlockNumber,
}

impl View for OracleEvent {
    type V = EventRecord;

    open spec fn view(&self) -> EventRecord {
        EventRecord { data: self.data@, oracle: self.oracle, timestamp: self.timestamp }
    }
}

/// A notification that an operation hands back for the host to publish.
#[derive(Clone, Copy, Debug, PartialEq, Eq, Structural)]
pub enum Event {
    /// The oracle has been replaced by `new_oracle`.
    OracleUpdated { new_oracle: AccountId },
    /// `oracle` has submitted a record at height `timestamp`.
    EventSubmitted { oracle: AccountId, timestamp: BlockNumber },
}

/// Why an operation was refused.
#[derive(Clone, Copy, Debug, PartialEq, Eq, Structural)]
pub enum Error {
    /// The caller's origin is not of the class that the operation asks for.
    BadOrigin,
    /// No oracle has been appointed yet.
    OracleNotSet,
    /// The caller is not the current oracle.
    NotCurrentOracle,
    /// The payload is longer than [`MAX_DATA_LEN`] bytes.
    VecTooBig,
    /// The log already holds [`MAX_EVENTS`] records.
    OracleEventsOverflow,
}

} // verus!
