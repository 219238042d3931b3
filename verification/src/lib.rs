//! A single-writer oracle data feed for a deterministic ledger.
//!
//! An administrator appoints one account as the oracle. That account submits
//! bounded payloads, which are kept in a bounded, insertion-ordered log. Once
//! per idle cycle the host asks the feed to drop the entries that have left
//! the retention window.
//!
//! The feed owns no storage and reads no clock: its state is a [`Pallet`]
//! value that the host holds, and the classification of the caller and the
//! current block height are arguments of each operation.

pub mod laws;
pub mod log;
pub mod model;
pub mod origin;
pub mod pallet;
pub mod types;

pub use crate::log::EventLog;
pub use crate::model::PalletState;
pub use crate::origin::ensure_root;
pub use crate::origin::ensure_signed;
pub use crate::origin::Origin;
pub use crate::pallet::Pallet;
pub use crate::types::AccountId;
pub use crate::types::BlockNumber;
pub use crate::types::Error;
pub use crate::types::Event;
pub use crate::types::EventRecord;
pub use crate::types::OracleEvent;
pub use crate::types::Weight;
