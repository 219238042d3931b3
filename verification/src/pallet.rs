//! The feed itself: the registry and the log, and the operations on them.

use vstd::prelude::*;

use crate::log::bound_data;
use crate::log::log_drain_front;
use crate::log::log_get;
use crate::log::log_len;
use crate::log::log_new;
use crate::log::log_records;
use crate::log::log_try_push;
use crate::log::EventLog;
use crate::model::has_fresh;
use crate::model::is_first_fresh;
use crate::model::is_fresh;
use crate::model::lemma_cutoff;
use crate::model::PalletState;
use crate::origin::ensure_root;
use crate::origin::ensure_signed;
use crate::origin::Origin;
use crate::types::AccountId;
use crate::types::BlockNumber;
use crate::types::Error;
use crate::types::Event;
use crate::types::OracleEvent;
use crate::types::Weight;
use crate::types::MAX_DATA_LEN;
use crate::types::MAX_EVENTS;
use crate::types::RETENTION_BLOCKS;

verus! {

/// Tests whether a record submitted at height `timestamp` is still within
/// the retention window at height `now`.
pub fn is_fresh_at(timestamp: BlockNumber, now: BlockNumber) -> (fresh: bool)
    ensures
        fresh == is_fresh(timestamp, now),
{
    timestamp > now || now - timestamp < RETENTION_BLOCKS
}

/// Finds the oldest record of `events` that is fresh at height `now`.
/// Answers its position, or nothing where no record is fresh.
pub fn first_fresh_index(events: &EventLog, now: BlockNumber) -> (found: Option<usize>)
    ensures
        match found {
            Some(i) => is_first_fresh(log_records(*events), now, i as int),
            None => !has_fresh(log_records(*events), now),
        },
{
    let n = log_len(events);
    let mut i: usize = 0;
    while i < n
        invariant
            i <= n,
            n == log_records(*events).len(),
            forall|j: int|
                0 <= j < i ==> !is_fresh((#[trigger] log_records(*events)[j]).timestamp, now),
        decreases n - i,
    {
        if is_fresh_at(log_get(events, i).timestamp, now) {
            return Some(i);
        }
        i += 1;
    }
    None
}

/// The state of the feed: the registry and the log.
pub struct Pallet {
    oracle: Option<AccountId>,
    events: EventLog,
}

impl View for Pallet {
    type V = PalletState;

    closed spec fn view(&self) -> PalletState {
        PalletState { oracle: self.oracle, events: log_records(self.events) }
    }
}

impl Pallet {
    /// A feed without an oracle and without records.
    pub fn new() -> (pallet: Pallet)
        ensures
            pallet@ == PalletState::init(),
            pallet@.inv(),
    {
        Pallet { oracle: None, events: log_new() }
    }

    /// Rebuilds a feed from a registry and a log that were stored earlier.
    /// Answers nothing where the log breaks the bounds of
    /// [`PalletState::inv`].
    pub fn restore(oracle: Option<AccountId>, events: EventLog) -> (res: Option<Pallet>)
        ensures
            res is Some <==> (PalletState { oracle, events: log_records(events) }).inv(),
            res matches Some(pallet) ==> pallet@ == (PalletState {
                oracle,
                events: log_records(events),
            }),
    {
        let n = log_len(&events);
        if n > MAX_EVENTS {
            return None;
        }
        let mut i: usize = 0;
        while i < n
            invariant
                i <= n,
                n == log_records(events).len(),
                forall|j: int|
                    0 <= j < i ==> (#[trigger] log_records(events)[j]).data.len() <= MAX_DATA_LEN,
            decreases n - i,
        {
            if log_get(&events, i).data.len() > MAX_DATA_LEN {
                return None;
            }
            i += 1;
        }
        Some(Pallet { oracle, events })
    }

    /// The appointed oracle, if any.
    pub fn oracle(&self) -> (oracle: Option<AccountId>)
        ensures
            oracle == self@.oracle,
    {
        self.oracle
    }

    /// The log, oldest record first.
    pub fn oracle_events(&self) -> (events: &EventLog)
        ensures
            log_records(*events) == self@.events,
    {
        &self.events
    }

    /// Appoints `oracle`, replacing the oracle appointed before, if the call
    /// is privileged. Answers the notification to publish.
    pub fn set_oracle(&mut self, origin: Origin, oracle: AccountId) -> (res: Result<Event, Error>)
        ensures
            res == PalletState::set_oracle_result(origin, oracle),
            final(self)@ == old(self)@.after_set_oracle(origin, oracle),
            old(self)@.inv() ==> final(self)@.inv(),
    {
        match ensure_root(origin) {
            Ok(_) => {},
            Err(e) => {
                return Err(e);
            },
        }
        self.oracle = Some(oracle);
        Ok(Event::OracleUpdated { new_oracle: oracle })
    }

    /// Appends `data` to the log as a record of the calling account at
    /// height `now`, if that account is the oracle, `data` fits and the log
    /// has room. Answers the notification to publish. A refused submission
    /// changes nothing.
    pub fn submit_event(&mut self, origin: Origin, data: Vec<u8>, now: BlockNumber) -> (res: Result<
        Event,
        Error,
    >)
        ensures
            res == old(self)@.submit_result(origin, data@, now),
            final(self)@ == old(self)@.after_submit(origin, data@, now),
            old(self)@.inv() ==> final(self)@.inv(),
    {
        let who = match ensure_signed(origin) {
            Ok(who) => who,
            Err(e) => {
                return Err(e);
            },
        };
        let oracle = match self.oracle {
            Some(oracle) => oracle,
            None => {
                return Err(Error::OracleNotSet);
            },
        };
        if oracle != who {
            return Err(Error::NotCurrentOracle);
        }
        let bounded = match bound_data(data) {
            Ok(bounded) => bounded,
            Err(_) => {
                return Err(Error::VecTooBig);
            },
        };
        let event = OracleEvent { data: bounded, oracle, timestamp: now };
        match log_try_push(&mut self.events, event) {
            Ok(_) => Ok(Event::EventSubmitted { oracle, timestamp: now }),
            Err(_) => Err(Error::OracleEventsOverflow),
        }
    }

    /// Runs the pruning pass of an idle cycle at height `current_block`:
    /// removes the records before the oldest fresh one. Where no record is
    /// fresh, or the oldest one is, the log stays as it is. Answers the cost
    /// of the pass, which is none, whatever budget remains.
    pub fn on_idle(&mut self, current_block: BlockNumber, _remaining_weight: Weight) -> (consumed:
        Weight)
        ensures
            final(self)@ == old(self)@.after_idle(current_block),
            old(self)@.inv() ==> final(self)@.inv(),
            consumed == Weight::zero(),
    {
        proof {
            lemma_cutoff(self@.events, current_block);
        }
        let first_fresh = match first_fresh_index(&self.events, current_block) {
            Some(i) => i,
            None => 0,
        };
        if first_fresh == 0 {
            assert(self@.events.skip(0) =~= self@.events);
            return Weight::zero();
        }
        log_drain_front(&mut self.events, first_fresh);
        Weight::zero()
    }
}

} // verus!
