//! The feed as a state machine over mathematical values.
//!
//! A [`PalletState`] is what a [`crate::Pallet`] holds at one moment. Each
//! operation of the feed is described here by what it answers and by the
//! state it leaves; the executable operations are proved against these.

use vstd::prelude::*;

use crate::origin::Origin;
use crate::types::AccountId;
use crate::types::BlockNumber;
use crate::types::Error;
use crate::types::Event;
use crate::types::EventRecord;
use crate::types::MAX_DATA_LEN;
use crate::types::MAX_EVENTS;
use crate::types::RETENTION_BLOCKS;

verus! {

/// The registry and the log, as mathematical values.
pub struct PalletState {
    /// The appointed oracle, if any.
    pub oracle: Option<AccountId>,
    /// The log, oldest record first.
    pub events: Seq<EventRecord>,
}

/// Whether a record submitted at height `timestamp` is still within the
/// retention window at height `now`: its age, `now - timestamp`, computed in
/// the integers, is below [`RETENTION_BLOCKS`]. A record stamped later than
/// `now` has a negative age and is fresh.
pub open spec fn is_fresh(timestamp: BlockNumber, now: BlockNumber) -> bool {
    now - timestamp < RETENTION_BLOCKS
}

/// Whether some record of `events` is fresh at height `now`.
pub open spec fn has_fresh(events: Seq<EventRecord>, now: BlockNumber) -> bool {
    exists|i: int| 0 <= i < events.len() && is_fresh((#[trigger] events[i]).timestamp, now)
}

/// Whether `i` is the position of the oldest record of `events` that is
/// fresh at height `now`.
pub open spec fn is_first_fresh(events: Seq<EventRecord>, now: BlockNumber, i: int) -> bool {
    &&& 0 <= i < events.len()
    &&& is_fresh(events[i].timestamp, now)
    &&& forall|j: int| 0 <= j < i ==> !is_fresh((#[trigger] events[j]).timestamp, now)
}

/// The number of records that a pruning pass at height `now` removes from the
/// front of `events`: the position of the oldest fresh record, and 0 where no
/// record is fresh.
pub open spec fn cutoff(events: Seq<EventRecord>, now: BlockNumber) -> int {
    if has_fresh(events, now) {
        choose|i: int| is_first_fresh(events, now, i)
    } else {
        0
    }
}

/// The log that a pruning pass at height `now` leaves of `events`.
///
/// The records before the oldest fresh one are removed. A log without a fresh
/// record is left as it is: a log whose every record is stale is not cleared.
pub open spec fn pruned(events: Seq<EventRecord>, now: BlockNumber) -> Seq<EventRecord> {
    events.skip(cutoff(events, now))
}

/// Among the positions of `events` up to `k`, where the record at `k` is
/// fresh, one is the position of the oldest fresh record.
pub proof fn lemma_first_fresh_exists(events: Seq<EventRecord>, now: BlockNumber, k: int)
    requires
        0 <= k < events.len(),
        is_fresh(events[k].timestamp, now),
    ensures
        exists|i: int| 0 <= i <= k && is_first_fresh(events, now, i),
    decreases k,
{
    if exists|j: int| 0 <= j < k && is_fresh((#[trigger] events[j]).timestamp, now) {
        let j = choose|j: int| 0 <= j < k && is_fresh((#[trigger] events[j]).timestamp, now);
        lemma_first_fresh_exists(events, now, j);
    } else {
        assert(is_first_fresh(events, now, k));
    }
}

/// A log has at most one oldest fresh record.
pub proof fn lemma_first_fresh_unique(events: Seq<EventRecord>, now: BlockNumber, i: int, k: int)
    requires
        is_first_fresh(events, now, i),
        is_first_fresh(events, now, k),
    ensures
        i == k,
{
    if i < k {
        assert(!is_fresh(events[i].timestamp, now));
    } else if k < i {
        assert(!is_fresh(events[k].timestamp, now));
    }
}

/// The cutoff of a log is the position of its oldest fresh record where it
/// has a fresh record, and 0 where it has none.
pub proof fn lemma_cutoff(events: Seq<EventRecord>, now: BlockNumber)
    ensures
        0 <= cutoff(events, now) <= events.len(),
        has_fresh(events, now) ==> is_first_fresh(events, now, cutoff(events, now)),
        !has_fresh(events, now) ==> cutoff(events, now) == 0,
        forall|i: int| is_first_fresh(events, now, i) ==> cutoff(events, now) == i,
{
    if has_fresh(events, now) {
        let k = choose|k: int| 0 <= k < events.len() && is_fresh((#[trigger] events[k]).timestamp, now);
        lemma_first_fresh_exists(events, now, k);
        let c = cutoff(events, now);
        assert(is_first_fresh(events, now, c));
        assert forall|i: int| is_first_fresh(events, now, i) implies c == i by {
            lemma_first_fresh_unique(events, now, i, c);
        }
    } else {
        assert forall|i: int| is_first_fresh(events, now, i) implies cutoff(events, now) == i by {
            assert(is_fresh(events[i].timestamp, now));
        }
    }
}

/// Whether the timestamps of `events` never decrease from one record to the
/// next.
pub open spec fn timestamps_sorted(events: Seq<EventRecord>) -> bool {
    forall|i: int, j: int|
        0 <= i <= j < events.len() ==> (#[trigger] events[i]).timestamp
            <= (#[trigger] events[j]).timestamp
}

impl PalletState {
    /// The state of a feed that has never been used.
    pub open spec fn init() -> PalletState {
        PalletState { oracle: None, events: Seq::empty() }
    }

    /// The bounds that every state of a feed respects: at most
    /// [`MAX_EVENTS`] records, each of at most [`MAX_DATA_LEN`] bytes.
    pub open spec fn inv(self) -> bool {
        &&& self.events.len() <= MAX_EVENTS
        &&& forall|i: int|
            0 <= i < self.events.len() ==> (#[trigger] self.events[i]).data.len() <= MAX_DATA_LEN
    }

    /// What appointing `oracle` answers to a caller of class `origin`.
    pub open spec fn set_oracle_result(origin: Origin, oracle: AccountId) -> Result<Event, Error> {
        if origin == Origin::Root {
            Ok(Event::OracleUpdated { new_oracle: oracle })
        } else {
            Err(Error::BadOrigin)
        }
    }

    /// The state after a caller of class `origin` asked to appoint `oracle`.
    pub open spec fn after_set_oracle(self, origin: Origin, oracle: AccountId) -> PalletState {
        if origin == Origin::Root {
            PalletState { oracle: Some(oracle), events: self.events }
        } else {
            self
        }
    }

    /// What submitting `data` at height `now` answers to a caller of class
    /// `origin`. The checks are made in this order: the caller is a signed
    /// account, an oracle is appointed, the caller is that oracle, the payload
    /// fits, the log has room.
    pub open spec fn submit_result(self, origin: Origin, data: Seq<u8>, now: BlockNumber) -> Result<
        Event,
        Error,
    > {
        match origin {
            Origin::Signed(who) => {
                if self.oracle is None {
                    Err(Error::OracleNotSet)
                } else if self.oracle != Some(who) {
                    Err(Error::NotCurrentOracle)
                } else if data.len() > MAX_DATA_LEN {
                    Err(Error::VecTooBig)
                } else if self.events.len() >= MAX_EVENTS {
                    Err(Error::OracleEventsOverflow)
                } else {
                    Ok(Event::EventSubmitted { oracle: who, timestamp: now })
                }
            },
            _ => Err(Error::BadOrigin),
        }
    }

    /// The state after a caller of class `origin` submitted `data` at height
    /// `now`: one more record at the end where the submission is accepted, no
    /// change where it is refused.
    pub open spec fn after_submit(self, origin: Origin, data: Seq<u8>, now: BlockNumber) -> PalletState {
        match self.submit_result(origin, data, now) {
            Ok(Event::EventSubmitted { oracle, timestamp }) => PalletState {
                oracle: self.oracle,
                events: self.events.push(EventRecord { data, oracle, timestamp }),
            },
            _ => self,
        }
    }

    /// The state after a pruning pass at height `now`.
    pub open spec fn after_idle(self, now: BlockNumber) -> PalletState {
        PalletState { oracle: self.oracle, events: pruned(self.events, now) }
    }
}

} // verus!
