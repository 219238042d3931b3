//! What holds of the feed across its operations, proved over the state
//! machine of [`crate::model`].

use vstd::prelude::*;

use crate::model::cutoff;
use crate::model::has_fresh;
use crate::model::is_first_fresh;
use crate::model::is_fresh;
use crate::model::lemma_cutoff;
use crate::model::pruned;
use crate::model::timestamps_sorted;
use crate::model::PalletState;
use crate::origin::Origin;
use crate::types::AccountId;
use crate::types::BlockNumber;
use crate::types::Error;
use crate::types::Event;
use crate::types::EventRecord;
use crate::types::MAX_DATA_LEN;
use crate::types::MAX_EVENTS;

verus! {

/// A feed that has never been used respects the bounds.
pub proof fn lemma_init_within_bounds()
    ensures
        PalletState::init().inv(),
{
}

/// After a privileged call has appointed an oracle, the registry answers
/// that oracle, whatever it held before.
pub proof fn lemma_set_oracle_then_get(s: PalletState, oracle: AccountId)
    ensures
        PalletState::set_oracle_result(Origin::Root, oracle) is Ok,
        s.after_set_oracle(Origin::Root, oracle).oracle == Some(oracle),
{
}

/// Appointing an oracle is refused exactly when the call is not privileged,
/// and a refused call changes nothing. No call changes the log, and none
/// breaks the bounds.
pub proof fn lemma_set_oracle_authorization(s: PalletState, origin: Origin, oracle: AccountId)
    ensures
        PalletState::set_oracle_result(origin, oracle) == Err::<Event, Error>(Error::BadOrigin)
            <==> origin != Origin::Root,
        PalletState::set_oracle_result(origin, oracle) is Err ==> s.after_set_oracle(origin, oracle)
            == s,
        s.after_set_oracle(origin, oracle).events == s.events,
        s.inv() ==> s.after_set_oracle(origin, oracle).inv(),
{
}

/// A submission is refused for its origin exactly when the call is not
/// signed by an account.
pub proof fn lemma_submit_bad_origin(s: PalletState, origin: Origin, data: Seq<u8>, now: BlockNumber)
    ensures
        s.submit_result(origin, data, now) == Err::<Event, Error>(Error::BadOrigin) <==> !(origin is Signed),
{
}

/// A submission signed by an account is refused for want of an oracle
/// exactly when the registry is empty.
pub proof fn lemma_submit_oracle_not_set(
    s: PalletState,
    who: AccountId,
    data: Seq<u8>,
    now: BlockNumber,
)
    ensures
        s.submit_result(Origin::Signed(who), data, now) == Err::<Event, Error>(Error::OracleNotSet)
            <==> s.oracle is None,
{
}

/// With an oracle appointed, a submission signed by an account is refused
/// as coming from another account exactly when the signer is not the oracle.
pub proof fn lemma_submit_not_current_oracle(
    s: PalletState,
    who: AccountId,
    data: Seq<u8>,
    now: BlockNumber,
)
    requires
        s.oracle is Some,
    ensures
        s.submit_result(Origin::Signed(who), data, now) == Err::<Event, Error>(
            Error::NotCurrentOracle,
        ) <==> s.oracle != Some(who),
{
}

/// A submission signed by the oracle is refused for its size exactly when
/// the payload is longer than [`MAX_DATA_LEN`] bytes.
pub proof fn lemma_submit_too_big(s: PalletState, who: AccountId, data: Seq<u8>, now: BlockNumber)
    requires
        s.oracle == Some(who),
    ensures
        s.submit_result(Origin::Signed(who), data, now) == Err::<Event, Error>(Error::VecTooBig)
            <==> data.len() > MAX_DATA_LEN,
{
}

/// A submission signed by the oracle, with a payload that fits, is refused
/// for want of room exactly when the log holds [`MAX_EVENTS`] records or
/// more, and is accepted otherwise.
pub proof fn lemma_submit_log_full(s: PalletState, who: AccountId, data: Seq<u8>, now: BlockNumber)
    requires
        s.oracle == Some(who),
        data.len() <= MAX_DATA_LEN,
    ensures
        s.submit_result(Origin::Signed(who), data, now) == Err::<Event, Error>(
            Error::OracleEventsOverflow,
        ) <==> s.events.len() >= MAX_EVENTS,
        s.submit_result(Origin::Signed(who), data, now) is Ok <==> s.events.len() < MAX_EVENTS,
{
}

/// A refused submission changes nothing.
pub proof fn lemma_submit_refused_changes_nothing(
    s: PalletState,
    origin: Origin,
    data: Seq<u8>,
    now: BlockNumber,
)
    requires
        s.submit_result(origin, data, now) is Err,
    ensures
        s.after_submit(origin, data, now) == s,
{
}

/// An accepted submission comes from the oracle and adds one record at the
/// end of the log: the submitted bytes as they are, the oracle as the
/// submitter, the height of the submission as the timestamp. The records
/// before it and the registry stay as they were, and the answer names the
/// oracle and the height.
pub proof fn lemma_submit_round_trip(s: PalletState, origin: Origin, data: Seq<u8>, now: BlockNumber)
    requires
        s.submit_result(origin, data, now) is Ok,
    ensures
        s.oracle matches Some(who) && origin == Origin::Signed(who) && s.submit_result(
            origin,
            data,
            now,
        ) == Ok::<Event, Error>(Event::EventSubmitted { oracle: who, timestamp: now })
            && s.after_submit(origin, data, now).events == s.events.push(
            EventRecord { data, oracle: who, timestamp: now },
        ),
        s.after_submit(origin, data, now).events.len() == s.events.len() + 1,
        s.after_submit(origin, data, now).events.last().data == data,
        s.after_submit(origin, data, now).events.last().timestamp == now,
        s.after_submit(origin, data, now).events.drop_last() == s.events,
        s.after_submit(origin, data, now).oracle == s.oracle,
{
    let after = s.after_submit(origin, data, now).events;
    assert(after.drop_last() =~= s.events);
}

/// No submission breaks the bounds.
pub proof fn lemma_submit_within_bounds(s: PalletState, origin: Origin, data: Seq<u8>, now: BlockNumber)
    requires
        s.inv(),
    ensures
        s.after_submit(origin, data, now).inv(),
{
}

/// Where the heights that the host reports never decrease, the timestamps
/// of the log do not either: a submission at a height that is no lower than
/// the newest record's keeps the log in order.
pub proof fn lemma_submit_keeps_order(s: PalletState, origin: Origin, data: Seq<u8>, now: BlockNumber)
    requires
        timestamps_sorted(s.events),
        s.events.len() > 0 ==> s.events.last().timestamp <= now,
    ensures
        timestamps_sorted(s.after_submit(origin, data, now).events),
{
    let after = s.after_submit(origin, data, now).events;
    if s.submit_result(origin, data, now) is Ok {
        assert forall|i: int, j: int| 0 <= i <= j < after.len() implies (#[trigger] after[i]).timestamp
            <= (#[trigger] after[j]).timestamp by {
            if j < s.events.len() {
                assert(after[i] == s.events[i]);
                assert(after[j] == s.events[j]);
            } else if i < s.events.len() {
                assert(after[i] == s.events[i]);
                assert(s.events[i].timestamp <= s.events[s.events.len() - 1].timestamp);
            }
        }
    }
}

/// The state after the submissions of `calls` in a row, each a payload and
/// the height at which it is submitted, all signed by `who`.
pub open spec fn after_submissions(
    s: PalletState,
    who: AccountId,
    calls: Seq<(Seq<u8>, BlockNumber)>,
) -> PalletState
    decreases calls.len(),
{
    if calls.len() == 0 {
        s
    } else {
        after_submissions(s, who, calls.drop_last()).after_submit(
            Origin::Signed(who),
            calls.last().0,
            calls.last().1,
        )
    }
}

/// While the log has room, each submission of the oracle with a payload
/// that fits adds one record. So after as many of them as there was room
/// for, the log is full: the next such submission is refused for want of
/// room, and the log keeps its length.
pub proof fn lemma_log_fills_then_refuses(
    s: PalletState,
    who: AccountId,
    calls: Seq<(Seq<u8>, BlockNumber)>,
    next: Seq<u8>,
    now: BlockNumber,
)
    requires
        s.oracle == Some(who),
        s.events.len() + calls.len() <= MAX_EVENTS,
        forall|k: int| 0 <= k < calls.len() ==> (#[trigger] calls[k]).0.len() <= MAX_DATA_LEN,
        next.len() <= MAX_DATA_LEN,
    ensures
        after_submissions(s, who, calls).oracle == Some(who),
        after_submissions(s, who, calls).events.len() == s.events.len() + calls.len(),
        s.events.len() + calls.len() == MAX_EVENTS ==> {
            let full = after_submissions(s, who, calls);
            &&& full.submit_result(Origin::Signed(who), next, now) == Err::<Event, Error>(
                Error::OracleEventsOverflow,
            )
            &&& full.after_submit(Origin::Signed(who), next, now) == full
            &&& full.events.len() == MAX_EVENTS
        },
    decreases calls.len(),
{
    if calls.len() > 0 {
        let earlier = calls.drop_last();
        assert forall|k: int| 0 <= k < earlier.len() implies (#[trigger] earlier[k]).0.len()
            <= MAX_DATA_LEN by {
            assert(earlier[k] == calls[k]);
        }
        lemma_log_fills_then_refuses(s, who, earlier, next, now);
    }
}

/// A pruning pass removes records from the front of the log only, as many
/// as stand before the oldest fresh one, and every record that it removes is
/// stale. It leaves the registry as it was and does not break the bounds.
pub proof fn lemma_idle_removes_stale_prefix(s: PalletState, now: BlockNumber)
    ensures
        0 <= cutoff(s.events, now) <= s.events.len(),
        s.after_idle(now).events == s.events.skip(cutoff(s.events, now)),
        forall|j: int|
            0 <= j < cutoff(s.events, now) ==> !is_fresh((#[trigger] s.events[j]).timestamp, now),
        s.after_idle(now).oracle == s.oracle,
        s.inv() ==> s.after_idle(now).inv(),
        timestamps_sorted(s.events) ==> timestamps_sorted(s.after_idle(now).events),
{
    lemma_cutoff(s.events, now);
    let c = cutoff(s.events, now);
    let kept = s.after_idle(now).events;
    assert forall|i: int| 0 <= i < kept.len() implies #[trigger] kept[i] == s.events[i + c] by {}
    if timestamps_sorted(s.events) {
        assert forall|i: int, j: int| 0 <= i <= j < kept.len() implies (#[trigger] kept[i]).timestamp
            <= (#[trigger] kept[j]).timestamp by {
            assert(kept[i] == s.events[i + c]);
            assert(kept[j] == s.events[j + c]);
        }
    }
    if s.inv() {
        assert forall|i: int| 0 <= i < kept.len() implies (#[trigger] kept[i]).data.len()
            <= MAX_DATA_LEN by {
            assert(kept[i] == s.events[i + c]);
        }
    }
}

/// A pruning pass leaves a log as it is where its oldest record is fresh,
/// and also where none of its records is fresh: a log whose every record is
/// stale is not cleared.
pub proof fn lemma_idle_leaves_log(events: Seq<EventRecord>, now: BlockNumber)
    requires
        !has_fresh(events, now) || (events.len() > 0 && is_fresh(events[0].timestamp, now)),
    ensures
        pruned(events, now) == events,
{
    lemma_cutoff(events, now);
    if has_fresh(events, now) {
        assert(is_first_fresh(events, now, 0));
    }
    assert(events.skip(0) =~= events);
}

/// A second pruning pass at the same height, with no submission in between,
/// leaves the log that the first one left.
pub proof fn lemma_idle_idempotent(s: PalletState, now: BlockNumber)
    ensures
        pruned(pruned(s.events, now), now) == pruned(s.events, now),
        s.after_idle(now).after_idle(now) == s.after_idle(now),
{
    lemma_cutoff(s.events, now);
    let kept = pruned(s.events, now);
    if has_fresh(s.events, now) {
        let c = cutoff(s.events, now);
        assert(kept[0] == s.events[c]);
        assert(is_first_fresh(kept, now, 0));
        lemma_idle_leaves_log(kept, now);
    } else {
        lemma_idle_leaves_log(s.events, now);
    }
}

/// On a log whose timestamps never decrease and that holds a fresh record,
/// a pruning pass keeps exactly the fresh records: every record that it
/// keeps is fresh, and every record that it removes is stale.
pub proof fn lemma_idle_keeps_fresh(events: Seq<EventRecord>, now: BlockNumber)
    requires
        timestamps_sorted(events),
        has_fresh(events, now),
    ensures
        forall|i: int|
            0 <= i < pruned(events, now).len() ==> is_fresh(
                (#[trigger] pruned(events, now)[i]).timestamp,
                now,
            ),
        forall|j: int| 0 <= j < cutoff(events, now) ==> !is_fresh((#[trigger] events[j]).timestamp, now),
{
    lemma_cutoff(events, now);
    let c = cutoff(events, now);
    let kept = pruned(events, now);
    assert forall|i: int| 0 <= i < kept.len() implies is_fresh((#[trigger] kept[i]).timestamp, now) by {
        assert(kept[i] == events[i + c]);
        assert(events[c].timestamp <= events[i + c].timestamp);
    }
}

} // verus!
