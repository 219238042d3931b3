//! The bounded containers of `frame_support`, as the feed uses them.
//!
//! Nothing in this file is proved: each contract restates what the source of
//! `BoundedVec` shows. The rest of the library is verified against these
//! contracts.

use frame_support::traits::ConstU32;
use frame_support::BoundedVec;
use vstd::prelude::*;

use crate::types::EventRecord;
use crate::types::OracleEvent;

verus! {

/// `frame_support::BoundedVec`: a vector whose length never exceeds the bound
/// that its second parameter names.
#[verifier::external_type_specification]
#[verifier::external_body]
#[verifier::reject_recursive_types(T)]
#[verifier::reject_recursive_types(S)]
pub struct ExBoundedVec<T, S>(BoundedVec<T, S>);

/// `frame_support::traits::ConstU32`: a bound given as a constant.
#[verifier::external_type_specification]
#[verifier::external_body]
pub struct ExConstU32<const T: u32>(ConstU32<T>);

/// The log: at most 1000 records, oldest first.
pub type EventLog = BoundedVec<OracleEvent, ConstU32<1000>>;

/// The records that a log holds, oldest first.
pub uninterp spec fn log_records(log: EventLog) -> Seq<EventRecord>;

/// `BoundedVec::new`: a log without records.
#[verifier::external_body]
pub(crate) fn log_new() -> (log: EventLog)
    ensures
        log_records(log) == Seq::<EventRecord>::empty(),
{
    BoundedVec::new()
}

/// `Vec::len`, reached through `BoundedVec`'s `Deref`: the number of records.
#[verifier::external_body]
pub(crate) fn log_len(log: &EventLog) -> (n: usize)
    ensures
        n == log_records(*log).len(),
{
    log.len()
}

/// `BoundedVec::try_push`: appends `event` where the log holds fewer than
/// 1000 records; otherwise leaves the log as it was and hands `event` back.
#[verifier::external_body]
pub(crate) fn log_try_push(log: &mut EventLog, event: OracleEvent) -> (res: Result<(), OracleEvent>)
    ensures
        res is Ok <==> log_records(*old(log)).len() < 1000,
        res is Ok ==> log_records(*final(log)) == log_records(*old(log)).push(event@),
        res matches Err(back) ==> back == event && log_records(*final(log)) == log_records(
            *old(log),
        ),
{
    log.try_push(event)
}

/// Indexing, reached through `BoundedVec`'s `Index`: the record at position
/// `i`, counted from the oldest.
#[verifier::external_body]
pub(crate) fn log_get(log: &EventLog, i: usize) -> (event: &OracleEvent)
    requires
        i < log_records(*log).len(),
    ensures
        event@ == log_records(*log)[i as int],
{
    &log[i]
}

/// `BoundedVec::drain` over the range `0..n`, dropped at once: removes the
/// `n` oldest records and keeps the others in their order.
#[verifier::external_body]
pub(crate) fn log_drain_front(log: &mut EventLog, n: usize)
    requires
        n <= log_records(*old(log)).len(),
    ensures
        log_records(*final(log)) == log_records(*old(log)).skip(n as int),
{
    log.drain(0..n);
}

/// `BoundedVec::<u8, ConstU32<1024>>::try_from`, with `into_inner` on its
/// success: accepts `data` where it has at most 1024 bytes, and hands the
/// same bytes back either way.
#[verifier::external_body]
pub(crate) fn bound_data(data: Vec<u8>) -> (res: Result<Vec<u8>, Vec<u8>>)
    ensures
        res is Ok <==> data@.len() <= 1024,
        res matches Ok(kept) ==> kept@ == data@,
        res matches Err(refused) ==> refused@ == data@,
{
    match BoundedVec::<u8, ConstU32<1024>>::try_from(data) {
        Ok(bounded) => Ok(bounded.into_inner()),
        Err(refused) => Err(refused),
    }
}

} // verus!
