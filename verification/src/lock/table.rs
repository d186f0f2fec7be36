//! Fixed-capacity storage of the state machine: the rule table and the change
//! log are `heapless::Vec`s, and the clock is the embassy clock.
//! Every item here is trusted: its contract restates what the outside crate's
//! source does.

use vstd::prelude::*;

use super::state::{StateChange, StateTransition};

verus! {

/// Capacity of the rule table.
pub const RULE_CAPACITY: usize = 32;

/// Capacity of the change log.
pub const LOG_CAPACITY: usize = 100;

#[verifier::external_type_specification]
#[verifier::external_body]
#[verifier::reject_recursive_types(T)]
pub struct ExHeaplessVec<T, const N: usize>(heapless::Vec<T, N>);

/// The rules held by a rule table, first pushed first.
pub uninterp spec fn rule_items(v: heapless::Vec<StateTransition, 32>) -> Seq<StateTransition>;

/// The records held by a change log, first pushed first.
pub uninterp spec fn log_items(v: heapless::Vec<StateChange, 100>) -> Seq<StateChange>;

/// `heapless::Vec::new`: an empty vector.
#[verifier::external_body]
pub(crate) fn rule_table_new() -> (v: heapless::Vec<StateTransition, 32>)
    ensures
        rule_items(v) == Seq::<StateTransition>::empty(),
{
    heapless::Vec::new()
}

/// `heapless::Vec::push`: appends the item when fewer than `N` items are held
/// and returns `Ok`; otherwise hands the item back in `Err` and changes nothing.
#[verifier::external_body]
pub(crate) fn rule_table_push(v: &mut heapless::Vec<StateTransition, 32>, item: StateTransition) -> (r: Result<(), StateTransition>)
    ensures
        rule_items(*old(v)).len() < 32 ==> r is Ok,
        rule_items(*old(v)).len() < 32 ==> rule_items(*final(v)) == rule_items(*old(v)).push(item),
        rule_items(*old(v)).len() >= 32 ==> (r matches Err(back) && back == item),
        rule_items(*old(v)).len() >= 32 ==> rule_items(*final(v)) == rule_items(*old(v)),
        rule_items(*final(v)).len() <= 32,
{
    v.push(item)
}

/// `heapless::Vec::as_slice`: the held items, in order.
#[verifier::external_body]
pub(crate) fn rule_table_as_slice(v: &heapless::Vec<StateTransition, 32>) -> (s: &[StateTransition])
    ensures
        s@ == rule_items(*v),
{
    v.as_slice()
}

/// `heapless::Vec::new`: an empty vector.
#[verifier::external_body]
pub(crate) fn change_log_new() -> (v: heapless::Vec<StateChange, 100>)
    ensures
        log_items(v) == Seq::<StateChange>::empty(),
{
    heapless::Vec::new()
}

/// `heapless::Vec::push`: appends the item when fewer than `N` items are held
/// and returns `Ok`; otherwise hands the item back in `Err` and changes nothing.
#[verifier::external_body]
pub(crate) fn change_log_push(v: &mut heapless::Vec<StateChange, 100>, item: StateChange) -> (r: Result<(), StateChange>)
    ensures
        log_items(*old(v)).len() < 100 ==> r is Ok,
        log_items(*old(v)).len() < 100 ==> log_items(*final(v)) == log_items(*old(v)).push(item),
        log_items(*old(v)).len() >= 100 ==> (r matches Err(back) && back == item),
        log_items(*old(v)).len() >= 100 ==> log_items(*final(v)) == log_items(*old(v)),
        log_items(*final(v)).len() <= 100,
{
    v.push(item)
}

/// `heapless::Vec::is_full`: whether `N` items are held.
#[verifier::external_body]
pub(crate) fn change_log_is_full(v: &heapless::Vec<StateChange, 100>) -> (r: bool)
    ensures
        r == (log_items(*v).len() == 100),
{
    v.is_full()
}

/// `heapless::Vec::remove`: takes out the item at `index`, shifting the later
/// ones down. The source panics on an index past the end, which `requires`
/// rules out.
#[verifier::external_body]
pub(crate) fn change_log_remove(v: &mut heapless::Vec<StateChange, 100>, index: usize) -> (r:
    StateChange)
    requires
        index < log_items(*old(v)).len(),
    ensures
        r == log_items(*old(v))[index as int],
        log_items(*final(v)) == log_items(*old(v)).remove(index as int),
{
    v.remove(index)
}

/// `heapless::Vec::as_slice`: the held items, in order.
#[verifier::external_body]
pub(crate) fn change_log_as_slice(v: &heapless::Vec<StateChange, 100>) -> (s: &[StateChange])
    ensures
        s@ == log_items(*v),
{
    v.as_slice()
}

/// `embassy_time::Instant::now`, in milliseconds since start-up (through
/// `Instant::as_millis`). The reading comes from the clock, so nothing is
/// stated of it.
#[verifier::external_body]
pub(crate) fn now_millis() -> (t: u64) {
    embassy_time::Instant::now().as_millis()
}

} // verus!
