//! The fixed-capacity vectors of `heapless` that carry events, as the
//! verifier is to see them.
//!
//! The type is declared opaque. What a vector holds is named by a
//! specification function for each kind of event, and the two operations that
//! the state machines use are stated over those names.

use crate::buttons::ButtonEvent;
use crate::hexpansion_slots::HexpansionSlotEvent;
use vstd::prelude::*;

verus! {

/// `heapless::Vec`: a vector of at most `N` items that lives where it is
/// declared. Nothing of its inside is visible here.
#[verifier::external_type_specification]
#[verifier::external_body]
#[verifier::reject_recursive_types(T)]
pub struct ExHeaplessVec<T, const N: usize>(heapless::Vec<T, N>);

/// The button events that `events` holds, oldest first.
pub uninterp spec fn button_events(events: heapless::Vec<ButtonEvent, 6>) -> Seq<ButtonEvent>;

/// The slot events that `events` holds, oldest first.
pub uninterp spec fn slot_events(events: heapless::Vec<HexpansionSlotEvent, 6>) -> Seq<HexpansionSlotEvent>;

/// `heapless::Vec::new`: a vector that holds nothing.
#[verifier::external_body]
pub(crate) fn button_events_new() -> (events: heapless::Vec<ButtonEvent, 6>)
    ensures
        button_events(events) == Seq::<ButtonEvent>::empty(),
{
    heapless::Vec::new()
}

/// `heapless::Vec::push`: below the capacity of six the event is appended
/// and `Ok` comes back; at capacity the vector stays as it is and the event
/// comes back in `Err`.
#[verifier::external_body]
pub(crate) fn button_events_push(
    events: &mut heapless::Vec<ButtonEvent, 6>,
    event: ButtonEvent,
) -> (pushed: Result<(), ButtonEvent>)
    ensures
        button_events(*old(events)).len() < 6 ==> pushed is Ok && button_events(*final(events))
            == button_events(*old(events)).push(event),
        button_events(*old(events)).len() >= 6 ==> pushed is Err && pushed->Err_0 == event
            && button_events(*final(events)) == button_events(*old(events)),
{
    events.push(event)
}

/// `heapless::Vec::new`: a vector that holds nothing.
#[verifier::external_body]
pub(crate) fn slot_events_new() -> (events: heapless::Vec<HexpansionSlotEvent, 6>)
    ensures
        slot_events(events) == Seq::<HexpansionSlotEvent>::empty(),
{
    heapless::Vec::new()
}

/// `heapless::Vec::push`: below the capacity of six the event is appended
/// and `Ok` comes back; at capacity the vector stays as it is and the event
/// comes back in `Err`.
#[verifier::external_body]
pub(crate) fn slot_events_push(
    events: &mut heapless::Vec<HexpansionSlotEvent, 6>,
    event: HexpansionSlotEvent,
) -> (pushed: Result<(), HexpansionSlotEvent>)
    ensures
        slot_events(*old(events)).len() < 6 ==> pushed is Ok && slot_events(*final(events))
            == slot_events(*old(events)).push(event),
        slot_events(*old(events)).len() >= 6 ==> pushed is Err && pushed->Err_0 == event
            && slot_events(*final(events)) == slot_events(*old(events)),
{
    events.push(event)
}

} // verus!
