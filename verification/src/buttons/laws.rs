//! What holds of the buttons, poll after poll.

use crate::buttons::{
    button_levels, changed, event_of, events_upto, states_after, Button, ButtonEvent,
    ButtonState, TemporalButtonState,
};
use crate::pins::input_registers::InputRegisters;
use crate::time::Instant;
use vstd::prelude::*;

verus! {

/// Whether `events` holds an event of `button`.
pub open spec fn reports(events: Seq<ButtonEvent>, button: Button) -> bool {
    exists|j: int| 0 <= j < events.len() && #[trigger] events[j].button == button
}

/// The events of a poll for the first `n` buttons are those of the buttons
/// that changed, each once and in the order of the buttons.
pub proof fn lemma_events_upto(
    states: Seq<Option<TemporalButtonState>>,
    levels: Seq<ButtonState>,
    now: Instant,
    n: int,
)
    requires
        0 <= n <= 6,
    ensures
        events_upto(states, levels, now, n).len() <= n,
        forall|j: int|
            0 <= j < events_upto(states, levels, now, n).len() ==> ({
                let event = #[trigger] events_upto(states, levels, now, n)[j];
                let i: int = event.button.spec_index();
                &&& 0 <= i < n
                &&& changed(states[i], levels[i])
                &&& event == event_of(i, states[i], levels[i], now)
            }),
        forall|i: int|
            0 <= i < n && changed(#[trigger] states[i], levels[i]) ==> reports(
                events_upto(states, levels, now, n),
                Button::spec_from_index(i),
            ),
        forall|j: int, k: int|
            0 <= j < k < events_upto(states, levels, now, n).len() ==> (
            #[trigger] events_upto(states, levels, now, n)[j]).button.spec_index() < (
            #[trigger] events_upto(states, levels, now, n)[k]).button.spec_index(),
    decreases n,
{
    if n > 0 {
        lemma_events_upto(states, levels, now, n - 1);
        let earlier = events_upto(states, levels, now, n - 1);
        let events = events_upto(states, levels, now, n);
        assert forall|i: int| 0 <= i < n && changed(#[trigger] states[i], levels[i]) implies reports(
            events,
            Button::spec_from_index(i),
        ) by {
            if i < n - 1 {
                let j = choose|j: int|
                    0 <= j < earlier.len() && #[trigger] earlier[j].button
                        == Button::spec_from_index(i);
                assert(events[j].button == Button::spec_from_index(i));
            } else {
                assert(events[events.len() - 1].button == Button::spec_from_index(i));
            }
        }
    }
}

/// A poll reports a button if and only if the button was never seen before
/// or is seen in another state than it was last seen in, and it reports no
/// button twice.
pub proof fn lemma_reports_iff_changed(
    states: Seq<Option<TemporalButtonState>>,
    levels: Seq<ButtonState>,
    now: Instant,
    button: Button,
)
    ensures
        reports(events_upto(states, levels, now, 6), button) <==> changed(
            states[button.spec_index()],
            levels[button.spec_index()],
        ),
        forall|j: int, k: int|
            0 <= j < events_upto(states, levels, now, 6).len() && 0 <= k < events_upto(
                states,
                levels,
                now,
                6,
            ).len() && (#[trigger] events_upto(states, levels, now, 6)[j]).button == (
            #[trigger] events_upto(states, levels, now, 6)[k]).button ==> j == k,
{
    lemma_events_upto(states, levels, now, 6);
    let events = events_upto(states, levels, now, 6);
    let i: int = button.spec_index();
    assert(Button::spec_from_index(i) == button);
    if reports(events, button) {
        let j = choose|j: int| 0 <= j < events.len() && #[trigger] events[j].button == button;
        assert(changed(states[i], levels[i]));
    }
    assert forall|j: int, k: int|
        0 <= j < events.len() && 0 <= k < events.len() && (#[trigger] events[j]).button == (
        #[trigger] events[k]).button implies j == k by {
        if j < k {
            assert(events[j].button.spec_index() < events[k].button.spec_index());
        } else if k < j {
            assert(events[k].button.spec_index() < events[j].button.spec_index());
        }
    }
}

/// The event that reports a button holds what was remembered of the button
/// before the poll, the level that the poll saw, and the time of the poll.
pub proof fn lemma_event_content(
    states: Seq<Option<TemporalButtonState>>,
    levels: Seq<ButtonState>,
    now: Instant,
    j: int,
)
    requires
        0 <= j < events_upto(states, levels, now, 6).len(),
    ensures
        ({
            let event = events_upto(states, levels, now, 6)[j];
            let i: int = event.button.spec_index();
            &&& event.previous == states[i]
            &&& event.now.state == levels[i]
            &&& event.now.time == now
        }),
{
    lemma_events_upto(states, levels, now, 6);
}

/// After a poll every button is remembered in the state that the poll saw.
pub proof fn lemma_remembers_level(
    states: Seq<Option<TemporalButtonState>>,
    levels: Seq<ButtonState>,
    now: Instant,
    button: Button,
)
    ensures
        states_after(states, levels, now)[button.spec_index()] is Some,
        states_after(states, levels, now)[button.spec_index()]->Some_0.state
            == levels[button.spec_index()],
{
}

/// A snapshot of the input registers and the time at which it was taken.
pub struct Poll {
    pub regs: InputRegisters,
    pub now: Instant,
}

/// What is remembered of the six buttons after the first `k` of `polls`,
/// starting from `states`.
pub open spec fn states_at(
    states: Seq<Option<TemporalButtonState>>,
    polls: Seq<Poll>,
    k: int,
) -> Seq<Option<TemporalButtonState>>
    decreases k,
{
    if k <= 0 {
        states
    } else {
        states_after(states_at(states, polls, k - 1), button_levels(polls[k - 1].regs), polls[k
            - 1].now)
    }
}

/// The events of poll `k` of `polls`, starting from `states`.
pub open spec fn events_at(
    states: Seq<Option<TemporalButtonState>>,
    polls: Seq<Poll>,
    k: int,
) -> Seq<ButtonEvent> {
    events_upto(states_at(states, polls, k), button_levels(polls[k].regs), polls[k].now, 6)
}

/// Over any sequence of polls the buttons are an edge detector: the first
/// poll reports a button that was never seen or is seen in a new state, and
/// every later poll reports a button if and only if its level differs from
/// the level in the poll just before.
pub proof fn lemma_reports_edges(
    states: Seq<Option<TemporalButtonState>>,
    polls: Seq<Poll>,
    k: int,
    button: Button,
)
    requires
        0 <= k < polls.len(),
    ensures
        k == 0 ==> (reports(events_at(states, polls, k), button) <==> changed(
            states[button.spec_index()],
            button_levels(polls[0].regs)[button.spec_index()],
        )),
        k > 0 ==> (reports(events_at(states, polls, k), button) <==> button_levels(
            polls[k].regs,
        )[button.spec_index()] != button_levels(polls[k - 1].regs)[button.spec_index()]),
{
    let before = states_at(states, polls, k);
    lemma_reports_iff_changed(before, button_levels(polls[k].regs), polls[k].now, button);
    if k > 0 {
        lemma_remembers_level(
            states_at(states, polls, k - 1),
            button_levels(polls[k - 1].regs),
            polls[k - 1].now,
            button,
        );
    }
}

/// Whether no button is remembered at a time later than `now`.
pub open spec fn seen_by(states: Seq<Option<TemporalButtonState>>, now: Instant) -> bool {
    forall|i: int|
        0 <= i < 6 && (#[trigger] states[i]) is Some ==> states[i]->Some_0.time.ticks <= now.ticks
}

/// While the clock does not run backwards every event is in order, so that
/// its duration can be asked for, and the buttons stay so for every later
/// time.
pub proof fn lemma_events_in_order(
    states: Seq<Option<TemporalButtonState>>,
    levels: Seq<ButtonState>,
    now: Instant,
    later: Instant,
)
    requires
        seen_by(states, now),
        now.ticks <= later.ticks,
    ensures
        forall|j: int|
            0 <= j < events_upto(states, levels, now, 6).len() ==> (#[trigger] events_upto(
                states,
                levels,
                now,
                6,
            )[j]).in_order(),
        seen_by(states_after(states, levels, now), later),
{
    lemma_events_upto(states, levels, now, 6);
}

/// No two buttons share a line.
pub proof fn lemma_lines_distinct(a: Button, b: Button)
    requires
        a.pin() == b.pin(),
    ensures
        a == b,
{
}

} // verus!
