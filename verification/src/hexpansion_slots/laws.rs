//! What holds of the hexpansion slots, whatever is done to them.

use crate::buttons::Button;
use crate::hexpansion_slots::{
    detect_levels, events_upto, level_of, slot_emits, state_when_set, states_after,
    HexpansionSlot, HexpansionSlotEvent, HexpansionState, InnerState,
};
use crate::pins::input_registers::InputRegisters;
use crate::time::Instant;
use vstd::prelude::*;

verus! {

/// Whether `events` holds an event of `slot`.
pub open spec fn reports(events: Seq<HexpansionSlotEvent>, slot: HexpansionSlot) -> bool {
    exists|j: int| 0 <= j < events.len() && #[trigger] events[j].slot == slot
}

/// Whether `events` holds an event that reports `slot` in `state`.
pub open spec fn reports_state(
    events: Seq<HexpansionSlotEvent>,
    slot: HexpansionSlot,
    state: HexpansionState,
) -> bool {
    exists|j: int|
        0 <= j < events.len() && (#[trigger] events[j]).slot == slot && events[j].state == state
}

/// The events of a poll for the first `n` slots are those of the slots that
/// have something to report, each once and in the order of the slots.
pub proof fn lemma_events_upto(
    states: Seq<InnerState>,
    levels: Seq<HexpansionState>,
    now: Instant,
    n: int,
)
    requires
        0 <= n <= 6,
    ensures
        events_upto(states, levels, now, n).len() <= n,
        forall|j: int|
            0 <= j < events_upto(states, levels, now, n).len() ==> ({
                let event = #[trigger] events_upto(states, levels, now, n)[j];
                let i: int = event.slot.spec_index();
                &&& 0 <= i < n
                &&& slot_emits(states[i], levels[i]) == Some(event.state)
                &&& event.time == now
            }),
        forall|i: int|
            0 <= i < n && slot_emits(#[trigger] states[i], levels[i]) is Some ==> reports(
                events_upto(states, levels, now, n),
                HexpansionSlot::spec_from_index(i),
            ),
        forall|j: int, k: int|
            0 <= j < k < events_upto(states, levels, now, n).len() ==> (
            #[trigger] events_upto(states, levels, now, n)[j]).slot.spec_index() < (
            #[trigger] events_upto(states, levels, now, n)[k]).slot.spec_index(),
    decreases n,
{
    if n > 0 {
        lemma_events_upto(states, levels, now, n - 1);
        let earlier = events_upto(states, levels, now, n - 1);
        let events = events_upto(states, levels, now, n);
        assert forall|i: int|
            0 <= i < n && slot_emits(#[trigger] states[i], levels[i]) is Some implies reports(
            events,
            HexpansionSlot::spec_from_index(i),
        ) by {
            if i < n - 1 {
                let j = choose|j: int|
                    0 <= j < earlier.len() && #[trigger] earlier[j].slot
                        == HexpansionSlot::spec_from_index(i);
                assert(events[j].slot == HexpansionSlot::spec_from_index(i));
            } else {
                assert(events[events.len() - 1].slot == HexpansionSlot::spec_from_index(i));
            }
        }
    }
}

/// A poll reports a slot if and only if the slot has something to report,
/// it reports the slot in the state that is due and at the time of the poll,
/// and it reports no slot twice.
pub proof fn lemma_reports_what_is_due(
    states: Seq<InnerState>,
    levels: Seq<HexpansionState>,
    now: Instant,
    slot: HexpansionSlot,
)
    ensures
        reports(events_upto(states, levels, now, 6), slot) <==> slot_emits(
            states[slot.spec_index()],
            levels[slot.spec_index()],
        ) is Some,
        forall|j: int|
            0 <= j < events_upto(states, levels, now, 6).len() && (#[trigger] events_upto(
                states,
                levels,
                now,
                6,
            )[j]).slot == slot ==> events_upto(states, levels, now, 6)[j]
                == (HexpansionSlotEvent {
                slot,
                time: now,
                state: slot_emits(states[slot.spec_index()], levels[slot.spec_index()])->Some_0,
            }),
        forall|j: int, k: int|
            0 <= j < events_upto(states, levels, now, 6).len() && 0 <= k < events_upto(
                states,
                levels,
                now,
                6,
            ).len() && (#[trigger] events_upto(states, levels, now, 6)[j]).slot == (
            #[trigger] events_upto(states, levels, now, 6)[k]).slot ==> j == k,
{
    lemma_events_upto(states, levels, now, 6);
    let events = events_upto(states, levels, now, 6);
    let i: int = slot.spec_index();
    assert(HexpansionSlot::spec_from_index(i) == slot);
    if reports(events, slot) {
        let j = choose|j: int| 0 <= j < events.len() && #[trigger] events[j].slot == slot;
        assert(slot_emits(states[i], levels[i]) is Some);
    }
    assert forall|j: int, k: int|
        0 <= j < events.len() && 0 <= k < events.len() && (#[trigger] events[j]).slot == (
        #[trigger] events[k]).slot implies j == k by {
        if j < k {
            assert(events[j].slot.spec_index() < events[k].slot.spec_index());
        } else if k < j {
            assert(events[k].slot.spec_index() < events[j].slot.spec_index());
        }
    }
}

/// The poll that follows the disabling of a slot reports the slot once, as
/// disabled and at the time of the poll, whatever its detect line says.
pub proof fn lemma_disabled_is_reported(
    states: Seq<InnerState>,
    slot: HexpansionSlot,
    regs: InputRegisters,
    now: Instant,
)
    requires
        states.len() == 6,
    ensures
        ({
            let disabled = states.update(slot.spec_index(), state_when_set(false));
            let events = events_upto(disabled, detect_levels(regs), now, 6);
            &&& exists|j: int|
                0 <= j < events.len() && #[trigger] events[j] == (HexpansionSlotEvent {
                    slot,
                    time: now,
                    state: HexpansionState::Disabled,
                })
            &&& forall|j: int, k: int|
                0 <= j < events.len() && 0 <= k < events.len() && (#[trigger] events[j]).slot
                    == slot && (#[trigger] events[k]).slot == slot ==> j == k
        }),
{
    let disabled = states.update(slot.spec_index(), state_when_set(false));
    let levels = detect_levels(regs);
    let events = events_upto(disabled, levels, now, 6);
    lemma_reports_what_is_due(disabled, levels, now, slot);
    assert(reports(events, slot));
    let j = choose|j: int| 0 <= j < events.len() && #[trigger] events[j].slot == slot;
    assert(events[j] == (HexpansionSlotEvent { slot, time: now, state: HexpansionState::Disabled }));
}

/// The poll that follows the enabling of a slot reports the slot once, at
/// the time of the poll, in the state that its detect line shows: empty for
/// a high line and occupied for a low one, and never disabled.
pub proof fn lemma_enabled_reports_level(
    states: Seq<InnerState>,
    slot: HexpansionSlot,
    regs: InputRegisters,
    now: Instant,
)
    requires
        states.len() == 6,
    ensures
        ({
            let enabled = states.update(slot.spec_index(), state_when_set(true));
            let events = events_upto(enabled, detect_levels(regs), now, 6);
            let seen = level_of(regs.spec_pin_state(slot.detect_pin()));
            &&& seen != HexpansionState::Disabled
            &&& exists|j: int|
                0 <= j < events.len() && #[trigger] events[j] == (HexpansionSlotEvent {
                    slot,
                    time: now,
                    state: seen,
                })
            &&& forall|j: int, k: int|
                0 <= j < events.len() && 0 <= k < events.len() && (#[trigger] events[j]).slot
                    == slot && (#[trigger] events[k]).slot == slot ==> j == k
            &&& !reports_state(events, slot, HexpansionState::Disabled)
        }),
{
    let enabled = states.update(slot.spec_index(), state_when_set(true));
    let levels = detect_levels(regs);
    let events = events_upto(enabled, levels, now, 6);
    let seen = level_of(regs.spec_pin_state(slot.detect_pin()));
    assert(HexpansionSlot::spec_from_index(slot.spec_index()) == slot);
    assert(levels[slot.spec_index()] == seen);
    lemma_reports_what_is_due(enabled, levels, now, slot);
    assert(reports(events, slot));
    let j = choose|j: int| 0 <= j < events.len() && #[trigger] events[j].slot == slot;
    assert(events[j] == (HexpansionSlotEvent { slot, time: now, state: seen }));
}

/// Something that happens to the control: a poll, or the enabling or
/// disabling of a slot.
pub enum Action {
    Poll { regs: InputRegisters, now: Instant },
    SetEnabled { slot: HexpansionSlot, enabled: bool },
}

/// What is remembered of the six slots after `action`.
pub open spec fn states_after_action(states: Seq<InnerState>, action: Action) -> Seq<InnerState> {
    match action {
        Action::Poll { regs, now } => states_after(states, detect_levels(regs)),
        Action::SetEnabled { slot, enabled } => states.update(
            slot.spec_index(),
            state_when_set(enabled),
        ),
    }
}

/// The events that `action` makes.
pub open spec fn events_of_action(states: Seq<InnerState>, action: Action) -> Seq<
    HexpansionSlotEvent,
> {
    match action {
        Action::Poll { regs, now } => events_upto(states, detect_levels(regs), now, 6),
        Action::SetEnabled { slot, enabled } => Seq::empty(),
    }
}

/// What is remembered of the six slots after the first `k` of `actions`,
/// starting from `states`.
pub open spec fn states_at(states: Seq<InnerState>, actions: Seq<Action>, k: int) -> Seq<
    InnerState,
>
    decreases k,
{
    if k <= 0 {
        states
    } else {
        states_after_action(states_at(states, actions, k - 1), actions[k - 1])
    }
}

/// Whether a slot has nothing to report as disabled: it is enabled, or its
/// disabling has been reported.
pub open spec fn settled(inner: InnerState) -> bool {
    inner.state == Some(HexpansionState::Disabled) ==> inner.notified
}

/// A slot that has nothing to report as disabled stays so until it is
/// disabled again.
proof fn lemma_stays_settled(
    states: Seq<InnerState>,
    slot: HexpansionSlot,
    actions: Seq<Action>,
    k: int,
)
    requires
        states.len() == 6,
        settled(states[slot.spec_index()]),
        0 <= k <= actions.len(),
        forall|i: int|
            0 <= i < actions.len() ==> #[trigger] actions[i] != (Action::SetEnabled {
                slot,
                enabled: false,
            }),
    ensures
        states_at(states, actions, k).len() == 6,
        settled(states_at(states, actions, k)[slot.spec_index()]),
    decreases k,
{
    if k > 0 {
        lemma_stays_settled(states, slot, actions, k - 1);
        let action = actions[k - 1];
        match action {
            Action::Poll { regs, now } => {},
            Action::SetEnabled { slot: other, enabled } => {
                if other.spec_index() == slot.spec_index() {
                    assert(other == slot);
                    assert(enabled);
                }
            },
        }
    }
}

/// A disabled slot is reported as disabled once: by the poll that follows
/// its disabling, and by nothing that happens afterwards until the slot is
/// disabled again.
pub proof fn lemma_disabled_is_reported_once(
    states: Seq<InnerState>,
    slot: HexpansionSlot,
    regs: InputRegisters,
    now: Instant,
    later: Seq<Action>,
    k: int,
)
    requires
        states.len() == 6,
        0 <= k < later.len(),
        forall|i: int|
            0 <= i < later.len() ==> #[trigger] later[i] != (Action::SetEnabled {
                slot,
                enabled: false,
            }),
    ensures
        ({
            let disabled = states.update(slot.spec_index(), state_when_set(false));
            let polled = states_after(disabled, detect_levels(regs));
            &&& reports_state(
                events_upto(disabled, detect_levels(regs), now, 6),
                slot,
                HexpansionState::Disabled,
            )
            &&& !reports_state(
                events_of_action(states_at(polled, later, k), later[k]),
                slot,
                HexpansionState::Disabled,
            )
        }),
{
    let disabled = states.update(slot.spec_index(), state_when_set(false));
    let levels = detect_levels(regs);
    let polled = states_after(disabled, levels);
    lemma_disabled_is_reported(states, slot, regs, now);
    let first = events_upto(disabled, levels, now, 6);
    let j = choose|j: int|
        0 <= j < first.len() && #[trigger] first[j] == (HexpansionSlotEvent {
            slot,
            time: now,
            state: HexpansionState::Disabled,
        });
    assert(first[j].slot == slot && first[j].state == HexpansionState::Disabled);
    lemma_stays_settled(polled, slot, later, k);
    let before = states_at(polled, later, k);
    match later[k] {
        Action::Poll { regs: seen, now: then } => {
            lemma_reports_what_is_due(before, detect_levels(seen), then, slot);
            assert(HexpansionSlot::spec_from_index(slot.spec_index()) == slot);
            assert(level_of(seen.spec_pin_state(slot.detect_pin())) != HexpansionState::Disabled);
        },
        Action::SetEnabled { slot: other, enabled } => {},
    }
}

/// No two slots share a detect line, and no detect line is the line of a
/// button.
pub proof fn lemma_lines_distinct(a: HexpansionSlot, b: HexpansionSlot, button: Button)
    ensures
        a.detect_pin() == b.detect_pin() ==> a == b,
        a.detect_pin() != button.pin(),
{
}

} // verus!
