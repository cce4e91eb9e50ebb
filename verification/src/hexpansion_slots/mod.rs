//! The six hexpansion slots: enabling, disabling, and telling when a
//! hexpansion comes or goes.
//!
//! Each slot has a detect line. While a slot is enabled the line is an input
//! that a hexpansion pulls low to demand power. A disabled slot has its line
//! driven high, which disconnects it.

pub mod laws;

use crate::bounded::{slot_events, slot_events_new, slot_events_push};
use crate::pins::assignment::HexpansionDetectPins;
use crate::pins::aw9523b::{
    io_direction_update, io_state_update, pin_mode_update, set_io_direction, set_io_state,
    set_pin_mode, GpioDirection, PinMode, Port, RegisterUpdate,
};
use crate::pins::digital::PinState;
use crate::pins::input_registers::InputRegisters;
use crate::pins::pin::{Identity, PinExt};
use crate::time::Instant;
use vstd::prelude::*;

verus! {

/// Number of hexpansion slots.
pub const HEXPANSION_SLOT_COUNT: usize = 6;

/// One of the six slots.
#[derive(Debug, Clone, Copy, PartialEq, Eq, Structural)]
pub enum HexpansionSlot {
    A,
    B,
    C,
    D,
    E,
    F,
}

impl HexpansionSlot {
    /// Place of the slot among the six, counted from 0.
    pub open spec fn spec_index(self) -> int {
        match self {
            HexpansionSlot::A => 0,
            HexpansionSlot::B => 1,
            HexpansionSlot::C => 2,
            HexpansionSlot::D => 3,
            HexpansionSlot::E => 4,
            HexpansionSlot::F => 5,
        }
    }

    /// The slot at place `index`.
    pub open spec fn spec_from_index(index: int) -> Self
        recommends
            0 <= index < 6,
    {
        if index == 0 {
            HexpansionSlot::A
        } else if index == 1 {
            HexpansionSlot::B
        } else if index == 2 {
            HexpansionSlot::C
        } else if index == 3 {
            HexpansionSlot::D
        } else if index == 4 {
            HexpansionSlot::E
        } else {
            HexpansionSlot::F
        }
    }

    /// The detect line of the slot.
    pub open spec fn detect_pin(self) -> Identity {
        match self {
            HexpansionSlot::A => Identity { address: 0x5A, port: Port::Port1, pin: 4 },
            HexpansionSlot::B => Identity { address: 0x5A, port: Port::Port1, pin: 5 },
            HexpansionSlot::C => Identity { address: 0x59, port: Port::Port1, pin: 0 },
            HexpansionSlot::D => Identity { address: 0x59, port: Port::Port1, pin: 1 },
            HexpansionSlot::E => Identity { address: 0x59, port: Port::Port1, pin: 2 },
            HexpansionSlot::F => Identity { address: 0x59, port: Port::Port1, pin: 3 },
        }
    }

    /// Place of the slot among the six, counted from 0.
    pub fn index(self) -> (index: usize)
        ensures
            index == self.spec_index(),
            index < HEXPANSION_SLOT_COUNT,
    {
        match self {
            HexpansionSlot::A => 0,
            HexpansionSlot::B => 1,
            HexpansionSlot::C => 2,
            HexpansionSlot::D => 3,
            HexpansionSlot::E => 4,
            HexpansionSlot::F => 5,
        }
    }

    /// The slot at place `index`.
    pub fn from_index(index: usize) -> (slot: Self)
        requires
            index < HEXPANSION_SLOT_COUNT,
        ensures
            slot == Self::spec_from_index(index as int),
            slot.spec_index() == index,
    {
        match index {
            0 => Self::A,
            1 => Self::B,
            2 => Self::C,
            3 => Self::D,
            4 => Self::E,
            _ => Self::F,
        }
    }
}

/// What is known of a slot.
#[derive(Debug, Clone, Copy, PartialEq, Eq, Structural)]
pub enum HexpansionState {
    /// The slot is disabled and will not supply power.
    Disabled,
    /// The slot is enabled, but no hexpansion is demanding power from it.
    Empty,
    /// The slot is enabled and holds a hexpansion that is demanding power.
    Occupied,
}

/// A change of what is known of a slot.
#[derive(Debug, Clone, Copy, PartialEq, Eq, Structural)]
pub struct HexpansionSlotEvent {
    /// The slot that the event is about.
    pub slot: HexpansionSlot,
    /// When the change was seen.
    pub time: Instant,
    /// The state that the slot is in now.
    pub state: HexpansionState,
}

impl HexpansionSlotEvent {
    /// The slot that the event is about.
    pub fn slot(&self) -> (slot: &HexpansionSlot)
        ensures
            *slot == self.slot,
    {
        &self.slot
    }

    /// When the change was seen.
    pub fn time(&self) -> (time: &Instant)
        ensures
            *time == self.time,
    {
        &self.time
    }

    /// The state that the slot is in now.
    pub fn state(&self) -> (state: &HexpansionState)
        ensures
            *state == self.state,
    {
        &self.state
    }
}

/// What the control remembers of one slot.
///
/// `state` is the state that was last reported, or that is about to be:
/// `Some(Disabled)` for a slot that is disabled, `None` for a slot that was
/// enabled and not yet seen, and otherwise the level last seen. `notified`
/// says whether `state` has been reported in an event. It is only ever read
/// for a disabled slot.
#[derive(Debug, Clone, Copy, PartialEq, Eq, Structural)]
pub struct InnerState {
    pub state: Option<HexpansionState>,
    pub notified: bool,
}

/// What a detect line says: high is an empty slot, low is a hexpansion that
/// demands power.
pub open spec fn level_of(high: bool) -> HexpansionState {
    if high {
        HexpansionState::Empty
    } else {
        HexpansionState::Occupied
    }
}

/// What the six detect lines say in `regs`, slot A first.
pub open spec fn detect_levels(regs: InputRegisters) -> Seq<HexpansionState> {
    Seq::new(
        6,
        |i: int| level_of(regs.spec_pin_state(HexpansionSlot::spec_from_index(i).detect_pin())),
    )
}

/// The state that a poll reports of a slot, if it reports one.
///
/// A disabled slot is reported once, the first time it is polled after it
/// was disabled. An enabled slot is reported when its level is not the one
/// that is remembered.
pub open spec fn slot_emits(inner: InnerState, level: HexpansionState) -> Option<HexpansionState> {
    if inner.state == Some(HexpansionState::Disabled) {
        if inner.notified {
            None
        } else {
            Some(HexpansionState::Disabled)
        }
    } else if inner.state != Some(level) {
        Some(level)
    } else {
        None
    }
}

/// What is remembered of a slot after a poll.
pub open spec fn slot_after(inner: InnerState, level: HexpansionState) -> InnerState {
    if inner.state == Some(HexpansionState::Disabled) {
        InnerState { state: inner.state, notified: true }
    } else if inner.state != Some(level) {
        InnerState { state: Some(level), notified: true }
    } else {
        inner
    }
}

/// What is remembered of the six slots after a poll that saw `levels`.
pub open spec fn states_after(states: Seq<InnerState>, levels: Seq<HexpansionState>) -> Seq<
    InnerState,
> {
    Seq::new(6, |i: int| slot_after(states[i], levels[i]))
}

/// The events of a poll at `now` for the first `n` slots, slot A first.
pub open spec fn events_upto(
    states: Seq<InnerState>,
    levels: Seq<HexpansionState>,
    now: Instant,
    n: int,
) -> Seq<HexpansionSlotEvent>
    decreases n,
{
    if n <= 0 {
        Seq::empty()
    } else {
        let earlier = events_upto(states, levels, now, n - 1);
        match slot_emits(states[n - 1], levels[n - 1]) {
            Some(state) => earlier.push(
                HexpansionSlotEvent {
                    slot: HexpansionSlot::spec_from_index(n - 1),
                    time: now,
                    state,
                },
            ),
            None => earlier,
        }
    }
}

/// What is remembered of a slot right after it was enabled or disabled.
pub open spec fn state_when_set(enabled: bool) -> InnerState {
    InnerState {
        state: if enabled {
            None
        } else {
            Some(HexpansionState::Disabled)
        },
        notified: false,
    }
}

/// The updates that disconnect the detect line `pin`: GPIO mode, output,
/// driven high.
pub open spec fn disconnect(pin: Identity) -> Seq<RegisterUpdate> {
    seq![
        pin_mode_update(pin, PinMode::Gpio),
        io_direction_update(pin, GpioDirection::Output),
        io_state_update(pin, PinState::High),
    ]
}

/// The updates that bring up the control: every detect line is
/// disconnected, slot A first.
pub open spec fn spec_setup() -> Seq<RegisterUpdate> {
    disconnect(HexpansionSlot::A.detect_pin()) + disconnect(HexpansionSlot::B.detect_pin())
        + disconnect(HexpansionSlot::C.detect_pin()) + disconnect(HexpansionSlot::D.detect_pin())
        + disconnect(HexpansionSlot::E.detect_pin()) + disconnect(HexpansionSlot::F.detect_pin())
}

/// The updates that enable or disable `slot`. Enabling makes the detect
/// line an input. Disabling makes it an output and drives it high.
pub open spec fn spec_enable_updates(slot: HexpansionSlot, enabled: bool) -> Seq<RegisterUpdate> {
    if enabled {
        seq![io_direction_update(slot.detect_pin(), GpioDirection::Input)]
    } else {
        seq![
            io_direction_update(slot.detect_pin(), GpioDirection::Output),
            io_state_update(slot.detect_pin(), PinState::High),
        ]
    }
}

/// Control of the six hexpansion slots.
#[derive(Debug)]
pub struct HexpansionSlotControl {
    pins: HexpansionDetectPins,
    state: [InnerState; HEXPANSION_SLOT_COUNT],
}

impl View for HexpansionSlotControl {
    type V = Seq<InnerState>;

    /// What is remembered of the six slots, slot A first.
    closed spec fn view(&self) -> Seq<InnerState> {
        self.state@
    }
}

fn push_disconnect<PIN: PinExt>(updates: &mut Vec<RegisterUpdate>, pin: &PIN)
    ensures
        final(updates)@ == old(updates)@ + disconnect(pin.identity()),
{
    updates.push(set_pin_mode(pin, PinMode::Gpio));
    updates.push(set_io_direction(pin, GpioDirection::Output));
    updates.push(set_io_state(pin, PinState::High));
    assert(updates@ =~= old(updates)@ + disconnect(pin.identity()));
}

impl HexpansionSlotControl {
    /// A control remembers six slots.
    pub proof fn lemma_len(&self)
        ensures
            self@.len() == 6,
    {
    }

    /// Plans the bring-up of the control: all six slots are disabled.
    pub fn setup(pins: &HexpansionDetectPins) -> (updates: Vec<RegisterUpdate>)
        ensures
            updates@ == spec_setup(),
    {
        let mut updates: Vec<RegisterUpdate> = Vec::new();
        push_disconnect(&mut updates, &pins.a);
        push_disconnect(&mut updates, &pins.b);
        push_disconnect(&mut updates, &pins.c);
        push_disconnect(&mut updates, &pins.d);
        push_disconnect(&mut updates, &pins.e);
        push_disconnect(&mut updates, &pins.f);
        assert(updates@ =~= spec_setup());
        updates
    }

    /// Makes the control, given the outcome of performing
    /// [`HexpansionSlotControl::setup`]. Every slot starts disabled and not
    /// yet reported. A failed setup is handed back unchanged.
    pub fn try_new<E>(pins: HexpansionDetectPins, setup: Result<(), E>) -> (control: Result<
        Self,
        E,
    >)
        ensures
            setup is Ok ==> control is Ok && control->Ok_0@ == Seq::new(
                6,
                |i: int| state_when_set(false),
            ),
            setup is Err ==> control is Err && control->Err_0 == setup->Err_0,
    {
        match setup {
            Ok(()) => {
                let disabled = InnerState { state: Some(HexpansionState::Disabled), notified: false };
                let control = Self {
                    pins,
                    state: [disabled, disabled, disabled, disabled, disabled, disabled],
                };
                assert(control@ =~= Seq::new(6, |i: int| state_when_set(false)));
                Ok(control)
            },
            Err(error) => Err(error),
        }
    }

    /// Plans enabling or disabling `slot`.
    pub fn enable_updates(&self, slot: HexpansionSlot, enabled: bool) -> (updates: Vec<
        RegisterUpdate,
    >)
        ensures
            updates@ == spec_enable_updates(slot, enabled),
    {
        let mut updates: Vec<RegisterUpdate> = Vec::new();
        if enabled {
            let update = match slot {
                HexpansionSlot::A => set_io_direction(&self.pins.a, GpioDirection::Input),
                HexpansionSlot::B => set_io_direction(&self.pins.b, GpioDirection::Input),
                HexpansionSlot::C => set_io_direction(&self.pins.c, GpioDirection::Input),
                HexpansionSlot::D => set_io_direction(&self.pins.d, GpioDirection::Input),
                HexpansionSlot::E => set_io_direction(&self.pins.e, GpioDirection::Input),
                HexpansionSlot::F => set_io_direction(&self.pins.f, GpioDirection::Input),
            };
            updates.push(update);
        } else {
            let direction = match slot {
                HexpansionSlot::A => set_io_direction(&self.pins.a, GpioDirection::Output),
                HexpansionSlot::B => set_io_direction(&self.pins.b, GpioDirection::Output),
                HexpansionSlot::C => set_io_direction(&self.pins.c, GpioDirection::Output),
                HexpansionSlot::D => set_io_direction(&self.pins.d, GpioDirection::Output),
                HexpansionSlot::E => set_io_direction(&self.pins.e, GpioDirection::Output),
                HexpansionSlot::F => set_io_direction(&self.pins.f, GpioDirection::Output),
            };
            let level = match slot {
                HexpansionSlot::A => set_io_state(&self.pins.a, PinState::High),
                HexpansionSlot::B => set_io_state(&self.pins.b, PinState::High),
                HexpansionSlot::C => set_io_state(&self.pins.c, PinState::High),
                HexpansionSlot::D => set_io_state(&self.pins.d, PinState::High),
                HexpansionSlot::E => set_io_state(&self.pins.e, PinState::High),
                HexpansionSlot::F => set_io_state(&self.pins.f, PinState::High),
            };
            updates.push(direction);
            updates.push(level);
        }
        assert(updates@ =~= spec_enable_updates(slot, enabled));
        updates
    }

    /// Takes note that `slot` was enabled or disabled, given the outcome of
    /// performing [`HexpansionSlotControl::enable_updates`] for it.
    ///
    /// No event is made here: the next poll reports the slot. After a failed
    /// outcome nothing is changed, and the failure is handed back.
    pub fn set_enabled<E>(
        &mut self,
        slot: HexpansionSlot,
        enabled: bool,
        outcome: Result<(), E>,
    ) -> (result: Result<(), E>)
        ensures
            outcome is Ok ==> result is Ok && final(self)@ == old(self)@.update(
                slot.spec_index(),
                state_when_set(enabled),
            ),
            outcome is Err ==> result is Err && result->Err_0 == outcome->Err_0 && final(self)@
                == old(self)@,
    {
        match outcome {
            Ok(()) => {
                let state = if enabled {
                    None
                } else {
                    Some(HexpansionState::Disabled)
                };
                self.state[slot.index()] = InnerState { state, notified: false };
                Ok(())
            },
            Err(error) => Err(error),
        }
    }

    /// Polls the slots at the current time of the system clock.
    ///
    /// What is remembered afterwards does not depend on the clock. The events
    /// are those of [`HexpansionSlotControl::update_at`] for the time that
    /// the clock gave.
    pub fn update(&mut self, regs: &InputRegisters) -> (events: heapless::Vec<
        HexpansionSlotEvent,
        6,
    >)
        ensures
            final(self)@ == states_after(old(self)@, detect_levels(*regs)),
            exists|now: Instant|
                slot_events(events) == events_upto(old(self)@, detect_levels(*regs), now, 6),
    {
        let now = Instant::now();
        self.update_at(regs, now)
    }

    /// Polls the slots: compares what is remembered with the snapshot
    /// `regs`, taken at `now`, and reports every slot that changed, slot A
    /// first.
    pub fn update_at(&mut self, regs: &InputRegisters, now: Instant) -> (events: heapless::Vec<
        HexpansionSlotEvent,
        6,
    >)
        ensures
            final(self)@ == states_after(old(self)@, detect_levels(*regs)),
            slot_events(events) == events_upto(old(self)@, detect_levels(*regs), now, 6),
    {
        let states_now = states_from_registers(&self.pins, regs);
        let mut events = slot_events_new();
        let ghost before = self@;
        let ghost levels = detect_levels(*regs);
        let mut idx: usize = 0;
        while idx < HEXPANSION_SLOT_COUNT
            invariant
                idx <= HEXPANSION_SLOT_COUNT,
                states_now@ == levels,
                before.len() == 6,
                self@.len() == 6,
                forall|i: int| 0 <= i < idx ==> self@[i] == slot_after(before[i], levels[i]),
                forall|i: int| idx <= i < 6 ==> self@[i] == before[i],
                slot_events(events) == events_upto(before, levels, now, idx as int),
                slot_events(events).len() <= idx,
            decreases HEXPANSION_SLOT_COUNT - idx,
        {
            let level = states_now[idx];
            let inner = self.state[idx];
            let disabled = match inner.state {
                Some(HexpansionState::Disabled) => true,
                _ => false,
            };
            if disabled {
                if !inner.notified {
                    let event = HexpansionSlotEvent {
                        slot: HexpansionSlot::from_index(idx),
                        time: now,
                        state: HexpansionState::Disabled,
                    };
                    let _ = slot_events_push(&mut events, event);
                    self.state[idx] = InnerState { state: inner.state, notified: true };
                }
            } else {
                let same = match inner.state {
                    Some(state) => state == level,
                    None => false,
                };
                if !same {
                    let event = HexpansionSlotEvent {
                        slot: HexpansionSlot::from_index(idx),
                        time: now,
                        state: level,
                    };
                    let _ = slot_events_push(&mut events, event);
                    self.state[idx] = InnerState { state: Some(level), notified: true };
                }
            }
            idx += 1;
        }
        assert(self@ =~= states_after(before, levels));
        events
    }
}

/// Reads the state of each slot off its detect line in `regs`, slot A first.
pub fn states_from_registers(pins: &HexpansionDetectPins, regs: &InputRegisters) -> (states: [
    HexpansionState; 6
])
    ensures
        states@ == detect_levels(*regs),
{
    let states = [
        level(regs.pin_state(&pins.a)),
        level(regs.pin_state(&pins.b)),
        level(regs.pin_state(&pins.c)),
        level(regs.pin_state(&pins.d)),
        level(regs.pin_state(&pins.e)),
        level(regs.pin_state(&pins.f)),
    ];
    assert(states@ =~= detect_levels(*regs));
    states
}

/// What a detect line says: high is an empty slot, low is a hexpansion that
/// demands power.
pub fn level(high: bool) -> (state: HexpansionState)
    ensures
        state == level_of(high),
{
    if high {
        HexpansionState::Empty
    } else {
        HexpansionState::Occupied
    }
}

} // verus!
