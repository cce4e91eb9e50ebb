//! The six buttons of the top board, and the events that their presses and
//! releases make.
//!
//! The buttons are wired active-low: a pressed button pulls its line low.
//! Nothing is filtered here. The buttons are polled at a fixed cadence, and
//! that cadence is all the debouncing there is.

pub mod laws;

use crate::bounded::{button_events, button_events_new, button_events_push};
use crate::pins::assignment::ButtonPins;
use crate::pins::aw9523b::{
    io_direction_update, pin_mode_update, set_io_direction, set_pin_mode, GpioDirection, PinMode,
    Port, RegisterUpdate,
};
use crate::pins::input_registers::InputRegisters;
use crate::pins::pin::{Identity, PinExt};
use crate::time::{Duration, Instant};
use vstd::prelude::*;

verus! {

/// Number of buttons.
pub const BUTTON_COUNT: usize = 6;

/// One of the six buttons.
#[derive(Debug, Clone, Copy, PartialEq, Eq, Structural)]
pub enum Button {
    A,
    B,
    C,
    D,
    E,
    F,
}

impl Button {
    /// Place of the button among the six, counted from 0.
    pub open spec fn spec_index(self) -> int {
        match self {
            Button::A => 0,
            Button::B => 1,
            Button::C => 2,
            Button::D => 3,
            Button::E => 4,
            Button::F => 5,
        }
    }

    /// The button at place `index`.
    pub open spec fn spec_from_index(index: int) -> Self
        recommends
            0 <= index < 6,
    {
        if index == 0 {
            Button::A
        } else if index == 1 {
            Button::B
        } else if index == 2 {
            Button::C
        } else if index == 3 {
            Button::D
        } else if index == 4 {
            Button::E
        } else {
            Button::F
        }
    }

    /// The line of the button.
    pub open spec fn pin(self) -> Identity {
        match self {
            Button::A => Identity { address: 0x5A, port: Port::Port0, pin: 6 },
            Button::B => Identity { address: 0x5A, port: Port::Port0, pin: 7 },
            Button::C => Identity { address: 0x59, port: Port::Port0, pin: 0 },
            Button::D => Identity { address: 0x59, port: Port::Port0, pin: 1 },
            Button::E => Identity { address: 0x59, port: Port::Port0, pin: 2 },
            Button::F => Identity { address: 0x59, port: Port::Port0, pin: 3 },
        }
    }

    /// The button at place `index`.
    pub fn from_index(index: usize) -> (button: Self)
        requires
            index < BUTTON_COUNT,
        ensures
            button == Self::spec_from_index(index as int),
            button.spec_index() == index,
    {
        match index {
            0 => Self::A,
            1 => Self::B,
            2 => Self::C,
            3 => Self::D,
            4 => Self::E,
            _ => Self::F,
        }
    }
}

/// Whether a button is held down.
#[derive(Debug, Clone, Copy, PartialEq, Eq, Structural)]
pub enum ButtonState {
    Pressed,
    Released,
}

/// The state of a button, and when the button was seen to take it.
#[derive(Debug, Clone, Copy, PartialEq, Eq, Structural)]
pub struct TemporalButtonState {
    pub time: Instant,
    pub state: ButtonState,
}

impl TemporalButtonState {
    /// When the button was seen to take the state.
    pub fn time(&self) -> (time: &Instant)
        ensures
            *time == self.time,
    {
        &self.time
    }

    /// The state of the button.
    pub fn state(&self) -> (state: &ButtonState)
        ensures
            *state == self.state,
    {
        &self.state
    }
}

/// A press or a release of a button.
#[derive(Debug, Clone, Copy, PartialEq, Eq, Structural)]
pub struct ButtonEvent {
    /// The button that changed.
    pub button: Button,
    /// What was known of the button before, if it had been seen before.
    pub previous: Option<TemporalButtonState>,
    /// What is known of the button now.
    pub now: TemporalButtonState,
}

impl ButtonEvent {
    /// The button that changed.
    pub fn button(&self) -> (button: &Button)
        ensures
            *button == self.button,
    {
        &self.button
    }

    /// What was known of the button before, if it had been seen before.
    pub fn previous(&self) -> (previous: &Option<TemporalButtonState>)
        ensures
            *previous == self.previous,
    {
        &self.previous
    }

    /// What is known of the button now.
    pub fn now(&self) -> (now: &TemporalButtonState)
        ensures
            *now == self.now,
    {
        &self.now
    }

    /// Whether the event is a press.
    pub fn pressed(&self) -> (pressed: bool)
        ensures
            pressed == (self.now.state == ButtonState::Pressed),
    {
        self.now.state == ButtonState::Pressed
    }

    /// Whether the event is a release.
    pub fn released(&self) -> (released: bool)
        ensures
            released == (self.now.state == ButtonState::Released),
    {
        self.now.state == ButtonState::Released
    }

    /// Whether the clock did not run backwards between the two states of
    /// the event.
    pub open spec fn in_order(&self) -> bool {
        self.previous is Some ==> self.previous->Some_0.time.ticks <= self.now.time.ticks
    }

    /// The time that the button spent in its previous state, if it had been
    /// seen before: on a release, how long the button was held.
    pub fn duration(&self) -> (held: Option<Duration>)
        requires
            self.in_order(),
        ensures
            held is Some <==> self.previous is Some,
            held is Some ==> held->Some_0.ticks == self.now.time.ticks
                - self.previous->Some_0.time.ticks,
    {
        match self.previous {
            Some(previous) => Some(self.now.time.duration_since(previous.time)),
            None => None,
        }
    }

    /// The time that the button spent in its previous state, if it had been
    /// seen before and the clock did not run backwards since.
    pub fn checked_duration(&self) -> (held: Option<Duration>)
        ensures
            held is Some <==> self.previous is Some && self.in_order(),
            held is Some ==> held->Some_0.ticks == self.now.time.ticks
                - self.previous->Some_0.time.ticks,
    {
        match self.previous {
            Some(previous) => self.now.time.checked_duration_since(previous.time),
            None => None,
        }
    }
}

/// What the line of a button says: high is released, low is pressed.
pub open spec fn level_of(high: bool) -> ButtonState {
    if high {
        ButtonState::Released
    } else {
        ButtonState::Pressed
    }
}

/// What the six button lines say in `regs`, button A first.
pub open spec fn button_levels(regs: InputRegisters) -> Seq<ButtonState> {
    Seq::new(6, |i: int| level_of(regs.spec_pin_state(Button::spec_from_index(i).pin())))
}

/// Whether a poll that sees `level` reports the button: it was never seen
/// before, or it was last seen in the other state.
pub open spec fn changed(previous: Option<TemporalButtonState>, level: ButtonState) -> bool {
    previous is None || previous->Some_0.state != level
}

/// What is remembered of a button after a poll at `now` that saw `level`.
pub open spec fn state_after(
    previous: Option<TemporalButtonState>,
    level: ButtonState,
    now: Instant,
) -> Option<TemporalButtonState> {
    if changed(previous, level) {
        Some(TemporalButtonState { time: now, state: level })
    } else {
        previous
    }
}

/// What is remembered of the six buttons after a poll at `now` that saw
/// `levels`.
pub open spec fn states_after(
    states: Seq<Option<TemporalButtonState>>,
    levels: Seq<ButtonState>,
    now: Instant,
) -> Seq<Option<TemporalButtonState>> {
    Seq::new(6, |i: int| state_after(states[i], levels[i], now))
}

/// The event that reports button `index` at `now`.
pub open spec fn event_of(
    index: int,
    previous: Option<TemporalButtonState>,
    level: ButtonState,
    now: Instant,
) -> ButtonEvent {
    ButtonEvent {
        button: Button::spec_from_index(index),
        previous,
        now: TemporalButtonState { time: now, state: level },
    }
}

/// The events of a poll at `now` for the first `n` buttons, button A first.
pub open spec fn events_upto(
    states: Seq<Option<TemporalButtonState>>,
    levels: Seq<ButtonState>,
    now: Instant,
    n: int,
) -> Seq<ButtonEvent>
    decreases n,
{
    if n <= 0 {
        Seq::empty()
    } else {
        let earlier = events_upto(states, levels, now, n - 1);
        if changed(states[n - 1], levels[n - 1]) {
            earlier.push(event_of(n - 1, states[n - 1], levels[n - 1], now))
        } else {
            earlier
        }
    }
}

/// The updates that make `pin` the input of a button: GPIO mode, input.
pub open spec fn listen(pin: Identity) -> Seq<RegisterUpdate> {
    seq![pin_mode_update(pin, PinMode::Gpio), io_direction_update(pin, GpioDirection::Input)]
}

/// The updates that bring up the buttons, button A first.
pub open spec fn spec_setup() -> Seq<RegisterUpdate> {
    listen(Button::A.pin()) + listen(Button::B.pin()) + listen(Button::C.pin()) + listen(
        Button::D.pin(),
    ) + listen(Button::E.pin()) + listen(Button::F.pin())
}

/// The six buttons and what was last seen of each.
#[derive(Debug)]
pub struct Buttons {
    pins: ButtonPins,
    state: [Option<TemporalButtonState>; BUTTON_COUNT],
}

impl View for Buttons {
    type V = Seq<Option<TemporalButtonState>>;

    /// What was last seen of the six buttons, button A first. `None` is a
    /// button that was never polled.
    closed spec fn view(&self) -> Seq<Option<TemporalButtonState>> {
        self.state@
    }
}

fn push_listen<PIN: PinExt>(updates: &mut Vec<RegisterUpdate>, pin: &PIN)
    ensures
        final(updates)@ == old(updates)@ + listen(pin.identity()),
{
    updates.push(set_pin_mode(pin, PinMode::Gpio));
    updates.push(set_io_direction(pin, GpioDirection::Input));
    assert(updates@ =~= old(updates)@ + listen(pin.identity()));
}

impl Buttons {
    /// Plans the bring-up of the buttons: every line becomes a GPIO input.
    pub fn setup(pins: &ButtonPins) -> (updates: Vec<RegisterUpdate>)
        ensures
            updates@ == spec_setup(),
    {
        let mut updates: Vec<RegisterUpdate> = Vec::new();
        push_listen(&mut updates, &pins.btn1);
        push_listen(&mut updates, &pins.btn2);
        push_listen(&mut updates, &pins.btn3);
        push_listen(&mut updates, &pins.btn4);
        push_listen(&mut updates, &pins.btn5);
        push_listen(&mut updates, &pins.btn6);
        assert(updates@ =~= spec_setup());
        updates
    }

    /// Makes the buttons, given the outcome of performing [`Buttons::setup`].
    /// No button has been seen yet. A failed setup is handed back unchanged.
    pub fn try_new<E>(pins: ButtonPins, setup: Result<(), E>) -> (buttons: Result<Self, E>)
        ensures
            setup is Ok ==> buttons is Ok && buttons->Ok_0@ == Seq::new(
                6,
                |i: int| None::<TemporalButtonState>,
            ),
            setup is Err ==> buttons is Err && buttons->Err_0 == setup->Err_0,
    {
        match setup {
            Ok(()) => {
                let buttons = Self { pins, state: [None, None, None, None, None, None] };
                assert(buttons@ =~= Seq::new(6, |i: int| None::<TemporalButtonState>));
                Ok(buttons)
            },
            Err(error) => Err(error),
        }
    }

    /// Polls the buttons at the current time of the system clock.
    ///
    /// The result is that of [`Buttons::update_at`] for the time that the
    /// clock gave.
    pub fn update(&mut self, regs: &InputRegisters) -> (events: heapless::Vec<ButtonEvent, 6>)
        ensures
            exists|now: Instant|
                final(self)@ == states_after(old(self)@, button_levels(*regs), now)
                    && button_events(events) == events_upto(
                    old(self)@,
                    button_levels(*regs),
                    now,
                    6,
                ),
    {
        let now = Instant::now();
        self.update_at(regs, now)
    }

    /// Polls the buttons: compares what was last seen with the snapshot
    /// `regs`, taken at `now`, and reports every button that changed, button
    /// A first.
    pub fn update_at(&mut self, regs: &InputRegisters, now: Instant) -> (events: heapless::Vec<
        ButtonEvent,
        6,
    >)
        ensures
            final(self)@ == states_after(old(self)@, button_levels(*regs), now),
            button_events(events) == events_upto(old(self)@, button_levels(*regs), now, 6),
    {
        let states_now = states_from_registers(&self.pins, regs);
        let mut events = button_events_new();
        let ghost before = self@;
        let ghost levels = button_levels(*regs);
        let mut idx: usize = 0;
        while idx < BUTTON_COUNT
            invariant
                idx <= BUTTON_COUNT,
                states_now@ == levels,
                before.len() == 6,
                self@.len() == 6,
                forall|i: int| 0 <= i < idx ==> self@[i] == state_after(before[i], levels[i], now),
                forall|i: int| idx <= i < 6 ==> self@[i] == before[i],
                button_events(events) == events_upto(before, levels, now, idx as int),
                button_events(events).len() <= idx,
            decreases BUTTON_COUNT - idx,
        {
            let level = states_now[idx];
            let previous = self.state[idx];
            let fire = match previous {
                Some(seen) => seen.state != level,
                None => true,
            };
            if fire {
                let seen = TemporalButtonState { time: now, state: level };
                let event = ButtonEvent { button: Button::from_index(idx), previous, now: seen };
                let _ = button_events_push(&mut events, event);
                self.state[idx] = Some(seen);
            }
            idx += 1;
        }
        assert(self@ =~= states_after(before, levels, now));
        events
    }
}

/// Reads the state of each button off its line in `regs`, button A first.
pub fn states_from_registers(pins: &ButtonPins, regs: &InputRegisters) -> (states: [
    ButtonState; 6
])
    ensures
        states@ == button_levels(*regs),
{
    let states = [
        level(regs.pin_state(&pins.btn1)),
        level(regs.pin_state(&pins.btn2)),
        level(regs.pin_state(&pins.btn3)),
        level(regs.pin_state(&pins.btn4)),
        level(regs.pin_state(&pins.btn5)),
        level(regs.pin_state(&pins.btn6)),
    ];
    assert(states@ =~= button_levels(*regs));
    states
}

/// What the line of a button says: high is released, low is pressed.
pub fn level(high: bool) -> (state: ButtonState)
    ensures
        state == level_of(high),
{
    if high {
        ButtonState::Released
    } else {
        ButtonState::Pressed
    }
}

} // verus!
