//! The output capability of a pin.

use crate::pins::aw9523b::{
    io_direction_update, io_state_update, pin_mode_update, set_io_direction, set_io_state,
    set_pin_mode, GpioDirection, PinMode, RegisterUpdate,
};
use crate::pins::digital::PinState;
use crate::pins::input::InputPin;
use crate::pins::pin::{Identity, PinExt, TypeErasedPin};
use vstd::prelude::*;

verus! {

/// Handle of a pin that is configured as a GPIO output.
///
/// The handle owns the identity of its pin. Converting it consumes it, so
/// that a pin has one handle at a time.
#[derive(Debug)]
pub struct OutputPin {
    pin: TypeErasedPin,
}

impl OutputPin {
    /// The pin that the handle owns.
    pub closed spec fn identity(&self) -> Identity {
        self.pin.identity()
    }

    /// The updates that configure `pin` as a GPIO output, in the order in
    /// which they are to be performed: mode first, then direction.
    pub open spec fn spec_setup(pin: Identity) -> Seq<RegisterUpdate> {
        seq![
            pin_mode_update(pin, PinMode::Gpio),
            io_direction_update(pin, GpioDirection::Output),
        ]
    }

    /// Plans the configuration of `pin` as a GPIO output.
    pub fn setup<PIN: PinExt>(pin: &PIN) -> (updates: Vec<RegisterUpdate>)
        ensures
            updates@ == Self::spec_setup(pin.identity()),
    {
        let mut updates: Vec<RegisterUpdate> = Vec::new();
        updates.push(set_pin_mode(pin, PinMode::Gpio));
        updates.push(set_io_direction(pin, GpioDirection::Output));
        assert(updates@ =~= Self::spec_setup(pin.identity()));
        updates
    }

    /// Makes the handle, given the outcome of performing [`OutputPin::setup`]
    /// for `pin`. A failed setup is handed back unchanged, and the identity
    /// is lost with it.
    pub fn try_new<E>(pin: TypeErasedPin, setup: Result<(), E>) -> (handle: Result<Self, E>)
        ensures
            setup is Ok ==> handle is Ok && handle->Ok_0.identity() == pin.identity(),
            setup is Err ==> handle is Err && handle->Err_0 == setup->Err_0,
    {
        match setup {
            Ok(()) => Ok(Self { pin }),
            Err(error) => Err(error),
        }
    }

    /// The identity of the pin, to plan a conversion with.
    pub fn pin(&self) -> (pin: &TypeErasedPin)
        ensures
            pin.identity() == self.identity(),
    {
        &self.pin
    }

    /// Makes an input handle of the same pin, given the outcome of
    /// performing [`InputPin::setup`] for it.
    pub fn into_input<E>(self, setup: Result<(), E>) -> (handle: Result<InputPin, E>)
        ensures
            setup is Ok ==> handle is Ok && handle->Ok_0.identity() == self.identity(),
            setup is Err ==> handle is Err && handle->Err_0 == setup->Err_0,
    {
        InputPin::try_new(self.pin, setup)
    }
}

impl crate::pins::digital::OutputPin for OutputPin {
    open spec fn state_update(&self, state: PinState) -> RegisterUpdate {
        io_state_update(self.identity(), state)
    }

    fn set_low(&self) -> (update: RegisterUpdate) {
        self.set_state(PinState::Low)
    }

    fn set_high(&self) -> (update: RegisterUpdate) {
        self.set_state(PinState::High)
    }

    fn set_state(&self, state: PinState) -> (update: RegisterUpdate) {
        set_io_state(&self.pin, state)
    }
}

} // verus!
