//! The input capability of a pin.

use crate::i2c::{Transfer, TransferView};
use crate::pins::aw9523b::{
    bit_is_set, interrupt_update, io_direction_update, pin_mode_update, read_register,
    read_register_view, set_interrupt, set_io_direction, set_pin_mode, GpioDirection, PinMode,
    Register, RegisterUpdate,
};
use crate::pins::output::OutputPin;
use crate::pins::pin::{Identity, PinExt, TypeErasedPin};
use vstd::prelude::*;

verus! {

/// Handle of a pin that is configured as a GPIO input.
///
/// The handle owns the identity of its pin. Converting it consumes it, so
/// that a pin has one handle at a time.
#[derive(Debug)]
pub struct InputPin {
    pin: TypeErasedPin,
}

impl InputPin {
    /// The pin that the handle owns.
    pub closed spec fn identity(&self) -> Identity {
        self.pin.identity()
    }

    /// The updates that configure `pin` as a GPIO input, in the order in
    /// which they are to be performed: mode first, then direction.
    pub open spec fn spec_setup(pin: Identity) -> Seq<RegisterUpdate> {
        seq![
            pin_mode_update(pin, PinMode::Gpio),
            io_direction_update(pin, GpioDirection::Input),
        ]
    }

    /// Plans the configuration of `pin` as a GPIO input.
    pub fn setup<PIN: PinExt>(pin: &PIN) -> (updates: Vec<RegisterUpdate>)
        ensures
            updates@ == Self::spec_setup(pin.identity()),
    {
        let mut updates: Vec<RegisterUpdate> = Vec::new();
        updates.push(set_pin_mode(pin, PinMode::Gpio));
        updates.push(set_io_direction(pin, GpioDirection::Input));
        assert(updates@ =~= Self::spec_setup(pin.identity()));
        updates
    }

    /// Makes the handle, given the outcome of performing [`InputPin::setup`]
    /// for `pin`. A failed setup is handed back unchanged, and the identity
    /// is lost with it.
    pub fn try_new<E>(pin: TypeErasedPin, setup: Result<(), E>) -> (handle: Result<Self, E>)
        ensures
            setup is Ok ==> handle is Ok && handle->Ok_0.identity() == pin.identity(),
            setup is Err ==> handle is Err && handle->Err_0 == setup->Err_0,
    {
        match setup {
            Ok(()) => Ok(Self { pin }),
            Err(error) => Err(error),
        }
    }

    /// The identity of the pin, to plan a conversion with.
    pub fn pin(&self) -> (pin: &TypeErasedPin)
        ensures
            pin.identity() == self.identity(),
    {
        &self.pin
    }

    /// Makes an output handle of the same pin, given the outcome of
    /// performing [`OutputPin::setup`] for it.
    pub fn into_output<E>(self, setup: Result<(), E>) -> (handle: Result<OutputPin, E>)
        ensures
            setup is Ok ==> handle is Ok && handle->Ok_0.identity() == self.identity(),
            setup is Err ==> handle is Err && handle->Err_0 == setup->Err_0,
    {
        OutputPin::try_new(self.pin, setup)
    }

    /// Plans unmasking (`enable`) or masking the interrupt of the pin.
    pub fn set_interrupt(&self, enable: bool) -> (update: RegisterUpdate)
        ensures
            update == interrupt_update(self.identity(), enable),
    {
        set_interrupt(&self.pin, enable)
    }
}

impl crate::pins::digital::InputPin for InputPin {
    open spec fn level_request_view(&self) -> TransferView {
        read_register_view(self.identity().address, Register::spec_input(self.identity().port))
    }

    open spec fn high_in(&self, input: u8) -> bool {
        bit_is_set(input, self.identity().pin)
    }

    fn level_request(&self) -> (transfer: Transfer) {
        read_register(self.pin.address(), Register::input(self.pin.port()))
    }

    fn is_high(&self, input: u8) -> (high: bool) {
        !self.is_low(input)
    }

    fn is_low(&self, input: u8) -> (low: bool) {
        input & self.pin.bit() == 0
    }
}

} // verus!
