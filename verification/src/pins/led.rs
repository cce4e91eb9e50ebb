//! The LED capability of a pin.

use crate::i2c::{Transfer, TransferView};
use crate::pins::aw9523b::{
    pin_mode_update, set_pin_mode, write_register, write_register_view, PinMode, Register,
    RegisterUpdate,
};
use crate::pins::pin::{Identity, PinExt, TypeErasedPin};
use crate::pins::pwm::SetDutyCycle;
use vstd::prelude::*;

verus! {

/// Handle of a pin that is driven by the LED dimmer of its chip.
#[derive(Debug)]
pub struct LedPin {
    pin: TypeErasedPin,
}

impl LedPin {
    /// The pin that the handle owns.
    pub closed spec fn identity(&self) -> Identity {
        self.pin.identity()
    }

    /// The one update that hands `pin` to the LED dimmer.
    pub open spec fn spec_setup(pin: Identity) -> Seq<RegisterUpdate> {
        seq![pin_mode_update(pin, PinMode::Led)]
    }

    /// Plans handing `pin` to the LED dimmer.
    pub fn setup<PIN: PinExt>(pin: &PIN) -> (updates: Vec<RegisterUpdate>)
        ensures
            updates@ == Self::spec_setup(pin.identity()),
    {
        let mut updates: Vec<RegisterUpdate> = Vec::new();
        updates.push(set_pin_mode(pin, PinMode::Led));
        assert(updates@ =~= Self::spec_setup(pin.identity()));
        updates
    }

    /// Makes the handle, given the outcome of performing [`LedPin::setup`]
    /// for `pin`. A failed setup is handed back unchanged, and the identity
    /// is lost with it.
    pub fn try_new<E>(pin: TypeErasedPin, setup: Result<(), E>) -> (handle: Result<Self, E>)
        ensures
            setup is Ok ==> handle is Ok && handle->Ok_0.identity() == pin.identity(),
            setup is Err ==> handle is Err && handle->Err_0 == setup->Err_0,
    {
        match setup {
            Ok(()) => Ok(Self { pin }),
            Err(error) => Err(error),
        }
    }

    /// The identity of the pin. Its bit index is below 8, so that the pin
    /// has a dimmer of its own.
    pub fn pin(&self) -> (pin: &TypeErasedPin)
        ensures
            pin.identity() == self.identity(),
    {
        &self.pin
    }
}

impl SetDutyCycle for LedPin {
    open spec fn max_duty(&self) -> u16 {
        255
    }

    /// The duty is written as it is to the pin's own dimmer register.
    open spec fn duty_write(&self, duty: u16) -> TransferView {
        write_register_view(
            self.identity().address,
            Register::spec_dimmer(self.identity().port, self.identity().pin),
            duty as u8,
        )
    }

    fn max_duty_cycle(&self) -> (max: u16) {
        255
    }

    fn set_duty_cycle(&self, duty: u16) -> (transfer: Transfer) {
        let register = Register::dimmer(self.pin.port(), self.pin.pin());
        write_register(self.pin.address(), register, duty as u8)
    }
}

} // verus!
