//! Digital levels, and what a handle must offer to drive or sense one.

use crate::i2c::{Transfer, TransferView};
use crate::pins::aw9523b::RegisterUpdate;
use vstd::prelude::*;

verus! {

/// Electrical level of a pin.
#[derive(Debug, Clone, Copy, PartialEq, Eq, Structural)]
pub enum PinState {
    Low,
    High,
}

/// A handle that can drive its pin.
///
/// Each method plans the register update that drives the level; the level
/// changes once the update has been performed on the bus.
pub trait OutputPin {
    /// The update that drives the pin to `state`.
    spec fn state_update(&self, state: PinState) -> RegisterUpdate;

    /// Plans driving the pin low.
    fn set_low(&self) -> (update: RegisterUpdate)
        ensures
            update == self.state_update(PinState::Low),
    ;

    /// Plans driving the pin high.
    fn set_high(&self) -> (update: RegisterUpdate)
        ensures
            update == self.state_update(PinState::High),
    ;

    /// Plans driving the pin to `state`.
    fn set_state(&self, state: PinState) -> (update: RegisterUpdate)
        ensures
            update == self.state_update(state),
    {
        match state {
            PinState::Low => self.set_low(),
            PinState::High => self.set_high(),
        }
    }
}

/// A handle that can sense its pin.
///
/// The level is part of a register of the chip: `level_request` is the
/// transfer that fetches the register, and `is_high` and `is_low` read the
/// pin's level out of the byte that came back.
pub trait InputPin {
    /// The transfer that fetches the register holding the pin's level.
    spec fn level_request_view(&self) -> TransferView;

    /// Whether the pin is high when its register holds `input`.
    spec fn high_in(&self, input: u8) -> bool;

    /// The transfer that fetches the register holding the pin's level.
    fn level_request(&self) -> (transfer: Transfer)
        ensures
            transfer.deep_view() == self.level_request_view(),
    ;

    /// Whether the pin is high when its register holds `input`.
    fn is_high(&self, input: u8) -> (high: bool)
        ensures
            high == self.high_in(input),
    ;

    /// Whether the pin is low when its register holds `input`.
    fn is_low(&self, input: u8) -> (low: bool)
        ensures
            low == !self.high_in(input),
    ;
}

} // verus!
