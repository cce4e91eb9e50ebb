//! Duty cycles, and what a handle must offer to set one.

use crate::i2c::{Transfer, TransferView};
use vstd::prelude::*;

verus! {

/// The duty that is `num / denom` of `max`, rounded down.
pub open spec fn duty_fraction(max: u16, num: u16, denom: u16) -> int
    recommends
        denom != 0,
        num <= denom,
{
    num as int * max as int / denom as int
}

/// A fraction of the maximum duty is a duty: it is not above the maximum.
pub proof fn lemma_duty_fraction_bounds(max: u16, num: u16, denom: u16)
    requires
        denom != 0,
        num <= denom,
    ensures
        0 <= duty_fraction(max, num, denom) <= max,
        num == denom ==> duty_fraction(max, num, denom) == max,
        num == 0 ==> duty_fraction(max, num, denom) == 0,
{
    let n = num as int;
    let d = denom as int;
    let m = max as int;
    assert(0 <= n * m <= d * m) by (nonlinear_arith)
        requires
            0 <= n <= d,
            0 <= m,
    ;
    assert(0 <= (n * m) / d <= m) by (nonlinear_arith)
        requires
            0 <= n * m <= d * m,
            d > 0,
    ;
    if num == denom {
        assert((d * m) / d == m) by (nonlinear_arith)
            requires
                d > 0,
        ;
    }
    if num == 0 {
        assert(0 * m == 0) by (nonlinear_arith);
    }
}

/// Computes the duty that is `num / denom` of `max`, rounded down. The
/// product is formed in 32 bits, where it cannot overflow.
pub fn fraction_of(max: u16, num: u16, denom: u16) -> (duty: u16)
    requires
        denom != 0,
        num <= denom,
    ensures
        duty == duty_fraction(max, num, denom),
        duty <= max,
{
    proof {
        lemma_duty_fraction_bounds(max, num, denom);
        assert(0 <= num as int * max as int <= 0xFFFF * 0xFFFF) by (nonlinear_arith)
            requires
                0 <= num <= 0xFFFF,
                0 <= max <= 0xFFFF,
        ;
    }
    let duty: u32 = u32::from(num) * u32::from(max) / u32::from(denom);
    duty as u16
}

/// A handle that can dim its pin.
///
/// Each method plans the transfer that sets the duty; the duty changes once
/// the transfer has been performed on the bus.
pub trait SetDutyCycle {
    /// The largest duty that the handle takes: fully on.
    spec fn max_duty(&self) -> u16;

    /// The transfer that sets the duty to `duty`.
    spec fn duty_write(&self, duty: u16) -> TransferView
        recommends
            duty <= self.max_duty(),
    ;

    /// The largest duty that the handle takes: fully on.
    fn max_duty_cycle(&self) -> (max: u16)
        ensures
            max == self.max_duty(),
    ;

    /// Plans setting the duty to `duty`, which is not above the maximum.
    fn set_duty_cycle(&self, duty: u16) -> (transfer: Transfer)
        requires
            duty <= self.max_duty(),
        ensures
            transfer.deep_view() == self.duty_write(duty),
    ;

    /// Plans switching the pin fully off.
    fn set_duty_cycle_fully_off(&self) -> (transfer: Transfer)
        ensures
            transfer.deep_view() == self.duty_write(0),
    {
        self.set_duty_cycle(0)
    }

    /// Plans switching the pin fully on.
    fn set_duty_cycle_fully_on(&self) -> (transfer: Transfer)
        ensures
            transfer.deep_view() == self.duty_write(self.max_duty()),
    {
        self.set_duty_cycle(self.max_duty_cycle())
    }

    /// Plans setting the duty to `num / denom` of the maximum, rounded down.
    fn set_duty_cycle_fraction(&self, num: u16, denom: u16) -> (transfer: Transfer)
        requires
            denom != 0,
            num <= denom,
        ensures
            transfer.deep_view() == self.duty_write(
                duty_fraction(self.max_duty(), num, denom) as u16,
            ),
    {
        let max: u16 = self.max_duty_cycle();
        self.set_duty_cycle(fraction_of(max, num, denom))
    }

    /// Plans setting the duty to `percent` hundredths of the maximum, rounded
    /// down.
    fn set_duty_cycle_percent(&self, percent: u8) -> (transfer: Transfer)
        requires
            percent <= 100,
        ensures
            transfer.deep_view() == self.duty_write(
                duty_fraction(self.max_duty(), percent as u16, 100) as u16,
            ),
    {
        self.set_duty_cycle_fraction(u16::from(percent), 100)
    }
}

} // verus!
