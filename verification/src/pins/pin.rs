//! Pin identities.
//!
//! A physical pin is named by the bus address of its chip, its port and its
//! bit index. [`Pin`] carries the three in its type, so that two different
//! pins are two different types and no value of a pin can be made twice.
//! [`TypeErasedPin`] carries them as data, for the handles that own one pin
//! each.

use crate::pins::aw9523b::{is_chip_address, Port};
use crate::pins::input::InputPin;
use crate::pins::led::LedPin;
use crate::pins::output::OutputPin;
use vstd::prelude::*;
use vstd::std_specs::convert::FromSpecImpl;

verus! {

/// Index of port 0 as a parameter of [`Pin`].
pub const PORT0: u8 = 0;

/// Index of port 1 as a parameter of [`Pin`].
pub const PORT1: u8 = 1;

/// The three coordinates of a physical pin.
pub struct Identity {
    /// Bus address of the chip.
    pub address: u8,
    /// The chip's port that the pin belongs to.
    pub port: Port,
    /// Bit index within the port.
    pub pin: u8,
}

impl Identity {
    /// Whether the identity names a pin that exists: one of the three chips,
    /// and a bit index below 8.
    pub open spec fn valid(self) -> bool {
        is_chip_address(self.address) && self.pin <= 7
    }

    /// Mask of the pin within the registers of its port.
    pub open spec fn bit(self) -> u8 {
        1u8 << self.pin
    }
}

/// The port with index `index`: 0 is port 0, anything else port 1.
pub open spec fn spec_port_of(index: u8) -> Port {
    if index == 0 {
        Port::Port0
    } else {
        Port::Port1
    }
}

/// What the register driver needs to know of a pin. Every value that
/// implements it names a pin that exists.
pub trait PinExt {
    /// The pin that the value names.
    spec fn identity(&self) -> Identity;

    /// Bus address of the pin's chip.
    fn address(&self) -> (address: u8)
        ensures
            address == self.identity().address,
            self.identity().valid(),
    ;

    /// The port that the pin belongs to.
    fn port(&self) -> (port: Port)
        ensures
            port == self.identity().port,
            self.identity().valid(),
    ;

    /// Bit index of the pin within its port.
    fn pin(&self) -> (pin: u8)
        ensures
            pin == self.identity().pin,
            self.identity().valid(),
    ;

    /// Mask of the pin within the registers of its port.
    fn bit(&self) -> (bit: u8)
        ensures
            bit == self.identity().bit(),
            self.identity().valid(),
    ;
}

/// The eight bytes with a single bit set.
pub proof fn lemma_one_hot()
    by (bit_vector)
    ensures
        1u8 << 0u8 == 0b00000001u8,
        1u8 << 1u8 == 0b00000010u8,
        1u8 << 2u8 == 0b00000100u8,
        1u8 << 3u8 == 0b00001000u8,
        1u8 << 4u8 == 0b00010000u8,
        1u8 << 5u8 == 0b00100000u8,
        1u8 << 6u8 == 0b01000000u8,
        1u8 << 7u8 == 0b10000000u8,
{
}

/// Mask with only bit `pin` set.
pub fn pin_bits(pin: u8) -> (bits: u8)
    requires
        pin <= 7,
    ensures
        bits == 1u8 << pin,
{
    proof {
        lemma_one_hot();
    }
    match pin {
        0 => 0b00000001,
        1 => 0b00000010,
        2 => 0b00000100,
        3 => 0b00001000,
        4 => 0b00010000,
        5 => 0b00100000,
        6 => 0b01000000,
        _ => 0b10000000,
    }
}

/// A pin identity held as data.
#[derive(Debug)]
pub struct TypeErasedPin {
    address: u8,
    port: Port,
    pin: u8,
}

impl TypeErasedPin {
    #[verifier::type_invariant]
    spec fn well_formed(self) -> bool {
        is_chip_address(self.address) && self.pin <= 7
    }
}

impl PinExt for TypeErasedPin {
    closed spec fn identity(&self) -> Identity {
        Identity { address: self.address, port: self.port, pin: self.pin }
    }

    fn address(&self) -> (address: u8) {
        proof {
            use_type_invariant(self);
        }
        self.address
    }

    fn port(&self) -> (port: Port) {
        proof {
            use_type_invariant(self);
        }
        self.port
    }

    fn pin(&self) -> (pin: u8) {
        proof {
            use_type_invariant(self);
        }
        self.pin
    }

    fn bit(&self) -> (bit: u8) {
        proof {
            use_type_invariant(self);
        }
        pin_bits(self.pin)
    }
}

/// A pin identity held in a type: chip address, port index and bit index.
///
/// The type has no public constructor. The one value of each pin of the
/// badge is made by the pin assignment, and moves into whatever handle is
/// made of it.
#[derive(Debug, PartialEq, Eq)]
pub struct Pin<const ADDRESS: u8, const PORT: u8, const PIN: u8> {
    token: (),
}

impl<const ADDRESS: u8, const PORT: u8, const PIN: u8> Pin<ADDRESS, PORT, PIN> {
    #[verifier::type_invariant]
    spec fn well_formed(self) -> bool {
        Self::exists_on_badge()
    }

    /// Whether the three parameters name a pin that exists.
    pub open spec fn exists_on_badge() -> bool {
        is_chip_address(ADDRESS) && PORT <= 1 && PIN <= 7
    }

    /// The pin that the type names.
    pub open spec fn spec_identity() -> Identity {
        Identity { address: ADDRESS, port: spec_port_of(PORT), pin: PIN }
    }

    pub(crate) fn new() -> (pin: Self)
        requires
            Self::exists_on_badge(),
    {
        Pin { token: () }
    }

    /// Gives up the type-level identity for one held as data.
    pub fn erase(self) -> (erased: TypeErasedPin)
        ensures
            erased.identity() == Self::spec_identity(),
    {
        proof {
            use_type_invariant(&self);
        }
        let port = if PORT == 0 {
            Port::Port0
        } else {
            Port::Port1
        };
        TypeErasedPin { address: ADDRESS, port, pin: PIN }
    }

    /// Makes an output handle of the pin, given the outcome of performing
    /// [`OutputPin::setup`] for it. A failed setup is handed back unchanged.
    pub fn into_output<E>(self, setup: Result<(), E>) -> (handle: Result<OutputPin, E>)
        ensures
            setup is Ok ==> handle is Ok && handle->Ok_0.identity() == Self::spec_identity(),
            setup is Err ==> handle is Err && handle->Err_0 == setup->Err_0,
    {
        OutputPin::try_new(self.erase(), setup)
    }

    /// Makes an input handle of the pin, given the outcome of performing
    /// [`InputPin::setup`] for it. A failed setup is handed back unchanged.
    pub fn into_input<E>(self, setup: Result<(), E>) -> (handle: Result<InputPin, E>)
        ensures
            setup is Ok ==> handle is Ok && handle->Ok_0.identity() == Self::spec_identity(),
            setup is Err ==> handle is Err && handle->Err_0 == setup->Err_0,
    {
        InputPin::try_new(self.erase(), setup)
    }

    /// Makes an LED handle of the pin, given the outcome of performing
    /// [`LedPin::setup`] for it. A failed setup is handed back unchanged.
    pub fn into_led<E>(self, setup: Result<(), E>) -> (handle: Result<LedPin, E>)
        ensures
            setup is Ok ==> handle is Ok && handle->Ok_0.identity() == Self::spec_identity(),
            setup is Err ==> handle is Err && handle->Err_0 == setup->Err_0,
    {
        LedPin::try_new(self.erase(), setup)
    }
}

impl<const ADDRESS: u8, const PORT: u8, const PIN: u8> PinExt for Pin<ADDRESS, PORT, PIN> {
    open spec fn identity(&self) -> Identity {
        Self::spec_identity()
    }

    fn address(&self) -> (address: u8) {
        proof {
            use_type_invariant(self);
        }
        ADDRESS
    }

    fn port(&self) -> (port: Port) {
        proof {
            use_type_invariant(self);
        }
        if PORT == 0 {
            Port::Port0
        } else {
            Port::Port1
        }
    }

    fn pin(&self) -> (pin: u8) {
        proof {
            use_type_invariant(self);
        }
        PIN
    }

    fn bit(&self) -> (bit: u8) {
        proof {
            use_type_invariant(self);
        }
        pin_bits(PIN)
    }
}

impl<const ADDRESS: u8, const PORT: u8, const PIN: u8> From<
    Pin<ADDRESS, PORT, PIN>,
> for TypeErasedPin {
    fn from(pin: Pin<ADDRESS, PORT, PIN>) -> (erased: TypeErasedPin)
        ensures
            erased.identity() == Pin::<ADDRESS, PORT, PIN>::spec_identity(),
    {
        pin.erase()
    }
}

impl<const ADDRESS: u8, const PORT: u8, const PIN: u8> FromSpecImpl<
    Pin<ADDRESS, PORT, PIN>,
> for TypeErasedPin {
    open spec fn obeys_from_spec() -> bool {
        true
    }

    closed spec fn from_spec(pin: Pin<ADDRESS, PORT, PIN>) -> TypeErasedPin {
        TypeErasedPin { address: ADDRESS, port: spec_port_of(PORT), pin: PIN }
    }
}

} // verus!
