//! Register-level driver for the AW9523B GPIO expander.
//!
//! Nothing here touches the bus. Single register accesses are framed as
//! [`Transfer`]s, and every configuration change is a [`RegisterUpdate`]: read
//! one register, set or clear one bit, write the register back.

use crate::i2c::{Transfer, TransferView};
use crate::pins::digital::PinState;
use crate::pins::pin::{Identity, PinExt};
use vstd::prelude::*;

verus! {

/// One of the two byte-wide ports of an expander.
#[derive(Debug, Clone, Copy, PartialEq, Eq, Structural)]
pub enum Port {
    Port0,
    Port1,
}

/// What drives a pin: the GPIO logic or the LED dimmer.
#[derive(Debug, Clone, Copy, PartialEq, Eq, Structural)]
pub enum PinMode {
    Gpio,
    Led,
}

/// Direction of a pin in GPIO mode.
#[derive(Debug, Clone, Copy, PartialEq, Eq, Structural)]
pub enum GpioDirection {
    Input,
    Output,
}

/// The registers of an expander.
#[allow(non_camel_case_types)]
#[allow(clippy::upper_case_acronyms)]
#[derive(Debug, Clone, Copy, PartialEq, Eq, Structural)]
pub enum Register {
    INPUT_P0,
    INPUT_P1,
    OUTPUT_P0,
    OUTPUT_P1,
    CONFIG_P0,
    CONFIG_P1,
    INT_P0,
    INT_P1,
    ID,
    CTL,
    LEDMS_P0,
    LEDMS_P1,
    DIM0_P10,
    DIM1_P11,
    DIM2_P12,
    DIM3_P13,
    DIM4_P00,
    DIM5_P01,
    DIM6_P02,
    DIM7_P03,
    DIM8_P04,
    DIM9_P05,
    DIM10_P06,
    DIM11_P07,
    DIM12_P14,
    DIM13_P15,
    DIM14_P16,
    DIM15_P17,
    SW_RSTN,
}

impl Register {
    /// Offset of the register in the chip's register file.
    pub open spec fn spec_offset(self) -> u8 {
        match self {
            Register::INPUT_P0 => 0x00,
            Register::INPUT_P1 => 0x01,
            Register::OUTPUT_P0 => 0x02,
            Register::OUTPUT_P1 => 0x03,
            Register::CONFIG_P0 => 0x04,
            Register::CONFIG_P1 => 0x05,
            Register::INT_P0 => 0x06,
            Register::INT_P1 => 0x07,
            Register::ID => 0x10,
            Register::CTL => 0x11,
            Register::LEDMS_P0 => 0x12,
            Register::LEDMS_P1 => 0x13,
            Register::DIM0_P10 => 0x20,
            Register::DIM1_P11 => 0x21,
            Register::DIM2_P12 => 0x22,
            Register::DIM3_P13 => 0x23,
            Register::DIM4_P00 => 0x24,
            Register::DIM5_P01 => 0x25,
            Register::DIM6_P02 => 0x26,
            Register::DIM7_P03 => 0x27,
            Register::DIM8_P04 => 0x28,
            Register::DIM9_P05 => 0x29,
            Register::DIM10_P06 => 0x2A,
            Register::DIM11_P07 => 0x2B,
            Register::DIM12_P14 => 0x2C,
            Register::DIM13_P15 => 0x2D,
            Register::DIM14_P16 => 0x2E,
            Register::DIM15_P17 => 0x2F,
            Register::SW_RSTN => 0x7F,
        }
    }

    /// Offset of the register in the chip's register file.
    pub fn offset(self) -> (offset: u8)
        ensures
            offset == self.spec_offset(),
    {
        match self {
            Register::INPUT_P0 => 0x00,
            Register::INPUT_P1 => 0x01,
            Register::OUTPUT_P0 => 0x02,
            Register::OUTPUT_P1 => 0x03,
            Register::CONFIG_P0 => 0x04,
            Register::CONFIG_P1 => 0x05,
            Register::INT_P0 => 0x06,
            Register::INT_P1 => 0x07,
            Register::ID => 0x10,
            Register::CTL => 0x11,
            Register::LEDMS_P0 => 0x12,
            Register::LEDMS_P1 => 0x13,
            Register::DIM0_P10 => 0x20,
            Register::DIM1_P11 => 0x21,
            Register::DIM2_P12 => 0x22,
            Register::DIM3_P13 => 0x23,
            Register::DIM4_P00 => 0x24,
            Register::DIM5_P01 => 0x25,
            Register::DIM6_P02 => 0x26,
            Register::DIM7_P03 => 0x27,
            Register::DIM8_P04 => 0x28,
            Register::DIM9_P05 => 0x29,
            Register::DIM10_P06 => 0x2A,
            Register::DIM11_P07 => 0x2B,
            Register::DIM12_P14 => 0x2C,
            Register::DIM13_P15 => 0x2D,
            Register::DIM14_P16 => 0x2E,
            Register::DIM15_P17 => 0x2F,
            Register::SW_RSTN => 0x7F,
        }
    }

    /// The register that holds the pin levels seen on `port`.
    pub open spec fn spec_input(port: Port) -> Register {
        match port {
            Port::Port0 => Register::INPUT_P0,
            Port::Port1 => Register::INPUT_P1,
        }
    }

    /// The register that holds the levels driven on `port`.
    pub open spec fn spec_output(port: Port) -> Register {
        match port {
            Port::Port0 => Register::OUTPUT_P0,
            Port::Port1 => Register::OUTPUT_P1,
        }
    }

    /// The register that holds the directions of `port`: a set bit is an input.
    pub open spec fn spec_config(port: Port) -> Register {
        match port {
            Port::Port0 => Register::CONFIG_P0,
            Port::Port1 => Register::CONFIG_P1,
        }
    }

    /// The register that masks the interrupts of `port`: a set bit disables one.
    pub open spec fn spec_interrupt(port: Port) -> Register {
        match port {
            Port::Port0 => Register::INT_P0,
            Port::Port1 => Register::INT_P1,
        }
    }

    /// The register that selects the mode of each pin of `port`: a set bit is GPIO.
    pub open spec fn spec_led_mode(port: Port) -> Register {
        match port {
            Port::Port0 => Register::LEDMS_P0,
            Port::Port1 => Register::LEDMS_P1,
        }
    }

    /// The dimmer register of pin `pin` of `port`.
    ///
    /// The sixteen dimmers are not laid out port by port: the low half of
    /// port 1 comes first, then all of port 0, then the high half of port 1.
    pub open spec fn spec_dimmer(port: Port, pin: u8) -> Register
        recommends
            pin <= 7,
    {
        match port {
            Port::Port0 => if pin == 0 {
                Register::DIM4_P00
            } else if pin == 1 {
                Register::DIM5_P01
            } else if pin == 2 {
                Register::DIM6_P02
            } else if pin == 3 {
                Register::DIM7_P03
            } else if pin == 4 {
                Register::DIM8_P04
            } else if pin == 5 {
                Register::DIM9_P05
            } else if pin == 6 {
                Register::DIM10_P06
            } else {
                Register::DIM11_P07
            },
            Port::Port1 => if pin == 0 {
                Register::DIM0_P10
            } else if pin == 1 {
                Register::DIM1_P11
            } else if pin == 2 {
                Register::DIM2_P12
            } else if pin == 3 {
                Register::DIM3_P13
            } else if pin == 4 {
                Register::DIM12_P14
            } else if pin == 5 {
                Register::DIM13_P15
            } else if pin == 6 {
                Register::DIM14_P16
            } else {
                Register::DIM15_P17
            },
        }
    }

    /// The register that holds the pin levels seen on `port`.
    pub fn input(port: Port) -> (register: Register)
        ensures
            register == Self::spec_input(port),
    {
        match port {
            Port::Port0 => Register::INPUT_P0,
            Port::Port1 => Register::INPUT_P1,
        }
    }

    /// The register that holds the levels driven on `port`.
    pub fn output(port: Port) -> (register: Register)
        ensures
            register == Self::spec_output(port),
    {
        match port {
            Port::Port0 => Register::OUTPUT_P0,
            Port::Port1 => Register::OUTPUT_P1,
        }
    }

    /// The register that holds the directions of `port`.
    pub fn config(port: Port) -> (register: Register)
        ensures
            register == Self::spec_config(port),
    {
        match port {
            Port::Port0 => Register::CONFIG_P0,
            Port::Port1 => Register::CONFIG_P1,
        }
    }

    /// The register that masks the interrupts of `port`.
    pub fn interrupt(port: Port) -> (register: Register)
        ensures
            register == Self::spec_interrupt(port),
    {
        match port {
            Port::Port0 => Register::INT_P0,
            Port::Port1 => Register::INT_P1,
        }
    }

    /// The register that selects the mode of each pin of `port`.
    pub fn led_mode(port: Port) -> (register: Register)
        ensures
            register == Self::spec_led_mode(port),
    {
        match port {
            Port::Port0 => Register::LEDMS_P0,
            Port::Port1 => Register::LEDMS_P1,
        }
    }

    /// The dimmer register of pin `pin` of `port`.
    pub fn dimmer(port: Port, pin: u8) -> (register: Register)
        requires
            pin <= 7,
        ensures
            register == Self::spec_dimmer(port, pin),
    {
        match (port, pin) {
            (Port::Port0, 0) => Register::DIM4_P00,
            (Port::Port0, 1) => Register::DIM5_P01,
            (Port::Port0, 2) => Register::DIM6_P02,
            (Port::Port0, 3) => Register::DIM7_P03,
            (Port::Port0, 4) => Register::DIM8_P04,
            (Port::Port0, 5) => Register::DIM9_P05,
            (Port::Port0, 6) => Register::DIM10_P06,
            (Port::Port0, _) => Register::DIM11_P07,
            (Port::Port1, 0) => Register::DIM0_P10,
            (Port::Port1, 1) => Register::DIM1_P11,
            (Port::Port1, 2) => Register::DIM2_P12,
            (Port::Port1, 3) => Register::DIM3_P13,
            (Port::Port1, 4) => Register::DIM12_P14,
            (Port::Port1, 5) => Register::DIM13_P15,
            (Port::Port1, 6) => Register::DIM14_P16,
            (Port::Port1, _) => Register::DIM15_P17,
        }
    }
}

/// Number of expander chips on the badge.
pub const CHIP_COUNT: usize = 3;

/// Whether `address` is the bus address of one of the three expanders.
pub open spec fn is_chip_address(address: u8) -> bool {
    address == 0x58 || address == 0x59 || address == 0x5A
}

/// Bus address of expander `chip`, counted from 0.
pub open spec fn spec_chip_address(chip: int) -> u8
    recommends
        0 <= chip < 3,
{
    if chip == 0 {
        0x58
    } else if chip == 1 {
        0x59
    } else {
        0x5A
    }
}

/// Bus address of expander `chip`, counted from 0.
pub fn chip_address(chip: usize) -> (address: u8)
    requires
        chip < CHIP_COUNT,
    ensures
        address == spec_chip_address(chip as int),
        is_chip_address(address),
{
    if chip == 0 {
        0x58
    } else if chip == 1 {
        0x59
    } else {
        0x5A
    }
}

/// Index of `port` within its chip: 0 or 1.
pub open spec fn port_index(port: Port) -> int {
    match port {
        Port::Port0 => 0,
        Port::Port1 => 1,
    }
}

/// Number of the dimmer that `spec_dimmer` assigns, counted from `DIM0`.
pub open spec fn dimmer_number(port: Port, pin: u8) -> int {
    match port {
        Port::Port0 => 4 + pin,
        Port::Port1 => if pin < 4 {
            pin as int
        } else {
            8 + pin
        },
    }
}

/// The dimmer of a pin sits at offset `0x20` plus its dimmer number, inside
/// the dimmer block `0x20..=0x2F`.
pub proof fn lemma_dimmer_offset(port: Port, pin: u8)
    requires
        pin <= 7,
    ensures
        Register::spec_dimmer(port, pin).spec_offset() == 0x20 + dimmer_number(port, pin),
        0 <= dimmer_number(port, pin) <= 15,
{
}

/// No two pins of a chip share a dimmer register.
pub proof fn lemma_dimmer_injective(port_a: Port, pin_a: u8, port_b: Port, pin_b: u8)
    requires
        pin_a <= 7,
        pin_b <= 7,
        Register::spec_dimmer(port_a, pin_a) == Register::spec_dimmer(port_b, pin_b),
    ensures
        port_a == port_b,
        pin_a == pin_b,
{
}

/// Whether bit `index` of `value` is set.
pub open spec fn bit_is_set(value: u8, index: u8) -> bool {
    value & (1u8 << index) != 0
}

/// The transfer that writes `value` to `register` of the chip at `addr`: one
/// write of the register's offset followed by the value.
pub open spec fn write_register_view(addr: u8, register: Register, value: u8) -> TransferView {
    TransferView::Write { address: addr, bytes: seq![register.spec_offset(), value] }
}

/// The transfer that reads `register` of the chip at `addr`: the register's
/// offset is written, then one byte is read back.
pub open spec fn read_register_view(addr: u8, register: Register) -> TransferView {
    TransferView::WriteRead { address: addr, bytes: seq![register.spec_offset()], len: 1 }
}

/// Frames a register write.
pub fn write_register(addr: u8, register: Register, value: u8) -> (transfer: Transfer)
    ensures
        transfer.deep_view() == write_register_view(addr, register, value),
{
    let mut bytes: Vec<u8> = Vec::new();
    bytes.push(register.offset());
    bytes.push(value);
    assert(bytes@ =~= seq![register.spec_offset(), value]);
    Transfer::Write { address: addr, bytes }
}

/// Frames a register read. The reply to the transfer is the register's value.
pub fn read_register(addr: u8, register: Register) -> (transfer: Transfer)
    ensures
        transfer.deep_view() == read_register_view(addr, register),
{
    let mut bytes: Vec<u8> = Vec::new();
    bytes.push(register.offset());
    assert(bytes@ =~= seq![register.spec_offset()]);
    Transfer::WriteRead { address: addr, bytes, len: 1 }
}

/// A read-modify-write of one register: the bits of `bit` are set or cleared
/// and every other bit is written back as it was read.
///
/// Two updates of the same register are not atomic with respect to each
/// other: whoever performs them must not interleave them.
#[derive(Debug, Clone, Copy, PartialEq, Eq, Structural)]
pub struct RegisterUpdate {
    /// Bus address of the chip.
    pub address: u8,
    /// The register to read and write back.
    pub register: Register,
    /// Mask of the bits to change.
    pub bit: u8,
    /// Whether the masked bits are set or cleared.
    pub set: bool,
}

impl RegisterUpdate {
    /// The value to write back when `value` was read.
    pub open spec fn spec_apply(self, value: u8) -> u8 {
        if self.set {
            value | self.bit
        } else {
            value & !self.bit
        }
    }

    /// The value to write back when `value` was read.
    pub fn apply(&self, value: u8) -> (updated: u8)
        ensures
            updated == self.spec_apply(value),
    {
        if self.set {
            value | self.bit
        } else {
            value & !self.bit
        }
    }

    /// First half of the update: the read of the register.
    pub fn request(&self) -> (transfer: Transfer)
        ensures
            transfer.deep_view() == read_register_view(self.address, self.register),
    {
        read_register(self.address, self.register)
    }

    /// How the update goes on after its read: a read of `value` is answered
    /// by the write of what the update makes of `value`, and a failed read
    /// ends the update with its failure, so that nothing is written.
    pub fn after_read<E>(&self, read: Result<u8, E>) -> (write: Result<Transfer, E>)
        ensures
            read is Ok ==> write is Ok && write->Ok_0.deep_view() == write_register_view(
                self.address,
                self.register,
                self.spec_apply(read->Ok_0),
            ),
            read is Err ==> write is Err && write->Err_0 == read->Err_0,
    {
        match read {
            Ok(value) => Ok(self.response(value)),
            Err(error) => Err(error),
        }
    }

    /// Second half of the update: the write that answers a read of `value`.
    pub fn response(&self, value: u8) -> (transfer: Transfer)
        ensures
            transfer.deep_view() == write_register_view(
                self.address,
                self.register,
                self.spec_apply(value),
            ),
    {
        write_register(self.address, self.register, self.apply(value))
    }
}

/// An update whose mask is the single bit of pin `pin` changes that bit to
/// `set` and leaves the other seven as they were.
pub proof fn lemma_update_changes_one_bit(update: RegisterUpdate, pin: u8, value: u8, index: u8)
    requires
        pin <= 7,
        index <= 7,
        update.bit == 1u8 << pin,
    ensures
        bit_is_set(update.spec_apply(value), index) == (if index == pin {
            update.set
        } else {
            bit_is_set(value, index)
        }),
{
    let bit = update.bit;
    if update.set {
        assert((value | bit) & (1u8 << index) != 0 <==> (index == pin || value & (1u8 << index)
            != 0)) by (bit_vector)
            requires
                pin <= 7,
                index <= 7,
                bit == 1u8 << pin,
        ;
    } else {
        assert((value & !bit) & (1u8 << index) != 0 <==> (index != pin && value & (1u8 << index)
            != 0)) by (bit_vector)
            requires
                pin <= 7,
                index <= 7,
                bit == 1u8 << pin,
        ;
    }
}

/// Applying the same update to its own result changes nothing more.
pub proof fn lemma_update_idempotent(update: RegisterUpdate, value: u8)
    ensures
        update.spec_apply(update.spec_apply(value)) == update.spec_apply(value),
{
    let bit = update.bit;
    assert((value | bit) | bit == value | bit) by (bit_vector);
    assert((value & !bit) & !bit == value & !bit) by (bit_vector);
}

/// The update that puts a pin under the GPIO logic or the LED dimmer: its bit
/// in the port's mode register is set for GPIO and cleared for LED.
pub open spec fn pin_mode_update(pin: Identity, mode: PinMode) -> RegisterUpdate {
    RegisterUpdate {
        address: pin.address,
        register: Register::spec_led_mode(pin.port),
        bit: pin.bit(),
        set: mode == PinMode::Gpio,
    }
}

/// The update that makes a pin an input or an output: its bit in the port's
/// direction register is set for input and cleared for output.
pub open spec fn io_direction_update(pin: Identity, direction: GpioDirection) -> RegisterUpdate {
    RegisterUpdate {
        address: pin.address,
        register: Register::spec_config(pin.port),
        bit: pin.bit(),
        set: direction == GpioDirection::Input,
    }
}

/// The update that drives an output pin: its bit in the port's output
/// register is set for high and cleared for low.
pub open spec fn io_state_update(pin: Identity, state: PinState) -> RegisterUpdate {
    RegisterUpdate {
        address: pin.address,
        register: Register::spec_output(pin.port),
        bit: pin.bit(),
        set: state == PinState::High,
    }
}

/// The update that unmasks or masks the interrupt of an input pin: its bit in
/// the port's interrupt register is cleared to enable and set to disable.
pub open spec fn interrupt_update(pin: Identity, enable: bool) -> RegisterUpdate {
    RegisterUpdate {
        address: pin.address,
        register: Register::spec_interrupt(pin.port),
        bit: pin.bit(),
        set: !enable,
    }
}

/// Plans the change of a pin's mode.
pub fn set_pin_mode<PIN: PinExt>(pin: &PIN, mode: PinMode) -> (update: RegisterUpdate)
    ensures
        update == pin_mode_update(pin.identity(), mode),
{
    let set = match mode {
        PinMode::Gpio => true,
        PinMode::Led => false,
    };
    RegisterUpdate {
        address: pin.address(),
        register: Register::led_mode(pin.port()),
        bit: pin.bit(),
        set,
    }
}

/// Plans the change of a pin's direction.
pub fn set_io_direction<PIN: PinExt>(pin: &PIN, direction: GpioDirection) -> (update: RegisterUpdate)
    ensures
        update == io_direction_update(pin.identity(), direction),
{
    let set = match direction {
        GpioDirection::Input => true,
        GpioDirection::Output => false,
    };
    RegisterUpdate {
        address: pin.address(),
        register: Register::config(pin.port()),
        bit: pin.bit(),
        set,
    }
}

/// Plans the change of the level that an output pin drives.
pub fn set_io_state<PIN: PinExt>(pin: &PIN, state: PinState) -> (update: RegisterUpdate)
    ensures
        update == io_state_update(pin.identity(), state),
{
    let set = match state {
        PinState::Low => false,
        PinState::High => true,
    };
    RegisterUpdate {
        address: pin.address(),
        register: Register::output(pin.port()),
        bit: pin.bit(),
        set,
    }
}

/// Plans the change of the interrupt mask of an input pin.
pub fn set_interrupt<PIN: PinExt>(pin: &PIN, enable: bool) -> (update: RegisterUpdate)
    ensures
        update == interrupt_update(pin.identity(), enable),
{
    RegisterUpdate {
        address: pin.address(),
        register: Register::interrupt(pin.port()),
        bit: pin.bit(),
        set: !enable,
    }
}

} // verus!
