//! Bring-up of the three expanders, and the one hand-out of their pins.

use crate::i2c::{Transfer, TransferView};
use crate::pins::assignment::Pins;
use crate::pins::aw9523b::{
    chip_address, read_register, read_register_view, spec_chip_address, write_register,
    write_register_view, Register, CHIP_COUNT,
};
use crate::pins::input_registers::InputRegisters;
use vstd::prelude::*;

verus! {

/// Value of the control register after bring-up: port 0 in push-pull mode,
/// LED current at its maximum.
pub const CONTROL_PUSH_PULL: u8 = 0b00010000;

/// Value of an interrupt register with every interrupt of the port disabled.
pub const INTERRUPTS_DISABLED: u8 = 0b11111111;

/// The bring-up of the chip at `address`: its identification register is
/// read, the control register is set, and all interrupts of both ports are
/// disabled.
pub open spec fn chip_init(address: u8) -> Seq<TransferView> {
    seq![
        read_register_view(address, Register::ID),
        write_register_view(address, Register::CTL, CONTROL_PUSH_PULL),
        write_register_view(address, Register::INT_P0, INTERRUPTS_DISABLED),
        write_register_view(address, Register::INT_P1, INTERRUPTS_DISABLED),
    ]
}

/// The bring-up of all three chips, in the order of their addresses.
pub open spec fn spec_init() -> Seq<TransferView> {
    chip_init(0x58) + chip_init(0x59) + chip_init(0x5A)
}

/// The software reset of all three chips, in the order of their addresses:
/// a write of zero to the reset register of each.
pub open spec fn spec_reset() -> Seq<TransferView> {
    seq![
        write_register_view(0x58, Register::SW_RSTN, 0),
        write_register_view(0x59, Register::SW_RSTN, 0),
        write_register_view(0x5A, Register::SW_RSTN, 0),
    ]
}

/// Owner of the expanders' pins until they are handed out.
#[derive(Debug)]
pub struct PinControl {
    pins: Option<Pins>,
}

impl PinControl {
    /// Whether the pins are still here to be taken.
    pub closed spec fn holds_pins(&self) -> bool {
        self.pins is Some
    }

    /// A control that holds all pins.
    pub fn new() -> (control: Self)
        ensures
            control.holds_pins(),
    {
        Self { pins: Some(Pins::new()) }
    }

    /// Plans the bring-up of the three chips.
    pub fn init(&self) -> (transfers: Vec<Transfer>)
        ensures
            transfers.deep_view() == spec_init(),
    {
        let mut transfers: Vec<Transfer> = Vec::new();
        let mut chip: usize = 0;
        let ghost mut done: Seq<TransferView> = Seq::empty();
        while chip < CHIP_COUNT
            invariant
                chip <= CHIP_COUNT,
                transfers.deep_view() == done,
                chip == 0 ==> done == Seq::<TransferView>::empty(),
                chip == 1 ==> done == chip_init(0x58),
                chip == 2 ==> done == chip_init(0x58) + chip_init(0x59),
                chip == 3 ==> done == spec_init(),
            decreases CHIP_COUNT - chip,
        {
            let address: u8 = chip_address(chip);
            transfers.push(read_register(address, Register::ID));
            transfers.push(write_register(address, Register::CTL, CONTROL_PUSH_PULL));
            transfers.push(write_register(address, Register::INT_P0, INTERRUPTS_DISABLED));
            transfers.push(write_register(address, Register::INT_P1, INTERRUPTS_DISABLED));
            proof {
                assert(transfers.deep_view() =~= done + chip_init(address));
                done = done + chip_init(address);
                assert(Seq::<TransferView>::empty() + chip_init(0x58) =~= chip_init(0x58));
            }
            chip += 1;
        }
        transfers
    }

    /// Plans the software reset of the three chips.
    pub fn reset(&self) -> (transfers: Vec<Transfer>)
        ensures
            transfers.deep_view() == spec_reset(),
    {
        let mut transfers: Vec<Transfer> = Vec::new();
        transfers.push(write_register(0x58, Register::SW_RSTN, 0));
        transfers.push(write_register(0x59, Register::SW_RSTN, 0));
        transfers.push(write_register(0x5A, Register::SW_RSTN, 0));
        assert(transfers.deep_view() =~= spec_reset());
        transfers
    }

    /// Hands out the pins. They can be taken once.
    pub fn pins(&mut self) -> (pins: Pins)
        requires
            old(self).holds_pins(),
        ensures
            !final(self).holds_pins(),
    {
        self.pins.take().unwrap()
    }

    /// Hands out the pins if they are still here.
    pub fn take_pins(&mut self) -> (pins: Option<Pins>)
        ensures
            pins is Some <==> old(self).holds_pins(),
            !final(self).holds_pins(),
    {
        self.pins.take()
    }

    /// Plans the three reads that make a snapshot of the input registers.
    pub fn input_register_requests(&self) -> (requests: Vec<Transfer>)
        ensures
            requests.deep_view() == Seq::new(
                3,
                |chip: int| InputRegisters::spec_read_request(chip),
            ),
    {
        InputRegisters::read_requests()
    }

    /// Assembles the snapshot from the replies to
    /// [`PinControl::input_register_requests`], in the order of the requests.
    pub fn read_input_registers(&self, replies: [[u8; 2]; 3]) -> (registers: InputRegisters)
        ensures
            registers@ == seq![
                replies[0][0],
                replies[0][1],
                replies[1][0],
                replies[1][1],
                replies[2][0],
                replies[2][1],
            ],
    {
        InputRegisters::read(replies)
    }
}

} // verus!
