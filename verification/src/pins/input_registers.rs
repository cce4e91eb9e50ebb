//! One reading of the input registers of all three expanders.

use crate::i2c::{Transfer, TransferView};
use crate::pins::aw9523b::{
    bit_is_set, chip_address, port_index, spec_chip_address, Port, Register, CHIP_COUNT,
};
use crate::pins::pin::{Identity, PinExt};
use vstd::prelude::*;

verus! {

/// The levels of all 48 expander pins at one instant: the two input
/// registers of each of the three chips.
///
/// A set bit is a pin that was electrically high. What high means for a
/// button or a slot is for its owner to say.
#[derive(Debug, Clone, PartialEq, Eq)]
pub struct InputRegisters {
    a0x58_port0: u8,
    a0x58_port1: u8,
    a0x59_port0: u8,
    a0x59_port1: u8,
    a0x5a_port0: u8,
    a0x5a_port1: u8,
}

/// Place of the input register of `port` of the chip at `address` among the
/// six bytes of a snapshot: chip by chip, port 0 before port 1.
pub open spec fn register_index(address: u8, port: Port) -> int {
    2 * (address - 0x58) + port_index(port)
}

impl View for InputRegisters {
    type V = Seq<u8>;

    /// The six bytes, chip by chip, port 0 before port 1.
    closed spec fn view(&self) -> Seq<u8> {
        seq![
            self.a0x58_port0,
            self.a0x58_port1,
            self.a0x59_port0,
            self.a0x59_port1,
            self.a0x5a_port0,
            self.a0x5a_port1,
        ]
    }
}

impl InputRegisters {
    /// Whether `pin` was electrically high when the snapshot was taken.
    pub open spec fn spec_pin_state(&self, pin: Identity) -> bool {
        bit_is_set(self@[register_index(pin.address, pin.port)], pin.pin)
    }

    /// The read of chip `chip`: the offsets of both input registers are
    /// written, and the chip answers with the two registers in that order.
    pub open spec fn spec_read_request(chip: int) -> TransferView {
        TransferView::WriteRead {
            address: spec_chip_address(chip),
            bytes: seq![Register::INPUT_P0.spec_offset(), Register::INPUT_P1.spec_offset()],
            len: 2,
        }
    }

    /// Plans the three reads that make a snapshot, one for each chip in the
    /// order of their addresses.
    pub fn read_requests() -> (requests: Vec<Transfer>)
        ensures
            requests.deep_view() == Seq::new(3, |chip: int| Self::spec_read_request(chip)),
    {
        let mut requests: Vec<Transfer> = Vec::new();
        let mut chip: usize = 0;
        while chip < CHIP_COUNT
            invariant
                chip <= CHIP_COUNT,
                requests.deep_view() == Seq::new(
                    chip as nat,
                    |chip: int| Self::spec_read_request(chip),
                ),
            decreases CHIP_COUNT - chip,
        {
            let mut bytes: Vec<u8> = Vec::new();
            bytes.push(Register::INPUT_P0.offset());
            bytes.push(Register::INPUT_P1.offset());
            assert(bytes@ =~= seq![
                Register::INPUT_P0.spec_offset(),
                Register::INPUT_P1.spec_offset(),
            ]);
            let ghost before = requests.deep_view();
            requests.push(Transfer::WriteRead { address: chip_address(chip), bytes, len: 2 });
            assert(requests.deep_view() =~= before.push(Self::spec_read_request(chip as int)));
            chip += 1;
        }
        requests
    }

    /// Assembles a snapshot from the replies to [`InputRegisters::read_requests`],
    /// in the order of the requests.
    pub fn read(replies: [[u8; 2]; 3]) -> (registers: Self)
        ensures
            registers@ == seq![
                replies[0][0],
                replies[0][1],
                replies[1][0],
                replies[1][1],
                replies[2][0],
                replies[2][1],
            ],
    {
        let registers = Self {
            a0x58_port0: replies[0][0],
            a0x58_port1: replies[0][1],
            a0x59_port0: replies[1][0],
            a0x59_port1: replies[1][1],
            a0x5a_port0: replies[2][0],
            a0x5a_port1: replies[2][1],
        };
        assert(registers@ =~= seq![
            replies[0][0],
            replies[0][1],
            replies[1][0],
            replies[1][1],
            replies[2][0],
            replies[2][1],
        ]);
        registers
    }

    /// Whether `pin` was electrically high when the snapshot was taken.
    pub fn pin_state<PIN: PinExt>(&self, pin: &PIN) -> (high: bool)
        ensures
            high == self.spec_pin_state(pin.identity()),
    {
        let address: u8 = pin.address();
        let bit: u8 = pin.bit();
        let reg: u8 = if address == 0x58 {
            match pin.port() {
                Port::Port0 => self.a0x58_port0,
                Port::Port1 => self.a0x58_port1,
            }
        } else if address == 0x59 {
            match pin.port() {
                Port::Port0 => self.a0x59_port0,
                Port::Port1 => self.a0x59_port1,
            }
        } else {
            match pin.port() {
                Port::Port0 => self.a0x5a_port0,
                Port::Port1 => self.a0x5a_port1,
            }
        };
        reg & bit != 0
    }
}

} // verus!
