//! Framing of the sensor's register accesses as bus transfers.

use crate::i2c::{Transfer, TransferView};
use vstd::prelude::*;
use vstd::slice::slice_to_vec;

verus! {

/// Bus address of the sensor when its address line is low.
pub const BMI270_I2C_ADDR: u8 = 0x68;

/// Bus address of the sensor when its address line is pulled high.
pub const BMI270_I2C_ADDR_ALT: u8 = 0x69;

/// Which of its two bus addresses the sensor answers at.
#[derive(Debug, Default, Clone, Copy, PartialEq, Eq, Structural)]
pub enum I2cAddr {
    /// The address `0x68`.
    #[default]
    Default,
    /// The address `0x69`, selected by pulling the address line high.
    Alternative,
}

impl I2cAddr {
    /// The bus address.
    pub open spec fn spec_addr(self) -> u8 {
        match self {
            I2cAddr::Default => BMI270_I2C_ADDR,
            I2cAddr::Alternative => BMI270_I2C_ADDR_ALT,
        }
    }

    /// The bus address.
    pub fn addr(self) -> (address: u8)
        ensures
            address == self.spec_addr(),
    {
        match self {
            I2cAddr::Default => BMI270_I2C_ADDR,
            I2cAddr::Alternative => BMI270_I2C_ADDR_ALT,
        }
    }
}

/// A way to send data to the sensor.
pub trait WriteData {
    /// The transfer that sends `payload`: the offset of a register, then
    /// the bytes for it and the registers that follow.
    spec fn write_view(&self, payload: Seq<u8>) -> TransferView;

    /// Plans sending `payload`.
    fn write(&self, payload: &[u8]) -> (transfer: Transfer)
        ensures
            transfer.deep_view() == self.write_view(payload@),
    ;

    /// Plans writing `data` to the register at offset `register`.
    fn write_reg(&self, register: u8, data: u8) -> (transfer: Transfer)
        ensures
            transfer.deep_view() == self.write_view(seq![register, data]),
    ;
}

/// A way to fetch data from the sensor.
pub trait ReadData {
    /// The transfer that fetches `len` bytes, starting with the register at
    /// offset `register`.
    spec fn read_view(&self, register: u8, len: nat) -> TransferView;

    /// Plans filling `payload` from its second byte on, starting with the
    /// register whose offset is its first byte.
    fn read(&self, payload: &[u8]) -> (transfer: Transfer)
        requires
            payload@.len() >= 1,
        ensures
            transfer.deep_view() == self.read_view(payload@[0], (payload@.len() - 1) as nat),
    ;

    /// Plans fetching the register at offset `register`.
    fn read_reg(&self, register: u8) -> (transfer: Transfer)
        ensures
            transfer.deep_view() == self.read_view(register, 1),
    ;
}

/// The sensor as a device on the two-wire bus.
#[derive(Debug, Clone, Copy, PartialEq, Eq, Structural)]
pub struct I2cInterface {
    /// Bus address of the sensor.
    pub address: u8,
}

impl I2cInterface {
    /// The sensor at `address`.
    pub fn new(address: I2cAddr) -> (interface: Self)
        ensures
            interface.address == address.spec_addr(),
    {
        Self { address: address.addr() }
    }
}

impl WriteData for I2cInterface {
    open spec fn write_view(&self, payload: Seq<u8>) -> TransferView {
        TransferView::Write { address: self.address, bytes: payload }
    }

    fn write(&self, payload: &[u8]) -> (transfer: Transfer) {
        Transfer::Write { address: self.address, bytes: slice_to_vec(payload) }
    }

    fn write_reg(&self, register: u8, data: u8) -> (transfer: Transfer) {
        let mut bytes: Vec<u8> = Vec::new();
        bytes.push(register);
        bytes.push(data);
        assert(bytes@ =~= seq![register, data]);
        Transfer::Write { address: self.address, bytes }
    }
}

impl ReadData for I2cInterface {
    open spec fn read_view(&self, register: u8, len: nat) -> TransferView {
        TransferView::WriteRead { address: self.address, bytes: seq![register], len }
    }

    fn read(&self, payload: &[u8]) -> (transfer: Transfer) {
        let mut bytes: Vec<u8> = Vec::new();
        bytes.push(payload[0]);
        assert(bytes@ =~= seq![payload@[0]]);
        Transfer::WriteRead { address: self.address, bytes, len: payload.len() - 1 }
    }

    fn read_reg(&self, register: u8) -> (transfer: Transfer) {
        let mut bytes: Vec<u8> = Vec::new();
        bytes.push(register);
        assert(bytes@ =~= seq![register]);
        Transfer::WriteRead { address: self.address, bytes, len: 1 }
    }
}

} // verus!
