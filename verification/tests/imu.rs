use tildagon::i2c::Transfer;
use tildagon::imu::bmi2::interface::{I2cInterface, ReadData, WriteData};
use tildagon::imu::bmi2::I2cAddr;

#[test]
fn sensor_answers_at_one_of_two_addresses() {
    assert_eq!(I2cAddr::Default.addr(), 0x68);
    assert_eq!(I2cAddr::Alternative.addr(), 0x69);
    assert_eq!(I2cAddr::default(), I2cAddr::Default);
    assert_eq!(I2cInterface::new(I2cAddr::Alternative).address, 0x69);
}

#[test]
fn sensor_writes_are_sent_as_they_are() {
    let sensor = I2cInterface::new(I2cAddr::Alternative);
    assert_eq!(
        sensor.write(&[0x5E, 1, 2, 3]),
        Transfer::Write { address: 0x69, bytes: vec![0x5E, 1, 2, 3] }
    );
    assert_eq!(sensor.write_reg(0x7C, 0x00), Transfer::Write { address: 0x69, bytes: vec![0x7C, 0x00] });
}

#[test]
fn sensor_reads_name_the_first_register() {
    let sensor = I2cInterface::new(I2cAddr::Default);
    assert_eq!(
        sensor.read(&[0x0C, 0, 0, 0, 0, 0, 0]),
        Transfer::WriteRead { address: 0x68, bytes: vec![0x0C], len: 6 }
    );
    assert_eq!(sensor.read(&[0x00]), Transfer::WriteRead { address: 0x68, bytes: vec![0x00], len: 0 });
    assert_eq!(sensor.read_reg(0x00), Transfer::WriteRead { address: 0x68, bytes: vec![0x00], len: 1 });
}
