use tildagon::i2c::Transfer;
use tildagon::pins::aw9523b::{
    chip_address, read_register, set_io_direction, set_io_state, set_pin_mode, write_register,
    GpioDirection, PinMode, Port, Register, RegisterUpdate,
};
use tildagon::pins::digital::{InputPin as _, OutputPin as _, PinState};
use tildagon::pins::pin::{pin_bits, PinExt, TypeErasedPin};
use tildagon::pins::pwm::{fraction_of, SetDutyCycle};
use tildagon::pins::{InputPin, InputRegisters, LedPin, OutputPin, PinControl};

#[test]
fn pin_bits_is_one_hot() {
    let expected = [0x01, 0x02, 0x04, 0x08, 0x10, 0x20, 0x40, 0x80];
    for pin in 0..8_u8 {
        assert_eq!(pin_bits(pin), expected[pin as usize]);
    }
}

#[test]
fn typed_pin_knows_its_place() {
    let pins = PinControl::new().pins();
    let pin = pins.other.usb_select;
    assert_eq!(pin.address(), 0x5A);
    assert_eq!(pin.port(), Port::Port0);
    assert_eq!(pin.pin(), 5);
    assert_eq!(pin.bit(), 0b0010_0000);

    let pin = pins.top_board.ls_1;
    assert_eq!(pin.address(), 0x5A);
    assert_eq!(pin.port(), Port::Port1);
    assert_eq!(pin.pin(), 7);
    assert_eq!(pin.bit(), 0b1000_0000);
}

#[test]
fn erasing_keeps_the_identity() {
    let pins = PinControl::new().pins();
    let erased = pins.hexpansion_d.ls_5.erase();
    assert_eq!(erased.address(), 0x58);
    assert_eq!(erased.port(), Port::Port0);
    assert_eq!(erased.pin(), 0);
    assert_eq!(erased.bit(), 1);

    let erased = TypeErasedPin::from(pins.hexpansion_c.ls_5);
    assert_eq!(erased.address(), 0x59);
    assert_eq!(erased.port(), Port::Port1);
    assert_eq!(erased.pin(), 4);
    assert_eq!(erased.bit(), 0b0001_0000);
}

#[test]
fn pins_can_be_taken_once() {
    let mut control = PinControl::new();
    assert!(control.take_pins().is_some());
    assert!(control.take_pins().is_none());
}

#[test]
fn register_offsets_follow_the_data_sheet() {
    let offsets = [
        (Register::INPUT_P0, 0x00),
        (Register::INPUT_P1, 0x01),
        (Register::OUTPUT_P0, 0x02),
        (Register::OUTPUT_P1, 0x03),
        (Register::CONFIG_P0, 0x04),
        (Register::CONFIG_P1, 0x05),
        (Register::INT_P0, 0x06),
        (Register::INT_P1, 0x07),
        (Register::ID, 0x10),
        (Register::CTL, 0x11),
        (Register::LEDMS_P0, 0x12),
        (Register::LEDMS_P1, 0x13),
        (Register::DIM0_P10, 0x20),
        (Register::DIM1_P11, 0x21),
        (Register::DIM2_P12, 0x22),
        (Register::DIM3_P13, 0x23),
        (Register::DIM4_P00, 0x24),
        (Register::DIM5_P01, 0x25),
        (Register::DIM6_P02, 0x26),
        (Register::DIM7_P03, 0x27),
        (Register::DIM8_P04, 0x28),
        (Register::DIM9_P05, 0x29),
        (Register::DIM10_P06, 0x2A),
        (Register::DIM11_P07, 0x2B),
        (Register::DIM12_P14, 0x2C),
        (Register::DIM13_P15, 0x2D),
        (Register::DIM14_P16, 0x2E),
        (Register::DIM15_P17, 0x2F),
        (Register::SW_RSTN, 0x7F),
    ];
    for (register, offset) in offsets {
        assert_eq!(register.offset(), offset);
    }
}

#[test]
fn dimmers_are_not_laid_out_port_by_port() {
    let port1 = [0x20, 0x21, 0x22, 0x23, 0x2C, 0x2D, 0x2E, 0x2F];
    let port0 = [0x24, 0x25, 0x26, 0x27, 0x28, 0x29, 0x2A, 0x2B];
    for pin in 0..8_u8 {
        assert_eq!(Register::dimmer(Port::Port0, pin).offset(), port0[pin as usize]);
        assert_eq!(Register::dimmer(Port::Port1, pin).offset(), port1[pin as usize]);
    }
}

#[test]
fn chips_sit_at_three_addresses() {
    assert_eq!(chip_address(0), 0x58);
    assert_eq!(chip_address(1), 0x59);
    assert_eq!(chip_address(2), 0x5A);
}

#[test]
fn register_read_writes_the_offset_and_reads_one_byte() {
    assert_eq!(
        read_register(0x59, Register::CTL),
        Transfer::WriteRead { address: 0x59, bytes: vec![0x11], len: 1 }
    );
}

#[test]
fn register_write_sends_offset_and_value() {
    assert_eq!(
        write_register(0x5A, Register::OUTPUT_P1, 0xA5),
        Transfer::Write { address: 0x5A, bytes: vec![0x03, 0xA5] }
    );
}

#[test]
fn update_sets_or_clears_only_its_bit() {
    let set = RegisterUpdate { address: 0x58, register: Register::CONFIG_P0, bit: 0b0000_0100, set: true };
    let clear = RegisterUpdate { set: false, ..set };
    assert_eq!(set.apply(0b1010_0000), 0b1010_0100);
    assert_eq!(set.apply(0b1010_0100), 0b1010_0100);
    assert_eq!(clear.apply(0b1010_0100), 0b1010_0000);
    assert_eq!(clear.apply(0b1111_1111), 0b1111_1011);
    assert_eq!(clear.apply(0b0000_0000), 0b0000_0000);
}

#[test]
fn update_reads_then_writes_its_register() {
    let update = RegisterUpdate { address: 0x59, register: Register::LEDMS_P1, bit: 0x80, set: false };
    assert_eq!(update.request(), Transfer::WriteRead { address: 0x59, bytes: vec![0x13], len: 1 });
    assert_eq!(update.response(0xFF), Transfer::Write { address: 0x59, bytes: vec![0x13, 0x7F] });
    assert_eq!(update.response(0x0F), Transfer::Write { address: 0x59, bytes: vec![0x13, 0x0F] });
}

#[test]
fn pin_mode_is_a_bit_of_the_mode_register() {
    let pins = PinControl::new().pins();
    let pin = pins.led.power_enable;
    assert_eq!(
        set_pin_mode(&pin, PinMode::Gpio),
        RegisterUpdate { address: 0x5A, register: Register::LEDMS_P0, bit: 0b0000_0100, set: true }
    );
    assert_eq!(
        set_pin_mode(&pin, PinMode::Led),
        RegisterUpdate { address: 0x5A, register: Register::LEDMS_P0, bit: 0b0000_0100, set: false }
    );
}

#[test]
fn direction_is_a_bit_of_the_config_register() {
    let pins = PinControl::new().pins();
    let pin = pins.hexpansion_f.ls_3;
    assert_eq!(
        set_io_direction(&pin, GpioDirection::Input),
        RegisterUpdate { address: 0x58, register: Register::CONFIG_P1, bit: 0b0010_0000, set: true }
    );
    assert_eq!(
        set_io_direction(&pin, GpioDirection::Output),
        RegisterUpdate { address: 0x58, register: Register::CONFIG_P1, bit: 0b0010_0000, set: false }
    );
}

#[test]
fn level_is_a_bit_of_the_output_register() {
    let pins = PinControl::new().pins();
    let pin = pins.other.vbus_sw;
    assert_eq!(
        set_io_state(&pin, PinState::High),
        RegisterUpdate { address: 0x5A, register: Register::OUTPUT_P0, bit: 0b0001_0000, set: true }
    );
    assert_eq!(
        set_io_state(&pin, PinState::Low),
        RegisterUpdate { address: 0x5A, register: Register::OUTPUT_P0, bit: 0b0001_0000, set: false }
    );
}

#[test]
fn output_handle_is_set_up_as_gpio_output() {
    let pins = PinControl::new().pins();
    let pin = pins.other.usb_select;
    assert_eq!(
        OutputPin::setup(&pin),
        vec![
            RegisterUpdate { address: 0x5A, register: Register::LEDMS_P0, bit: 0x20, set: true },
            RegisterUpdate { address: 0x5A, register: Register::CONFIG_P0, bit: 0x20, set: false },
        ]
    );
    let handle = pin.into_output::<()>(Ok(())).unwrap();
    let high = RegisterUpdate { address: 0x5A, register: Register::OUTPUT_P0, bit: 0x20, set: true };
    let low = RegisterUpdate { set: false, ..high };
    assert_eq!(handle.set_high(), high);
    assert_eq!(handle.set_low(), low);
    assert_eq!(handle.set_state(PinState::High), high);
    assert_eq!(handle.set_state(PinState::Low), low);
}

#[test]
fn input_handle_is_set_up_as_gpio_input() {
    let pins = PinControl::new().pins();
    let pin = pins.other.accel_int;
    assert_eq!(
        InputPin::setup(&pin),
        vec![
            RegisterUpdate { address: 0x58, register: Register::LEDMS_P0, bit: 0x02, set: true },
            RegisterUpdate { address: 0x58, register: Register::CONFIG_P0, bit: 0x02, set: true },
        ]
    );
    let handle = pin.into_input::<()>(Ok(())).unwrap();
    assert_eq!(
        handle.level_request(),
        Transfer::WriteRead { address: 0x58, bytes: vec![0x00], len: 1 }
    );
    assert!(handle.is_high(0b0000_0010));
    assert!(!handle.is_low(0b0000_0010));
    assert!(handle.is_low(0b1111_1101));
    assert!(!handle.is_high(0b1111_1101));
}

#[test]
fn interrupt_is_enabled_by_clearing_its_bit() {
    let pins = PinControl::new().pins();
    let handle = pins.top_board.ls_2.into_input::<()>(Ok(())).unwrap();
    assert_eq!(
        handle.set_interrupt(true),
        RegisterUpdate { address: 0x5A, register: Register::INT_P1, bit: 0x40, set: false }
    );
    assert_eq!(
        handle.set_interrupt(false),
        RegisterUpdate { address: 0x5A, register: Register::INT_P1, bit: 0x40, set: true }
    );
}

#[test]
fn handles_convert_into_each_other() {
    let pins = PinControl::new().pins();
    let output = pins.hexpansion_a.ls_1.into_output::<()>(Ok(())).unwrap();
    assert_eq!(
        InputPin::setup(output.pin()),
        vec![
            RegisterUpdate { address: 0x5A, register: Register::LEDMS_P0, bit: 0x08, set: true },
            RegisterUpdate { address: 0x5A, register: Register::CONFIG_P0, bit: 0x08, set: true },
        ]
    );
    let input = output.into_input::<()>(Ok(())).unwrap();
    assert!(input.is_high(0x08));
    let output = input.into_output::<()>(Ok(())).unwrap();
    assert_eq!(
        output.set_high(),
        RegisterUpdate { address: 0x5A, register: Register::OUTPUT_P0, bit: 0x08, set: true }
    );
}

#[test]
fn failed_setup_makes_no_handle() {
    let pins = PinControl::new().pins();
    assert_eq!(pins.hexpansion_a.ls_1.into_output(Err(1_u8)).unwrap_err(), 1);
    assert_eq!(pins.hexpansion_a.ls_2.into_input(Err(2_u8)).unwrap_err(), 2);
    assert_eq!(pins.hexpansion_a.ls_3.into_led(Err(3_u8)).unwrap_err(), 3);
    let output = pins.hexpansion_a.ls_4.into_output::<()>(Ok(())).unwrap();
    assert_eq!(output.into_input(Err(4_u8)).unwrap_err(), 4);
    let input = pins.hexpansion_a.ls_5.into_input::<()>(Ok(())).unwrap();
    assert_eq!(input.into_output(Err(5_u8)).unwrap_err(), 5);
}

#[test]
fn led_handle_is_handed_to_the_dimmer() {
    let pins = PinControl::new().pins();
    let pin = pins.hexpansion_b.ls_4;
    assert_eq!(
        LedPin::setup(&pin),
        vec![RegisterUpdate { address: 0x59, register: Register::LEDMS_P1, bit: 0x40, set: false }]
    );
    let led = pin.into_led::<()>(Ok(())).unwrap();
    assert_eq!(led.max_duty_cycle(), 255);
    assert_eq!(led.set_duty_cycle(200), Transfer::Write { address: 0x59, bytes: vec![0x2E, 200] });
    assert_eq!(led.set_duty_cycle_fully_off(), Transfer::Write { address: 0x59, bytes: vec![0x2E, 0] });
    assert_eq!(led.set_duty_cycle_fully_on(), Transfer::Write { address: 0x59, bytes: vec![0x2E, 255] });
}

#[test]
fn a_quarter_of_full_duty_is_63() {
    let pins = PinControl::new().pins();
    let led = pins.hexpansion_e.ls_1.into_led::<()>(Ok(())).unwrap();
    assert_eq!(led.set_duty_cycle_fraction(1, 4), Transfer::Write { address: 0x58, bytes: vec![0x26, 63] });
}

#[test]
fn duty_fractions_round_down() {
    let pins = PinControl::new().pins();
    let led = pins.hexpansion_d.ls_1.into_led::<()>(Ok(())).unwrap();
    let value = |transfer: Transfer| match transfer {
        Transfer::Write { address: 0x58, bytes } => {
            assert_eq!(bytes.len(), 2);
            assert_eq!(bytes[0], 0x20);
            bytes[1]
        }
        other => panic!("not a register write: {:?}", other),
    };
    assert_eq!(value(led.set_duty_cycle_fraction(0, 1)), 0);
    assert_eq!(value(led.set_duty_cycle_fraction(1, 1)), 255);
    assert_eq!(value(led.set_duty_cycle_fraction(1, 2)), 127);
    assert_eq!(value(led.set_duty_cycle_fraction(2, 3)), 170);
    assert_eq!(value(led.set_duty_cycle_fraction(65535, 65535)), 255);
    assert_eq!(value(led.set_duty_cycle_fraction(65534, 65535)), 254);
    assert_eq!(value(led.set_duty_cycle_percent(0)), 0);
    assert_eq!(value(led.set_duty_cycle_percent(50)), 127);
    assert_eq!(value(led.set_duty_cycle_percent(99)), 252);
    assert_eq!(value(led.set_duty_cycle_percent(100)), 255);
}

#[test]
fn the_largest_duty_is_written_as_it_is() {
    let pins = PinControl::new().pins();
    let led = pins.hexpansion_d.ls_2.into_led::<()>(Ok(())).unwrap();
    assert_eq!(led.max_duty_cycle(), 255);
    assert_eq!(led.set_duty_cycle(255), Transfer::Write { address: 0x58, bytes: vec![0x21, 255] });
    assert_eq!(led.set_duty_cycle(254), Transfer::Write { address: 0x58, bytes: vec![0x21, 254] });
    assert_eq!(led.set_duty_cycle(0), Transfer::Write { address: 0x58, bytes: vec![0x21, 0] });
}

#[test]
fn led_handle_shows_its_pin() {
    let pins = PinControl::new().pins();
    let led = pins.hexpansion_f.ls_2.into_led::<()>(Ok(())).unwrap();
    assert_eq!(led.pin().address(), 0x58);
    assert_eq!(led.pin().port(), Port::Port1);
    assert_eq!(led.pin().pin(), 4);
    assert_eq!(Register::dimmer(led.pin().port(), led.pin().pin()), Register::DIM12_P14);
}

#[test]
fn update_writes_only_after_a_read_that_succeeded() {
    let update = RegisterUpdate { address: 0x5A, register: Register::CONFIG_P0, bit: 0x40, set: true };
    assert_eq!(
        update.after_read::<&str>(Ok(0x01)),
        Ok(Transfer::Write { address: 0x5A, bytes: vec![0x04, 0x41] })
    );
    assert_eq!(update.after_read(Err("nak")), Err("nak"));
}

#[test]
fn snapshot_is_read_with_one_transfer_for_each_chip() {
    let expected = vec![
        Transfer::WriteRead { address: 0x58, bytes: vec![0x00, 0x01], len: 2 },
        Transfer::WriteRead { address: 0x59, bytes: vec![0x00, 0x01], len: 2 },
        Transfer::WriteRead { address: 0x5A, bytes: vec![0x00, 0x01], len: 2 },
    ];
    assert_eq!(InputRegisters::read_requests(), expected);
    assert_eq!(PinControl::new().input_register_requests(), expected);
}

#[test]
fn snapshot_finds_each_pin_in_its_byte() {
    let pins = PinControl::new().pins();
    let regs = InputRegisters::read([[0x01, 0x02], [0x04, 0x08], [0x10, 0x20]]);
    assert!(regs.pin_state(&pins.hexpansion_d.ls_5));
    assert!(!regs.pin_state(&pins.other.accel_int));
    assert!(regs.pin_state(&pins.hexpansion_d.ls_2));
    assert!(!regs.pin_state(&pins.hexpansion_d.ls_1));
    assert!(regs.pin_state(&pins.button.btn5));
    assert!(!regs.pin_state(&pins.button.btn4));
    assert!(regs.pin_state(&pins.hexpansion_detect.f));
    assert!(!regs.pin_state(&pins.hexpansion_detect.e));
    assert!(regs.pin_state(&pins.other.vbus_sw));
    assert!(!regs.pin_state(&pins.other.usb_select));
    assert!(regs.pin_state(&pins.hexpansion_detect.b));
    assert!(!regs.pin_state(&pins.hexpansion_detect.a));
    assert_eq!(regs, PinControl::new().read_input_registers([[0x01, 0x02], [0x04, 0x08], [0x10, 0x20]]));
}

#[test]
fn bring_up_identifies_and_quiets_each_chip() {
    let transfers = PinControl::new().init();
    let mut expected = Vec::new();
    for address in [0x58, 0x59, 0x5A] {
        expected.push(Transfer::WriteRead { address, bytes: vec![0x10], len: 1 });
        expected.push(Transfer::Write { address, bytes: vec![0x11, 0b0001_0000] });
        expected.push(Transfer::Write { address, bytes: vec![0x06, 0xFF] });
        expected.push(Transfer::Write { address, bytes: vec![0x07, 0xFF] });
    }
    assert_eq!(transfers, expected);
}

#[test]
fn reset_writes_zero_to_each_reset_register() {
    assert_eq!(
        PinControl::new().reset(),
        vec![
            Transfer::Write { address: 0x58, bytes: vec![0x7F, 0] },
            Transfer::Write { address: 0x59, bytes: vec![0x7F, 0] },
            Transfer::Write { address: 0x5A, bytes: vec![0x7F, 0] },
        ]
    );
}

#[test]
fn fraction_is_formed_without_overflow() {
    assert_eq!(fraction_of(255, 1, 4), 63);
    assert_eq!(fraction_of(255, 3, 4), 191);
    assert_eq!(fraction_of(65535, 65535, 65535), 65535);
    assert_eq!(fraction_of(65535, 65534, 65535), 65534);
    assert_eq!(fraction_of(65535, 1, 65535), 1);
    assert_eq!(fraction_of(1000, 1, 3), 333);
    assert_eq!(fraction_of(0, 1, 1), 0);
}
