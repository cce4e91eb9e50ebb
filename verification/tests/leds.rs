use tildagon::hexpansion_slots::HexpansionSlot;
use tildagon::leds::{Leds, Pixel, LED_COUNT, RGB8};
use tildagon::pins::aw9523b::{Register, RegisterUpdate};
use tildagon::pins::PinControl;

fn leds() -> Leds {
    let pins = PinControl::new().pins();
    Leds::try_new::<()>(pins.led, Ok(())).unwrap()
}

fn rgb(r: u8, g: u8, b: u8) -> RGB8 {
    RGB8 { r, g, b }
}

#[test]
fn new_leds_are_black_at_full_brightness() {
    let leds = leds();
    assert_eq!(leds.intensity, 255);
    assert_eq!(leds.pixels, [rgb(0, 0, 0); LED_COUNT]);
    assert_eq!(leds.write(), vec![rgb(0, 0, 0); 19]);
}

#[test]
fn led_supply_is_switched_by_its_own_pin() {
    let pins = PinControl::new().pins();
    assert_eq!(
        Leds::setup(&pins.led),
        vec![
            RegisterUpdate { address: 0x5A, register: Register::LEDMS_P0, bit: 0x04, set: true },
            RegisterUpdate { address: 0x5A, register: Register::CONFIG_P0, bit: 0x04, set: false },
        ]
    );
    let leds = Leds::try_new::<()>(pins.led, Ok(())).unwrap();
    assert_eq!(
        leds.set_power(true),
        RegisterUpdate { address: 0x5A, register: Register::OUTPUT_P0, bit: 0x04, set: true }
    );
    assert_eq!(
        leds.set_power(false),
        RegisterUpdate { address: 0x5A, register: Register::OUTPUT_P0, bit: 0x04, set: false }
    );
}

#[test]
fn failed_setup_makes_no_leds() {
    let pins = PinControl::new().pins();
    assert_eq!(Leds::try_new(pins.led, Err(-3_i32)).unwrap_err(), -3);
}

#[test]
fn pixels_are_laid_out_along_the_strip() {
    assert_eq!(Pixel::BaseBoard.index(), 0);
    assert_eq!(Pixel::Front1.index(), 1);
    assert_eq!(Pixel::Front12.index(), 12);
    assert_eq!(Pixel::HexpansionA.index(), 13);
    assert_eq!(Pixel::HexpansionF.index(), 18);
    assert_eq!(Pixel::of_slot(HexpansionSlot::A), Pixel::HexpansionA);
    assert_eq!(Pixel::of_slot(HexpansionSlot::B), Pixel::HexpansionB);
    assert_eq!(Pixel::of_slot(HexpansionSlot::C), Pixel::HexpansionC);
    assert_eq!(Pixel::of_slot(HexpansionSlot::D), Pixel::HexpansionD);
    assert_eq!(Pixel::of_slot(HexpansionSlot::E), Pixel::HexpansionE);
    assert_eq!(Pixel::of_slot(HexpansionSlot::F), Pixel::HexpansionF);
}

#[test]
fn pixel_accessors_reach_their_part_of_the_strip() {
    let mut leds = leds();
    *leds.main_board_pixel() = rgb(1, 1, 1);
    *leds.hexpansion_pixel(HexpansionSlot::A) = rgb(2, 2, 2);
    *leds.hexpansion_pixel(HexpansionSlot::F) = rgb(3, 3, 3);
    assert_eq!(leds.pixels[0], rgb(1, 1, 1));
    assert_eq!(leds.pixels[13], rgb(2, 2, 2));
    assert_eq!(leds.pixels[18], rgb(3, 3, 3));

    assert_eq!(leds.front_pixels().len(), 12);
    for pixel in leds.front_pixels().iter_mut() {
        *pixel = rgb(4, 4, 4);
    }
    assert_eq!(leds.pixels[0], rgb(1, 1, 1));
    for index in 1..13 {
        assert_eq!(leds.pixels[index], rgb(4, 4, 4));
    }
    assert_eq!(leds.pixels[13], rgb(2, 2, 2));

    assert_eq!(leds.hexpansion_pixels().len(), 6);
    leds.hexpansion_pixels()[2] = rgb(5, 5, 5);
    assert_eq!(leds.pixels[15], rgb(5, 5, 5));
    assert_eq!(leds.pixels[12], rgb(4, 4, 4));
}

#[test]
fn colours_are_gamma_corrected_on_the_way_out() {
    let mut leds = leds();
    leds.pixels[0] = rgb(255, 127, 0);
    leds.pixels[7] = rgb(28, 128, 200);
    leds.pixels[18] = rgb(64, 100, 254);
    let colours = leds.write();
    assert_eq!(colours.len(), 19);
    assert_eq!(colours[0], rgb(255, 36, 0));
    assert_eq!(colours[7], rgb(1, 37, 129));
    assert_eq!(colours[18], rgb(5, 19, 252));
    assert_eq!(colours[1], rgb(0, 0, 0));
    assert_eq!(leds.pixels[0], rgb(255, 127, 0));
}

#[test]
fn colours_are_dimmed_after_gamma_correction() {
    let mut leds = leds();
    leds.pixels[3] = rgb(255, 127, 200);
    leds.intensity = 127;
    assert_eq!(leds.write()[3], rgb(127, 18, 64));
    leds.intensity = 0;
    assert_eq!(leds.write()[3], rgb(0, 0, 0));
    leds.intensity = 63;
    assert_eq!(leds.write()[3], rgb(63, 9, 32));
}
