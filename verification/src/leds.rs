//! The addressable LEDs of the badge: which pixel is where, and what colours
//! go out to the strip.

use crate::hexpansion_slots::HexpansionSlot;
use crate::pins::assignment::LedPins;
use crate::pins::aw9523b::RegisterUpdate;
use crate::pins::digital::{OutputPin as DrivePin, PinState};
use crate::pins::output::OutputPin;
use crate::pins::pin::{Identity, PinExt};
use vstd::prelude::*;

verus! {

/// Number of pixels on the strip.
pub const LED_COUNT: usize = 19;

/// One of the pixels of the strip.
#[derive(Debug, Clone, Copy, PartialEq, Eq, Structural)]
pub enum Pixel {
    BaseBoard,
    Front1,
    Front2,
    Front3,
    Front4,
    Front5,
    Front6,
    Front7,
    Front8,
    Front9,
    Front10,
    Front11,
    Front12,
    HexpansionA,
    HexpansionB,
    HexpansionC,
    HexpansionD,
    HexpansionE,
    HexpansionF,
}

impl Pixel {
    /// Place of the pixel on the strip, counted from 0.
    pub open spec fn spec_index(self) -> int {
        match self {
            Pixel::BaseBoard => 0,
            Pixel::Front1 => 1,
            Pixel::Front2 => 2,
            Pixel::Front3 => 3,
            Pixel::Front4 => 4,
            Pixel::Front5 => 5,
            Pixel::Front6 => 6,
            Pixel::Front7 => 7,
            Pixel::Front8 => 8,
            Pixel::Front9 => 9,
            Pixel::Front10 => 10,
            Pixel::Front11 => 11,
            Pixel::Front12 => 12,
            Pixel::HexpansionA => 13,
            Pixel::HexpansionB => 14,
            Pixel::HexpansionC => 15,
            Pixel::HexpansionD => 16,
            Pixel::HexpansionE => 17,
            Pixel::HexpansionF => 18,
        }
    }

    /// The pixel that lights hexpansion slot `slot`.
    pub open spec fn spec_of_slot(slot: HexpansionSlot) -> Pixel {
        match slot {
            HexpansionSlot::A => Pixel::HexpansionA,
            HexpansionSlot::B => Pixel::HexpansionB,
            HexpansionSlot::C => Pixel::HexpansionC,
            HexpansionSlot::D => Pixel::HexpansionD,
            HexpansionSlot::E => Pixel::HexpansionE,
            HexpansionSlot::F => Pixel::HexpansionF,
        }
    }

    /// Place of the pixel on the strip, counted from 0.
    pub fn index(self) -> (index: usize)
        ensures
            index == self.spec_index(),
            index < LED_COUNT,
    {
        match self {
            Pixel::BaseBoard => 0,
            Pixel::Front1 => 1,
            Pixel::Front2 => 2,
            Pixel::Front3 => 3,
            Pixel::Front4 => 4,
            Pixel::Front5 => 5,
            Pixel::Front6 => 6,
            Pixel::Front7 => 7,
            Pixel::Front8 => 8,
            Pixel::Front9 => 9,
            Pixel::Front10 => 10,
            Pixel::Front11 => 11,
            Pixel::Front12 => 12,
            Pixel::HexpansionA => 13,
            Pixel::HexpansionB => 14,
            Pixel::HexpansionC => 15,
            Pixel::HexpansionD => 16,
            Pixel::HexpansionE => 17,
            Pixel::HexpansionF => 18,
        }
    }

    /// The pixel that lights hexpansion slot `slot`.
    pub fn of_slot(slot: HexpansionSlot) -> (pixel: Pixel)
        ensures
            pixel == Self::spec_of_slot(slot),
            pixel.spec_index() == 13 + slot.spec_index(),
    {
        match slot {
            HexpansionSlot::A => Pixel::HexpansionA,
            HexpansionSlot::B => Pixel::HexpansionB,
            HexpansionSlot::C => Pixel::HexpansionC,
            HexpansionSlot::D => Pixel::HexpansionD,
            HexpansionSlot::E => Pixel::HexpansionE,
            HexpansionSlot::F => Pixel::HexpansionF,
        }
    }
}

/// A colour: eight bits each of red, green and blue.
#[derive(Debug, Default, Clone, Copy, PartialEq, Eq, Structural)]
pub struct RGB8 {
    pub r: u8,
    pub g: u8,
    pub b: u8,
}

/// The gamma-corrected value of a channel, as `smart_leds::gamma` corrects
/// it.
pub uninterp spec fn gamma8(value: u8) -> u8;

/// The gamma correction of a colour, channel by channel.
pub open spec fn gamma_of(colour: RGB8) -> RGB8 {
    RGB8 { r: gamma8(colour.r), g: gamma8(colour.g), b: gamma8(colour.b) }
}

/// A channel dimmed to `brightness`: 255 leaves it as it is, 0 switches it
/// off.
pub open spec fn dimmed8(value: u8, brightness: u8) -> u8 {
    (value as int * (brightness as int + 1) / 256) as u8
}

/// A colour dimmed to `brightness`, channel by channel.
pub open spec fn dimmed(colour: RGB8, brightness: u8) -> RGB8 {
    RGB8 {
        r: dimmed8(colour.r, brightness),
        g: dimmed8(colour.g, brightness),
        b: dimmed8(colour.b, brightness),
    }
}

/// Corrects colours by `smart_leds::gamma`, which maps every channel of
/// every colour through one fixed table. The table is not stated here:
/// `gamma8` stands for it.
#[verifier::external_body]
fn gamma(colours: &[RGB8; 19]) -> (corrected: Vec<RGB8>)
    ensures
        corrected@ == Seq::new(
            19,
            |i: int|
                (RGB8 {
                    r: gamma8(colours[i].r),
                    g: gamma8(colours[i].g),
                    b: gamma8(colours[i].b),
                }),
        ),
{
    smart_leds::gamma(colours.iter().map(|c| smart_leds::RGB8 { r: c.r, g: c.g, b: c.b }))
        .map(|c| RGB8 { r: c.r, g: c.g, b: c.b })
        .collect()
}

/// Dims colours by `smart_leds::brightness`, which multiplies every channel
/// by `level + 1` and drops the low eight bits of the product.
#[verifier::external_body]
fn brightness(colours: &Vec<RGB8>, level: u8) -> (dim: Vec<RGB8>)
    ensures
        dim@ == Seq::new(colours@.len(), |i: int| dimmed(colours@[i], level)),
{
    smart_leds::brightness(
        colours.iter().map(|c| smart_leds::RGB8 { r: c.r, g: c.g, b: c.b }),
        level,
    )
        .map(|c| RGB8 { r: c.r, g: c.g, b: c.b })
        .collect()
}

/// `<[T]>::index_mut` of the standard library with a range: the part of
/// `pixels` from `start` up to `end`, and nothing else of `pixels`, can be
/// changed through the result.
#[verifier::external_body]
fn part_mut(pixels: &mut [RGB8; 19], start: usize, end: usize) -> (part: &mut [RGB8])
    requires
        start <= end <= 19,
    ensures
        part@ == old(pixels)@.subrange(start as int, end as int),
        final(part)@.len() == end - start,
        final(pixels)@ == old(pixels)@.subrange(0, start as int) + final(part)@ + old(
            pixels,
        )@.subrange(end as int, 19),
{
    &mut pixels[start..end]
}

/// The pixels of the badge and the switch of their supply.
#[derive(Debug)]
pub struct Leds {
    led_power: OutputPin,
    /// Brightness that the colours are dimmed to when they go out.
    pub intensity: u8,
    /// The colour of every pixel, in the order of the strip.
    pub pixels: [RGB8; LED_COUNT],
}

impl Leds {
    /// The pin that switches the supply of the strip.
    pub closed spec fn power_pin(&self) -> Identity {
        self.led_power.identity()
    }

    /// The brightness, as the field `intensity` holds it.
    pub closed spec fn spec_intensity(&self) -> u8 {
        self.intensity
    }

    /// The colours of the nineteen pixels, as the field `pixels` holds them.
    pub closed spec fn spec_pixels(&self) -> Seq<RGB8> {
        self.pixels@
    }

    /// Plans the bring-up of the LEDs: the pin that switches their supply
    /// becomes an output.
    pub fn setup(pins: &LedPins) -> (updates: Vec<RegisterUpdate>)
        ensures
            updates@ == OutputPin::spec_setup(pins.power_enable.identity()),
    {
        OutputPin::setup(&pins.power_enable)
    }

    /// Makes the LEDs, given the outcome of performing [`Leds::setup`]:
    /// every pixel black, the brightness at its maximum. A failed setup is
    /// handed back unchanged.
    pub fn try_new<E>(pins: LedPins, setup: Result<(), E>) -> (leds: Result<Self, E>)
        ensures
            setup is Ok ==> leds is Ok && leds->Ok_0.spec_intensity() == 255
                && leds->Ok_0.spec_pixels() == Seq::new(19, |i: int| (RGB8 { r: 0, g: 0, b: 0 }))
                && leds->Ok_0.power_pin() == pins.power_enable.identity(),
            setup is Err ==> leds is Err && leds->Err_0 == setup->Err_0,
    {
        match pins.power_enable.into_output(setup) {
            Ok(led_power) => {
                let leds = Self {
                    led_power,
                    intensity: 255,
                    pixels: [RGB8 { r: 0, g: 0, b: 0 }; 19],
                };
                assert(leds.spec_pixels() =~= Seq::new(19, |i: int| RGB8 { r: 0, g: 0, b: 0 }));
                Ok(leds)
            },
            Err(error) => Err(error),
        }
    }

    /// Plans switching the supply of the strip on or off.
    pub fn set_power(&self, on: bool) -> (update: RegisterUpdate)
        ensures
            update == crate::pins::aw9523b::io_state_update(
                self.power_pin(),
                if on {
                    PinState::High
                } else {
                    PinState::Low
                },
            ),
    {
        self.led_power.set_state(
            match on {
                true => PinState::High,
                false => PinState::Low,
            },
        )
    }

    /// The colours to send to the strip: every pixel gamma-corrected, then
    /// dimmed to the brightness.
    pub fn write(&self) -> (colours: Vec<RGB8>)
        ensures
            colours@ == Seq::new(
                19,
                |i: int| dimmed(gamma_of(self.spec_pixels()[i]), self.spec_intensity()),
            ),
    {
        let corrected = gamma(&self.pixels);
        let colours = brightness(&corrected, self.intensity);
        assert(colours@ =~= Seq::new(
            19,
            |i: int| dimmed(gamma_of(self.spec_pixels()[i]), self.spec_intensity()),
        ));
        colours
    }

    /// The pixel of the main board.
    pub fn main_board_pixel(&mut self) -> (pixel: &mut RGB8)
        ensures
            *pixel == old(self).spec_pixels()[0],
            final(self).spec_pixels() == old(self).spec_pixels().update(0, *final(pixel)),
            final(self).spec_intensity() == old(self).spec_intensity(),
            final(self).power_pin() == old(self).power_pin(),
    {
        &mut self.pixels[0]
    }

    /// The pixel that lights hexpansion slot `hex`.
    pub fn hexpansion_pixel(&mut self, hex: HexpansionSlot) -> (pixel: &mut RGB8)
        ensures
            *pixel == old(self).spec_pixels()[13 + hex.spec_index()],
            final(self).spec_pixels() == old(self).spec_pixels().update(
                13 + hex.spec_index(),
                *final(pixel),
            ),
            final(self).spec_intensity() == old(self).spec_intensity(),
            final(self).power_pin() == old(self).power_pin(),
    {
        let index: usize = Pixel::of_slot(hex).index();
        &mut self.pixels[index]
    }

    /// The six pixels that light the hexpansion slots, slot A first.
    pub fn hexpansion_pixels(&mut self) -> (pixels: &mut [RGB8])
        ensures
            pixels@ == old(self).spec_pixels().subrange(13, 19),
            final(pixels)@.len() == 6,
            final(self).spec_pixels() == old(self).spec_pixels().subrange(0, 13) + final(pixels)@,
            final(self).spec_intensity() == old(self).spec_intensity(),
            final(self).power_pin() == old(self).power_pin(),
    {
        part_mut(&mut self.pixels, 13, 19)
    }

    /// The twelve pixels of the front, in the order of the strip.
    pub fn front_pixels(&mut self) -> (pixels: &mut [RGB8])
        ensures
            pixels@ == old(self).spec_pixels().subrange(1, 13),
            final(pixels)@.len() == 12,
            final(self).spec_pixels() == old(self).spec_pixels().subrange(0, 1) + final(pixels)@
                + old(self).spec_pixels().subrange(13, 19),
            final(self).spec_intensity() == old(self).spec_intensity(),
            final(self).power_pin() == old(self).power_pin(),
    {
        part_mut(&mut self.pixels, 1, 13)
    }
}

} // verus!
