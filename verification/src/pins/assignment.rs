//! The pin assignment of the badge: which pin of which chip serves what.
//!
//! The assignment is fixed by the board. Each field has a type of its own,
//! so a pin cannot be passed where another is meant.

use crate::pins::pin::{Identity, Pin, PinExt, PORT0, PORT1};
use vstd::prelude::*;

verus! {

/// Every pin of the three expanders, grouped by what it serves.
#[derive(Debug)]
pub struct Pins {
    pub other: OtherPins,
    pub led: LedPins,
    pub top_board: TopBoardPins,
    pub hexpansion_detect: HexpansionDetectPins,
    pub button: ButtonPins,
    pub hexpansion_a: HexpansionAPins,
    pub hexpansion_b: HexpansionBPins,
    pub hexpansion_c: HexpansionCPins,
    pub hexpansion_d: HexpansionDPins,
    pub hexpansion_e: HexpansionEPins,
    pub hexpansion_f: HexpansionFPins,
}

/// Power switching, USB routing and the motion sensor's interrupt line.
#[derive(Debug)]
pub struct OtherPins {
    pub vbus_sw: Pin<0x5A, PORT0, 4>,
    pub usb_select: Pin<0x5A, PORT0, 5>,
    pub accel_int: Pin<0x58, PORT0, 1>,
}

/// Supply of the addressable LEDs.
#[derive(Debug)]
pub struct LedPins {
    pub power_enable: Pin<0x5A, PORT0, 2>,
}

/// Low-speed lines of the top board.
#[derive(Debug)]
pub struct TopBoardPins {
    pub ls_1: Pin<0x5A, PORT1, 7>,
    pub ls_2: Pin<0x5A, PORT1, 6>,
}

/// Detect lines of the six hexpansion slots.
#[derive(Debug)]
pub struct HexpansionDetectPins {
    pub a: Pin<0x5A, PORT1, 4>,
    pub b: Pin<0x5A, PORT1, 5>,
    pub c: Pin<0x59, PORT1, 0>,
    pub d: Pin<0x59, PORT1, 1>,
    pub e: Pin<0x59, PORT1, 2>,
    pub f: Pin<0x59, PORT1, 3>,
}

/// The six buttons of the top board.
#[derive(Debug)]
pub struct ButtonPins {
    pub btn1: Pin<0x5A, PORT0, 6>,
    pub btn2: Pin<0x5A, PORT0, 7>,
    pub btn3: Pin<0x59, PORT0, 0>,
    pub btn4: Pin<0x59, PORT0, 1>,
    pub btn5: Pin<0x59, PORT0, 2>,
    pub btn6: Pin<0x59, PORT0, 3>,
}

/// Low-speed lines of hexpansion slot A.
#[derive(Debug)]
pub struct HexpansionAPins {
    pub ls_1: Pin<0x5A, PORT0, 3>,
    pub ls_2: Pin<0x5A, PORT1, 0>,
    pub ls_3: Pin<0x5A, PORT1, 1>,
    pub ls_4: Pin<0x5A, PORT1, 2>,
    pub ls_5: Pin<0x5A, PORT1, 3>,
}

/// Low-speed lines of hexpansion slot B.
#[derive(Debug)]
pub struct HexpansionBPins {
    pub ls_1: Pin<0x5A, PORT0, 0>,
    pub ls_2: Pin<0x5A, PORT0, 1>,
    pub ls_3: Pin<0x59, PORT1, 5>,
    pub ls_4: Pin<0x59, PORT1, 6>,
    pub ls_5: Pin<0x59, PORT1, 7>,
}

/// Low-speed lines of hexpansion slot C.
#[derive(Debug)]
pub struct HexpansionCPins {
    pub ls_1: Pin<0x59, PORT0, 4>,
    pub ls_2: Pin<0x59, PORT0, 5>,
    pub ls_3: Pin<0x59, PORT0, 6>,
    pub ls_4: Pin<0x59, PORT0, 7>,
    pub ls_5: Pin<0x59, PORT1, 4>,
}

/// Low-speed lines of hexpansion slot D.
#[derive(Debug)]
pub struct HexpansionDPins {
    pub ls_1: Pin<0x58, PORT1, 0>,
    pub ls_2: Pin<0x58, PORT1, 1>,
    pub ls_3: Pin<0x58, PORT1, 2>,
    pub ls_4: Pin<0x58, PORT1, 3>,
    pub ls_5: Pin<0x58, PORT0, 0>,
}

/// Low-speed lines of hexpansion slot E.
#[derive(Debug)]
pub struct HexpansionEPins {
    pub ls_1: Pin<0x58, PORT0, 2>,
    pub ls_2: Pin<0x58, PORT0, 3>,
    pub ls_3: Pin<0x58, PORT0, 4>,
    pub ls_4: Pin<0x58, PORT0, 5>,
    pub ls_5: Pin<0x58, PORT0, 6>,
}

/// Low-speed lines of hexpansion slot F.
#[derive(Debug)]
pub struct HexpansionFPins {
    pub ls_1: Pin<0x58, PORT0, 7>,
    pub ls_2: Pin<0x58, PORT1, 4>,
    pub ls_3: Pin<0x58, PORT1, 5>,
    pub ls_4: Pin<0x58, PORT1, 6>,
    pub ls_5: Pin<0x58, PORT1, 7>,
}

impl Pins {
    /// Makes the one value of every pin.
    pub(crate) fn new() -> (pins: Self) {
        Self {
            other: OtherPins { vbus_sw: Pin::new(), usb_select: Pin::new(), accel_int: Pin::new() },
            led: LedPins { power_enable: Pin::new() },
            top_board: TopBoardPins { ls_1: Pin::new(), ls_2: Pin::new() },
            hexpansion_detect: HexpansionDetectPins {
                a: Pin::new(),
                b: Pin::new(),
                c: Pin::new(),
                d: Pin::new(),
                e: Pin::new(),
                f: Pin::new(),
            },
            button: ButtonPins {
                btn1: Pin::new(),
                btn2: Pin::new(),
                btn3: Pin::new(),
                btn4: Pin::new(),
                btn5: Pin::new(),
                btn6: Pin::new(),
            },
            hexpansion_a: HexpansionAPins {
                ls_1: Pin::new(),
                ls_2: Pin::new(),
                ls_3: Pin::new(),
                ls_4: Pin::new(),
                ls_5: Pin::new(),
            },
            hexpansion_b: HexpansionBPins {
                ls_1: Pin::new(),
                ls_2: Pin::new(),
                ls_3: Pin::new(),
                ls_4: Pin::new(),
                ls_5: Pin::new(),
            },
            hexpansion_c: HexpansionCPins {
                ls_1: Pin::new(),
                ls_2: Pin::new(),
                ls_3: Pin::new(),
                ls_4: Pin::new(),
                ls_5: Pin::new(),
            },
            hexpansion_d: HexpansionDPins {
                ls_1: Pin::new(),
                ls_2: Pin::new(),
                ls_3: Pin::new(),
                ls_4: Pin::new(),
                ls_5: Pin::new(),
            },
            hexpansion_e: HexpansionEPins {
                ls_1: Pin::new(),
                ls_2: Pin::new(),
                ls_3: Pin::new(),
                ls_4: Pin::new(),
                ls_5: Pin::new(),
            },
            hexpansion_f: HexpansionFPins {
                ls_1: Pin::new(),
                ls_2: Pin::new(),
                ls_3: Pin::new(),
                ls_4: Pin::new(),
                ls_5: Pin::new(),
            },
        }
    }
}

impl Pins {
    /// The pins of the assignment, in the order of its fields.
    pub open spec fn identities(&self) -> Seq<Identity> {
        seq![
            self.other.vbus_sw.identity(),
            self.other.usb_select.identity(),
            self.other.accel_int.identity(),
            self.led.power_enable.identity(),
            self.top_board.ls_1.identity(),
            self.top_board.ls_2.identity(),
            self.hexpansion_detect.a.identity(),
            self.hexpansion_detect.b.identity(),
            self.hexpansion_detect.c.identity(),
            self.hexpansion_detect.d.identity(),
            self.hexpansion_detect.e.identity(),
            self.hexpansion_detect.f.identity(),
            self.button.btn1.identity(),
            self.button.btn2.identity(),
            self.button.btn3.identity(),
            self.button.btn4.identity(),
            self.button.btn5.identity(),
            self.button.btn6.identity(),
            self.hexpansion_a.ls_1.identity(),
            self.hexpansion_a.ls_2.identity(),
            self.hexpansion_a.ls_3.identity(),
            self.hexpansion_a.ls_4.identity(),
            self.hexpansion_a.ls_5.identity(),
            self.hexpansion_b.ls_1.identity(),
            self.hexpansion_b.ls_2.identity(),
            self.hexpansion_b.ls_3.identity(),
            self.hexpansion_b.ls_4.identity(),
            self.hexpansion_b.ls_5.identity(),
            self.hexpansion_c.ls_1.identity(),
            self.hexpansion_c.ls_2.identity(),
            self.hexpansion_c.ls_3.identity(),
            self.hexpansion_c.ls_4.identity(),
            self.hexpansion_c.ls_5.identity(),
            self.hexpansion_d.ls_1.identity(),
            self.hexpansion_d.ls_2.identity(),
            self.hexpansion_d.ls_3.identity(),
            self.hexpansion_d.ls_4.identity(),
            self.hexpansion_d.ls_5.identity(),
            self.hexpansion_e.ls_1.identity(),
            self.hexpansion_e.ls_2.identity(),
            self.hexpansion_e.ls_3.identity(),
            self.hexpansion_e.ls_4.identity(),
            self.hexpansion_e.ls_5.identity(),
            self.hexpansion_f.ls_1.identity(),
            self.hexpansion_f.ls_2.identity(),
            self.hexpansion_f.ls_3.identity(),
            self.hexpansion_f.ls_4.identity(),
            self.hexpansion_f.ls_5.identity(),
        ]
    }
}

/// The assignment names every pin of the three chips, and none twice: a pin
/// has one owner.
pub proof fn lemma_every_pin_once(pins: Pins)
    ensures
        pins.identities().len() == 48,
        forall|i: int| 0 <= i < 48 ==> (#[trigger] pins.identities()[i]).valid(),
        forall|i: int, j: int|
            0 <= i < j < 48 ==> #[trigger] pins.identities()[i] != #[trigger] pins.identities()[j],
        forall|pin: Identity|
            pin.valid() ==> exists|i: int| 0 <= i < 48 && #[trigger] pins.identities()[i] == pin,
{
}

} // verus!
