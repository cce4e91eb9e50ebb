//! The three GPIO expanders: register map, typed pin identities, capability
//! handles and the input register snapshot.

pub mod assignment;
pub mod aw9523b;
pub mod control;
pub mod digital;
pub mod input;
pub mod input_registers;
pub mod led;
pub mod output;
pub mod pin;
pub mod pwm;

pub use self::assignment::{
    ButtonPins, HexpansionAPins, HexpansionBPins, HexpansionCPins, HexpansionDPins,
    HexpansionDetectPins, HexpansionEPins, HexpansionFPins, LedPins, OtherPins, Pins,
    TopBoardPins,
};
pub use self::control::PinControl;
pub use self::input::InputPin;
pub use self::input_registers::InputRegisters;
pub use self::led::LedPin;
pub use self::output::OutputPin;
