//! Control plane of the Tildagon badge, written without any I/O of its own.
//!
//! Everything the badge does over its two-wire bus is computed here as plain
//! values: which transfers to issue, in which order, and what the bytes that
//! come back mean. The surrounding firmware performs the transfers and feeds
//! the replies back in.
//!
//! - [`i2c`]: transfers as data, the bus multiplexer and its channels.
//! - [`pins`]: the GPIO expanders, pin identities, capability handles and the
//!   snapshot of the input registers.
//! - [`buttons`] and [`hexpansion_slots`]: the two state machines that turn
//!   snapshots into events.
//! - [`leds`] and [`imu`]: the pixel buffer and the framing of the motion
//!   sensor's registers.
//! - [`time`]: instants and durations in clock ticks.
//! - [`bounded`]: the fixed-capacity vectors that carry events.

pub mod bounded;
pub mod buttons;
pub mod hexpansion_slots;
pub mod i2c;
pub mod imu;
pub mod leds;
pub mod pins;
pub mod time;
