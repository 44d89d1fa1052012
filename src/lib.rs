//! A heartbeat for a microcontroller board: exclusive ownership of physical
//! pins, a fixed LED blink pattern, and a counted status line per iteration.
//!
//! Hardware effects are not performed here. Every operation that would touch
//! the board appends a [`PortCommand`] to a [`Port`]; the firmware drains the
//! port and carries the commands out in order.

pub mod blink;
pub mod heartbeat;
pub mod pins;
pub mod port;

pub use blink::{blink_safe, blink_unsafe, BLINK_COUNT, BLINK_HALF_PERIOD_MS};
pub use heartbeat::{Heartbeat, IterationOutcome, SerialError, LOOP_DELAY_MS};
pub use pins::{PinError, PinHandle, PinRegistry, Startup, LED_PIN, PIN_COUNT};
pub use port::{Port, PortCommand};
