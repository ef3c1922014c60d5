//! Core logic of a one-button wireless media remote.
//!
//! The crate verifies the pieces of the firmware that decide rather than
//! perform I/O: the input debouncer, the attribute read/write accessors and
//! their dispatch table, the keypress notifier's press/clear protocol, and
//! the session controller that carries the bonding key from one
//! advertise-to-disconnect cycle to the next.  A link-layer or GPIO binding
//! drives these state machines from outside: it performs each requested
//! action and hands the outcome back.

pub mod debounce;
pub mod hid;
pub mod attributes;
pub mod hid_descriptor;
pub mod led;
pub mod session;
