//! Polling scheduler and response decoding for an OBD-II diagnostic link
//! carried over a CAN bus.
//!
//! The [`obd`] modules hold the protocol: the registry of the parameters
//! that are read, the frame that asks for one, and the decoder that reads
//! an answer into the snapshot of [`vehicle`]. The [`scheduler`] decides,
//! cycle by cycle, what to ask for and how long to wait. What leaves the
//! library goes through [`publish`] and [`display`], and the change
//! [`gate`] keeps values that did not change from being sent again.
//!
//! The library does no input or output. It takes frames and times as plain
//! values and gives back what to send, what to show and what to publish.

pub mod config;
pub mod constants;
pub mod display;
pub mod gate;
pub mod obd;
pub mod publish;
pub mod scheduler;
pub mod value;
pub mod vehicle;
