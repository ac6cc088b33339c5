//! Driver core for a PN532 contactless-card reader spoken to over an
//! I2C-style byte bus.
//!
//! The crate is organised in three layers:
//!
//! * [`codec`] builds outbound command frames and validates inbound
//!   response and acknowledgement frames. It is pure: no I/O.
//! * [`pn532`] is the protocol driver, written as an explicit state
//!   machine. Each call returns the next bus action (write, read, or
//!   sleep); the embedding program performs the action and reports what
//!   happened. All protocol decisions, checksum validation, timeout
//!   accounting, and UID extraction are made here and are verified.
//! * [`reader`] is the capability abstraction: the error taxonomy and
//!   the `Reader` interface that concrete reader backends implement.
//!   [`rdm6300`] is the stub backend for a second reader technology.

pub mod codec;
pub mod pn532;
pub mod rdm6300;
pub mod reader;
