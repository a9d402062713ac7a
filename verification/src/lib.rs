//! The rules behind `keyroostctl`: which device a command acts on, what it may
//! do to that device, in which order, and what it reports back.
//!
//! Everything here is a function from plain values to plain values. Talking to
//! a reader, a HID node, a socket or the terminal is left to the program
//! around the library.

pub mod agent;
pub mod args;
pub mod blob;
pub mod device;
pub mod factory_reset;
pub mod fido;
pub mod fido_report;
pub mod hashes;
pub mod host;
pub mod json_out;
pub mod molto;
pub mod molto_report;
pub mod oath;
pub mod openpgp;
pub mod otp;
pub mod otp_report;
pub mod overview;
pub mod pem;
pub mod pick;
pub mod piv;
pub mod piv_report;
pub mod plan;
pub mod probe;
pub mod prog;
pub mod render;
pub mod sanitize;
pub mod secrets;
pub mod select;
pub mod text;

