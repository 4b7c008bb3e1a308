//! Driver core for the HC-12 half-duplex UART radio transceiver.
//!
//! The module is configured through an ASCII AT-command protocol and switches
//! between a transparent (Normal) mode, a command (Configuration) mode and a
//! low-power (Sleep) mode via a dedicated mode-select pin.  This crate holds
//! the protocol state machine and codec: the parameter domain model with its
//! cross-field validity rules, the command and query encoders, the response
//! decoder, and the mode-transition state machine.

use vstd::prelude::*;

pub mod baudrate;
pub mod channel;
pub mod command;
pub mod hc12;
pub mod mode;
pub mod parameters;
pub mod query;
pub mod response_parser;
pub mod transmission_power;
pub mod wire;

verus! {

/// Crate-level error type.
#[derive(Clone, Copy, Debug, PartialEq, Eq, Structural)]
pub enum Error {
    /// Read error on the underlying transport.
    Read,
    /// Write error on the underlying transport.
    Write,
    /// The requested serial baud rate is not legal in the current mode.
    InvalidBaudRate,
    /// The requested channel number is outside [1, 127].
    InvalidChannel(u8),
    /// The operation is not specified for the current mode.
    UnsupportedMode,
}

} // verus!
