//! Serial port communication and handling.

pub mod client;
pub mod ledger;
pub mod port;
pub mod server;

use vstd::prelude::*;

verus! {

/// The message type used in channels related to the serial port.
pub type Data = Vec<u8>;

/// The state of the serial device connection.
#[derive(Clone, Copy, Debug, PartialEq, Eq, Structural)]
pub enum DeviceState {
    /// The connection is active.
    Connnected,
    /// The connection is not active.
    NotConnected,
}

} // verus!
