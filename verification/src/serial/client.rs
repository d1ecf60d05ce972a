//! A client for serial port communication.

use futures_channel::mpsc::{UnboundedReceiver, UnboundedSender};
use tokio::sync::watch::Receiver;
use vstd::prelude::*;

use super::{Data, DeviceState};

verus! {

/// A client of the serial port connection that allows sending data to be written and receiving
/// responses back.
///
/// A single client is provided when the serial port is first opened, and it should be passed around
/// as needed.
pub struct Client {
    /// A sender for data to be written to the serial port.
    pub tx: UnboundedSender<Data>,
    /// A receiver for responses from the serial port.
    pub rx: UnboundedReceiver<Data>,
    /// A receiver for the device state signal.
    pub device_state: Receiver<DeviceState>,
}

impl Client {
    /// Returns a client that uses the given ends of the channels to the serial port server.
    pub fn new(
        tx: UnboundedSender<Data>,
        rx: UnboundedReceiver<Data>,
        device_state: Receiver<DeviceState>,
    ) -> (client: Self)
        ensures
            client == (Client { tx, rx, device_state }),
    {
        Client { tx, rx, device_state }
    }
}

} // verus!
