//! The decision logic of a bridge between Ryder devices and applications. The device is reached
//! through a serial port and exposed to applications as a WebSocket service.

pub mod bridge;
pub mod channel;
pub mod connection;
pub mod dialogue;
pub mod error;
pub mod input;
pub mod message;
pub mod mock;
pub mod queue;
pub mod serial;

pub use connection::{
    RESPONSE_BEING_SERVED, RESPONSE_BRIDGE_SHUTDOWN, RESPONSE_DEVICE_DISCONNECTED,
    RESPONSE_DEVICE_NOT_CONNECTED, RESPONSE_WAIT_IN_QUEUE,
};
