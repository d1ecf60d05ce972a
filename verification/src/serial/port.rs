//! Abstractions for working with serial ports.

use vstd::prelude::*;

use crate::error::{IoError, IoErrorKind, IoErrorView, SerialError};

verus! {

/// How an inaccessible port is described.
pub const NOT_CONNECTED: &'static str = "The serial port is open but no device is connected";

/// A wrapper around a serial port that can be reopened if the serial port is closed. `P` is the
/// handle of an open serial port, which is closed when the handle is dropped.
///
/// The port itself is operated by the caller. Each method that depends on what the serial port does
/// is handed the outcome and decides what follows from it.
pub struct Port<P> {
    /// The internal serial port, if it is opened.
    pub port: Option<P>,
    /// Whether a device is connected to the other end of the serial port. Always false if the
    /// serial port is not open.
    pub device_connected: bool,
}

/// What has happened since the last step of an attempt to open a port.
pub enum PortEvent<P> {
    /// The attempt begins.
    Started,
    /// Opening the serial port had this outcome.
    Opened(Result<P, SerialError>),
    /// Checking whether a device is connected to the serial port had this outcome.
    Probed(Result<bool, SerialError>),
}

/// What is to be done next in an attempt to open a port.
#[derive(Debug)]
pub enum PortStep {
    /// Open the serial port.
    Open,
    /// Check whether a device is connected to the serial port.
    Probe,
    /// Nothing: the attempt is over.
    Done(Result<(), SerialError>),
}

/// What an open serial port answers when it is checked for a connected device.
pub enum ProbeReply {
    /// The level of the data set ready signal.
    DataSetReady(Result<bool, SerialError>),
    /// The number of bytes that wait to be read. It only tells whether the port can be accessed.
    BytesToRead(Result<u32, SerialError>),
}

/// The settings that a serial port is opened with.
#[derive(Clone, Copy, Debug, PartialEq, Eq, Structural)]
pub struct PortSettings {
    /// The baud rate.
    pub baud_rate: u32,
    /// The time in milliseconds that a read or write may take.
    pub timeout_ms: u64,
}

/// The I/O error for when a serial port is open, but no device is connected to it.
pub open spec fn not_connected() -> IoErrorView {
    IoErrorView { kind: IoErrorKind::BrokenPipe, description: NOT_CONNECTED@ }
}

impl<P> Port<P> {
    /// The flag for a connected device is only set while the serial port is open.
    pub open spec fn wf(self) -> bool {
        self.device_connected ==> self.port is Some
    }

    /// Whether the serial port is open and has a device connected.
    pub open spec fn accessible(self) -> bool {
        self.port is Some && self.device_connected
    }

    /// The state of the port once it was checked for a connected device. Nothing is checked if the
    /// serial port is not open.
    pub open spec fn checked(self, probe: Result<bool, SerialError>) -> Self {
        match (self.port, probe) {
            (Some(port), Ok(connected)) => Port { port: Some(port), device_connected: connected },
            _ => Port { port: None, device_connected: false },
        }
    }

    /// Creates a `Port` whose serial port is not open yet.
    pub fn new() -> (port: Self)
        ensures
            port.wf(),
            port.port is None,
            !port.device_connected,
    {
        Port { port: None, device_connected: false }
    }

    /// Returns whether the serial port is accessible (i.e., is open and has a device connected).
    ///
    /// Note that the return value may be out of date; writing to/reading from the port is the only
    /// way to guarantee that the port is currently accessible.
    pub fn is_accessible(&self) -> (accessible: bool)
        ensures
            accessible == self.accessible(),
    {
        self.port.is_some() && self.device_connected
    }

    /// Updates the device connected flag from the outcome of checking the serial port, which is not
    /// looked at if the serial port is not open. Closes the port and returns `Err` if the serial
    /// port is open but cannot be accessed.
    pub fn update_port_state(&mut self, probe: Result<bool, SerialError>) -> (result: Result<
        (),
        SerialError,
    >)
        ensures
            final(self).wf(),
            *final(self) == old(self).checked(probe),
            result == (match (old(self).port, probe) {
                (Some(_), Err(error)) => Err::<(), SerialError>(error),
                _ => Ok(()),
            }),
    {
        if self.port.is_some() {
            // If the port is open, update the flag
            match probe {
                Ok(connected) => {
                    self.device_connected = connected;
                },
                Err(error) => {
                    self.device_connected = false;
                    self.port = None;
                    return Err(error);
                },
            }
        } else {
            // If the port is not open, set the flag to false
            self.device_connected = false;
        }

        Ok(())
    }

    /// Tries to open the serial port, one step at a time. Ends with `Err` if this fails or if the
    /// serial port is open but has no device connected. Ends with `Ok` if the serial port is now
    /// available.
    ///
    /// If the serial port is already open, it is only checked whether a device is connected to it.
    pub fn try_open(&mut self, event: PortEvent<P>) -> (step: PortStep)
        ensures
            old(self).wf() ==> final(self).wf(),
            match event {
                PortEvent::Started => {
                    &&& *final(self) == *old(self)
                    &&& step == (if old(self).port is Some {
                        PortStep::Probe
                    } else {
                        PortStep::Open
                    })
                },
                PortEvent::Opened(Ok(port)) => {
                    &&& *final(self) == (Port { port: Some(port), device_connected: false })
                    &&& step == PortStep::Probe
                },
                PortEvent::Opened(Err(error)) => {
                    &&& *final(self) == (Port::<P> { port: None, device_connected: false })
                    &&& step == PortStep::Done(Err(error))
                },
                PortEvent::Probed(probe) => {
                    &&& *final(self) == old(self).checked(probe)
                    &&& match (old(self).port, probe) {
                        (Some(_), Ok(true)) => step == PortStep::Done(Ok(())),
                        (Some(_), Err(error)) => step == PortStep::Done(Err(error)),
                        _ => step matches PortStep::Done(Err(error))
                            && error@ == not_connected().into_serial(),
                    }
                },
            },
            step matches PortStep::Done(result) ==> (result is Ok <==> final(self).accessible()),
    {
        match event {
            PortEvent::Started => {
                if self.port.is_some() {
                    // If the port is already open, check if a device is connected
                    PortStep::Probe
                } else {
                    // If the port is not open, try to open it
                    PortStep::Open
                }
            },
            PortEvent::Opened(Ok(port)) => {
                self.port = Some(port);
                self.device_connected = false;
                PortStep::Probe
            },
            PortEvent::Opened(Err(error)) => {
                self.port = None;
                self.device_connected = false;
                PortStep::Done(Err(error))
            },
            PortEvent::Probed(probe) => {
                match self.update_port_state(probe) {
                    Ok(()) => {
                        if self.device_connected {
                            PortStep::Done(Ok(()))
                        } else {
                            // Return an error if the port is open but a device is not connected
                            PortStep::Done(Err(SerialError::from(get_not_connected_error())))
                        }
                    },
                    Err(error) => PortStep::Done(Err(error)),
                }
            },
        }
    }

    /// Decides whether the internal serial port may be read from or written to, given the outcome
    /// of checking it for a connected device, or returns `Err` otherwise.
    pub fn map_port(&mut self, probe: Result<bool, SerialError>) -> (result: Result<(), IoError>)
        ensures
            final(self).wf(),
            *final(self) == old(self).checked(probe),
            match (old(self).port, probe) {
                (Some(_), Ok(true)) => result == Ok::<(), IoError>(()),
                (Some(_), Err(error)) => result == Err::<(), IoError>(
                    vstd::std_specs::convert::FromSpec::from_spec(error),
                ),
                _ => result matches Err(error) && error@ == not_connected(),
            },
            result is Ok <==> final(self).accessible(),
    {
        // Check whether the port is accessible
        match self.update_port_state(probe) {
            Ok(()) => {
                if self.is_accessible() {
                    Ok(())
                } else {
                    Err(get_not_connected_error())
                }
            },
            Err(error) => Err(IoError::from(error)),
        }
    }
}

/// Returns the settings for opening a serial port. The baud rate must be set to 0 on Apple's
/// systems to avoid a bug.
pub fn open_settings(apple: bool) -> (settings: PortSettings)
    ensures
        settings.baud_rate == (if apple {
            0u32
        } else {
            115_200u32
        }),
        settings.timeout_ms == 10,
{
    let baud_rate: u32 = if apple {
        0
    } else {
        115_200
    };
    PortSettings { baud_rate, timeout_ms: 10 }
}

/// Returns whether a device is connected to the serial port, or `Err` if it could not be accessed.
///
/// No flow control is used on unix-like systems, but the port must still be accessed in some way to
/// detect errors.
pub fn is_device_connected(reply: ProbeReply) -> (connected: Result<bool, SerialError>)
    ensures
        connected == (match reply {
            ProbeReply::DataSetReady(level) => level,
            ProbeReply::BytesToRead(Ok(_)) => Ok(true),
            ProbeReply::BytesToRead(Err(error)) => Err(error),
        }),
{
    match reply {
        ProbeReply::DataSetReady(level) => level,
        ProbeReply::BytesToRead(Ok(_)) => Ok(true),
        ProbeReply::BytesToRead(Err(error)) => Err(error),
    }
}

/// Returns an error for when a serial port is open, but no device is connected to it.
pub fn get_not_connected_error() -> (error: IoError)
    ensures
        error@ == not_connected(),
{
    IoError { kind: IoErrorKind::BrokenPipe, description: NOT_CONNECTED.to_owned() }
}

/// Law: checking an open port keeps its handle and takes over whether a device is connected, unless
/// the check fails, which closes the port. A closed port stays closed, whatever the outcome. The
/// port can be used exactly if it is open and a device was found.
pub proof fn law_checks_decide<P>(port: Port<P>, probe: Result<bool, SerialError>)
    ensures
        ({
            let checked = port.checked(probe);
            &&& checked.wf()
            &&& checked.port is Some <==> port.port is Some && probe is Ok
            &&& checked.port is Some ==> checked.port == port.port
            &&& port.port is Some ==> (probe matches Ok(connected) ==> checked.device_connected
                == connected)
            &&& !(checked.port is Some) ==> !checked.device_connected
            &&& checked.accessible() <==> port.port is Some && probe == Ok::<bool, SerialError>(
                true,
            )
        }),
        port.accessible() <==> port.port is Some && port.device_connected,
        port.wf() <==> !(port.device_connected && port.port is None),
{
}

/// Law: the error for a port without a device is a broken pipe.
pub proof fn law_missing_device_is_a_broken_pipe()
    ensures
        not_connected().kind == IoErrorKind::BrokenPipe,
        !not_connected().kind.temporary(),
        not_connected().description == NOT_CONNECTED@,
{
}

} // verus!
