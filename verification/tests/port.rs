//! Tests of the reopenable serial port.

use std::sync::{Arc, Mutex};

use ryder_bridge::error::{IoError, IoErrorKind, SerialError, SerialErrorKind};
use ryder_bridge::mock::serial::TestPort;
use ryder_bridge::serial::port::{
    get_not_connected_error, is_device_connected, open_settings, Port, PortEvent, PortStep,
    ProbeReply,
};

/// A handle to a mock serial port that can be controlled from multiple locations.
type Handle = Arc<Mutex<TestPort>>;

/// Checks whether a device is connected to the serial port.
fn probe(port: &mut Port<Handle>) -> Result<bool, SerialError> {
    match port.port.as_mut() {
        Some(handle) => is_device_connected(ProbeReply::DataSetReady(
            handle.lock().unwrap().read_data_set_ready(),
        )),
        None => panic!("A closed port cannot be checked"),
    }
}

/// Tries to open the serial port.
fn try_open<F>(port: &mut Port<Handle>, open: F) -> Result<(), SerialError>
where
    F: Fn() -> Result<Handle, SerialError>,
{
    let mut event = PortEvent::Started;
    loop {
        match port.try_open(event) {
            PortStep::Open => event = PortEvent::Opened(open()),
            PortStep::Probe => event = PortEvent::Probed(probe(port)),
            PortStep::Done(result) => return result,
        }
    }
}

/// Updates the state of the port.
fn update_port_state(port: &mut Port<Handle>) -> Result<(), SerialError> {
    let reply = if port.port.is_some() { probe(port) } else { Ok(false) };
    port.update_port_state(reply)
}

/// Checks whether the serial port is accessible.
fn access(port: &mut Port<Handle>) -> Result<(), IoError> {
    let reply = if port.port.is_some() { probe(port) } else { Ok(false) };
    port.map_port(reply)
}

/// Writes to the serial port.
fn write(port: &mut Port<Handle>, data: &[u8]) -> Result<usize, IoError> {
    access(port)?;
    port.port.as_ref().unwrap().lock().unwrap().write(data)
}

/// Reads from the serial port.
fn read(port: &mut Port<Handle>, buf: &mut [u8]) -> Result<usize, IoError> {
    access(port)?;
    port.port.as_ref().unwrap().lock().unwrap().read(buf)
}

/// Returns a `Port` that uses a `TestPort` internally, a handle to control the `TestPort`, and any
/// error returned while creating it.
fn initialize_port(initial_dsr: bool) -> (Port<Handle>, Handle, Result<(), SerialError>) {
    let mut test_port = TestPort::new().unwrap();
    test_port.set_device_dsr(initial_dsr);

    let handle = Arc::new(Mutex::new(test_port));

    let mut port = Port::new();
    let error = try_open(&mut port, || Ok(handle.clone()));

    (port, handle, error)
}

#[test]
fn test_new() {
    let mut port = Port::new();
    let error = try_open(&mut port, || {
        Err(SerialError {
            kind: SerialErrorKind::Io(IoErrorKind::NotFound),
            description: "entity not found".to_string(),
        })
    });
    assert!(error.is_err());

    // This opens a port that is inaccessible (it reads the DSR signal as false)
    let (_, _, error) = initialize_port(false);
    assert!(error.is_err());

    let (_, _, error) = initialize_port(true);
    assert!(error.is_ok());
}

#[test]
fn test_is_accessible() {
    let (mut port, _, _) = initialize_port(true);
    assert!(port.device_connected);
    assert!(port.port.is_some());
    assert!(port.is_accessible());

    // If the device disconnects without closing the port, the port is not accessible
    port.device_connected = false;
    assert!(!port.is_accessible());

    // If the port is closed, the port is not accessible (even if `device_connected` is true,
    // which should not occur)
    port.device_connected = true;
    port.port = None;
    assert!(!port.is_accessible());
}

#[test]
fn test_update_port_state() {
    let (mut port, handle, _) = initialize_port(true);
    assert!(port.is_accessible());

    // Make the device inaccessible
    handle.lock().unwrap().set_device_dsr(false);

    // The port still thinks it's accessible because no accesses were attempted
    assert!(port.is_accessible());

    // The device is inaccessible after updating the state, but the port is still open
    assert!(update_port_state(&mut port).is_ok());
    assert!(!port.device_connected);
    assert!(port.port.is_some());

    // Make the device accessible again
    handle.lock().unwrap().set_device_dsr(true);

    // Update the port's state again
    assert!(!port.is_accessible());
    assert!(update_port_state(&mut port).is_ok());
    assert!(port.is_accessible());

    // Disconnect the device by causing an error
    handle.lock().unwrap().set_has_error(true);

    // The port is now fully closed
    assert!(update_port_state(&mut port).is_err());
    assert!(!port.device_connected);
    assert!(port.port.is_none());
}

#[test]
fn test_try_open() {
    let (mut port, handle, _) = initialize_port(true);
    let open = || {
        // A port with an error can be opened, but not accessed
        Ok(handle.clone())
    };

    assert!(try_open(&mut port, open).is_ok());

    // Make the device inaccessible
    handle.lock().unwrap().set_device_dsr(false);

    // `try_open` now fails, but the port is still open
    assert!(try_open(&mut port, open).is_err());
    assert!(!port.is_accessible());
    assert!(port.port.is_some());

    // Make the device accessible again
    handle.lock().unwrap().set_device_dsr(true);

    assert!(try_open(&mut port, open).is_ok());
    assert!(port.is_accessible());

    // Disconnect the device by causing an error
    handle.lock().unwrap().set_has_error(true);

    assert!(try_open(&mut port, open).is_err());
    assert!(port.port.is_none());
    assert!(!port.is_accessible());

    // Subsequent attempts to open the device fail as well
    assert!(try_open(&mut port, open).is_err());

    // Reconnect the device
    handle.lock().unwrap().set_has_error(false);

    // Reopen the port
    assert!(try_open(&mut port, open).is_ok());
    assert!(port.port.is_some());
    assert!(port.is_accessible());
}

#[test]
fn test_io() {
    let (mut port, handle, _) = initialize_port(true);

    assert!(write(&mut port, &[]).is_ok());
    assert!(read(&mut port, &mut []).is_ok());

    // Make the device inaccessible
    handle.lock().unwrap().set_device_dsr(false);

    assert!(write(&mut port, &[]).is_err());
    assert!(read(&mut port, &mut []).is_err());

    // Make the device accessible again
    handle.lock().unwrap().set_device_dsr(true);

    assert!(write(&mut port, &[]).is_ok());
    assert!(read(&mut port, &mut []).is_ok());

    // Disconnect the device by causing an error
    handle.lock().unwrap().set_has_error(true);

    assert!(write(&mut port, &[]).is_err());
    assert!(read(&mut port, &mut []).is_err());
    assert!(port.port.is_none());

    // Reconnect the device
    handle.lock().unwrap().set_has_error(false);

    // I/O still fails because the port was not reopened
    assert!(write(&mut port, &[]).is_err());
    assert!(read(&mut port, &mut []).is_err());
}

#[test]
fn errors_name_their_cause() {
    // A port without a device
    let (mut port, handle, error) = initialize_port(false);
    let error = error.unwrap_err();
    assert_eq!(SerialErrorKind::Io(IoErrorKind::BrokenPipe), error.kind);
    assert_eq!("The serial port is open but no device is connected", error.description);
    assert_eq!(get_not_connected_error(), access(&mut port).unwrap_err());

    // A port that cannot be accessed
    handle.lock().unwrap().set_has_error(true);
    let error = access(&mut port).unwrap_err();
    assert_eq!(IoErrorKind::BrokenPipe, error.kind);
    assert_eq!("broken pipe", error.description);

    // A port that cannot be opened
    let error = try_open(&mut port, || {
        Err(SerialError { kind: SerialErrorKind::NoDevice, description: "gone".to_string() })
    });
    assert_eq!("gone", error.unwrap_err().description);
}

#[test]
fn errors_are_converted() {
    for (serial, io) in [
        (SerialErrorKind::NoDevice, IoErrorKind::NotFound),
        (SerialErrorKind::InvalidInput, IoErrorKind::InvalidInput),
        (SerialErrorKind::Unknown, IoErrorKind::Other),
        (SerialErrorKind::Io(IoErrorKind::TimedOut), IoErrorKind::TimedOut),
    ] {
        let error = SerialError { kind: serial, description: "why".to_string() };
        assert_eq!(IoError { kind: io, description: "why".to_string() }, IoError::from(error));
    }

    let error = IoError { kind: IoErrorKind::Interrupted, description: "why".to_string() };
    assert_eq!(SerialErrorKind::Io(IoErrorKind::Interrupted), SerialError::from(error).kind);

    assert!(IoErrorKind::WouldBlock.is_temporary());
    assert!(IoErrorKind::Interrupted.is_temporary());
    assert!(IoErrorKind::TimedOut.is_temporary());
    assert!(!IoErrorKind::BrokenPipe.is_temporary());
    assert!(!IoErrorKind::NotFound.is_temporary());
    assert!(!IoErrorKind::InvalidInput.is_temporary());
    assert!(!IoErrorKind::Other.is_temporary());
}

#[test]
fn a_device_is_detected_by_system() {
    assert!(!is_device_connected(ProbeReply::DataSetReady(Ok(false))).unwrap());
    assert!(is_device_connected(ProbeReply::BytesToRead(Ok(0))).unwrap());
    let error = SerialError { kind: SerialErrorKind::Unknown, description: "why".to_string() };
    assert!(is_device_connected(ProbeReply::BytesToRead(Err(error))).is_err());

    assert_eq!(115_200, open_settings(false).baud_rate);
    assert_eq!(0, open_settings(true).baud_rate);
    assert_eq!(10, open_settings(true).timeout_ms);
}
