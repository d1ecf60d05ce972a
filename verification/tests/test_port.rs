//! Tests of the mock serial port.

use std::sync::{Arc, Mutex};

use ryder_bridge::error::IoErrorKind;
use ryder_bridge::mock::bridge_test_port;
use ryder_bridge::mock::serial::TestPort;

#[test]
fn test_port_new() {
    let port = TestPort::new().unwrap();

    assert!(!port.has_error());
    assert!(port.device_dsr());
}

#[test]
fn test_port_write() {
    let mut port = TestPort::new().unwrap();

    port.write(&[1, 2, 3]).unwrap();
    assert_eq!(&[1, 2, 3][..], &*port.buf());

    port.write(&[4, 5, 6]).unwrap();
    assert_eq!(&[1, 2, 3, 4, 5, 6][..], &*port.buf());
}

#[test]
fn test_port_read() {
    let mut port = TestPort::new().unwrap();

    port.write(&[1, 2, 3]).unwrap();

    let mut buf = [0; 4];
    assert_eq!(3, port.read(&mut buf).unwrap());
    assert_eq!(&[1, 2, 3, 0], &buf);
    // Read data is cleared
    assert!(port.buf().is_empty());

    port.write(&[1, 2, 3, 4, 5, 6]).unwrap();
    assert_eq!(4, port.read(&mut buf).unwrap());
    assert_eq!(&[1, 2, 3, 4], &buf);
    // Data that could not fit in the target buffer remains
    assert_eq!(&[5, 6][..], &*port.buf());
}

#[test]
fn test_port_error() {
    let mut port = TestPort::new().unwrap();

    port.set_has_error(true);

    assert!(port.try_access().is_err());
    assert!(port.write(&[]).is_err());
    assert!(port.read(&mut []).is_err());
}

#[test]
fn test_port_device_dsr() {
    let mut port = TestPort::new().unwrap();

    assert!(port.read_data_set_ready().unwrap());

    port.set_device_dsr(false);

    assert!(!port.read_data_set_ready().unwrap());

    // The port can be accessed even when no device is connected, but no data will ever be
    // returned to be read
    assert!(port.try_access().is_ok());
    assert!(port.write(&[1, 2, 3]).is_ok());
    assert_eq!(&[1, 2, 3][..], &*port.buf());

    let mut buf = [0; 3];
    assert_eq!(0, port.read(&mut buf).unwrap());
    assert_eq!([0; 3], buf);
}

#[test]
fn test_port_clone() {
    let port = Arc::new(Mutex::new(TestPort::new().unwrap()));
    let port_clone = port.clone();

    port_clone.lock().unwrap().write(&[1, 2, 3]).unwrap();
    port_clone.lock().unwrap().set_device_dsr(false);
    port_clone.lock().unwrap().set_has_error(true);

    // Changes to a clone of the port affect the original copy
    assert_eq!(&[1, 2, 3][..], &*port.lock().unwrap().buf());
    assert!(!port.lock().unwrap().device_dsr());
    assert!(port.lock().unwrap().has_error());
}

#[test]
fn an_erroneous_port_is_left_alone() {
    let mut port = TestPort::new().unwrap();
    port.write(&[7, 8]).unwrap();
    port.set_has_error(true);

    let error = port.write(&[9]).unwrap_err();
    assert_eq!(IoErrorKind::BrokenPipe, error.kind);
    assert_eq!("broken pipe", error.description);
    let mut buf = [1];
    assert!(port.read(&mut buf).is_err());
    assert_eq!([1], buf);
    assert!(port.flush().is_err());
    assert!(port.read_data_set_ready().is_err());
    assert!(port.bytes_to_read().is_err());
    assert_eq!(&[7, 8][..], &*port.buf());

    port.set_has_error(false);
    assert!(port.flush().is_ok());
    assert_eq!(0, port.bytes_to_read().unwrap());
    assert_eq!(1, port.read(&mut buf).unwrap());
    assert_eq!([7], buf);
}

#[test]
fn the_listening_port_can_be_chosen() {
    assert_eq!(8080, bridge_test_port(None));
    assert_eq!(8080, bridge_test_port(Some("")));
    assert_eq!(8080, bridge_test_port(Some("-")));
    assert_eq!(8080, bridge_test_port(Some("80a")));
    assert_eq!(8080, bridge_test_port(Some(" 9000")));
    assert_eq!(8080, bridge_test_port(Some("2147483648")));
    assert_eq!(2147483647, bridge_test_port(Some("2147483647")));
    assert_eq!(-2147483648, bridge_test_port(Some("-2147483648")));
    assert_eq!(9000, bridge_test_port(Some("9000")));
    assert_eq!(9000, bridge_test_port(Some("+09000")));
}
