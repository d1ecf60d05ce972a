//! Tests of the serial I/O server.

use std::io::Write;
use std::sync::{Arc, Mutex};

use tokio::sync::watch;

use ryder_bridge::error::{IoError, IoErrorKind, SerialError, SerialErrorKind};
use ryder_bridge::mock::serial::TestPort;
use ryder_bridge::serial::client::Client;
use ryder_bridge::serial::port::{Port, PortEvent, PortStep, NOT_CONNECTED};
use ryder_bridge::serial::server::{self, should_terminate, Server, ServerAction, READ_BUF_LEN};
use ryder_bridge::serial::DeviceState;

/// A handle to a mock serial port that can be controlled from multiple locations.
type Handle = Arc<Mutex<TestPort>>;

/// A server with all that is around it.
struct Bench {
    server: Server<Handle>,
    client: Client,
    port: Handle,
    terminate: watch::Sender<()>,
}

impl Bench {
    /// Returns a server for a mock serial port.
    fn new() -> Self {
        let port = Arc::new(Mutex::new(TestPort::new().unwrap()));
        let (terminate, terminate_rx) = watch::channel(());

        let mut serial_port = Port::new();
        let mut event = PortEvent::Started;
        let opened = loop {
            match serial_port.try_open(event) {
                PortStep::Open => event = PortEvent::Opened(Ok(port.clone())),
                PortStep::Probe => {
                    event = PortEvent::Probed(port.lock().unwrap().read_data_set_ready())
                }
                PortStep::Done(result) => break result,
            }
        };
        assert!(opened.is_ok());

        let (server, client, error) = Server::new(serial_port, opened, terminate_rx);
        assert!(error.is_ok());
        Bench { server, client, port, terminate }
    }

    /// Runs one iteration of the server's loop and returns how it ended.
    fn run(&mut self) -> ServerAction {
        let mut action = self.server.begin();
        loop {
            action = match action {
                ServerAction::Open => self.server.opened(Ok(self.port.clone())),
                ServerAction::Probe => {
                    let reply = self.port.lock().unwrap().read_data_set_ready();
                    self.server.probed(reply)
                }
                ServerAction::Write => {
                    let (port, data) = self.server.port_and_data();
                    let written = port.unwrap().lock().unwrap().write(data.unwrap());
                    self.server.wrote(written)
                }
                ServerAction::Read => {
                    let mut buf = vec![0; READ_BUF_LEN];
                    let (port, _) = self.server.port_and_data();
                    let bytes = port.unwrap().lock().unwrap().read(&mut buf);
                    self.server.read(bytes.map(|n| buf[..n].to_vec()))
                }
                done => return done,
            };
        }
    }

    /// Returns the next data from the server, if there is any.
    fn response(&mut self) -> Option<Vec<u8>> {
        self.client.rx.try_recv().ok()
    }

    /// Returns the device state that the client sees.
    fn device_state(&self) -> DeviceState {
        *self.client.device_state.borrow()
    }
}

/// The action that follows when an access fails with an error of this kind and description.
fn disconnected(kind: IoErrorKind, description: &str) -> ServerAction {
    ServerAction::Disconnected(SerialError {
        kind: SerialErrorKind::Io(kind),
        description: description.to_string(),
    })
}

fn io_error(kind: IoErrorKind) -> IoError {
    IoError { kind, description: "why".to_string() }
}

#[test]
fn test_write() {
    let mut buf = vec![0; 4];
    let data = vec![1, 2, 3, 4];
    // All the data was written
    let written = (&mut buf[..]).write(&data).map_err(|_| io_error(IoErrorKind::Other));
    assert_eq!(None, server::write(written, &data).unwrap());

    let mut buf = vec![0; 3];
    let data = vec![1, 2, 3, 4];
    // Remaining data is returned
    let written = (&mut buf[..]).write(&data).map_err(|_| io_error(IoErrorKind::Other));
    assert_eq!(Some(vec![4]), server::write(written, &data).unwrap());
}

#[test]
fn a_failed_write_is_reported() {
    let error = server::write(Err(io_error(IoErrorKind::TimedOut)), &[1, 2]).unwrap_err();
    assert_eq!(IoErrorKind::TimedOut, error.kind);
    assert_eq!(Some(vec![1, 2]), server::write(Ok(0), &[1, 2]).unwrap());
    assert_eq!(None, server::write(Ok(0), &[]).unwrap());
}

#[test]
fn the_mock_port_echoes() {
    let mut bench = Bench::new();
    assert_eq!(DeviceState::Connnected, bench.device_state());

    // Nothing was sent, so no response comes
    assert_eq!(ServerAction::Again, bench.run());
    assert_eq!(None, bench.response());

    for x in 0..3 {
        bench.client.tx.unbounded_send(vec![x; 3]).unwrap();
        assert_eq!(ServerAction::Again, bench.run());
        assert_eq!(Some(vec![x; 3]), bench.response());
    }

    // No more responses come
    assert_eq!(ServerAction::Again, bench.run());
    assert_eq!(None, bench.response());
}

#[test]
fn a_disconnected_device_is_announced_and_reopened() {
    let mut bench = Bench::new();
    bench.port.lock().unwrap().set_has_error(true);
    bench.client.tx.unbounded_send(vec![1, 2, 3]).unwrap();

    // The data is fetched, but cannot be written
    assert_eq!(disconnected(IoErrorKind::BrokenPipe, "broken pipe"), bench.run());
    assert_eq!(DeviceState::NotConnected, bench.device_state());
    assert_eq!(ServerAction::Sleep, bench.run());

    // Once the device is back, the unwritten data comes first
    bench.port.lock().unwrap().set_has_error(false);
    assert_eq!(ServerAction::Connected, bench.run());
    assert_eq!(DeviceState::Connnected, bench.device_state());
    bench.client.tx.unbounded_send(vec![4]).unwrap();
    assert_eq!(ServerAction::Again, bench.run());
    assert_eq!(Some(vec![1, 2, 3]), bench.response());
    assert_eq!(ServerAction::Again, bench.run());
    assert_eq!(Some(vec![4]), bench.response());
}

#[test]
fn a_device_without_signal_counts_as_disconnected() {
    let mut bench = Bench::new();
    bench.port.lock().unwrap().set_device_dsr(false);
    assert_eq!(disconnected(IoErrorKind::BrokenPipe, NOT_CONNECTED), bench.run());
    assert_eq!(DeviceState::NotConnected, bench.device_state());

    // The port is still open, so it is only checked again
    assert_eq!(ServerAction::Probe, bench.server.begin());
    assert_eq!(ServerAction::Sleep, bench.server.probed(Ok(false)));
    assert_eq!(ServerAction::Probe, bench.server.begin());
    assert_eq!(ServerAction::Connected, bench.server.probed(Ok(true)));
    assert_eq!(DeviceState::Connnected, bench.device_state());
}

#[test]
fn partial_writes_are_completed() {
    let mut bench = Bench::new();
    bench.client.tx.unbounded_send(vec![1, 2, 3, 4]).unwrap();
    bench.client.tx.unbounded_send(vec![5]).unwrap();

    assert_eq!(ServerAction::Probe, bench.server.begin());
    assert_eq!(ServerAction::Write, bench.server.probed(Ok(true)));
    assert_eq!(ServerAction::Probe, bench.server.wrote(Ok(3)));
    assert_eq!(ServerAction::Read, bench.server.probed(Ok(true)));
    assert_eq!(ServerAction::Again, bench.server.read(Err(io_error(IoErrorKind::TimedOut))));

    // The rest is written before other data, and kept when the write fails for now
    assert_eq!(ServerAction::Probe, bench.server.begin());
    assert_eq!(Some(&vec![4]), bench.server.port_and_data().1);
    assert_eq!(ServerAction::Write, bench.server.probed(Ok(true)));
    assert_eq!(ServerAction::Probe, bench.server.wrote(Err(io_error(IoErrorKind::WouldBlock))));
    assert_eq!(Some(&vec![4]), bench.server.port_and_data().1);
    assert_eq!(DeviceState::Connnected, bench.device_state());

    // A lasting failure disconnects the device
    assert_eq!(ServerAction::Read, bench.server.probed(Ok(true)));
    assert_eq!(
        disconnected(IoErrorKind::Other, "why"),
        bench.server.read(Err(io_error(IoErrorKind::Other)))
    );
    assert_eq!(DeviceState::NotConnected, bench.device_state());
    assert_eq!(Some(&vec![4]), bench.server.port_and_data().1);
}

#[test]
fn a_lost_device_is_reported_with_its_error() {
    // A write fails: nothing is read in the iteration, and the data is kept
    let mut bench = Bench::new();
    bench.client.tx.unbounded_send(vec![1]).unwrap();
    assert_eq!(ServerAction::Probe, bench.server.begin());
    assert_eq!(ServerAction::Write, bench.server.probed(Ok(true)));
    assert_eq!(
        disconnected(IoErrorKind::NotFound, "why"),
        bench.server.wrote(Err(io_error(IoErrorKind::NotFound)))
    );
    assert_eq!(Some(&vec![1]), bench.server.port_and_data().1);

    // A check fails: its error is converted
    for (kind, converted) in [
        (SerialErrorKind::NoDevice, IoErrorKind::NotFound),
        (SerialErrorKind::InvalidInput, IoErrorKind::InvalidInput),
        (SerialErrorKind::Unknown, IoErrorKind::Other),
        (SerialErrorKind::Io(IoErrorKind::BrokenPipe), IoErrorKind::BrokenPipe),
    ] {
        let mut bench = Bench::new();
        assert_eq!(ServerAction::Probe, bench.server.begin());
        let error = SerialError { kind, description: "gone".to_string() };
        assert_eq!(disconnected(converted, "gone"), bench.server.probed(Err(error)));
    }
}

#[test]
fn a_port_that_was_closed_is_not_asked_for_a_device() {
    let busy = || SerialError::from(io_error(IoErrorKind::Interrupted));

    // The check before a write fails for now, which closes the port
    let mut bench = Bench::new();
    bench.client.tx.unbounded_send(vec![1, 2]).unwrap();
    assert_eq!(ServerAction::Probe, bench.server.begin());
    assert_eq!(
        disconnected(IoErrorKind::BrokenPipe, NOT_CONNECTED),
        bench.server.probed(Err(busy()))
    );
    assert_eq!(DeviceState::NotConnected, bench.device_state());
    assert_eq!(Some(&vec![1, 2]), bench.server.port_and_data().1);
    assert_eq!(ServerAction::Open, bench.server.begin());

    // The check before a read fails for now, which is noticed in the next iteration
    let mut bench = Bench::new();
    assert_eq!(ServerAction::Probe, bench.server.begin());
    assert_eq!(ServerAction::Again, bench.server.probed(Err(busy())));
    assert_eq!(DeviceState::Connnected, bench.device_state());
    bench.client.tx.unbounded_send(vec![3]).unwrap();
    assert_eq!(disconnected(IoErrorKind::BrokenPipe, NOT_CONNECTED), bench.server.begin());
    assert_eq!(DeviceState::NotConnected, bench.device_state());
    assert_eq!(Some(&vec![3]), bench.server.port_and_data().1);
    assert_eq!(ServerAction::Open, bench.server.begin());
}

#[test]
fn the_server_terminates() {
    let mut bench = Bench::new();
    assert_eq!(ServerAction::Again, bench.run());
    bench.terminate.send(()).unwrap();
    assert_eq!(ServerAction::Stop, bench.run());

    // It also terminates when the sender of the signal is gone
    let bench = Bench::new();
    let mut lone = bench.server;
    drop(bench.terminate);
    assert_eq!(ServerAction::Stop, lone.begin());

    assert!(!should_terminate(Ok(false)));
    assert!(should_terminate(Ok(true)));
    assert!(should_terminate(Err(())));
}

#[test]
fn a_missing_client_is_noticed() {
    let bench = Bench::new();
    let mut lone = bench.server;
    drop(bench.client);
    assert_eq!(ServerAction::ClientGone, lone.begin());
}

#[test]
fn a_port_that_could_not_be_opened_is_not_connected() {
    let (_terminate, terminate_rx) = watch::channel(());
    let error = SerialError::from(io_error(IoErrorKind::NotFound));
    let (mut server, client, error) =
        Server::<Handle>::new(Port::new(), Err(error), terminate_rx);
    assert!(error.is_err());
    assert_eq!(DeviceState::NotConnected, *client.device_state.borrow());
    assert_eq!(ServerAction::Open, server.begin());
    assert!(server.port_and_data().0.is_none());
}
