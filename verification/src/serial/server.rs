//! A server for serial port communication.

use futures_channel::mpsc::{UnboundedReceiver, UnboundedSender};
use tokio::sync::watch::{Receiver, Sender};
use vstd::prelude::*;

use super::client::Client;
use super::port::{get_not_connected_error, Port, PortEvent, PortStep};
use super::{Data, DeviceState};
use crate::channel::{self, Incoming, IncomingView};
use crate::error::{IoError, IoErrorView, SerialError, SerialErrorView};

verus! {

/// The most bytes that are read from the serial port at once.
pub const READ_BUF_LEN: usize = 256;

/// The time in seconds to wait before the next attempt to open the serial port.
pub const RETRY_DELAY_SECS: u64 = 2;

/// The bytes of `data` that are left after the first `bytes` of them were written.
pub open spec fn unwritten(data: Seq<u8>, bytes: nat) -> Option<Seq<u8>> {
    if bytes < data.len() {
        Some(data.skip(bytes as int))
    } else {
        None
    }
}

/// The bytes in an optional buffer.
pub open spec fn content(data: Option<Data>) -> Option<Seq<u8>> {
    match data {
        Some(bytes) => Some(bytes@),
        None => None,
    }
}

/// Takes in the outcome of writing `data`. Returns `Ok(None)` if all the data was successfully
/// written, or `Ok(Some)` with the remaining data otherwise.
pub fn write(written: Result<usize, IoError>, data: &[u8]) -> (result: Result<
    Option<Data>,
    IoError,
>)
    ensures
        match written {
            Ok(bytes) => result matches Ok(remaining) && content(remaining) == unwritten(
                data@,
                bytes as nat,
            ),
            Err(error) => result == Err::<Option<Data>, IoError>(error),
        },
{
    match written {
        Ok(bytes) => {
            if bytes < data.len() {
                let remaining = vstd::slice::slice_to_vec(
                    vstd::slice::slice_subrange(data, bytes, data.len()),
                );
                assert(remaining@ =~= data@.skip(bytes as int));
                Ok(Some(remaining))
            } else {
                Ok(None)
            }
        },
        Err(error) => Err(error),
    }
}

/// What the serial I/O loop is doing.
#[derive(Clone, Copy, Debug, PartialEq, Eq, Structural)]
pub enum Phase {
    /// It is between two iterations, or about to fetch data.
    Idle,
    /// It is trying to open the serial port.
    Opening,
    /// It is writing to the serial port.
    Writing,
    /// It is reading from the serial port.
    Reading,
}

/// The state of the serial I/O loop. `P` is the handle of an open serial port.
pub struct IoLoop<P> {
    /// The serial port itself.
    pub port: Port<P>,
    /// Whether the serial port was accessible when last accessed.
    pub port_accessible: bool,
    /// A buffer for storing partially written data so that the write can be completed later.
    pub data_to_write: Option<Data>,
    /// What the loop is doing.
    pub phase: Phase,
}

/// What the serial I/O loop needs to have done next.
#[derive(Debug)]
pub enum LoopStep {
    /// Fetch the next data to be written, if there is any.
    Fetch,
    /// Open the serial port.
    Open,
    /// Check whether a device is connected to the serial port.
    Probe,
    /// Write the stored data to the serial port.
    Write,
    /// Read from the serial port.
    Read,
    /// Hand over data that was read, and begin the next iteration.
    Deliver(Data),
    /// Tell the client that the device is connected, and begin the next iteration.
    Connected,
    /// Tell the client that the device is not connected, and begin the next iteration. The error is
    /// the one that an access to the serial port failed with.
    Disconnected(SerialError),
    /// Begin the next iteration.
    Again,
    /// Wait a while, and begin the next iteration.
    Sleep,
    /// Leave the loop.
    Stop,
}

/// The state of the serial I/O loop, with the stored data as a sequence.
pub struct LoopView<P> {
    pub port: Port<P>,
    pub accessible: bool,
    pub pending: Option<Seq<u8>>,
    pub phase: Phase,
}

/// [`LoopStep`], with data and descriptions as sequences.
pub enum StepView {
    Fetch,
    Open,
    Probe,
    Write,
    Read,
    Deliver(Seq<u8>),
    Connected,
    Disconnected(SerialErrorView),
    Again,
    Sleep,
    Stop,
}

/// Something that happens to the serial I/O loop.
pub enum LoopEvent<P> {
    /// An iteration begins. The flag tells whether the loop was asked to terminate.
    Begin(bool),
    /// This data was fetched.
    Fetched(Option<Seq<u8>>),
    /// Opening the serial port had this outcome.
    Opened(Result<P, SerialError>),
    /// Checking for a connected device had this outcome.
    Probed(Result<bool, SerialError>),
    /// Writing had this outcome: the number of bytes, or an error.
    Wrote(Result<usize, IoError>),
    /// Reading had this outcome: the bytes, or an error.
    Read(Result<Seq<u8>, IoError>),
}

impl View for LoopStep {
    type V = StepView;

    open spec fn view(&self) -> StepView {
        match *self {
            LoopStep::Fetch => StepView::Fetch,
            LoopStep::Open => StepView::Open,
            LoopStep::Probe => StepView::Probe,
            LoopStep::Write => StepView::Write,
            LoopStep::Read => StepView::Read,
            LoopStep::Deliver(data) => StepView::Deliver(data@),
            LoopStep::Connected => StepView::Connected,
            LoopStep::Disconnected(error) => StepView::Disconnected(error@),
            LoopStep::Again => StepView::Again,
            LoopStep::Sleep => StepView::Sleep,
            LoopStep::Stop => StepView::Stop,
        }
    }
}

impl<P> View for IoLoop<P> {
    type V = LoopView<P>;

    open spec fn view(&self) -> LoopView<P> {
        LoopView {
            port: self.port,
            accessible: self.port_accessible,
            pending: content(self.data_to_write),
            phase: self.phase,
        }
    }
}

impl<P> LoopView<P> {
    /// The error that an access to the serial port fails with, if checking the port had the given
    /// outcome and the port is not accessible.
    pub open spec fn access_error(self, probe: Result<bool, SerialError>) -> IoErrorView {
        match (self.port.port, probe) {
            (Some(_), Err(error)) => error@.into_io(),
            _ => super::port::not_connected(),
        }
    }

    /// The device is lost: an access to the serial port failed for good, with the given error.
    pub open spec fn disconnected(self, error: IoErrorView) -> (LoopView<P>, StepView) {
        (
            LoopView { accessible: false, phase: Phase::Idle, ..self },
            StepView::Disconnected(error.into_serial()),
        )
    }

    /// The serial port is about to be written to or read from in the given phase. An open port is
    /// checked for a connected device first. A closed port cannot be accessed.
    pub open spec fn accessing(self, phase: Phase) -> (LoopView<P>, StepView) {
        if self.port.port is Some {
            (LoopView { phase, ..self }, StepView::Probe)
        } else {
            LoopView {
                port: Port { port: None, device_connected: false },
                ..self
            }.disconnected(super::port::not_connected())
        }
    }

    /// Writing is over for this iteration, and reading comes next.
    pub open spec fn write_over(self) -> (LoopView<P>, StepView) {
        self.accessing(Phase::Reading)
    }

    /// The iteration is over.
    pub open spec fn iteration_over(self, step: StepView) -> (LoopView<P>, StepView) {
        (LoopView { phase: Phase::Idle, ..self }, step)
    }

    /// What an access that failed with the given error leads to. Temporary failures are ignored.
    pub open spec fn failed(self, error: IoErrorView) -> (LoopView<P>, StepView) {
        if !error.kind.temporary() {
            self.disconnected(error)
        } else if self.phase is Writing {
            self.write_over()
        } else {
            self.iteration_over(StepView::Again)
        }
    }

    /// The serial I/O loop: what each event leads to.
    pub open spec fn next(self, event: LoopEvent<P>) -> (LoopView<P>, StepView) {
        match event {
            LoopEvent::Begin(terminated) => if terminated {
                self.iteration_over(StepView::Stop)
            } else if !self.accessible {
                // Keep retrying to re-open the port
                (
                    LoopView { phase: Phase::Opening, ..self },
                    if self.port.port is Some {
                        StepView::Probe
                    } else {
                        StepView::Open
                    },
                )
            } else if self.pending is Some {
                // Data that previously failed to write comes first
                self.accessing(Phase::Writing)
            } else {
                self.iteration_over(StepView::Fetch)
            },
            LoopEvent::Fetched(data) => LoopView { pending: data, ..self }.accessing(
                if data is Some {
                    Phase::Writing
                } else {
                    Phase::Reading
                },
            ),
            LoopEvent::Opened(Ok(port)) => (
                LoopView { port: Port { port: Some(port), device_connected: false }, ..self },
                StepView::Probe,
            ),
            LoopEvent::Opened(Err(_)) => LoopView {
                port: Port { port: None, device_connected: false },
                ..self
            }.iteration_over(StepView::Sleep),
            LoopEvent::Probed(probe) => {
                let checked = LoopView { port: self.port.checked(probe), ..self };
                match self.phase {
                    Phase::Idle => checked.iteration_over(StepView::Again),
                    Phase::Opening => if checked.port.accessible() {
                        LoopView { accessible: true, ..checked }.iteration_over(
                            StepView::Connected,
                        )
                    } else {
                        checked.iteration_over(StepView::Sleep)
                    },
                    Phase::Writing => if checked.port.accessible() {
                        (checked, StepView::Write)
                    } else {
                        checked.failed(self.access_error(probe))
                    },
                    Phase::Reading => if checked.port.accessible() {
                        (checked, StepView::Read)
                    } else {
                        checked.failed(self.access_error(probe))
                    },
                }
            },
            LoopEvent::Wrote(Ok(bytes)) => LoopView {
                pending: match self.pending {
                    Some(data) => unwritten(data, bytes as nat),
                    None => None,
                },
                ..self
            }.write_over(),
            LoopEvent::Wrote(Err(error)) => LoopView { phase: Phase::Writing, ..self }.failed(
                error@,
            ),
            LoopEvent::Read(Ok(data)) => self.iteration_over(
                if data.len() > 0 {
                    StepView::Deliver(data)
                } else {
                    StepView::Again
                },
            ),
            LoopEvent::Read(Err(error)) => LoopView { phase: Phase::Reading, ..self }.failed(
                error@,
            ),
        }
    }
}

impl<P> IoLoop<P> {
    /// Returns the state of a loop that has not begun yet. `accessible` tells whether the serial
    /// port was accessible when it was opened.
    pub fn new(port: Port<P>, accessible: bool) -> (io: Self)
        ensures
            io@ == (LoopView { port, accessible, pending: None, phase: Phase::Idle }),
    {
        IoLoop { port, port_accessible: accessible, data_to_write: None, phase: Phase::Idle }
    }

    /// Begins an iteration of the loop. `terminated` tells whether a termination signal was
    /// received.
    pub fn begin(&mut self, terminated: bool) -> (step: LoopStep)
        ensures
            (final(self)@, step@) == old(self)@.next(LoopEvent::Begin(terminated)),
    {
        if terminated {
            self.phase = Phase::Idle;
            LoopStep::Stop
        } else if self.port_accessible {
            // If the port is accessible, process I/O (prioritizing data that previously failed to
            // write)
            if self.data_to_write.is_none() {
                self.phase = Phase::Idle;
                LoopStep::Fetch
            } else {
                self.access(Phase::Writing)
            }
        } else {
            // Otherwise, keep retrying to re-open it
            self.phase = Phase::Opening;
            match self.port.try_open(PortEvent::Started) {
                PortStep::Probe => LoopStep::Probe,
                _ => LoopStep::Open,
            }
        }
    }

    /// Takes in the next data to be written, or `None` if there is none.
    pub fn fetched(&mut self, data: Option<Data>) -> (step: LoopStep)
        ensures
            (final(self)@, step@) == old(self)@.next(LoopEvent::Fetched(content(data))),
    {
        let phase = if data.is_some() {
            Phase::Writing
        } else {
            Phase::Reading
        };
        self.data_to_write = data;
        self.access(phase)
    }

    /// Takes in the outcome of opening the serial port.
    pub fn opened(&mut self, result: Result<P, SerialError>) -> (step: LoopStep)
        ensures
            (final(self)@, step@) == old(self)@.next(LoopEvent::Opened(result)),
    {
        match self.port.try_open(PortEvent::Opened(result)) {
            PortStep::Probe => LoopStep::Probe,
            _ => {
                // Don't retry too often
                self.phase = Phase::Idle;
                LoopStep::Sleep
            },
        }
    }

    /// Takes in the outcome of checking whether a device is connected to the serial port.
    pub fn probed(&mut self, probe: Result<bool, SerialError>) -> (step: LoopStep)
        ensures
            (final(self)@, step@) == old(self)@.next(LoopEvent::Probed(probe)),
    {
        match self.phase {
            Phase::Idle => {
                let _result = self.port.update_port_state(probe);
                LoopStep::Again
            },
            Phase::Opening => {
                match self.port.try_open(PortEvent::Probed(probe)) {
                    PortStep::Done(Ok(())) => self.on_device_connected(),
                    _ => {
                        // Don't retry too often
                        self.phase = Phase::Idle;
                        LoopStep::Sleep
                    },
                }
            },
            Phase::Writing => {
                match self.port.map_port(probe) {
                    Ok(()) => LoopStep::Write,
                    Err(error) => self.on_error(error),
                }
            },
            Phase::Reading => {
                match self.port.map_port(probe) {
                    Ok(()) => LoopStep::Read,
                    Err(error) => self.on_error(error),
                }
            },
        }
    }

    /// Takes in the outcome of writing the stored data to the serial port. What could not be
    /// written is kept.
    pub fn wrote(&mut self, written: Result<usize, IoError>) -> (step: LoopStep)
        ensures
            (final(self)@, step@) == old(self)@.next(LoopEvent::Wrote(written)),
    {
        self.phase = Phase::Writing;
        match self.data_to_write.take() {
            None => {
                match written {
                    Ok(_) => self.access(Phase::Reading),
                    Err(error) => self.on_error(error),
                }
            },
            Some(data) => {
                match write(written, data.as_slice()) {
                    Ok(remaining) => {
                        self.data_to_write = remaining;
                        self.access(Phase::Reading)
                    },
                    Err(error) => {
                        self.data_to_write = Some(data);
                        self.on_error(error)
                    },
                }
            },
        }
    }

    /// Takes in the outcome of reading from the serial port.
    pub fn read(&mut self, result: Result<Data, IoError>) -> (step: LoopStep)
        ensures
            (final(self)@, step@) == old(self)@.next(
                LoopEvent::Read(
                    match result {
                        Ok(data) => Ok(data@),
                        Err(error) => Err(error),
                    },
                ),
            ),
    {
        match result {
            Ok(data) => {
                self.phase = Phase::Idle;
                if data.len() > 0 {
                    LoopStep::Deliver(data)
                } else {
                    LoopStep::Again
                }
            },
            Err(error) => {
                self.phase = Phase::Reading;
                self.on_error(error)
            },
        }
    }

    /// Turns to the serial port to write to it or read from it. An open port has to be checked for
    /// a connected device first, whereas an access to a closed port fails.
    fn access(&mut self, phase: Phase) -> (step: LoopStep)
        ensures
            (final(self)@, step@) == old(self)@.accessing(phase),
    {
        if self.port.port.is_some() {
            self.phase = phase;
            LoopStep::Probe
        } else {
            let _result = self.port.update_port_state(Ok(false));
            self.on_device_disconnected(get_not_connected_error())
        }
    }

    /// Decides what follows from a failed access to the serial port. Temporary failures are
    /// ignored.
    fn on_error(&mut self, error: IoError) -> (step: LoopStep)
        ensures
            (final(self)@, step@) == old(self)@.failed(error@),
    {
        if !error.kind.is_temporary() {
            self.on_device_disconnected(error)
        } else {
            match self.phase {
                Phase::Writing => self.access(Phase::Reading),
                _ => {
                    self.phase = Phase::Idle;
                    LoopStep::Again
                },
            }
        }
    }

    /// Updates the port state flag when an access to the serial port failed with `error` because the
    /// serial device disconnected, which the client is to be notified of.
    fn on_device_disconnected(&mut self, error: IoError) -> (step: LoopStep)
        ensures
            (final(self)@, step@) == old(self)@.disconnected(error@),
    {
        self.port_accessible = false;
        self.phase = Phase::Idle;
        LoopStep::Disconnected(SerialError::from(error))
    }

    /// Updates the port state flag when the serial device connected or reconnected, which the
    /// client is to be notified of.
    fn on_device_connected(&mut self) -> (step: LoopStep)
        ensures
            final(self)@ == (LoopView { accessible: true, phase: Phase::Idle, ..old(self)@ }),
            step@ == StepView::Connected,
    {
        self.port_accessible = true;
        self.phase = Phase::Idle;
        LoopStep::Connected
    }
}

/// What the caller of a [`Server`] has to do next.
#[derive(Debug, PartialEq, Eq)]
pub enum ServerAction {
    /// Open the serial port and report with [`Server::opened`].
    Open,
    /// Check whether a device is connected to the serial port and report with [`Server::probed`].
    Probe,
    /// Write the stored data to the serial port and report with [`Server::wrote`].
    Write,
    /// Read at most [`READ_BUF_LEN`] bytes from the serial port and report with [`Server::read`].
    Read,
    /// Call [`Server::begin`].
    Again,
    /// The device connected or reconnected, which the client was told. Call [`Server::begin`].
    Connected,
    /// The device disconnected, which the client was told: an access to the serial port failed with
    /// this error. Call [`Server::begin`].
    Disconnected(SerialError),
    /// Wait for [`RETRY_DELAY_SECS`], or until the termination signal is sent, then call
    /// [`Server::begin`].
    Sleep,
    /// Leave the loop.
    Stop,
    /// Fail: the client is gone although the server has not terminated.
    ClientGone,
}

/// A server that directs the communication with a serial port, forwarding data to and from a
/// [`Client`] and handling serial device disconnections and reconnections. `P` is the handle of an
/// open serial port.
///
/// The serial port itself is operated by the caller, as told by a [`ServerAction`].
pub struct Server<P> {
    /// The state of the loop.
    io: IoLoop<P>,
    /// A sender for notifying the client of serial device state changes (i.e., reconnections and
    /// disconnections).
    device_state: Sender<DeviceState>,
    /// A receiver for data to be written to the serial port.
    rx: UnboundedReceiver<Data>,
    /// A sender for data received from the serial port.
    tx: UnboundedSender<Data>,
    /// A receiver for termination signals.
    terminate_rx: Receiver<()>,
}

/// Whether the loop has to end, given whether a termination signal is pending. It also ends when the
/// sender of the signal is gone.
pub open spec fn must_terminate(pending: Result<bool, ()>) -> bool {
    pending is Err || pending == Ok::<bool, ()>(true)
}

/// Returns whether the loop has to end, given whether a termination signal is pending.
pub fn should_terminate(pending: Result<bool, ()>) -> (terminated: bool)
    ensures
        terminated == must_terminate(pending),
{
    match pending {
        Ok(changed) => changed,
        Err(()) => true,
    }
}

/// The state of the device that the client is told of, given whether the port is accessible.
pub open spec fn state_of(accessible: bool) -> DeviceState {
    if accessible {
        DeviceState::Connnected
    } else {
        DeviceState::NotConnected
    }
}

/// Whether an action is the one that goes with a step of the loop.
pub open spec fn goes_with(action: ServerAction, step: StepView) -> bool {
    match step {
        StepView::Open => action is Open,
        StepView::Probe => action is Probe,
        StepView::Write => action is Write,
        StepView::Read => action is Read,
        StepView::Connected => action is Connected,
        StepView::Disconnected(error) => action matches ServerAction::Disconnected(e) && e@ == error,
        StepView::Sleep => action is Sleep,
        StepView::Stop => action is Stop,
        StepView::Fetch | StepView::Deliver(_) | StepView::Again => action is Again,
    }
}

impl<P> Server<P> {
    /// The state of the loop.
    pub closed spec fn state(self) -> LoopView<P> {
        self.io@
    }

    /// The messages that were offered to the client, oldest first, each with whether it was put
    /// into the channel to the client.
    pub closed spec fn offers(self) -> Seq<(Seq<u8>, bool)> {
        channel::offered(self.tx)
    }

    /// What the attempts to get data from the client came to, oldest first.
    pub closed spec fn requests(self) -> Seq<IncomingView> {
        channel::polled(self.rx)
    }

    /// The device states that the client was to be told of, oldest first, each with whether it was
    /// put into the channel to the client.
    pub closed spec fn notices(self) -> Seq<(DeviceState, bool)> {
        channel::posted(self.device_state)
    }

    /// What the looks for a termination signal came to, oldest first.
    pub closed spec fn sightings(self) -> Seq<Result<bool, ()>> {
        channel::sighted(self.terminate_rx)
    }

    /// Whether the server and `client` share their channels.
    pub closed spec fn serves(self, client: Client) -> bool {
        &&& channel::linked(client.tx, self.rx)
        &&& channel::linked(self.tx, client.rx)
        &&& channel::observed(self.device_state, client.device_state)
    }

    /// The client is told of the device state that the server goes by.
    pub open spec fn in_sync(self) -> bool {
        self.notices().len() > 0 && self.notices().last() == (
            state_of(self.state().accessible),
            true,
        )
    }

    /// The loop went from the state of `before` to `state` and the given step was carried out,
    /// which led to `after`. It only fails if the client is gone.
    pub open spec fn carried_out(
        before: Self,
        state: LoopView<P>,
        step: StepView,
        after: Self,
        action: ServerAction,
    ) -> bool {
        let gone = action is ClientGone;
        &&& after.state() == state
        &&& !gone ==> goes_with(action, step)
        &&& gone ==> step is Deliver || step is Connected || step is Disconnected
        &&& after.offers() == match step {
            StepView::Deliver(data) => before.offers().push((data, !gone)),
            _ => before.offers(),
        }
        &&& after.notices() == match step {
            StepView::Connected => before.notices().push((DeviceState::Connnected, !gone)),
            StepView::Disconnected(_) => before.notices().push((DeviceState::NotConnected, !gone)),
            _ => before.notices(),
        }
    }

    /// The outcome `event` was taken in by `before`, which led to `after`.
    pub open spec fn took_in(
        before: Self,
        event: LoopEvent<P>,
        after: Self,
        action: ServerAction,
    ) -> bool {
        let (state, step) = before.state().next(event);
        &&& Self::carried_out(before, state, step, after, action)
        &&& after.requests() == before.requests()
        &&& after.sightings() == before.sightings()
        &&& before.in_sync() && !(action is ClientGone) ==> after.in_sync()
        &&& forall|client: Client|
            #![trigger after.serves(client)]
            #![trigger before.serves(client)]
            after.serves(client) == before.serves(client)
    }

    /// An iteration was begun by `before`, which led to `after`. Whether the server has to
    /// terminate and whether the client has sent data is not up to the server.
    pub open spec fn began(before: Self, after: Self, action: ServerAction) -> bool {
        let terminated = must_terminate(after.sightings().last());
        let (state, step) = before.state().next(LoopEvent::Begin(terminated));
        &&& after.sightings().len() > 0
        &&& after.sightings().drop_last() == before.sightings()
        &&& if step is Fetch {
            &&& after.requests().len() > 0
            &&& after.requests().drop_last() == before.requests()
            &&& match after.requests().last() {
                IncomingView::Data(data) => {
                    let (state, step) = state.next(LoopEvent::Fetched(Some(data)));
                    Self::carried_out(before, state, step, after, action)
                },
                IncomingView::Empty => {
                    let (state, step) = state.next(LoopEvent::Fetched(None));
                    Self::carried_out(before, state, step, after, action)
                },
                IncomingView::Closed => {
                    &&& action is ClientGone
                    &&& after.state() == state
                    &&& after.offers() == before.offers()
                    &&& after.notices() == before.notices()
                },
            }
        } else {
            &&& Self::carried_out(before, state, step, after, action)
            &&& after.requests() == before.requests()
        }
    }

    /// Returns a new `Server` for a serial port, its [`Client`], and `opened`, the outcome of the
    /// attempt to open the serial port.
    ///
    /// The server will continue to retry opening the serial port even if it fails initially.
    /// `terminate_rx` is watched for a signal that the bridge is shutting down, in which case the
    /// server ends.
    pub fn new(
        port: Port<P>,
        opened: Result<(), SerialError>,
        terminate_rx: Receiver<()>,
    ) -> (result: (Self, Client, Result<(), SerialError>))
        ensures
            result.0.state() == (LoopView {
                port,
                accessible: opened is Ok,
                pending: None,
                phase: Phase::Idle,
            }),
            result.0.notices() == seq![(state_of(opened is Ok), true)],
            result.0.in_sync(),
            result.0.offers() == Seq::<(Seq<u8>, bool)>::empty(),
            result.0.requests() == Seq::<IncomingView>::empty(),
            result.0.sightings() == channel::sighted(terminate_rx),
            result.0.serves(result.1),
            result.2 == opened,
    {
        let initial_state = if opened.is_ok() {
            DeviceState::Connnected
        } else {
            DeviceState::NotConnected
        };

        // Open the device state channel
        let (device_state_tx, device_state_rx) = channel::device_state_channel(initial_state);
        // Open the serial port write channel
        let (write_tx, write_rx) = channel::data_channel();
        // Open the serial port read channel
        let (read_tx, read_rx) = channel::data_channel();

        let server = Server {
            io: IoLoop::new(port, opened.is_ok()),
            device_state: device_state_tx,
            rx: write_rx,
            tx: read_tx,
            terminate_rx,
        };

        let client = Client::new(write_tx, read_rx, device_state_rx);

        (server, client, opened)
    }

    /// Returns the handle of the serial port, if it is open, and the data to be written to it, if
    /// there is any.
    pub fn port_and_data(&mut self) -> (result: (Option<&mut P>, Option<&Data>))
        ensures
            match result.0 {
                Some(port) => {
                    &&& old(self).state().port.port == Some(*port)
                    &&& final(self).state() == (LoopView {
                        port: Port { port: Some(*final(port)), ..old(self).state().port },
                        ..old(self).state()
                    })
                },
                None => {
                    &&& old(self).state().port.port is None
                    &&& final(self).state() == old(self).state()
                },
            },
            old(self).state().pending == (match result.1 {
                Some(data) => Some(data@),
                None => None,
            }),
            final(self).offers() == old(self).offers(),
            final(self).requests() == old(self).requests(),
            final(self).notices() == old(self).notices(),
            final(self).sightings() == old(self).sightings(),
            forall|client: Client|
                #![trigger final(self).serves(client)]
                #![trigger old(self).serves(client)]
                final(self).serves(client) == old(self).serves(client),
    {
        (self.io.port.port.as_mut(), self.io.data_to_write.as_ref())
    }

    /// Carries out what a step of the loop asks for, as far as it concerns the client, and returns
    /// what is left to do.
    fn carry_out(&mut self, step: LoopStep) -> (action: ServerAction)
        requires
            !(step is Fetch),
        ensures
            Self::carried_out(*old(self), old(self).state(), step@, *final(self), action),
            final(self).requests() == old(self).requests(),
            final(self).sightings() == old(self).sightings(),
            forall|client: Client|
                #![trigger final(self).serves(client)]
                #![trigger old(self).serves(client)]
                final(self).serves(client) == old(self).serves(client),
    {
        match step {
            LoopStep::Deliver(data) => {
                match channel::send_data(&mut self.tx, data) {
                    Ok(()) => ServerAction::Again,
                    Err(()) => ServerAction::ClientGone,
                }
            },
            LoopStep::Connected => {
                match channel::send_device_state(&mut self.device_state, DeviceState::Connnected) {
                    Ok(()) => ServerAction::Connected,
                    Err(()) => ServerAction::ClientGone,
                }
            },
            LoopStep::Disconnected(error) => {
                match channel::send_device_state(&mut self.device_state, DeviceState::NotConnected) {
                    Ok(()) => ServerAction::Disconnected(error),
                    Err(()) => ServerAction::ClientGone,
                }
            },
            LoopStep::Fetch | LoopStep::Again => ServerAction::Again,
            LoopStep::Open => ServerAction::Open,
            LoopStep::Probe => ServerAction::Probe,
            LoopStep::Write => ServerAction::Write,
            LoopStep::Read => ServerAction::Read,
            LoopStep::Sleep => ServerAction::Sleep,
            LoopStep::Stop => ServerAction::Stop,
        }
    }

    /// Begins an iteration of the serial port communication loop.
    ///
    /// The actions that follow may block, so a separate thread should be used for the loop.
    pub fn begin(&mut self) -> (action: ServerAction)
        ensures
            Self::began(*old(self), *final(self), action),
            old(self).in_sync() && !(action is ClientGone) ==> final(self).in_sync(),
            !(action is ClientGone) ==> forall|client: Client|
                #![trigger final(self).serves(client)]
                #![trigger old(self).serves(client)]
                final(self).serves(client) == old(self).serves(client),
    {
        // Watch for termination signal
        let terminated = should_terminate(channel::signal_pending(&mut self.terminate_rx));

        assert(self.sightings().drop_last() =~= old(self).sightings());

        let step = self.io.begin(terminated);
        match step {
            LoopStep::Fetch => {
                let incoming = channel::receive_data(&mut self.rx);
                assert(self.requests().drop_last() =~= old(self).requests());
                match incoming {
                    Incoming::Data(data) => {
                        let step = self.io.fetched(Some(data));
                        self.carry_out(step)
                    },
                    Incoming::Empty => {
                        let step = self.io.fetched(None);
                        self.carry_out(step)
                    },
                    // The server should always be terminated before the client
                    Incoming::Closed => ServerAction::ClientGone,
                }
            },
            _ => self.carry_out(step),
        }
    }

    /// Takes in the outcome of opening the serial port.
    pub fn opened(&mut self, result: Result<P, SerialError>) -> (action: ServerAction)
        ensures
            Self::took_in(*old(self), LoopEvent::Opened(result), *final(self), action),
    {
        let step = self.io.opened(result);
        self.carry_out(step)
    }

    /// Takes in the outcome of checking whether a device is connected to the serial port.
    pub fn probed(&mut self, probe: Result<bool, SerialError>) -> (action: ServerAction)
        ensures
            Self::took_in(*old(self), LoopEvent::Probed(probe), *final(self), action),
    {
        let step = self.io.probed(probe);
        self.carry_out(step)
    }

    /// Takes in the outcome of writing the stored data to the serial port.
    pub fn wrote(&mut self, written: Result<usize, IoError>) -> (action: ServerAction)
        ensures
            Self::took_in(*old(self), LoopEvent::Wrote(written), *final(self), action),
    {
        let step = self.io.wrote(written);
        self.carry_out(step)
    }

    /// Takes in the outcome of reading from the serial port.
    pub fn read(&mut self, result: Result<Data, IoError>) -> (action: ServerAction)
        ensures
            Self::took_in(
                *old(self),
                LoopEvent::Read(
                    match result {
                        Ok(data) => Ok(data@),
                        Err(error) => Err(error),
                    },
                ),
                *final(self),
                action,
            ),
    {
        let step = self.io.read(result);
        self.carry_out(step)
    }
}

/// Law: a server and the client that it serves share three channels: one through which the server
/// gets the data of the client, one through which it hands over data from the device, and one
/// through which it tells the state of the device.
pub proof fn law_server_and_client_are_joined<P>(server: Server<P>, client: Client)
    requires
        server.serves(client),
    ensures
        exists|receiver: UnboundedReceiver<Data>|
            {
                &&& #[trigger] channel::linked(client.tx, receiver)
                &&& channel::polled(receiver) == server.requests()
            },
        exists|sender: UnboundedSender<Data>|
            {
                &&& #[trigger] channel::linked(sender, client.rx)
                &&& channel::offered(sender) == server.offers()
            },
        exists|sender: Sender<DeviceState>|
            {
                &&& #[trigger] channel::observed(sender, client.device_state)
                &&& channel::posted(sender) == server.notices()
            },
{
}

/// Law: a server is in step with its client exactly if the last thing that the client was told is
/// whether the port is accessible, and it was told.
pub proof fn law_clients_know_the_device<P>(server: Server<P>)
    ensures
        server.in_sync() <==> server.notices().len() > 0 && server.notices().last().1 && (
        server.notices().last().0 == DeviceState::Connnected <==> server.state().accessible),
{
}

} // verus!
