//! What passes through the serial I/O loop, and the laws that hold of it.

use vstd::prelude::*;

use super::port::Port;
use super::server::{
    IoLoop, LoopEvent, LoopStep, LoopView, Phase, Server, ServerAction, StepView,
};
use super::DeviceState;
use crate::channel::{Incoming, IncomingView};
use crate::error::{IoError, SerialError};

verus! {

/// Everything that has passed through the serial I/O loop.
pub struct Ledger {
    /// The bytes that were fetched to be written.
    pub fetched: Seq<u8>,
    /// The bytes that the serial port has accepted.
    pub written: Seq<u8>,
    /// The bytes that were read from the serial port.
    pub read: Seq<u8>,
    /// The bytes that were handed over to the client.
    pub delivered: Seq<u8>,
    /// The device state that the client was told last.
    pub told: DeviceState,
}

/// The serial I/O loop in the course of its work.
pub struct Progress<P> {
    /// The state of the loop.
    pub state: LoopView<P>,
    /// What the loop needs to have done next.
    pub step: StepView,
    /// What has passed through the loop.
    pub ledger: Ledger,
}

/// The bytes that wait to be written.
pub open spec fn waiting<P>(state: LoopView<P>) -> Seq<u8> {
    match state.pending {
        Some(data) => data,
        None => Seq::empty(),
    }
}

/// Whether an event is one that can come after the given step was carried out.
pub open spec fn answers<P>(event: LoopEvent<P>, step: StepView) -> bool {
    match event {
        LoopEvent::Begin(_) => {
            ||| step is Deliver
            ||| step is Connected
            ||| step is Disconnected
            ||| step is Again
            ||| step is Sleep
        },
        LoopEvent::Fetched(_) => step is Fetch,
        LoopEvent::Opened(_) => step is Open,
        LoopEvent::Probed(_) => step is Probe,
        LoopEvent::Wrote(_) => step is Write,
        LoopEvent::Read(_) => step is Read,
    }
}

impl Ledger {
    /// The ledger once `event` has met the loop in `state`, which led to `step`.
    pub open spec fn record<P>(self, state: LoopView<P>, event: LoopEvent<P>, step: StepView) -> Self {
        Ledger {
            fetched: match event {
                LoopEvent::Fetched(Some(data)) => self.fetched + data,
                _ => self.fetched,
            },
            written: match event {
                LoopEvent::Wrote(Ok(bytes)) => if bytes < waiting(state).len() {
                    self.written + waiting(state).take(bytes as int)
                } else {
                    self.written + waiting(state)
                },
                _ => self.written,
            },
            read: match event {
                LoopEvent::Read(Ok(data)) => self.read + data,
                _ => self.read,
            },
            delivered: match step {
                StepView::Deliver(data) => self.delivered + data,
                _ => self.delivered,
            },
            told: match step {
                StepView::Connected => DeviceState::Connnected,
                StepView::Disconnected(_) => DeviceState::NotConnected,
                _ => self.told,
            },
        }
    }
}

impl<P> Progress<P> {
    /// The loop before its first iteration.
    pub open spec fn start(port: Port<P>, accessible: bool) -> Self {
        Progress {
            state: LoopView { port, accessible, pending: None, phase: Phase::Idle },
            step: StepView::Again,
            ledger: Ledger {
                fetched: Seq::empty(),
                written: Seq::empty(),
                read: Seq::empty(),
                delivered: Seq::empty(),
                told: super::server::state_of(accessible),
            },
        }
    }

    /// The loop after one more event.
    pub open spec fn after(self, event: LoopEvent<P>) -> Self {
        let (state, step) = self.state.next(event);
        Progress { state, step, ledger: self.ledger.record(self.state, event, step) }
    }

    /// The loop after a sequence of events.
    pub open spec fn run(self, events: Seq<LoopEvent<P>>) -> Self
        decreases events.len(),
    {
        if events.len() == 0 {
            self
        } else {
            self.run(events.drop_last()).after(events.last())
        }
    }

    /// Whether each of a sequence of events answers the step that the loop has come to by then.
    pub open spec fn accepts(self, events: Seq<LoopEvent<P>>) -> bool
        decreases events.len(),
    {
        events.len() > 0 ==> {
            &&& self.accepts(events.drop_last())
            &&& answers(events.last(), self.run(events.drop_last()).step)
        }
    }

    /// What holds of the loop at all times.
    pub open spec fn balanced(self) -> bool {
        // No byte from the client is lost, added or reordered
        &&& self.ledger.fetched == self.ledger.written + waiting(self.state)
        // No byte from the device is lost, added or reordered
        &&& self.ledger.delivered == self.ledger.read
        // The client knows the state of the device
        &&& self.ledger.told == super::server::state_of(self.state.accessible)
        // Data is only fetched when nothing waits to be written
        &&& self.step is Fetch ==> self.state.pending is None
        // Only an open serial port is checked for a device
        &&& self.step is Probe ==> self.state.port.port is Some
        // The serial port is only used while it is accessible
        &&& self.step is Write ==> self.state.port.accessible() && self.state.pending is Some
        &&& self.step is Read ==> self.state.port.accessible()
        // The client is never handed an empty message
        &&& self.step matches StepView::Deliver(data) ==> data.len() > 0
        // The phase fits what is being done
        &&& self.state.phase is Writing ==> self.state.pending is Some
        &&& self.step is Write ==> self.state.phase is Writing
        &&& self.step is Read ==> self.state.phase is Reading
        &&& self.step is Open ==> self.state.phase is Opening
    }
}

/// Law: one more event that answers what the loop has asked for keeps [`Progress::balanced`].
pub proof fn law_balance_is_kept<P>(before: Progress<P>, event: LoopEvent<P>)
    requires
        before.balanced(),
        answers(event, before.step),
    ensures
        before.after(event).balanced(),
{
    let after = before.after(event);
    match event {
        LoopEvent::Fetched(data) => {
            assert(after.ledger.fetched =~= after.ledger.written + waiting(after.state));
        },
        LoopEvent::Wrote(Ok(bytes)) => {
            let data = waiting(before.state);
            if bytes < data.len() {
                assert(data.take(bytes as int) + data.skip(bytes as int) =~= data);
            }
            assert(after.ledger.fetched =~= after.ledger.written + waiting(after.state));
        },
        LoopEvent::Read(Ok(data)) => {
            assert(after.ledger.delivered =~= after.ledger.read);
        },
        _ => {},
    }
}

/// Law: whatever happens to the serial port, at all times everything that the client has sent was
/// written to the serial port or waits to be written, in order and once; everything that was read
/// from the serial port was handed to the client, in order and once; the client was told last
/// whether the port is accessible; and the serial port is only used while it is accessible.
pub proof fn law_nothing_is_lost<P>(port: Port<P>, accessible: bool, events: Seq<LoopEvent<P>>)
    requires
        Progress::start(port, accessible).accepts(events),
    ensures
        Progress::start(port, accessible).run(events).balanced(),
    decreases events.len(),
{
    let start = Progress::start(port, accessible);
    if events.len() == 0 {
        assert(start.ledger.fetched =~= start.ledger.written + waiting(start.state));
    } else {
        law_nothing_is_lost(port, accessible, events.drop_last());
        law_balance_is_kept(start.run(events.drop_last()), events.last());
    }
}

/// Law: a temporary failure to write to an open port, or to read, changes neither what waits to be
/// written nor what is known of the device, and the client is not told of it.
pub proof fn law_temporary_failures_are_ignored<P>(state: LoopView<P>, error: IoError)
    requires
        error.kind.temporary(),
    ensures
        state.port.port is Some ==> {
            let (after, step) = state.next(LoopEvent::Wrote(Err(error)));
            &&& after == (LoopView { phase: Phase::Reading, ..state })
            &&& step is Probe
        },
        ({
            let (after, step) = state.next(LoopEvent::Read(Err(error)));
            &&& after == (LoopView { phase: Phase::Idle, ..state })
            &&& step is Again
        }),
{
}

/// Law: any other failure to write or read is taken as a disconnection that the client is told of.
/// The error is reported as one of the serial port, nothing more is written or read in the
/// iteration, and what waits to be written is kept.
pub proof fn law_lasting_failures_disconnect<P>(state: LoopView<P>, error: IoError)
    requires
        !error.kind.temporary(),
    ensures
        state.next(LoopEvent::Wrote(Err(error))) == state.next(LoopEvent::Read(Err(error))),
        ({
            let (after, step) = state.next(LoopEvent::Wrote(Err(error)));
            &&& !after.accessible
            &&& after.pending == state.pending
            &&& after.port == state.port
            &&& step == StepView::Disconnected(error@.into_serial())
        }),
{
}

/// Law: if checking an open port before it is written to or read from fails for good, the error is
/// reported in the same way, and so is the lack of a device. A check that fails for a while closes the
/// port, so that a read that comes next in the iteration finds no device. What waits to be written is
/// kept.
pub proof fn law_failed_checks_disconnect<P>(state: LoopView<P>, probe: Result<bool, SerialError>)
    requires
        state.port.port is Some,
        state.phase is Writing || state.phase is Reading,
    ensures
        ({
            let (after, step) = state.next(LoopEvent::Probed(probe));
            &&& after.pending == state.pending
            &&& state.accessible ==> (step is Disconnected <==> !after.accessible)
            &&& after.port.port is None <==> probe is Err
            &&& match probe {
                Ok(true) => !(step is Disconnected),
                Ok(false) => step == StepView::Disconnected(
                    super::port::not_connected().into_serial(),
                ),
                Err(error) => if !crate::error::io_kind(error.kind).temporary() {
                    step == StepView::Disconnected(error@.into_io().into_serial())
                } else if state.phase is Writing {
                    step == StepView::Disconnected(super::port::not_connected().into_serial())
                } else {
                    step is Again
                },
            }
        }),
{
}

/// Law: while the port is open, a disconnection always has a cause: a lasting failure to write or to
/// read, or a check before one of the two that fails or finds no device. A check that fails for a
/// while before a read is no cause.
pub proof fn law_disconnections_have_a_cause<P>(state: LoopView<P>, event: LoopEvent<P>)
    requires
        state.port.port is Some,
    ensures
        state.next(event).1 is Disconnected ==> match event {
            LoopEvent::Wrote(Err(error)) => !error.kind.temporary(),
            LoopEvent::Read(Err(error)) => !error.kind.temporary(),
            LoopEvent::Probed(Ok(connected)) => {
                &&& !connected
                &&& state.phase is Writing || state.phase is Reading
            },
            LoopEvent::Probed(Err(error)) => {
                ||| state.phase is Writing
                ||| state.phase is Reading && !crate::error::io_kind(error.kind).temporary()
            },
            _ => false,
        },
{
}

/// Law: a closed port is not accessed. If the port was closed because checking it failed, however
/// briefly, the client is told that the device is gone before any data is written or read, and what
/// waits to be written is kept.
pub proof fn law_closed_port_is_reported<P>(
    state: LoopView<P>,
    fetched: Option<Seq<u8>>,
    error: SerialError,
)
    requires
        state.accessible,
    ensures
        state.port.port is None ==> {
            let begun = state.next(LoopEvent::Begin(false));
            let last = if state.pending is Some {
                begun
            } else {
                begun.0.next(LoopEvent::Fetched(fetched))
            };
            &&& state.pending is None ==> begun.1 is Fetch
            &&& last.1 == StepView::Disconnected(super::port::not_connected().into_serial())
            &&& !last.0.accessible
            &&& last.0.pending == (if state.pending is Some {
                state.pending
            } else {
                fetched
            })
        },
        state.port.port is Some && state.phase is Writing ==> {
            let (after, step) = state.next(LoopEvent::Probed(Err(error)));
            &&& step is Disconnected
            &&& !after.accessible
            &&& after.port.port is None
            &&& after.pending == state.pending
        },
{
}

/// Law: while the port is not accessible, each iteration tries to open it, or checks it for a device
/// if it is open already. Once that succeeds and a device is connected, the client is told, and the
/// next iteration turns first to the data that was left unwritten.
pub proof fn law_reconnection_resumes_writing<P>(
    state: LoopView<P>,
    opened: P,
    unopened: SerialError,
)
    requires
        !state.accessible,
    ensures
        ({
            let trying = state.next(LoopEvent::Begin(false));
            let failed = trying.0.next(LoopEvent::Opened(Err(unopened)));
            let checking = if state.port.port is Some {
                trying
            } else {
                trying.0.next(LoopEvent::Opened(Ok(opened)))
            };
            let missing = checking.0.next(LoopEvent::Probed(Ok(false)));
            let connected = checking.0.next(LoopEvent::Probed(Ok(true)));
            let resumed = connected.0.next(LoopEvent::Begin(false));
            // A port that is not open is opened. If that fails, it is tried again after a while
            &&& state.port.port is None ==> {
                &&& trying.1 is Open
                &&& failed.1 is Sleep
                &&& !failed.0.accessible
                &&& failed.0.pending == state.pending
                &&& failed.0.port.port is None
                &&& checking.0.port.port == Some(opened)
            }
            // An open port is checked for a device. If there is none, it is checked again after a
            // while
            &&& checking.1 is Probe
            &&& missing.1 is Sleep
            &&& !missing.0.accessible
            &&& missing.0.pending == state.pending
            &&& missing.0.port.port == checking.0.port.port
            // If there is one, the client is told
            &&& connected.1 is Connected
            &&& connected.0.accessible
            &&& connected.0.port.port == checking.0.port.port
            &&& connected.0.pending == state.pending
            // Unwritten data comes before new data
            &&& resumed.1 is Fetch <==> state.pending is None
            &&& state.pending is Some ==> resumed.0.phase is Writing
        }),
{
}

/// Law: a termination signal ends the loop when the next iteration begins, whatever the state of the
/// device, and the loop does not end for any other reason.
pub proof fn law_only_termination_ends_the_loop<P>(state: LoopView<P>, event: LoopEvent<P>)
    ensures
        state.next(event).1 is Stop <==> event == LoopEvent::<P>::Begin(true),
{
}

/// Law: a device that was unplugged is found again. Whatever the loop was doing, a check that fails
/// closes the port. Once the port is not accessible, each iteration asks for it to be opened anew
/// until that succeeds, and a device that answers on the new port is announced.
pub proof fn law_unplugged_device_is_reopened<P>(
    state: LoopView<P>,
    error: SerialError,
    unopened: SerialError,
    opened: P,
)
    ensures
        ({
            let (closed, step) = state.next(LoopEvent::Probed(Err(error)));
            let trying = closed.next(LoopEvent::Begin(false));
            let failed = trying.0.next(LoopEvent::Opened(Err(unopened)));
            let again = failed.0.next(LoopEvent::Begin(false));
            let back = again.0.next(LoopEvent::Opened(Ok(opened)));
            let unplugged = back.0.next(LoopEvent::Probed(Err(error)));
            let found = back.0.next(LoopEvent::Probed(Ok(true)));
            &&& closed.port.port is None
            &&& closed.pending == state.pending
            &&& step is Disconnected ==> !closed.accessible
            &&& !closed.accessible ==> {
                &&& trying.1 is Open
                &&& failed.1 is Sleep
                &&& again.1 is Open
                &&& back.1 is Probe
                // It is unplugged once more
                &&& unplugged.1 is Sleep
                &&& unplugged.0.port.port is None
                &&& unplugged.0.next(LoopEvent::Begin(false)).1 is Open
                // It answers
                &&& found.1 is Connected
                &&& found.0.accessible
                &&& found.0.port.port == Some(opened)
                &&& found.0.pending == state.pending
            }
        }),
{
}

/// Law: as long as the device is there, each iteration writes what waits to be written, or else what
/// the client has sent, and then reads. All of the data is up to be written; what the port did not
/// accept is the rest of it and waits for the next iteration. What was read is handed over whole.
pub proof fn law_iterations_write_and_read<P>(
    state: LoopView<P>,
    fetched: Option<Seq<u8>>,
    bytes: usize,
    read: Seq<u8>,
)
    requires
        state.accessible,
        state.port.port is Some,
    ensures
        ({
            let data = if state.pending is Some {
                state.pending
            } else {
                fetched
            };
            let begun = state.next(LoopEvent::Begin(false));
            let turned = if state.pending is Some {
                begun
            } else {
                begun.0.next(LoopEvent::Fetched(fetched))
            };
            let writing = turned.0.next(LoopEvent::Probed(Ok(true)));
            let written = if data is Some {
                writing.0.next(LoopEvent::Wrote(Ok(bytes)))
            } else {
                turned
            };
            let reading = written.0.next(LoopEvent::Probed(Ok(true)));
            let done = reading.0.next(LoopEvent::Read(Ok(read)));
            // New data is only fetched if nothing is left
            &&& begun.1 is Fetch <==> state.pending is None
            &&& turned.1 is Probe
            &&& turned.0.pending == data
            // All the data is to be written, and the port is checked again before it is read from
            &&& data matches Some(all) ==> {
                &&& writing.1 is Write
                &&& writing.0.pending == data
                &&& written.1 is Probe
                &&& match written.0.pending {
                    Some(rest) => rest.len() > 0 && rest.len() + bytes == all.len() && all
                        == all.take(bytes as int) + rest,
                    None => bytes >= all.len(),
                }
            }
            &&& reading.1 is Read
            // The iteration ends as it began
            &&& done.1 == (if read.len() > 0 {
                StepView::Deliver(read)
            } else {
                StepView::Again
            })
            &&& done.0.pending == written.0.pending
            &&& done.0.accessible
            &&& done.0.port.port == state.port.port
        }),
{
    let data = if state.pending is Some {
        state.pending
    } else {
        fetched
    };
    if let Some(all) = data {
        if bytes < all.len() {
            assert(all.take(bytes as int) + all.skip(bytes as int) =~= all);
        }
    }
}

/// Law: the serial port is written to or read from exactly when a check just before has found a
/// device, and checked or opened exactly as the state of the port demands.
pub proof fn law_port_is_used_after_a_check<P>(state: LoopView<P>, event: LoopEvent<P>)
    ensures
        ({
            let step = state.next(event).1;
            let open = state.port.port is Some;
            let found = event == LoopEvent::<P>::Probed(Ok(true)) && open;
            let begun = event == LoopEvent::<P>::Begin(false);
            &&& step is Write <==> found && state.phase is Writing
            &&& step is Read <==> found && state.phase is Reading
            &&& step is Connected <==> found && state.phase is Opening
            &&& step is Fetch <==> begun && state.accessible && state.pending is None
            &&& step is Open <==> begun && !state.accessible && !open
            &&& step is Probe <==> {
                ||| begun && open && (!state.accessible || state.pending is Some)
                ||| event is Fetched && open
                ||| event matches LoopEvent::Opened(Ok(_))
                ||| (event matches LoopEvent::Wrote(Ok(_))) && open
                ||| (event matches LoopEvent::Wrote(Err(error)) && error.kind.temporary()) && open
            }
        }),
{
}

/// Law: the client is told that the device is gone exactly if the port is to be accessed while it is
/// closed, an access fails for good, or a check before one does or finds no device.
pub proof fn law_disconnections_are_announced<P>(state: LoopView<P>, event: LoopEvent<P>)
    ensures
        ({
            let step = state.next(event).1;
            let open = state.port.port is Some;
            let accessing = state.phase is Writing || state.phase is Reading;
            step is Disconnected <==> match event {
                LoopEvent::Begin(terminated) => {
                    !terminated && state.accessible && state.pending is Some && !open
                },
                LoopEvent::Fetched(_) => !open,
                LoopEvent::Opened(_) => false,
                LoopEvent::Probed(Ok(connected)) => accessing && !(open && connected),
                LoopEvent::Probed(Err(error)) => {
                    ||| state.phase is Writing
                    ||| state.phase is Reading && !(open && crate::error::io_kind(
                        error.kind,
                    ).temporary())
                },
                LoopEvent::Wrote(Ok(_)) => !open,
                LoopEvent::Wrote(Err(error)) => !(open && error.kind.temporary()),
                LoopEvent::Read(Ok(_)) => false,
                LoopEvent::Read(Err(error)) => !error.kind.temporary(),
            }
        }),
{
}

/// Law: an iteration that comes to nothing is followed by the next one at once if the port is
/// accessible, and after a while if it could not be opened or has no device.
pub proof fn law_retries_are_spaced<P>(state: LoopView<P>, event: LoopEvent<P>)
    ensures
        ({
            let step = state.next(event).1;
            &&& step is Sleep <==> {
                ||| event matches LoopEvent::Opened(Err(_))
                ||| event is Probed && state.phase is Opening && !(event
                    == LoopEvent::<P>::Probed(Ok(true)) && state.port.port is Some)
            }
            &&& step is Again <==> {
                ||| event matches LoopEvent::Read(Ok(data)) && data.len() == 0
                ||| event matches LoopEvent::Read(Err(error)) && error.kind.temporary()
                ||| event is Probed && state.phase is Idle
                ||| {
                    &&& state.phase is Reading
                    &&& state.port.port is Some
                    &&& event matches LoopEvent::Probed(Err(error))
                    &&& crate::error::io_kind(error.kind).temporary()
                }
            }
        }),
{
}

/// Law: what was read is handed to the client, all of it and nothing else, exactly if there is any.
pub proof fn law_read_data_is_handed_over<P>(state: LoopView<P>, event: LoopEvent<P>, data: Seq<u8>)
    ensures
        state.next(event).1 == StepView::Deliver(data) <==> data.len() > 0 && event
            == LoopEvent::<P>::Read(Ok(data)),
        state.next(event).1 is Deliver ==> event matches LoopEvent::Read(Ok(_)),
{
}

/// Law: an event changes nothing that it does not concern. Data waits to be written until it is
/// written. The handle of the port is kept until a check fails or the port is opened anew. The port
/// counts as accessible, or not, until the client is told otherwise.
pub proof fn law_events_change_what_they_concern<P>(state: LoopView<P>, event: LoopEvent<P>)
    ensures
        ({
            let (after, step) = state.next(event);
            // What waits to be written
            &&& match event {
                LoopEvent::Fetched(data) => after.pending == data,
                LoopEvent::Wrote(Ok(bytes)) => match (state.pending, after.pending) {
                    (Some(all), Some(rest)) => rest.len() > 0 && rest.len() + bytes == all.len()
                        && all == all.take(bytes as int) + rest,
                    (Some(all), None) => bytes >= all.len(),
                    (None, rest) => rest is None,
                },
                _ => after.pending == state.pending,
            }
            // The handle of the port, and whether there is a device
            &&& match event {
                LoopEvent::Opened(Ok(port)) => {
                    after.port.port == Some(port) && !after.port.device_connected
                },
                LoopEvent::Opened(Err(_)) => after.port.port is None,
                LoopEvent::Probed(Err(_)) => after.port.port is None,
                LoopEvent::Probed(Ok(connected)) => {
                    &&& after.port.port == state.port.port
                    &&& state.port.port is Some ==> after.port.device_connected == connected
                },
                _ => after.port.port == state.port.port,
            }
            &&& after.port.port is None && event is Probed ==> !after.port.device_connected
            // Whether the port counts as accessible
            &&& after.accessible == (if step is Connected {
                true
            } else if step is Disconnected {
                false
            } else {
                state.accessible
            })
        }),
{
    if let LoopEvent::Wrote(Ok(bytes)) = event {
        if let Some(all) = state.pending {
            if bytes < all.len() {
                assert(all.take(bytes as int) + all.skip(bytes as int) =~= all);
            }
        }
    }
}

/// Law: the loop keeps in mind what it checks the port for: to reopen it while it is not accessible,
/// to write while data waits, and to read otherwise. Between iterations it has nothing in mind.
pub proof fn law_phase_fits_the_step<P>(state: LoopView<P>, event: LoopEvent<P>)
    ensures
        ({
            let (after, step) = state.next(event);
            &&& step is Probe ==> match event {
                LoopEvent::Begin(_) => after.phase == (if state.accessible {
                    Phase::Writing
                } else {
                    Phase::Opening
                }),
                LoopEvent::Fetched(data) => after.phase == (if data is Some {
                    Phase::Writing
                } else {
                    Phase::Reading
                }),
                LoopEvent::Wrote(_) => after.phase is Reading,
                _ => after.phase == state.phase,
            }
            &&& step is Open ==> after.phase is Opening
            &&& step is Write ==> after.phase is Writing
            &&& step is Read ==> after.phase is Reading
            &&& !(step is Probe || step is Open || step is Write || step is Read)
                ==> after.phase is Idle
        }),
{
}

/// Law: what is left after a write is the data without its first bytes, and nothing is left exactly
/// if all of it was written.
pub proof fn law_partial_writes_leave_the_rest(data: Seq<u8>, bytes: nat)
    ensures
        match super::server::unwritten(data, bytes) {
            Some(rest) => {
                &&& rest.len() > 0
                &&& bytes + rest.len() == data.len()
                &&& data.take(bytes as int) + rest == data
            },
            None => bytes >= data.len(),
        },
{
    if bytes < data.len() {
        assert(data.take(bytes as int) + data.skip(bytes as int) =~= data);
    }
}

/// Law: the loop and its steps are seen as they are.
pub proof fn law_loop_is_seen_whole<P>(
    io: IoLoop<P>,
    data: Vec<u8>,
    error: SerialError,
    incoming: Incoming,
)
    ensures
        io@.port == io.port,
        io@.accessible == io.port_accessible,
        io@.phase == io.phase,
        io@.pending is Some <==> io.data_to_write is Some,
        io@.pending matches Some(pending) ==> pending == io.data_to_write->0@,
        LoopStep::Deliver(data)@ == StepView::Deliver(data@),
        LoopStep::Disconnected(error)@ == StepView::Disconnected(error@),
        incoming is Empty <==> incoming@ is Empty,
        incoming is Closed <==> incoming@ is Closed,
        Incoming::Data(data)@ == IncomingView::Data(data@),
{
}

/// Law: the server takes in what happened to the serial port as the loop does, does for the client
/// what the loop asks for, and leaves the rest to its caller. Data that was read is offered to the
/// client whole and once. The client is told of the device exactly when its state is found to
/// change, and the caller learns of it, and of the error, only if the client could be told.
pub proof fn law_server_does_as_the_loop_asks<P>(
    before: Server<P>,
    event: LoopEvent<P>,
    after: Server<P>,
    action: ServerAction,
)
    requires
        Server::took_in(before, event, after, action),
    ensures
        ({
            let (state, step) = before.state().next(event);
            let told = !(action is ClientGone);
            &&& after.state() == state
            // What the client is given
            &&& match event {
                LoopEvent::Read(Ok(data)) => after.offers() == (if data.len() > 0 {
                    before.offers().push((data, told))
                } else {
                    before.offers()
                }),
                _ => after.offers() == before.offers(),
            }
            // What the client is told
            &&& step is Connected ==> after.notices() == before.notices().push(
                (DeviceState::Connnected, told),
            )
            &&& step is Disconnected ==> after.notices() == before.notices().push(
                (DeviceState::NotConnected, told),
            )
            &&& !(step is Connected || step is Disconnected) ==> after.notices()
                == before.notices()
            // Nothing is asked of the client
            &&& after.requests() == before.requests()
            &&& after.sightings() == before.sightings()
            // What the caller has to do
            &&& action is Open <==> step is Open
            &&& action is Probe <==> step is Probe
            &&& action is Write <==> step is Write
            &&& action is Read <==> step is Read
            &&& action is Sleep <==> step is Sleep
            &&& action is Stop <==> step is Stop
            &&& action is Connected <==> step is Connected && told
            &&& action is Disconnected <==> step is Disconnected && told
            &&& action matches ServerAction::Disconnected(error) ==> step
                == StepView::Disconnected(error@)
            &&& !told ==> step is Deliver || step is Connected || step is Disconnected
        }),
{
    law_read_data_is_handed_over(before.state(), event, arbitrary());
    if let LoopEvent::Read(Ok(data)) = event {
        law_read_data_is_handed_over(before.state(), event, data);
    }
}

/// Law: an iteration begins with one look for a termination signal, which ends the loop if it is
/// there or its sender is gone. Otherwise the client is asked for data exactly if the port is
/// accessible and nothing waits to be written, and what the client has sent waits to be written.
pub proof fn law_server_begins_as_the_loop_asks<P>(
    before: Server<P>,
    after: Server<P>,
    action: ServerAction,
)
    requires
        Server::began(before, after, action),
    ensures
        ({
            let seen = after.sightings().last();
            let terminated = seen is Err || seen == Ok::<bool, ()>(true);
            let asked = !terminated && before.state().accessible && before.state().pending is None;
            // One look
            &&& after.sightings().len() == before.sightings().len() + 1
            &&& after.sightings().drop_last() == before.sightings()
            &&& action is Stop <==> terminated
            // No data from the device is handed over
            &&& after.offers() == before.offers()
            // The client is asked, or not
            &&& !asked ==> after.requests() == before.requests() && after.state().pending
                == before.state().pending
            &&& asked ==> {
                &&& after.requests().len() == before.requests().len() + 1
                &&& after.requests().drop_last() == before.requests()
                &&& match after.requests().last() {
                    IncomingView::Data(data) => after.state().pending == Some(data),
                    IncomingView::Empty => after.state().pending is None,
                    IncomingView::Closed => {
                        &&& action is ClientGone
                        &&& after.state().pending is None
                        &&& after.notices() == before.notices()
                    },
                }
            }
            // An open port is checked next, and a closed one is opened if it is known to be lost
            &&& !terminated && !before.state().accessible ==> {
                &&& before.state().port.port is Some ==> action is Probe
                &&& before.state().port.port is None ==> action is Open
                &&& after.notices() == before.notices()
            }
            &&& !terminated && before.state().accessible && before.state().port.port is Some ==> {
                &&& action is Probe || action is ClientGone
                &&& action is ClientGone ==> asked && after.requests().last() is Closed
                &&& after.notices() == before.notices()
            }
            // The port is left alone
            &&& after.state().port.port == before.state().port.port
        }),
{
    let seen = after.sightings().last();
    let terminated = super::server::must_terminate(seen);
    let (state, step) = before.state().next(LoopEvent::Begin(terminated));
    assert(after.sightings().len() == after.sightings().drop_last().len() + 1);
    if step is Fetch {
        assert(after.requests().len() == after.requests().drop_last().len() + 1);
    }
}

} // verus!
