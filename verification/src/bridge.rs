//! The life of the bridge as a whole.

use vstd::prelude::*;

verus! {

/// What the bridge is doing.
#[derive(Clone, Copy, Debug, PartialEq, Eq, Structural)]
pub enum BridgePhase {
    /// It is serving connections.
    Running,
    /// It is telling all tasks and threads to terminate.
    Forwarding,
    /// It is waiting for the task that listens for connections to finish.
    AwaitingListener,
    /// It is waiting for the tasks that handle connections to finish.
    AwaitingConnections,
    /// It is waiting for the serial I/O server to finish.
    AwaitingServer,
    /// It has shut down.
    Finished,
}

/// Something that happens to the bridge.
#[derive(Clone, Copy, Debug, PartialEq, Eq, Structural)]
pub enum BridgeEvent {
    /// The process was interrupted, or cannot be any more.
    Interrupted,
    /// The handle of the bridge sent a termination signal, or was dropped without sending one.
    Handle(bool),
    /// The serial I/O server shut down.
    ServerExited,
    /// What had to be done is done.
    Done,
}

/// What has to be done for the bridge.
#[derive(Clone, Copy, Debug, PartialEq, Eq, Structural)]
pub enum BridgeAction {
    /// Watch for a reason to shut down.
    Watch,
    /// Forward the termination signal to all tasks and threads.
    ForwardTermination,
    /// Wait for the task that listens for connections.
    AwaitListener,
    /// Wait for all tasks that handle connections.
    AwaitConnections,
    /// Wait for the serial I/O server.
    AwaitServer,
    /// Nothing: the bridge has shut down.
    Finish,
}

/// The state of the bridge.
#[derive(Clone, Copy, Debug, PartialEq, Eq, Structural)]
pub struct Bridge {
    /// What the bridge is doing.
    pub phase: BridgePhase,
    /// Whether the serial I/O server is still running as far as is known.
    pub server_running: bool,
}

impl Bridge {
    /// What is to be done.
    pub open spec fn task(self) -> BridgeAction {
        match self.phase {
            BridgePhase::Running => BridgeAction::Watch,
            BridgePhase::Forwarding => BridgeAction::ForwardTermination,
            BridgePhase::AwaitingListener => BridgeAction::AwaitListener,
            BridgePhase::AwaitingConnections => BridgeAction::AwaitConnections,
            BridgePhase::AwaitingServer => BridgeAction::AwaitServer,
            BridgePhase::Finished => BridgeAction::Finish,
        }
    }

    /// What an event leads to. Events that do not concern the phase change nothing.
    pub open spec fn next(self, event: BridgeEvent) -> Self {
        match (self.phase, event) {
            (BridgePhase::Running, BridgeEvent::Interrupted) => Bridge {
                phase: BridgePhase::Forwarding,
                ..self
            },
            // Only terminate if a signal was actually sent
            (BridgePhase::Running, BridgeEvent::Handle(true)) => Bridge {
                phase: BridgePhase::Forwarding,
                ..self
            },
            // This should be impossible
            (BridgePhase::Running, BridgeEvent::ServerExited) => Bridge {
                phase: BridgePhase::Forwarding,
                server_running: false,
            },
            (BridgePhase::Forwarding, BridgeEvent::Done) => Bridge {
                phase: BridgePhase::AwaitingListener,
                ..self
            },
            (BridgePhase::AwaitingListener, BridgeEvent::Done) => Bridge {
                phase: BridgePhase::AwaitingConnections,
                ..self
            },
            (BridgePhase::AwaitingConnections, BridgeEvent::Done) => Bridge {
                phase: if self.server_running {
                    BridgePhase::AwaitingServer
                } else {
                    BridgePhase::Finished
                },
                ..self
            },
            (BridgePhase::AwaitingServer, BridgeEvent::Done) => Bridge {
                phase: BridgePhase::Finished,
                server_running: false,
            },
            _ => self,
        }
    }

    /// Returns a bridge that has just been launched.
    pub fn new() -> (bridge: Self)
        ensures
            bridge == (Bridge { phase: BridgePhase::Running, server_running: true }),
    {
        Bridge { phase: BridgePhase::Running, server_running: true }
    }

    /// Returns what has to be done for the bridge.
    pub fn action(&self) -> (action: BridgeAction)
        ensures
            action == self.task(),
    {
        match self.phase {
            BridgePhase::Running => BridgeAction::Watch,
            BridgePhase::Forwarding => BridgeAction::ForwardTermination,
            BridgePhase::AwaitingListener => BridgeAction::AwaitListener,
            BridgePhase::AwaitingConnections => BridgeAction::AwaitConnections,
            BridgePhase::AwaitingServer => BridgeAction::AwaitServer,
            BridgePhase::Finished => BridgeAction::Finish,
        }
    }

    /// Takes in an event.
    pub fn handle(&mut self, event: BridgeEvent)
        ensures
            *final(self) == old(self).next(event),
    {
        match event {
            BridgeEvent::Interrupted | BridgeEvent::Handle(true) => {
                if let BridgePhase::Running = self.phase {
                    self.phase = BridgePhase::Forwarding;
                }
            },
            BridgeEvent::Handle(false) => {},
            BridgeEvent::ServerExited => {
                if let BridgePhase::Running = self.phase {
                    self.phase = BridgePhase::Forwarding;
                    self.server_running = false;
                }
            },
            BridgeEvent::Done => {
                match self.phase {
                    BridgePhase::Running | BridgePhase::Finished => {},
                    BridgePhase::Forwarding => {
                        self.phase = BridgePhase::AwaitingListener;
                    },
                    BridgePhase::AwaitingListener => {
                        self.phase = BridgePhase::AwaitingConnections;
                    },
                    BridgePhase::AwaitingConnections => {
                        // Wait for the serial I/O server to exit if it hasn't already
                        self.phase = if self.server_running {
                            BridgePhase::AwaitingServer
                        } else {
                            BridgePhase::Finished
                        };
                    },
                    BridgePhase::AwaitingServer => {
                        self.phase = BridgePhase::Finished;
                        self.server_running = false;
                    },
                }
            },
        }
    }
}

/// Law: a running bridge does not shut down because its handle is dropped. It shuts down for any
/// other reason: it tells all tasks and threads, waits for the listener and then for the
/// connections, and then waits for the serial I/O server unless that is why it shuts down.
pub proof fn law_shutdown_runs_its_course(bridge: Bridge, reason: BridgeEvent)
    requires
        bridge.phase is Running,
        bridge.server_running,
        !(reason is Done),
    ensures
        reason == BridgeEvent::Handle(false) ==> bridge.next(reason) == bridge,
        reason != BridgeEvent::Handle(false) ==> {
            let told = bridge.next(reason);
            let deaf = told.next(BridgeEvent::Done);
            let alone = deaf.next(BridgeEvent::Done);
            let done = alone.next(BridgeEvent::Done);
            &&& told.task() is ForwardTermination
            &&& deaf.task() is AwaitListener
            &&& alone.task() is AwaitConnections
            &&& reason is ServerExited ==> done.task() is Finish
            &&& !(reason is ServerExited) ==> {
                &&& done.task() is AwaitServer
                &&& done.next(BridgeEvent::Done).task() is Finish
            }
        },
{
}

/// Law: only what is asked for moves a shutdown on. A bridge that shuts down does so one step at a
/// time, each one when the one before is done, and nothing else that happens stops it, hurries it or
/// starts it again.
pub proof fn law_shutdown_is_not_disturbed(bridge: Bridge, event: BridgeEvent)
    ensures
        bridge.phase is Running && event is Done ==> bridge.next(event) == bridge,
        !(bridge.phase is Running) && !(event is Done) ==> bridge.next(event) == bridge,
        bridge.phase is Finished ==> bridge.next(event) == bridge,
        !(bridge.phase is Running) && !(bridge.phase is Finished) ==> bridge.next(
            BridgeEvent::Done,
        ).phase != bridge.phase,
        // The server is only known to have exited if it was seen to
        bridge.server_running && !bridge.next(event).server_running <==> {
            &&& bridge.server_running
            &&& {
                ||| bridge.phase is Running && event is ServerExited
                ||| bridge.phase is AwaitingServer && event is Done
            }
        },
        bridge.next(event).server_running ==> bridge.server_running,
{
}

/// Law: a step of a shutdown comes after the one before it and no other.
pub proof fn law_shutdown_keeps_its_order(bridge: Bridge, event: BridgeEvent)
    ensures
        ({
            let after = bridge.next(event);
            let moved = after.phase != bridge.phase;
            &&& !(moved && after.phase is Running)
            &&& moved && after.phase is Forwarding <==> {
                &&& bridge.phase is Running
                &&& event == BridgeEvent::Interrupted || event == BridgeEvent::Handle(true) || event
                    == BridgeEvent::ServerExited
            }
            &&& moved && after.phase is AwaitingListener <==> bridge.phase is Forwarding && event
                == BridgeEvent::Done
            &&& moved && after.phase is AwaitingConnections <==> bridge.phase is AwaitingListener
                && event == BridgeEvent::Done
            &&& moved && after.phase is AwaitingServer <==> {
                &&& bridge.phase is AwaitingConnections
                &&& event == BridgeEvent::Done
                &&& bridge.server_running
            }
            &&& moved && after.phase is Finished <==> event == BridgeEvent::Done && {
                ||| bridge.phase is AwaitingConnections && !bridge.server_running
                ||| bridge.phase is AwaitingServer
            }
        }),
{
}

/// Law: each phase of the bridge has its own task.
pub proof fn law_each_phase_has_its_task(bridge: Bridge)
    ensures
        bridge.task() is Watch <==> bridge.phase is Running,
        bridge.task() is ForwardTermination <==> bridge.phase is Forwarding,
        bridge.task() is AwaitListener <==> bridge.phase is AwaitingListener,
        bridge.task() is AwaitConnections <==> bridge.phase is AwaitingConnections,
        bridge.task() is AwaitServer <==> bridge.phase is AwaitingServer,
        bridge.task() is Finish <==> bridge.phase is Finished,
{
}

} // verus!
