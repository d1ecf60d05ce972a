//! What a client gets to hear over the course of its connection, and the laws that hold of it.

use vstd::prelude::*;

use crate::connection::{Action, Event, Response, State};
use crate::message::Message;
use crate::serial::DeviceState;

verus! {

/// Something that is sent to a client.
pub enum Utterance {
    /// A response of the bridge, which is a text message.
    Text(Response),
    /// Data from the device, which is a binary message.
    Binary(Seq<u8>),
}

/// Something that happens to a connection, including the data that passes through it.
pub enum Occurrence {
    /// An event that concerns the state of the connection.
    Event(Event),
    /// A message from the client.
    Message(Message),
    /// Data from the device.
    DeviceData(Seq<u8>),
}

/// A connection in the course of its life.
pub struct Dialogue {
    /// Whether the client had to wait when it connected.
    pub queued: bool,
    /// The state of the connection.
    pub state: State,
    /// What was sent to the client, oldest first.
    pub said: Seq<Utterance>,
    /// The data that was forwarded to the device, oldest first.
    pub forwarded: Seq<Seq<u8>>,
}

/// What a client is told until it is being served.
pub open spec fn greeting(queued: bool) -> Seq<Utterance> {
    if queued {
        seq![Utterance::Text(Response::WaitInQueue), Utterance::Text(Response::BeingServed)]
    } else {
        Seq::empty()
    }
}

/// Whether a client gets to hear this much and nothing else:
/// - the greeting, or a part of it; or
/// - after it was told to wait, that the bridge is shutting down; or
/// - the greeting and, if the device is not connected, that it is not; or
/// - the greeting, then data from the device, and then at most one reason for the end.
pub open spec fn proper(queued: bool, said: Seq<Utterance>) -> bool {
    let served = greeting(queued).len();
    let last = said.len() - 1;
    ||| said.len() <= served && said == greeting(queued).take(said.len() as int)
    ||| queued && said == seq![
        Utterance::Text(Response::WaitInQueue),
        Utterance::Text(Response::BridgeShutdown),
    ]
    ||| {
        &&& said.len() > served
        &&& said.take(served as int) == greeting(queued)
        &&& forall|i: int| served <= i < last ==> (#[trigger] said[i]) is Binary
        &&& match said[last] {
            Utterance::Binary(_) => true,
            Utterance::Text(Response::BridgeShutdown) => true,
            Utterance::Text(Response::DeviceDisconnected) => true,
            Utterance::Text(Response::DeviceNotConnected) => last == served,
            Utterance::Text(_) => false,
        }
    }
}

/// Whether a response tells the client why the connection ends.
pub open spec fn is_parting(response: Response) -> bool {
    ||| response is BridgeShutdown
    ||| response is DeviceNotConnected
    ||| response is DeviceDisconnected
}

impl Dialogue {
    /// A connection that has just been established.
    pub open spec fn start(queued: bool) -> Self {
        Dialogue {
            queued,
            state: if queued {
                State::Joining
            } else {
                State::Starting
            },
            said: Seq::empty(),
            forwarded: Seq::empty(),
        }
    }

    /// The connection after one more occurrence. A response counts as sent whether or not it
    /// reached the client.
    pub open spec fn after(self, occurrence: Occurrence) -> Self {
        match occurrence {
            Occurrence::Event(event) => Dialogue {
                state: self.state.next(event),
                said: match (self.state.task(), event) {
                    (Action::Send(response), Event::Sent(_)) => self.said.push(
                        Utterance::Text(response),
                    ),
                    _ => self.said,
                },
                ..self
            },
            Occurrence::Message(message) => Dialogue {
                state: self.state.after_message(message),
                forwarded: match self.state.forwards(message) {
                    Some(data) => self.forwarded.push(data),
                    None => self.forwarded,
                },
                ..self
            },
            Occurrence::DeviceData(data) => Dialogue {
                said: if self.state is Active {
                    self.said.push(Utterance::Binary(data))
                } else {
                    self.said
                },
                ..self
            },
        }
    }

    /// The connection after a sequence of occurrences.
    pub open spec fn run(self, occurrences: Seq<Occurrence>) -> Self
        decreases occurrences.len(),
    {
        if occurrences.len() == 0 {
            self
        } else {
            self.run(occurrences.drop_last()).after(occurrences.last())
        }
    }

    /// Whether the client has been told the whole greeting.
    pub open spec fn greeted(self) -> bool {
        let served = greeting(self.queued).len();
        self.said.len() >= served && self.said.take(served as int) == greeting(self.queued)
    }

    /// Whether the client has been greeted and has heard nothing but data from the device since.
    pub open spec fn conversing(self) -> bool {
        &&& self.greeted()
        &&& forall|i: int|
            greeting(self.queued).len() <= i < self.said.len() ==> (
            #[trigger] self.said[i]) is Binary
    }

    /// Whether the client waits in the queue and has been told so.
    pub open spec fn waiting(self) -> bool {
        self.queued && self.said == greeting(true).take(1)
    }

    /// What holds of a connection at all times.
    pub open spec fn orderly(self) -> bool {
        // The client hears what it should
        &&& proper(self.queued, self.said)
        // Nothing reaches the device before the client has been greeted
        &&& self.forwarded.len() > 0 ==> self.greeted()
        // A client that was told why the connection ends is being disconnected
        &&& self.said.len() > 0 ==> (self.said.last() matches Utterance::Text(response) ==> (
        is_parting(response) ==> self.state is Closing || self.state is Closed))
        // What was said fits the state
        &&& match self.state {
            State::Joining => self.queued && self.said.len() == 0,
            State::Waiting | State::Promoting => self.waiting(),
            State::Starting => self.said == greeting(self.queued),
            State::Active => self.conversing(),
            State::Leaving(reason) => match reason {
                Response::BridgeShutdown => self.waiting() || self.conversing(),
                Response::DeviceNotConnected => self.said == greeting(self.queued),
                Response::DeviceDisconnected => self.conversing(),
                _ => false,
            },
            State::Closing | State::Closed => true,
        }
    }
}

/// Law: one more occurrence keeps [`Dialogue::orderly`].
pub proof fn law_order_is_kept(before: Dialogue, occurrence: Occurrence)
    requires
        before.orderly(),
    ensures
        before.after(occurrence).orderly(),
{
    let after = before.after(occurrence);
    let served = greeting(before.queued).len() as int;
    let said = before.said;
    assert(said.len() >= served ==> said.take(served).len() == served);
    if after.said.len() > said.len() {
        assert(after.said.drop_last() =~= said);
        assert(said.len() >= served ==> after.said.take(served) =~= said.take(served));
    }
    assert(greeting(before.queued).take(served) =~= greeting(before.queued));
    assert(greeting(true).take(1) =~= seq![Utterance::Text(Response::WaitInQueue)]);
    assert(greeting(true).take(0) =~= Seq::<Utterance>::empty());
    match before.state {
        State::Joining => {
            assert(after.said =~= said || after.said =~= greeting(true).take(1));
        },
        State::Promoting => {
            assert(after.said =~= said || after.said =~= greeting(true));
        },
        State::Leaving(reason) => {
            if before.waiting() {
                assert(after.said =~= said || after.said =~= seq![
                    Utterance::Text(Response::WaitInQueue),
                    Utterance::Text(reason),
                ]);
            }
        },
        _ => {},
    }
}

/// Law: whatever happens, a client hears the greeting in full before anything else, then only data
/// from the device, and at the end at most one reason, after which it is disconnected. In
/// particular it is told that the device is not connected only right after the greeting, it is told
/// that the device has disconnected only if it was not told the former, and nothing that it sends
/// reaches the device before it is being served.
pub proof fn law_every_dialogue_is_orderly(queued: bool, occurrences: Seq<Occurrence>)
    ensures
        Dialogue::start(queued).run(occurrences).orderly(),
    decreases occurrences.len(),
{
    if occurrences.len() == 0 {
        let start = Dialogue::start(queued);
        assert(start.said =~= greeting(queued).take(0));
        assert(!queued ==> start.said =~= greeting(queued));
    } else {
        law_every_dialogue_is_orderly(queued, occurrences.drop_last());
        law_order_is_kept(
            Dialogue::start(queued).run(occurrences.drop_last()),
            occurrences.last(),
        );
    }
}

/// Law: a client that waits or is being served is told when the bridge shuts down, and is then
/// disconnected, even if it could not be told.
pub proof fn law_shutdown_is_announced(state: State, told: bool)
    requires
        state is Waiting || state is Active,
    ensures
        ({
            let leaving = state.next(Event::Shutdown);
            let closing = leaving.next(Event::Sent(told));
            &&& leaving.task() == Action::Send(Response::BridgeShutdown)
            &&& closing.task() == Action::Close
            &&& closing.next(Event::Disconnected).task() == Action::Finish
        }),
{
}

/// Law: a client that is about to be served while the device is not connected, and a client that is
/// being served when the device disconnects, are told apart, and both are then disconnected.
pub proof fn law_missing_device_is_announced(told: bool)
    ensures
        ({
            let missing = Event::Device(DeviceState::NotConnected);
            let refused = State::Starting.next(missing);
            let dropped = State::Active.next(missing);
            &&& refused.task() == Action::Send(Response::DeviceNotConnected)
            &&& dropped.task() == Action::Send(Response::DeviceDisconnected)
            &&& refused.next(Event::Sent(told)).task() == Action::Close
            &&& dropped.next(Event::Sent(told)).task() == Action::Close
        }),
{
}

/// Law: a client that is being disconnected hears nothing any more, and nothing that it sends
/// reaches the device.
pub proof fn law_closing_is_silent(dialogue: Dialogue, occurrences: Seq<Occurrence>)
    requires
        dialogue.state is Closing || dialogue.state is Closed,
    ensures
        ({
            let after = dialogue.run(occurrences);
            &&& after.state is Closing || after.state is Closed
            &&& after.said == dialogue.said
            &&& after.forwarded == dialogue.forwarded
        }),
    decreases occurrences.len(),
{
    if occurrences.len() > 0 {
        law_closing_is_silent(dialogue, occurrences.drop_last());
    }
}

/// Law: whatever comes after the message by which a client that waits or is being served closes the
/// connection, nothing more is forwarded to the device and nothing more is sent to the client.
pub proof fn law_nothing_follows_a_close(dialogue: Dialogue, occurrences: Seq<Occurrence>)
    requires
        dialogue.state is Waiting || dialogue.state is Active,
    ensures
        ({
            let after = dialogue.after(Occurrence::Message(Message::Close)).run(occurrences);
            &&& after.state is Closing || after.state is Closed
            &&& after.said == dialogue.said
            &&& after.forwarded == dialogue.forwarded
        }),
{
    law_closing_is_silent(dialogue.after(Occurrence::Message(Message::Close)), occurrences);
}

/// Law: once a connection is closed, nothing happens to it any more.
pub proof fn law_closed_is_final(dialogue: Dialogue, occurrence: Occurrence)
    requires
        dialogue.state is Closed,
    ensures
        dialogue.after(occurrence) == dialogue,
{
}

/// Law: a connection gains access to the device step by step, and each step has one cause. It waits
/// once the client was told to, is promoted once its ticket is served, is ready once the client was
/// told so, and is active once the device was found to be connected. Nothing else brings a
/// connection into one of these states, and nothing brings it back to the first.
pub proof fn law_access_is_gained_step_by_step(state: State, event: Event)
    ensures
        ({
            let after = state.next(event);
            let moved = after != state;
            &&& moved && after == State::Waiting <==> state == State::Joining && event
                == Event::Sent(true)
            &&& moved && after == State::Promoting <==> state == State::Waiting && event
                == Event::Served
            &&& moved && after == State::Starting <==> state == State::Promoting && event
                == Event::Sent(true)
            &&& moved && after == State::Active <==> state == State::Starting && event
                == Event::Device(DeviceState::Connnected)
            &&& moved ==> after != State::Joining
        }),
{
}

/// Law: a client is told why its connection ends only if that is the case. It is told that the device
/// is not connected exactly if that is found before it is served, that the device has disconnected
/// exactly if it does while the client is being served, and that the bridge shuts down exactly if it
/// does while the client waits or is being served.
pub proof fn law_reasons_are_true(state: State, event: Event, reason: Response)
    ensures
        ({
            let missing = event == Event::Device(DeviceState::NotConnected);
            let after = state.next(event);
            after != state && after == State::Leaving(reason) <==> {
                ||| reason == Response::DeviceNotConnected && missing && state == State::Starting
                ||| reason == Response::DeviceDisconnected && missing && state == State::Active
                ||| {
                    &&& reason == Response::BridgeShutdown
                    &&& event == Event::Shutdown
                    &&& state == State::Waiting || state == State::Active
                }
            }
        }),
{
}

/// Law: a connection is closed without a word exactly if the client is gone or cannot be reached, if
/// it can no longer be served, or if nothing more comes from the device; and it is closed once the
/// client was told why, or could not be told.
pub proof fn law_closing_has_a_cause(state: State, event: Event)
    ensures
        ({
            let after = state.next(event);
            let moved = after != state;
            &&& moved && after == State::Closing <==> {
                ||| event == Event::Sent(false) && (state == State::Joining || state
                    == State::Promoting)
                ||| event == Event::ClientGone && (state == State::Waiting || state
                    == State::Active)
                ||| event == Event::Canceled && state == State::Waiting
                ||| event == Event::DeviceGone && state == State::Active
                ||| event is Sent && state is Leaving
            }
            &&& moved && after == State::Closed <==> state == State::Closing && event
                == Event::Disconnected
        }),
{
}

/// Law: a client that is being served stays so until it leaves, the data from the device ends, the
/// device disconnects or the bridge shuts down. In particular, being told again that the device is
/// connected changes nothing.
pub proof fn law_service_lasts(event: Event)
    ensures
        State::Active.next(event) == State::Active <==> {
            &&& event != Event::ClientGone
            &&& event != Event::DeviceGone
            &&& event != Event::Shutdown
            &&& event != Event::Device(DeviceState::NotConnected)
        },
        State::Active.next(Event::Device(DeviceState::Connnected)) == State::Active,
{
}

/// Law: a client that waits goes on waiting, whatever happens to the device, until its ticket is
/// served or canceled, it leaves, or the bridge shuts down.
pub proof fn law_waiting_lasts(event: Event)
    ensures
        State::Waiting.next(event) == State::Waiting <==> {
            &&& event != Event::Served
            &&& event != Event::Canceled
            &&& event != Event::ClientGone
            &&& event != Event::Shutdown
        },
{
}

/// Law: a response is sent exactly while its time has come, the device is looked at only before a
/// client is served, and events are watched for exactly while a client waits or is being served.
pub proof fn law_each_state_has_its_task(state: State, response: Response)
    ensures
        state.task() == Action::Send(response) <==> {
            ||| state == State::Joining && response == Response::WaitInQueue
            ||| state == State::Promoting && response == Response::BeingServed
            ||| state == State::Leaving(response)
        },
        state.task() == Action::CheckDevice <==> state == State::Starting,
        state.task() == Action::Watch <==> state == State::Waiting || state == State::Active,
        state.task() == Action::Close <==> state == State::Closing,
        state.task() == Action::Finish <==> state == State::Closed,
{
}

/// Law: what a client that is being served sends reaches the device whole: the bytes of a binary
/// message, a ping or a pong as they are, and those of a text as UTF-8. Messages without data, and
/// all messages while the client is not being served, are not forwarded.
pub proof fn law_messages_are_forwarded_whole(state: State, bytes: Vec<u8>, text: String)
    ensures
        ({
            let forwarded = if state == State::Active && bytes@.len() > 0 {
                Some(bytes@)
            } else {
                None
            };
            &&& state.forwards(Message::Binary(bytes)) == forwarded
            &&& state.forwards(Message::Ping(bytes)) == forwarded
            &&& state.forwards(Message::Pong(bytes)) == forwarded
        }),
        match state.forwards(Message::Text(text)) {
            Some(data) => {
                &&& state == State::Active
                &&& data.len() > 0
                &&& vstd::utf8::valid_utf8(data)
                &&& vstd::utf8::decode_utf8(data) == text@
            },
            None => state != State::Active || text@.len() == 0,
        },
        state.forwards(Message::Close) is None,
{
    crate::message::law_messages_carry_all_their_data(Message::Text(text));
}

/// Law: only the message that closes the connection changes the state, and it ends the connection
/// exactly if the client waits or is being served.
pub proof fn law_only_a_close_ends_the_connection(state: State, message: Message)
    ensures
        state.after_message(message) != state <==> {
            &&& message is Close
            &&& state == State::Waiting || state == State::Active
        },
        state.after_message(message) != state ==> state.after_message(message) == State::Closing,
{
}

/// Law: over the course of a connection, what was forwarded to the device is what the client has sent
/// while it was being served, message by message. Nothing else adds to it.
pub proof fn law_forwarded_data_is_what_was_sent(
    dialogue: Dialogue,
    occurrences: Seq<Occurrence>,
    bytes: Vec<u8>,
    other: Occurrence,
)
    requires
        !(other is Message),
    ensures
        ({
            let before = dialogue.run(occurrences);
            let message = Occurrence::Message(Message::Binary(bytes));
            let after = dialogue.run(occurrences.push(message));
            &&& after.forwarded == (if before.state == State::Active && bytes@.len() > 0 {
                before.forwarded.push(bytes@)
            } else {
                before.forwarded
            })
            &&& after.state == before.state
            &&& after.said == before.said
            &&& dialogue.run(occurrences.push(other)).forwarded == before.forwarded
        }),
{
    let message = Occurrence::Message(Message::Binary(bytes));
    assert(occurrences.push(message).drop_last() =~= occurrences);
    assert(occurrences.push(other).drop_last() =~= occurrences);
    law_messages_are_forwarded_whole(dialogue.run(occurrences).state, bytes, arbitrary());
}

/// Law: over the course of a connection, data from the device reaches the client whole, exactly while
/// the client is being served.
pub proof fn law_device_data_is_passed_on(
    dialogue: Dialogue,
    occurrences: Seq<Occurrence>,
    data: Seq<u8>,
)
    ensures
        ({
            let before = dialogue.run(occurrences);
            let after = dialogue.run(occurrences.push(Occurrence::DeviceData(data)));
            &&& after.state == before.state
            &&& after.said == (if before.state == State::Active {
                before.said.push(Utterance::Binary(data))
            } else {
                before.said
            })
        }),
{
    let occurrence = Occurrence::DeviceData(data);
    assert(occurrences.push(occurrence).drop_last() =~= occurrences);
}

} // verus!
