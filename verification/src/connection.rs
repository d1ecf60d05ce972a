//! Handling of and communication with WebSocket connections.

use vstd::prelude::*;

use crate::channel::{self, TicketSignal};
use crate::message::Message;
use crate::queue::{ConnectionTicket, TicketNotifier};
use crate::serial::{Data, DeviceState};

verus! {

/// The response to a client that has to wait because another client has access to the device.
pub const RESPONSE_WAIT_IN_QUEUE: &'static str = "RESPONSE_WAIT_IN_QUEUE";

/// The response to a client that has moved to the front of the queue and is now being served.
pub const RESPONSE_BEING_SERVED: &'static str = "RESPONSE_BEING_SERVED";

/// The response to a client that is being served when the device disconnects.
pub const RESPONSE_DEVICE_DISCONNECTED: &'static str = "RESPONSE_DEVICE_DISCONNECTED";

/// The response to a client that is about to be served while the device is not connected.
pub const RESPONSE_DEVICE_NOT_CONNECTED: &'static str = "RESPONSE_DEVICE_NOT_CONNECTED";

/// The response to a client when the bridge shuts down.
pub const RESPONSE_BRIDGE_SHUTDOWN: &'static str = "RESPONSE_BRIDGE_SHUTDOWN";

/// A response of the bridge itself.
#[derive(Clone, Copy, Debug, PartialEq, Eq, Structural)]
pub enum Response {
    /// See [`RESPONSE_WAIT_IN_QUEUE`].
    WaitInQueue,
    /// See [`RESPONSE_BEING_SERVED`].
    BeingServed,
    /// See [`RESPONSE_DEVICE_DISCONNECTED`].
    DeviceDisconnected,
    /// See [`RESPONSE_DEVICE_NOT_CONNECTED`].
    DeviceNotConnected,
    /// See [`RESPONSE_BRIDGE_SHUTDOWN`].
    BridgeShutdown,
}

impl Response {
    /// Returns the text that is sent to the client.
    pub fn text(self) -> (text: &'static str)
        ensures
            text@ == match self {
                Response::WaitInQueue => RESPONSE_WAIT_IN_QUEUE@,
                Response::BeingServed => RESPONSE_BEING_SERVED@,
                Response::DeviceDisconnected => RESPONSE_DEVICE_DISCONNECTED@,
                Response::DeviceNotConnected => RESPONSE_DEVICE_NOT_CONNECTED@,
                Response::BridgeShutdown => RESPONSE_BRIDGE_SHUTDOWN@,
            },
    {
        match self {
            Response::WaitInQueue => RESPONSE_WAIT_IN_QUEUE,
            Response::BeingServed => RESPONSE_BEING_SERVED,
            Response::DeviceDisconnected => RESPONSE_DEVICE_DISCONNECTED,
            Response::DeviceNotConnected => RESPONSE_DEVICE_NOT_CONNECTED,
            Response::BridgeShutdown => RESPONSE_BRIDGE_SHUTDOWN,
        }
    }
}

/// The state of a WebSocket connection.
#[derive(Clone, Copy, Debug, PartialEq, Eq, Structural)]
pub enum State {
    /// The connection must wait in the queue, which the client is being told.
    Joining,
    /// The connection is waiting in the queue for access to the device.
    Waiting,
    /// The connection is now being served, which the client is being told.
    Promoting,
    /// The connection is being served, but the device has not been looked at.
    Starting,
    /// The connection has access to the device and is sending and receiving data.
    Active,
    /// The connection is about to end, for the reason that the client is being told.
    Leaving(Response),
    /// The connection is being closed.
    Closing,
    /// The connection is closed.
    Closed,
}

/// Something that happens to a connection.
#[derive(Clone, Copy, Debug, PartialEq, Eq, Structural)]
pub enum Event {
    /// Sending a response to the client succeeded or failed.
    Sent(bool),
    /// The client disconnected.
    ClientGone,
    /// The connection's ticket was served.
    Served,
    /// The connection's ticket will never be served.
    Canceled,
    /// The bridge is shutting down.
    Shutdown,
    /// The device is in this state.
    Device(DeviceState),
    /// No more data will come from the device, or it could not be passed on to the client.
    DeviceGone,
    /// The attempt to close the connection is over.
    Disconnected,
}

/// What has to be done for a connection.
#[derive(Clone, Copy, Debug, PartialEq, Eq, Structural)]
pub enum Action {
    /// Send a response to the client and report with [`Event::Sent`].
    Send(Response),
    /// Look at the state of the device and report with [`Event::Device`].
    CheckDevice,
    /// Watch for any event. Messages from the client are handled by
    /// [`WSConnection::on_message`].
    Watch,
    /// Close the connection and report with [`Event::Disconnected`].
    Close,
    /// Nothing: the connection is closed.
    Finish,
}

/// What has to be done with a message from the client.
#[derive(Debug)]
pub enum MessageAction {
    /// Ignore the message.
    Ignore,
    /// Forward the data to the device.
    Forward(Data),
    /// Stop listening: the client disconnected.
    Disconnect,
}

impl State {
    /// What is to be done in this state.
    pub open spec fn task(self) -> Action {
        match self {
            State::Joining => Action::Send(Response::WaitInQueue),
            State::Promoting => Action::Send(Response::BeingServed),
            State::Leaving(reason) => Action::Send(reason),
            State::Starting => Action::CheckDevice,
            State::Waiting | State::Active => Action::Watch,
            State::Closing => Action::Close,
            State::Closed => Action::Finish,
        }
    }

    /// What an event leads to. Events that do not concern the state change nothing.
    pub open spec fn next(self, event: Event) -> State {
        match (self, event) {
            // While a client waits in the queue
            (State::Joining, Event::Sent(true)) => State::Waiting,
            (State::Waiting, Event::Served) => State::Promoting,
            (State::Promoting, Event::Sent(true)) => State::Starting,
            // While a client is being served
            (State::Starting, Event::Device(DeviceState::Connnected)) => State::Active,
            (State::Starting, Event::Device(DeviceState::NotConnected)) => State::Leaving(
                Response::DeviceNotConnected,
            ),
            (State::Active, Event::Device(DeviceState::NotConnected)) => State::Leaving(
                Response::DeviceDisconnected,
            ),
            // When the bridge shuts down
            (State::Waiting | State::Active, Event::Shutdown) => State::Leaving(
                Response::BridgeShutdown,
            ),
            // When the connection is lost
            (State::Joining | State::Promoting, Event::Sent(false)) => State::Closing,
            (State::Waiting | State::Active, Event::ClientGone) => State::Closing,
            (State::Waiting, Event::Canceled) => State::Closing,
            (State::Active, Event::DeviceGone) => State::Closing,
            // When the client has been told why the connection ends, or could not be told
            (State::Leaving(_), Event::Sent(_)) => State::Closing,
            (State::Closing, Event::Disconnected) => State::Closed,
            _ => self,
        }
    }

    /// What a message from the client leads to. Messages are received while the connection is
    /// waiting or active. The only one that ends the connection is the one that closes it.
    pub open spec fn after_message(self, message: Message) -> State {
        if (self is Waiting || self is Active) && message is Close {
            State::Closing
        } else {
            self
        }
    }

    /// The bytes that are forwarded to the device when a message arrives in this state.
    pub open spec fn forwards(self, message: Message) -> Option<Seq<u8>> {
        if self is Active && !(message is Close) && message.data().len() > 0 {
            Some(message.data())
        } else {
            None
        }
    }
}

/// A WebSocket connection handler. It decides what is to be done for one connection; the WebSocket
/// itself is operated by the caller.
#[derive(Clone, Copy, Debug, PartialEq, Eq, Structural)]
pub struct WSConnection {
    /// The state of the connection.
    state: State,
}

impl View for WSConnection {
    type V = State;

    closed spec fn view(&self) -> State {
        self.state
    }
}

impl WSConnection {
    /// Creates a new `WSConnection` to handle an incoming WebSocket connection whose ticket in the
    /// connection queue has the given notifier. Whether the ticket was served already, and whether
    /// it is still in the queue, is up to the queue; see [`with_ticket`][Self::with_ticket].
    ///
    /// Returns `None` if the ticket is neither served nor in the queue any more.
    pub fn new(ticket_rx: &mut TicketNotifier) -> (connection: Option<Self>)
        ensures
            // The notifier was looked at once, and that look decides
            channel::heard(*final(ticket_rx)).len() > 0,
            channel::heard(*final(ticket_rx)).drop_last() == channel::heard(*old(ticket_rx)),
            match channel::heard(*final(ticket_rx)).last() {
                TicketSignal::Served => connection matches Some(c) && c@ == State::Starting,
                TicketSignal::Pending => connection matches Some(c) && c@ == State::Joining,
                TicketSignal::Canceled => connection is None,
            },
            // A connection is only served from the start if its ticket was
            connection matches Some(c) ==> (c@ == State::Starting ==> forall|
                ticket: ConnectionTicket,
            | #[trigger]
                ticket.notifies(*final(ticket_rx)) ==> ticket.delivered()),
            forall|ticket: ConnectionTicket|
                #![trigger ticket.notifies(*final(ticket_rx))]
                #![trigger ticket.notifies(*old(ticket_rx))]
                ticket.notifies(*final(ticket_rx)) == ticket.notifies(*old(ticket_rx)),
    {
        let signal = channel::try_receive_signal(ticket_rx);
        assert(channel::heard(*ticket_rx).drop_last() =~= channel::heard(*old(ticket_rx)));
        proof {
            crate::queue::lemma_same_notifier(*ticket_rx, *old(ticket_rx));
            if signal == TicketSignal::Served {
                crate::queue::lemma_signal_was_delivered(*ticket_rx);
            }
        }
        Self::with_ticket(signal)
    }

    /// Like [`new`][Self::new], given what the notifier has to tell.
    pub fn with_ticket(signal: TicketSignal) -> (connection: Option<Self>)
        ensures
            match signal {
                TicketSignal::Served => connection matches Some(c) && c@ == State::Starting,
                TicketSignal::Pending => connection matches Some(c) && c@ == State::Joining,
                TicketSignal::Canceled => connection is None,
            },
    {
        match signal {
            TicketSignal::Served => Some(WSConnection { state: State::Starting }),
            // This connection must wait to be served
            TicketSignal::Pending => Some(WSConnection { state: State::Joining }),
            TicketSignal::Canceled => None,
        }
    }

    /// Returns the state of the connection.
    pub fn state(&self) -> (state: State)
        ensures
            state == self@,
    {
        self.state
    }

    /// Returns what has to be done for the connection.
    pub fn action(&self) -> (action: Action)
        ensures
            action == self@.task(),
    {
        match self.state {
            State::Joining => Action::Send(Response::WaitInQueue),
            State::Promoting => Action::Send(Response::BeingServed),
            State::Leaving(reason) => Action::Send(reason),
            State::Starting => Action::CheckDevice,
            State::Waiting | State::Active => Action::Watch,
            State::Closing => Action::Close,
            State::Closed => Action::Finish,
        }
    }

    /// Takes in an event.
    pub fn handle(&mut self, event: Event)
        ensures
            final(self)@ == old(self)@.next(event),
    {
        match self.state {
            State::Joining => {
                if let Event::Sent(sent) = event {
                    // If the message cannot be sent, just close the connection
                    self.state = if sent {
                        State::Waiting
                    } else {
                        State::Closing
                    };
                }
            },
            State::Waiting => {
                match event {
                    // The client disconnected before being served, or cannot be served any more
                    Event::ClientGone | Event::Canceled => {
                        self.state = State::Closing;
                    },
                    // This connection is being served now
                    Event::Served => {
                        self.state = State::Promoting;
                    },
                    // The bridge is shutting down
                    Event::Shutdown => {
                        self.state = State::Leaving(Response::BridgeShutdown);
                    },
                    _ => {},
                }
            },
            State::Promoting => {
                if let Event::Sent(sent) = event {
                    self.state = if sent {
                        State::Starting
                    } else {
                        State::Closing
                    };
                }
            },
            State::Starting => {
                if let Event::Device(device_state) = event {
                    // If the serial device is not connected, notify the client and end
                    self.state = match device_state {
                        DeviceState::Connnected => State::Active,
                        DeviceState::NotConnected => State::Leaving(Response::DeviceNotConnected),
                    };
                }
            },
            State::Active => {
                match event {
                    Event::ClientGone | Event::DeviceGone => {
                        self.state = State::Closing;
                    },
                    Event::Shutdown => {
                        self.state = State::Leaving(Response::BridgeShutdown);
                    },
                    Event::Device(DeviceState::NotConnected) => {
                        self.state = State::Leaving(Response::DeviceDisconnected);
                    },
                    _ => {},
                }
            },
            State::Leaving(_) => {
                if let Event::Sent(_) = event {
                    self.state = State::Closing;
                }
            },
            State::Closing => {
                if let Event::Disconnected = event {
                    self.state = State::Closed;
                }
            },
            State::Closed => {},
        }
    }

    /// Decides what to do with a message from the client. Messages are ignored while the client is
    /// waiting: it shouldn't be sending anything until it gains access to the device. After a
    /// message that closes the connection, nothing is forwarded any more.
    pub fn on_message(&mut self, message: Message) -> (action: MessageAction)
        ensures
            final(self)@ == old(self)@.after_message(message),
            action is Disconnect <==> message is Close,
            action is Forward <==> old(self)@.forwards(message) is Some,
            action matches MessageAction::Forward(data) ==> old(self)@.forwards(message) == Some(
                data@,
            ),
            // What is forwarded is all that the message carries, and only while the client is being
            // served
            action is Forward ==> old(self)@ == State::Active,
            old(self)@ == State::Active ==> match message {
                Message::Binary(bytes) => bytes@.len() > 0 ==> (
                action matches MessageAction::Forward(data) && data@ == bytes@),
                Message::Ping(bytes) => bytes@.len() > 0 ==> (
                action matches MessageAction::Forward(data) && data@ == bytes@),
                Message::Pong(bytes) => bytes@.len() > 0 ==> (
                action matches MessageAction::Forward(data) && data@ == bytes@),
                Message::Text(text) => text@.len() > 0 ==> (
                action matches MessageAction::Forward(data) && vstd::utf8::valid_utf8(data@)
                    && vstd::utf8::decode_utf8(data@) == text@),
                Message::Close => true,
            },
    {
        proof {
            crate::message::law_messages_carry_all_their_data(message);
        }
        if let Message::Close = message {
            // If the client disconnected, stop listening
            self.handle(Event::ClientGone);
            return MessageAction::Disconnect;
        }
        match self.state {
            State::Active => {
                let data = message.into_data();
                if data.len() > 0 {
                    MessageAction::Forward(data)
                } else {
                    MessageAction::Ignore
                }
            },
            _ => MessageAction::Ignore,
        }
    }
}

/// Returns the message that passes data from the device on to the client.
pub fn device_response(data: Data) -> (message: Message)
    ensures
        message == Message::Binary(data),
{
    Message::Binary(data)
}

} // verus!
