//! Tests of what clients get to hear.

use ryder_bridge::channel::TicketSignal;
use ryder_bridge::connection::{
    device_response, Action, Event, MessageAction, Response, State, WSConnection,
    RESPONSE_BEING_SERVED, RESPONSE_BRIDGE_SHUTDOWN, RESPONSE_DEVICE_DISCONNECTED,
    RESPONSE_DEVICE_NOT_CONNECTED, RESPONSE_WAIT_IN_QUEUE,
};
use ryder_bridge::message::Message;
use ryder_bridge::queue::ConnectionQueue;
use ryder_bridge::serial::DeviceState;

/// Carries out everything that can be done without waiting, while the device is in the given state,
/// and returns what the client is told.
fn settle(connection: &mut WSConnection, device: DeviceState) -> Vec<&'static str> {
    let mut told = Vec::new();
    loop {
        match connection.action() {
            Action::Send(response) => {
                told.push(response.text());
                connection.handle(Event::Sent(true));
            }
            Action::CheckDevice => connection.handle(Event::Device(device)),
            Action::Close => {
                told.push("close");
                connection.handle(Event::Disconnected);
            }
            Action::Watch | Action::Finish => return told,
        }
    }
}

const CONNECTED: DeviceState = DeviceState::Connnected;
const NOT_CONNECTED: DeviceState = DeviceState::NotConnected;

#[test]
fn the_first_client_talks_to_the_device() {
    let mut queue = ConnectionQueue::new();
    let (_, mut rx) = queue.enqueue();
    let mut client = WSConnection::new(&mut rx).unwrap();

    // No response is available yet
    assert!(settle(&mut client, CONNECTED).is_empty());

    for x in 0..3 {
        match client.on_message(Message::Binary(vec![x; 3])) {
            MessageAction::Forward(data) => {
                assert_eq!(Message::Binary(vec![x; 3]), device_response(data))
            }
            _ => panic!("The data must be forwarded"),
        }
    }
}

#[test]
fn a_client_is_told_that_the_device_is_not_connected() {
    let mut queue = ConnectionQueue::new();
    let (_, mut rx) = queue.enqueue();
    let mut client = WSConnection::new(&mut rx).unwrap();
    assert_eq!(
        vec![RESPONSE_DEVICE_NOT_CONNECTED, "close"],
        settle(&mut client, NOT_CONNECTED)
    );
    assert_eq!(Action::Finish, client.action());
}

#[test]
fn clients_are_told_that_the_device_disconnected() {
    let mut queue = ConnectionQueue::new();
    let (id_1, mut rx_1) = queue.enqueue();
    let mut client_1 = WSConnection::new(&mut rx_1).unwrap();
    assert!(settle(&mut client_1, CONNECTED).is_empty());

    // The second client must wait in the queue
    let (_, mut rx_2) = queue.enqueue();
    let mut client_2 = WSConnection::new(&mut rx_2).unwrap();
    assert_eq!(vec![RESPONSE_WAIT_IN_QUEUE], settle(&mut client_2, CONNECTED));

    // The device disconnects
    client_1.handle(Event::Device(NOT_CONNECTED));
    client_2.handle(Event::Device(NOT_CONNECTED));
    assert_eq!(
        vec![RESPONSE_DEVICE_DISCONNECTED, "close"],
        settle(&mut client_1, NOT_CONNECTED)
    );
    assert!(settle(&mut client_2, NOT_CONNECTED).is_empty());

    // The second client moves up
    assert!(queue.remove_and_serve_next(id_1));
    assert_eq!(Ok(Some(())), rx_2.try_recv());
    client_2.handle(Event::Served);
    assert_eq!(
        vec![RESPONSE_BEING_SERVED, RESPONSE_DEVICE_NOT_CONNECTED, "close"],
        settle(&mut client_2, NOT_CONNECTED)
    );
}

#[test]
fn clients_are_told_that_the_bridge_shuts_down() {
    let mut client_1 = WSConnection::with_ticket(TicketSignal::Served).unwrap();
    let mut client_2 = WSConnection::with_ticket(TicketSignal::Pending).unwrap();
    assert!(settle(&mut client_1, CONNECTED).is_empty());
    assert_eq!(vec![RESPONSE_WAIT_IN_QUEUE], settle(&mut client_2, CONNECTED));

    client_1.handle(Event::Shutdown);
    client_2.handle(Event::Shutdown);
    assert_eq!(vec![RESPONSE_BRIDGE_SHUTDOWN, "close"], settle(&mut client_1, CONNECTED));
    assert_eq!(vec![RESPONSE_BRIDGE_SHUTDOWN, "close"], settle(&mut client_2, CONNECTED));
}

#[test]
fn a_waiting_client_is_not_listened_to() {
    let mut client = WSConnection::with_ticket(TicketSignal::Pending).unwrap();
    assert_eq!(vec![RESPONSE_WAIT_IN_QUEUE], settle(&mut client, CONNECTED));
    assert_eq!(State::Waiting, client.state());

    assert!(matches!(
        client.on_message(Message::Binary(vec![1, 2, 3])),
        MessageAction::Ignore
    ));

    // The client can send data once it is being served
    client.handle(Event::Served);
    assert_eq!(vec![RESPONSE_BEING_SERVED], settle(&mut client, CONNECTED));
    match client.on_message(Message::Binary(vec![1, 2, 3])) {
        MessageAction::Forward(data) => assert_eq!(vec![1, 2, 3], data),
        _ => panic!("The data must be forwarded"),
    }
}

#[test]
fn messages_of_any_kind_carry_data() {
    assert_eq!(vec![1], Message::Binary(vec![1]).into_data());
    assert_eq!(vec![2], Message::Ping(vec![2]).into_data());
    assert_eq!(vec![3], Message::Pong(vec![3]).into_data());
    assert_eq!(vec![0x61, 0xC3, 0xA9], Message::Text("a\u{e9}".to_string()).into_data());
    assert!(Message::Close.into_data().is_empty());

    let mut client = WSConnection::with_ticket(TicketSignal::Served).unwrap();
    assert!(settle(&mut client, CONNECTED).is_empty());
    assert!(matches!(client.on_message(Message::Text(String::new())), MessageAction::Ignore));
    match client.on_message(Message::Text("hi".to_string())) {
        MessageAction::Forward(data) => assert_eq!(vec![0x68, 0x69], data),
        _ => panic!("The data must be forwarded"),
    }

    // Nothing is forwarded once the client has closed the connection
    assert!(matches!(client.on_message(Message::Close), MessageAction::Disconnect));
    assert_eq!(State::Closing, client.state());
    assert!(matches!(client.on_message(Message::Binary(vec![4])), MessageAction::Ignore));
    assert_eq!(vec!["close"], settle(&mut client, CONNECTED));

    // The same holds of a client that waits
    let mut client = WSConnection::with_ticket(TicketSignal::Pending).unwrap();
    assert_eq!(vec![RESPONSE_WAIT_IN_QUEUE], settle(&mut client, CONNECTED));
    assert!(matches!(client.on_message(Message::Close), MessageAction::Disconnect));
    client.handle(Event::Served);
    assert_eq!(vec!["close"], settle(&mut client, CONNECTED));
}

#[test]
fn a_lost_client_is_disconnected() {
    // It cannot be told to wait
    let mut client = WSConnection::with_ticket(TicketSignal::Pending).unwrap();
    assert_eq!(Action::Send(Response::WaitInQueue), client.action());
    client.handle(Event::Sent(false));
    assert_eq!(Action::Close, client.action());

    // It leaves while it waits
    let mut client = WSConnection::with_ticket(TicketSignal::Pending).unwrap();
    client.handle(Event::Sent(true));
    client.handle(Event::ClientGone);
    assert_eq!(State::Closing, client.state());

    // Its ticket is withdrawn while it waits
    let mut client = WSConnection::with_ticket(TicketSignal::Pending).unwrap();
    client.handle(Event::Sent(true));
    client.handle(Event::Canceled);
    assert_eq!(State::Closing, client.state());

    // It cannot be told that it is being served
    let mut client = WSConnection::with_ticket(TicketSignal::Pending).unwrap();
    client.handle(Event::Sent(true));
    client.handle(Event::Served);
    client.handle(Event::Sent(false));
    assert_eq!(State::Closing, client.state());

    // It leaves, or the data from the device ends, while it is being served
    for event in [Event::ClientGone, Event::DeviceGone] {
        let mut client = WSConnection::with_ticket(TicketSignal::Served).unwrap();
        client.handle(Event::Device(CONNECTED));
        client.handle(event);
        assert_eq!(State::Closing, client.state());
        client.handle(Event::Disconnected);
        client.handle(Event::Shutdown);
        assert_eq!(Action::Finish, client.action());
    }

    // It cannot be told why the connection ends
    let mut client = WSConnection::with_ticket(TicketSignal::Served).unwrap();
    client.handle(Event::Device(NOT_CONNECTED));
    assert_eq!(State::Leaving(Response::DeviceNotConnected), client.state());
    client.handle(Event::Sent(false));
    assert_eq!(State::Closing, client.state());
}

#[test]
fn a_connection_without_a_ticket_is_refused() {
    let mut queue = ConnectionQueue::new();
    let (id, mut rx) = queue.add_connection();
    assert!(queue.remove(id));
    assert!(WSConnection::new(&mut rx).is_none());
    assert!(WSConnection::with_ticket(TicketSignal::Canceled).is_none());

    // The signal of a ticket is there only once
    let (_, mut rx) = queue.enqueue();
    assert_eq!(State::Starting, WSConnection::new(&mut rx).unwrap().state());
    assert!(WSConnection::new(&mut rx).is_none());
}

#[test]
fn responses_have_their_names_as_text() {
    assert_eq!("RESPONSE_WAIT_IN_QUEUE", Response::WaitInQueue.text());
    assert_eq!("RESPONSE_BEING_SERVED", Response::BeingServed.text());
    assert_eq!("RESPONSE_DEVICE_DISCONNECTED", Response::DeviceDisconnected.text());
    assert_eq!("RESPONSE_DEVICE_NOT_CONNECTED", Response::DeviceNotConnected.text());
    assert_eq!("RESPONSE_BRIDGE_SHUTDOWN", Response::BridgeShutdown.text());
}
