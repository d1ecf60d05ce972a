# ryder-bridge

A bridge to facilitate connections between Ryder devices and other applications through a WebSocket
interface.

## Layout

- `src/` is the library: everything that the bridge decides and computes. It is written in Verus, and
  each function states and proves what it does.
  - `queue` is the queue of connections, which are served in the order in which they came in.
  - `connection` decides what is done for one connection, and `dialogue` proves what a client gets to
    hear over the course of it.
  - `serial::port` and `serial::server` decide what is done with the serial port, and
    `serial::ledger` proves that no data is lost on the way.
  - `bridge` decides when and how the bridge shuts down.
  - `input` interprets what a user types into the client.
  - `mock` holds what the tests use in place of a device.
  - `channel`, `error` and `message` are what the others share. `channel` states what the library
    relies on in the channels of `futures` and `tokio`.
- `tests/` holds the tests of the library.
- `app/` is the program: it operates the network, the serial port, the terminal and the tasks, as the
  library decides. Its integration tests must be run one at a time. They listen on port 8080 unless
  the environment variable `RYDER_BRIDGE_TEST_PORT` names another one.

## Running

```
ryder-bridge <device serial port> <listening address>
```

`<device serial port>` is the path to the serial port of the Ryder device or simulator. Applications
can connect to the bridge through `<listening address>`.

Under the name `client`, the program is a simple client for testing:

```
client <WebSocket address>
```

`<WebSocket address>` is a URL to the bridge, such as `ws://localhost:8888`. 2-digit hexadecimal
inputs can be entered to be sent to the bridge, and any responses from the bridge or device are
printed.

## Bridge responses for clients

The bridge may return several responses in addition to those received from the Ryder device itself.
All of these extra responses are text messages, whereas device responses are binary messages.

Multiple clients may connect to the bridge at one time, and they are placed in a queue and served in
the order they connected in. A client that connects while no other client has access to the device is
served at once. Any other client receives `RESPONSE_WAIT_IN_QUEUE`, and later one of two responses:

- `RESPONSE_BEING_SERVED` if the client has moved to the front of the queue and is now being served.
- `RESPONSE_BRIDGE_SHUTDOWN` if the bridge itself is shutting down. The client is disconnected.

Once a client is being served, all future responses are one of the following:

- `RESPONSE_BRIDGE_SHUTDOWN` if the bridge itself is shutting down. The client is disconnected.
- `RESPONSE_DEVICE_NOT_CONNECTED` if the device is not currently connected. This is only returned
  before anything else. The client is disconnected.
- `RESPONSE_DEVICE_DISCONNECTED` if the device has disconnected. This is returned only in cases where
  `RESPONSE_DEVICE_NOT_CONNECTED` is not. The client is disconnected.

All other responses are binary messages from the device.
