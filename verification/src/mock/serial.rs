//! A mock serial port implementation.

use vstd::prelude::*;

use crate::error::{IoError, IoErrorKind, SerialError, SerialErrorKind};

verus! {

/// How an error of the port is described.
pub const BROKEN_PIPE: &'static str = "broken pipe";

/// A simple serial port implementation that echoes any data written to it. To control the port from
/// multiple locations, share it behind a lock.
pub struct TestPort {
    /// The port's internal buffer.
    buf: Vec<u8>,
    /// Whether the port has an error. Simulates a physical disconnect if `true`.
    has_error: bool,
    /// Whether a device is connected to the port. If `false`, the port will not produce errors but
    /// should not be written to or read from. Simulates setting DTR on the device.
    device_dsr: bool,
}

/// The state of a [`TestPort`].
pub struct TestPortView {
    pub buf: Seq<u8>,
    pub has_error: bool,
    pub device_dsr: bool,
}

impl View for TestPort {
    type V = TestPortView;

    closed spec fn view(&self) -> TestPortView {
        TestPortView { buf: self.buf@, has_error: self.has_error, device_dsr: self.device_dsr }
    }
}

/// The error of a port that is physically disconnected.
pub open spec fn is_broken_pipe(error: IoError) -> bool {
    error.kind == IoErrorKind::BrokenPipe && error.description@ == BROKEN_PIPE@
}

/// The same error as one of the serial port.
pub open spec fn is_broken_pipe_serial(error: SerialError) -> bool {
    error.kind == SerialErrorKind::Io(IoErrorKind::BrokenPipe) && error.description@
        == BROKEN_PIPE@
}

impl TestPortView {
    /// The port once `data` was written to it.
    pub open spec fn written(self, data: Seq<u8>) -> Self {
        TestPortView { buf: self.buf + data, ..self }
    }

    /// The number of bytes that are read into a buffer of the given length.
    pub open spec fn readable(self, len: nat) -> nat {
        if !self.device_dsr {
            0
        } else if len < self.buf.len() {
            len
        } else {
            self.buf.len()
        }
    }

    /// The port once `bytes` were read from it.
    pub open spec fn consumed(self, bytes: nat) -> Self {
        TestPortView { buf: self.buf.skip(bytes as int), ..self }
    }
}

impl TestPort {
    /// Returns a new `TestPort` that has no errors and has a device connected.
    pub fn new() -> (port: Result<Self, SerialError>)
        ensures
            port matches Ok(p) && p@ == (TestPortView {
                buf: Seq::empty(),
                has_error: false,
                device_dsr: true,
            }),
    {
        Ok(TestPort { buf: Vec::new(), has_error: false, device_dsr: true })
    }

    /// Returns whether the port has an error.
    pub fn has_error(&self) -> (has_error: bool)
        ensures
            has_error == self@.has_error,
    {
        self.has_error
    }

    /// Sets whether the port has an error.
    pub fn set_has_error(&mut self, has_error: bool)
        ensures
            final(self)@ == (TestPortView { has_error, ..old(self)@ }),
    {
        self.has_error = has_error;
    }

    /// Returns whether a device is connected to the port.
    pub fn device_dsr(&self) -> (device_dsr: bool)
        ensures
            device_dsr == self@.device_dsr,
    {
        self.device_dsr
    }

    /// Sets whether a device is connected to the port.
    pub fn set_device_dsr(&mut self, device_dsr: bool)
        ensures
            final(self)@ == (TestPortView { device_dsr, ..old(self)@ }),
    {
        self.device_dsr = device_dsr;
    }

    /// Returns `Err` if the `has_error` flag is true, or `Ok` otherwise (even if `device_dsr` is
    /// false).
    pub fn try_access(&self) -> (result: Result<(), IoError>)
        ensures
            result is Err <==> self@.has_error,
            result matches Err(error) ==> is_broken_pipe(error),
    {
        if self.has_error() {
            Err(IoError { kind: IoErrorKind::BrokenPipe, description: BROKEN_PIPE.to_owned() })
        } else {
            Ok(())
        }
    }

    /// Returns a reference to the port's internal buffer.
    pub fn buf(&self) -> (buf: &Vec<u8>)
        ensures
            buf@ == self@.buf,
    {
        &self.buf
    }

    /// Writes all of `data` to the port and returns how many bytes that is.
    pub fn write(&mut self, data: &[u8]) -> (result: Result<usize, IoError>)
        ensures
            match result {
                Ok(bytes) => {
                    &&& !old(self)@.has_error
                    &&& bytes == data@.len()
                    &&& final(self)@ == old(self)@.written(data@)
                },
                Err(error) => {
                    &&& old(self)@.has_error
                    &&& is_broken_pipe(error)
                    &&& final(self)@ == old(self)@
                },
            },
    {
        match self.try_access() {
            Ok(()) => {
                self.buf.extend_from_slice(data);
                assert(self.buf@ =~= old(self)@.buf + data@);
                Ok(data.len())
            },
            Err(error) => Err(error),
        }
    }

    /// Flushes the port, which has nothing to flush.
    pub fn flush(&mut self) -> (result: Result<(), IoError>)
        ensures
            final(self)@ == old(self)@,
            result is Err <==> old(self)@.has_error,
            result matches Err(error) ==> is_broken_pipe(error),
    {
        self.try_access()
    }

    /// Reads bytes equal to the smaller of the lengths of the target buffer and the internal
    /// buffer, and clears the read bytes. Nothing is read if no device is connected.
    pub fn read(&mut self, buf: &mut [u8]) -> (result: Result<usize, IoError>)
        ensures
            match result {
                Ok(bytes) => {
                    &&& !old(self)@.has_error
                    &&& bytes == old(self)@.readable(old(buf)@.len())
                    &&& final(self)@ == old(self)@.consumed(bytes as nat)
                    &&& final(buf)@ == old(self)@.buf.take(bytes as int) + old(buf)@.skip(
                        bytes as int,
                    )
                },
                Err(error) => {
                    &&& old(self)@.has_error
                    &&& is_broken_pipe(error)
                    &&& final(self)@ == old(self)@
                    &&& final(buf)@ == old(buf)@
                },
            },
    {
        match self.try_access() {
            Ok(()) => {
                // Simulate a disconnected device by reading nothing
                let bytes: usize = if !self.device_dsr {
                    0
                } else if buf.len() < self.buf.len() {
                    buf.len()
                } else {
                    self.buf.len()
                };

                let mut i: usize = 0;
                assert(buf@ =~= self@.buf.take(0) + old(buf)@.skip(0));
                while i < bytes
                    invariant
                        *self == *old(self),
                        i <= bytes <= self@.buf.len(),
                        bytes <= old(buf)@.len(),
                        buf@ == self@.buf.take(i as int) + old(buf)@.skip(i as int),
                    decreases bytes - i,
                {
                    buf[i] = self.buf[i];
                    i = i + 1;
                    assert(buf@ =~= self@.buf.take(i as int) + old(buf)@.skip(i as int));
                }

                // Clear the read bytes
                let rest = self.buf.split_off(bytes);
                assert(rest@ =~= old(self)@.buf.skip(bytes as int));
                self.buf = rest;

                Ok(bytes)
            },
            Err(error) => Err(error),
        }
    }

    /// Reads the data set ready signal, which tells whether a device is connected.
    pub fn read_data_set_ready(&mut self) -> (result: Result<bool, SerialError>)
        ensures
            final(self)@ == old(self)@,
            match result {
                Ok(level) => !old(self)@.has_error && level == old(self)@.device_dsr,
                Err(error) => old(self)@.has_error && is_broken_pipe_serial(error),
            },
    {
        match self.try_access() {
            Ok(()) => Ok(self.device_dsr()),
            Err(error) => Err(SerialError::from(error)),
        }
    }

    /// Returns the number of bytes that wait to be read, which is always given as 0.
    pub fn bytes_to_read(&self) -> (result: Result<u32, SerialError>)
        ensures
            match result {
                Ok(bytes) => !self@.has_error && bytes == 0,
                Err(error) => self@.has_error && is_broken_pipe_serial(error),
            },
    {
        match self.try_access() {
            Ok(()) => Ok(0),
            Err(error) => Err(SerialError::from(error)),
        }
    }
}

/// Law: data written to a port is echoed. What is read is the beginning of what was in the port
/// followed by the new data, and what did not fit remains to be read, so that no byte is lost, added
/// or reordered. All is read at once if a device is connected and the target buffer is large enough.
pub proof fn law_written_data_is_echoed(port: TestPortView, data: Seq<u8>, len: nat)
    ensures
        ({
            let written = port.written(data);
            let bytes = written.readable(len);
            let read = written.buf.take(bytes as int);
            &&& read + written.consumed(bytes).buf == port.buf + data
            &&& read.len() <= len
            &&& port.device_dsr && len >= port.buf.len() + data.len() ==> read == port.buf + data
            &&& port.device_dsr && len < port.buf.len() + data.len() ==> read.len() == len
            &&& !port.device_dsr ==> read.len() == 0
        }),
{
    let written = port.written(data);
    let bytes = written.readable(len);
    assert(written.buf.take(bytes as int) + written.buf.skip(bytes as int) =~= written.buf);
    if bytes == written.buf.len() {
        assert(written.buf.take(bytes as int) =~= written.buf);
    }
}

/// Law: writing and reading leave alone what is controlled from outside, whether the port has an
/// error and whether a device is connected.
pub proof fn law_controls_are_left_alone(port: TestPortView, data: Seq<u8>, bytes: nat)
    ensures
        port.written(data).has_error == port.has_error,
        port.written(data).device_dsr == port.device_dsr,
        port.consumed(bytes).has_error == port.has_error,
        port.consumed(bytes).device_dsr == port.device_dsr,
{
}

} // verus!
