//! Errors of serial port operations.

use vstd::prelude::*;

verus! {

/// The kinds of I/O errors that the bridge tells apart.
#[derive(Clone, Copy, Debug, PartialEq, Eq, Structural)]
pub enum IoErrorKind {
    /// Something that is needed was not found.
    NotFound,
    /// The other end of the connection is gone.
    BrokenPipe,
    /// A parameter was incorrect.
    InvalidInput,
    /// The operation would have to wait.
    WouldBlock,
    /// The operation was interrupted.
    Interrupted,
    /// The operation did not complete in time.
    TimedOut,
    /// Any other kind of error.
    Other,
}

impl IoErrorKind {
    /// Whether an operation that failed in this way may simply be tried again later.
    pub open spec fn temporary(self) -> bool {
        self is WouldBlock || self is Interrupted || self is TimedOut
    }

    /// Returns whether an operation that failed in this way may simply be tried again later.
    pub fn is_temporary(self) -> (temporary: bool)
        ensures
            temporary == self.temporary(),
    {
        match self {
            IoErrorKind::WouldBlock | IoErrorKind::Interrupted | IoErrorKind::TimedOut => true,
            _ => false,
        }
    }
}

/// An error of an I/O operation.
#[derive(Debug, PartialEq, Eq)]
pub struct IoError {
    /// The kind of error this is.
    pub kind: IoErrorKind,
    /// A description of the error suitable for end-users.
    pub description: String,
}

/// The kinds of errors that a serial port reports.
#[derive(Clone, Copy, Debug, PartialEq, Eq, Structural)]
pub enum SerialErrorKind {
    /// The device is not available.
    NoDevice,
    /// A parameter was incorrect.
    InvalidInput,
    /// An unknown error occurred.
    Unknown,
    /// An I/O error occurred.
    Io(IoErrorKind),
}

/// An error of a serial port operation.
#[derive(Debug, PartialEq, Eq)]
pub struct SerialError {
    /// The kind of error this is.
    pub kind: SerialErrorKind,
    /// A description of the error suitable for end-users.
    pub description: String,
}

/// An [`IoError`], with the description as a sequence.
pub struct IoErrorView {
    pub kind: IoErrorKind,
    pub description: Seq<char>,
}

/// A [`SerialError`], with the description as a sequence.
pub struct SerialErrorView {
    pub kind: SerialErrorKind,
    pub description: Seq<char>,
}

impl View for IoError {
    type V = IoErrorView;

    open spec fn view(&self) -> IoErrorView {
        IoErrorView { kind: self.kind, description: self.description@ }
    }
}

impl View for SerialError {
    type V = SerialErrorView;

    open spec fn view(&self) -> SerialErrorView {
        SerialErrorView { kind: self.kind, description: self.description@ }
    }
}

impl IoErrorView {
    /// The same error as one of a serial port.
    pub open spec fn into_serial(self) -> SerialErrorView {
        SerialErrorView { kind: SerialErrorKind::Io(self.kind), description: self.description }
    }
}

impl SerialErrorView {
    /// The same error as one of an I/O operation.
    pub open spec fn into_io(self) -> IoErrorView {
        IoErrorView { kind: io_kind(self.kind), description: self.description }
    }
}

/// The kind of I/O error that a kind of serial port error amounts to.
pub open spec fn io_kind(kind: SerialErrorKind) -> IoErrorKind {
    match kind {
        SerialErrorKind::NoDevice => IoErrorKind::NotFound,
        SerialErrorKind::InvalidInput => IoErrorKind::InvalidInput,
        SerialErrorKind::Unknown => IoErrorKind::Other,
        SerialErrorKind::Io(kind) => kind,
    }
}

impl From<IoError> for SerialError {
    fn from(error: IoError) -> (converted: SerialError) {
        SerialError { kind: SerialErrorKind::Io(error.kind), description: error.description }
    }
}

impl vstd::std_specs::convert::FromSpecImpl<IoError> for SerialError {
    open spec fn obeys_from_spec() -> bool {
        true
    }

    open spec fn from_spec(error: IoError) -> SerialError {
        SerialError { kind: SerialErrorKind::Io(error.kind), description: error.description }
    }
}

impl From<SerialError> for IoError {
    fn from(error: SerialError) -> (converted: IoError) {
        let kind = match error.kind {
            SerialErrorKind::NoDevice => IoErrorKind::NotFound,
            SerialErrorKind::InvalidInput => IoErrorKind::InvalidInput,
            SerialErrorKind::Unknown => IoErrorKind::Other,
            SerialErrorKind::Io(kind) => kind,
        };

        IoError { kind, description: error.description }
    }
}

impl vstd::std_specs::convert::FromSpecImpl<SerialError> for IoError {
    open spec fn obeys_from_spec() -> bool {
        true
    }

    open spec fn from_spec(error: SerialError) -> IoError {
        IoError { kind: io_kind(error.kind), description: error.description }
    }
}

/// Law: an I/O error that is turned into one of a serial port and back is what it was, with the same
/// kind and the same description.
pub proof fn law_io_errors_survive_conversion(error: IoError)
    ensures
        ({
            let serial: SerialError = vstd::std_specs::convert::FromSpec::from_spec(error);
            let back: IoError = vstd::std_specs::convert::FromSpec::from_spec(serial);
            &&& back == error
            &&& serial.kind == SerialErrorKind::Io(error.kind)
            &&& serial.description == error.description
            &&& serial@ == error@.into_serial()
        }),
        error@.into_serial().into_io() == error@,
{
}

/// Law: an error of a serial port keeps its description as an I/O error, and its kind as far as there
/// is one for it. Only one that was an I/O error in the first place can be temporary.
pub proof fn law_serial_errors_keep_their_meaning(error: SerialError)
    ensures
        ({
            let io: IoError = vstd::std_specs::convert::FromSpec::from_spec(error);
            &&& io.description == error.description
            &&& io@ == error@.into_io()
            &&& io.kind == io_kind(error.kind)
            &&& error.kind matches SerialErrorKind::Io(kind) ==> io.kind == kind
            &&& error.kind == SerialErrorKind::NoDevice ==> io.kind == IoErrorKind::NotFound
            &&& error.kind == SerialErrorKind::InvalidInput ==> io.kind
                == IoErrorKind::InvalidInput
            &&& error.kind == SerialErrorKind::Unknown ==> io.kind == IoErrorKind::Other
            &&& io.kind.temporary() ==> error.kind is Io
        }),
{
}

/// Law: the failures that pass by themselves are an operation that would have to wait, was
/// interrupted or took too long, and no others.
pub proof fn law_few_failures_are_temporary(kind: IoErrorKind)
    ensures
        kind.temporary() <==> {
            ||| kind == IoErrorKind::WouldBlock
            ||| kind == IoErrorKind::Interrupted
            ||| kind == IoErrorKind::TimedOut
        },
{
}

/// Law: errors are seen with their kind and their whole description.
pub proof fn law_errors_are_seen_whole(io: IoError, serial: SerialError)
    ensures
        io@.kind == io.kind,
        io@.description == io.description@,
        serial@.kind == serial.kind,
        serial@.description == serial.description@,
{
}

} // verus!
