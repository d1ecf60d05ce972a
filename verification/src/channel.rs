//! The in-process channels that connect the parts of the bridge.

use futures::channel::oneshot;
use futures_channel::mpsc;
use tokio::sync::watch;
use vstd::prelude::*;

use crate::serial::DeviceState;

verus! {

#[verifier::external_type_specification]
#[verifier::external_body]
#[verifier::reject_recursive_types(T)]
pub struct ExOneshotSender<T>(oneshot::Sender<T>);

#[verifier::external_type_specification]
#[verifier::external_body]
#[verifier::reject_recursive_types(T)]
pub struct ExOneshotReceiver<T>(oneshot::Receiver<T>);

/// What awaiting a `futures::channel::oneshot::Receiver` fails with: the receiver cannot be declared
/// without it.
#[verifier::external_type_specification]
#[verifier::external_body]
pub struct ExCanceled(oneshot::Canceled);

#[verifier::external_type_specification]
#[verifier::external_body]
#[verifier::reject_recursive_types(T)]
pub struct ExUnboundedSender<T>(mpsc::UnboundedSender<T>);

#[verifier::external_type_specification]
#[verifier::external_body]
#[verifier::reject_recursive_types(T)]
pub struct ExUnboundedReceiver<T>(mpsc::UnboundedReceiver<T>);

#[verifier::external_type_specification]
#[verifier::external_body]
#[verifier::reject_recursive_types(T)]
pub struct ExWatchSender<T>(watch::Sender<T>);

#[verifier::external_type_specification]
#[verifier::external_body]
#[verifier::reject_recursive_types(T)]
pub struct ExWatchReceiver<T>(watch::Receiver<T>);

/// Whether the two ends belong to the same signal channel: what
/// `futures::channel::oneshot::Sender::is_connected_to` answers.
pub uninterp spec fn connected(sender: oneshot::Sender<()>, receiver: oneshot::Receiver<()>) -> bool;

/// Whether the signal was put into a signal channel through this end. The attempt uses the end up,
/// so there is at most one, and what it came to is part of the history of the end.
pub uninterp spec fn signalled(sender: oneshot::Sender<()>) -> bool;

/// What the looks for the signal through this end of a signal channel came to, oldest first.
pub uninterp spec fn heard(receiver: oneshot::Receiver<()>) -> Seq<TicketSignal>;

/// What the receiving end of a channel for one signal has to tell.
#[derive(Clone, Copy, Debug, PartialEq, Eq, Structural)]
pub enum TicketSignal {
    /// The signal was sent.
    Served,
    /// The signal was not sent yet.
    Pending,
    /// The signal was not sent and will not be, or it was taken out of the channel before.
    Canceled,
}

/// Calls `futures::channel::oneshot::channel`, which creates the two ends of a channel for one
/// signal. The contract claims that the two ends belong together and that nobody has looked for the
/// signal yet.
#[verifier::external_body]
pub(crate) fn signal_channel() -> (ends: (oneshot::Sender<()>, oneshot::Receiver<()>))
    ensures
        connected(ends.0, ends.1),
        heard(ends.1) == Seq::<TicketSignal>::empty(),
{
    oneshot::channel()
}

/// Calls `futures::channel::oneshot::Sender::send` with the unit value. The contract claims that the
/// result is `Ok` exactly if the signal was put into the channel. It is not if the receiving end was
/// gone or closed, which is up to the holder of that end.
#[verifier::external_body]
pub(crate) fn send_signal(sender: oneshot::Sender<()>) -> (result: Result<(), ()>)
    ensures
        result is Ok <==> signalled(sender),
{
    sender.send(())
}

/// Calls `futures::channel::oneshot::Receiver::try_recv`, which looks for the signal without
/// waiting for it, and takes it out of the channel if it is there. What it finds is up to the holder
/// of the sending end. The contract claims that the result is what this look came to, that the signal
/// is only found if it was put into the channel, and that the end still belongs to the same channel.
#[verifier::external_body]
pub(crate) fn try_receive_signal(receiver: &mut oneshot::Receiver<()>) -> (signal: TicketSignal)
    ensures
        heard(*final(receiver)) == heard(*old(receiver)).push(signal),
        signal == TicketSignal::Served ==> forall|sender: oneshot::Sender<()>| #[trigger]
            connected(sender, *final(receiver)) ==> signalled(sender),
        forall|sender: oneshot::Sender<()>|
            #![trigger connected(sender, *final(receiver))]
            #![trigger connected(sender, *old(receiver))]
            connected(sender, *final(receiver)) == connected(sender, *old(receiver)),
{
    match receiver.try_recv() {
        Ok(Some(())) => TicketSignal::Served,
        Ok(None) => TicketSignal::Pending,
        Err(oneshot::Canceled) => TicketSignal::Canceled,
    }
}

/// The messages that were offered to a data channel through this end, oldest first, each with
/// whether it was put into the channel.
pub uninterp spec fn offered(sender: mpsc::UnboundedSender<Vec<u8>>) -> Seq<(Seq<u8>, bool)>;

/// What the attempts to take a message out of a data channel through this end came to, oldest first.
pub uninterp spec fn polled(receiver: mpsc::UnboundedReceiver<Vec<u8>>) -> Seq<IncomingView>;

/// Whether the two ends belong to the same data channel: what
/// `futures_channel::mpsc::UnboundedSender::is_connected_to` answers.
pub uninterp spec fn linked(
    sender: mpsc::UnboundedSender<Vec<u8>>,
    receiver: mpsc::UnboundedReceiver<Vec<u8>>,
) -> bool;

/// What an attempt to take a message out of a data channel came to.
#[derive(Debug)]
pub enum Incoming {
    /// A message was there.
    Data(Vec<u8>),
    /// No message was there yet.
    Empty,
    /// No message was there, and none will come.
    Closed,
}

/// [`Incoming`], with data as a sequence.
pub enum IncomingView {
    Data(Seq<u8>),
    Empty,
    Closed,
}

impl View for Incoming {
    type V = IncomingView;

    open spec fn view(&self) -> IncomingView {
        match *self {
            Incoming::Data(data) => IncomingView::Data(data@),
            Incoming::Empty => IncomingView::Empty,
            Incoming::Closed => IncomingView::Closed,
        }
    }
}

/// Calls `futures_channel::mpsc::unbounded`, which creates the two ends of a data channel. The
/// contract claims that they belong together and that nothing has passed through them yet.
#[verifier::external_body]
pub(crate) fn data_channel() -> (ends: (
    mpsc::UnboundedSender<Vec<u8>>,
    mpsc::UnboundedReceiver<Vec<u8>>,
))
    ensures
        linked(ends.0, ends.1),
        offered(ends.0) == Seq::<(Seq<u8>, bool)>::empty(),
        polled(ends.1) == Seq::<IncomingView>::empty(),
{
    mpsc::unbounded()
}

/// Calls `futures_channel::mpsc::UnboundedSender::unbounded_send`. The contract claims that the
/// message was offered to the channel, that the result is `Ok` exactly if it was put into it, and
/// that the end still belongs to the same channel. The message is refused if the receiving end is
/// gone or closed, which is up to the holder of that end.
#[verifier::external_body]
pub(crate) fn send_data(sender: &mut mpsc::UnboundedSender<Vec<u8>>, data: Vec<u8>) -> (result:
    Result<(), ()>)
    ensures
        offered(*final(sender)) == offered(*old(sender)).push((data@, result is Ok)),
        forall|receiver: mpsc::UnboundedReceiver<Vec<u8>>|
            #![trigger linked(*final(sender), receiver)]
            #![trigger linked(*old(sender), receiver)]
            linked(*final(sender), receiver) == linked(*old(sender), receiver),
{
    sender.unbounded_send(data).map_err(|_| ())
}

/// Calls `futures_channel::mpsc::UnboundedReceiver::try_recv`, which takes the next message out of
/// the channel if there is one. Whether there is one, and what it is, is up to the holder of the
/// other end. The contract claims that the result is what this attempt came to, and that the end
/// still belongs to the same channel unless that was found closed.
#[verifier::external_body]
pub(crate) fn receive_data(receiver: &mut mpsc::UnboundedReceiver<Vec<u8>>) -> (incoming: Incoming)
    ensures
        polled(*final(receiver)) == polled(*old(receiver)).push(incoming@),
        !(incoming is Closed) ==> forall|sender: mpsc::UnboundedSender<Vec<u8>>|
            #![trigger linked(sender, *final(receiver))]
            #![trigger linked(sender, *old(receiver))]
            linked(sender, *final(receiver)) == linked(sender, *old(receiver)),
{
    match receiver.try_recv() {
        Ok(data) => Incoming::Data(data),
        Err(mpsc::TryRecvError::Empty) => Incoming::Empty,
        Err(mpsc::TryRecvError::Closed) => Incoming::Closed,
    }
}

/// The values that were offered to a device state channel through this end, oldest first, each with
/// whether the channel took it over. The value that the channel was created with is the first.
pub uninterp spec fn posted(sender: watch::Sender<DeviceState>) -> Seq<(DeviceState, bool)>;

/// Whether the two ends belong to the same device state channel.
pub uninterp spec fn observed(
    sender: watch::Sender<DeviceState>,
    receiver: watch::Receiver<DeviceState>,
) -> bool;

/// What the looks for a termination signal through this end came to, oldest first.
pub uninterp spec fn sighted(receiver: watch::Receiver<()>) -> Seq<Result<bool, ()>>;

/// Calls `tokio::sync::watch::channel`, which creates the two ends of a device state channel. The
/// contract claims that they belong together and that the channel holds the given value.
#[verifier::external_body]
pub(crate) fn device_state_channel(state: DeviceState) -> (ends: (
    watch::Sender<DeviceState>,
    watch::Receiver<DeviceState>,
))
    ensures
        observed(ends.0, ends.1),
        posted(ends.0) == seq![(state, true)],
{
    watch::channel(state)
}

/// Calls `tokio::sync::watch::Sender::send`. The contract claims that the value was offered to the
/// channel, that the result is `Ok` exactly if the channel took it over, and that the end still
/// belongs to the same channel. The value is refused if there is no receiving end any more, which
/// is up to the holder of that end.
#[verifier::external_body]
pub(crate) fn send_device_state(sender: &mut watch::Sender<DeviceState>, state: DeviceState) -> (
    result: Result<(), ()>)
    ensures
        posted(*final(sender)) == posted(*old(sender)).push((state, result is Ok)),
        forall|receiver: watch::Receiver<DeviceState>|
            #![trigger observed(*final(sender), receiver)]
            #![trigger observed(*old(sender), receiver)]
            observed(*final(sender), receiver) == observed(*old(sender), receiver),
{
    sender.send(state).map_err(|_| ())
}

/// Calls `tokio::sync::watch::Receiver::has_changed`. The result is `Err` if the other end of the
/// channel is gone, and otherwise tells whether a signal was sent that this end has not seen. Which
/// it is, is up to the holder of the other end. The contract claims that the result is what this
/// look came to.
#[verifier::external_body]
pub(crate) fn signal_pending(receiver: &mut watch::Receiver<()>) -> (result: Result<bool, ()>)
    ensures
        sighted(*final(receiver)) == sighted(*old(receiver)).push(result),
{
    receiver.has_changed().map_err(|_| ())
}

} // verus!
