//! The two halves of a session, as state machines.
//!
//! A session pairs one socket with a receive loop and a send loop. Each loop
//! is driven from outside: the driver performs the action that the loop last
//! gave and reports what came of it as an event. An event that does not answer
//! the last action counts as an I/O failure and ends the loop.
//!
//! The receive loop has one way to end without error: the peer closes the
//! connection between two frames. A close inside a frame, be it inside the
//! prefix or inside the payload, ends the loop with `ConnectionClosed`.

use crate::error::ChannelError;
use crate::error::LinkError;
use crate::error::Res;
use crate::frame::be_value;
use crate::frame::frame;
use crate::frame::lemma_be_bytes_of_value;
use crate::frame::lemma_frame_shape;
use crate::frame::read_outcome;
use crate::frame::MAX_FRAME_LEN;
use crate::message::decoded_message;
use crate::message::MessageView;
use crate::message::NetworkMessage;
use vstd::prelude::*;

verus! {

/// Where the receive loop stands.
#[derive(Clone, Copy, Debug, PartialEq, Eq, Structural)]
pub enum ReceiveState {
    /// Waiting for the four bytes of a length prefix.
    AwaitingPrefix,
    /// Waiting for a payload of the given length.
    AwaitingPayload(usize),
    /// Waiting for the inbound channel to take a message.
    Delivering,
    /// The loop has ended.
    Finished,
}

/// What the driver of the receive loop reports.
#[derive(Debug, PartialEq, Eq)]
pub enum ReceiveEvent {
    /// The bytes asked for arrived, all of them.
    Bytes(Vec<u8>),
    /// The peer closed the connection before they arrived; so many of the
    /// bytes asked for had arrived by then.
    Closed(usize),
    /// Reading failed otherwise.
    Failed,
    /// The inbound channel took the message.
    Delivered,
    /// The inbound channel is dead.
    Undeliverable,
}

pub enum ReceiveEventView {
    Bytes(Seq<u8>),
    Closed(usize),
    Failed,
    Delivered,
    Undeliverable,
}

impl View for ReceiveEvent {
    type V = ReceiveEventView;

    open spec fn view(&self) -> ReceiveEventView {
        match self {
            ReceiveEvent::Bytes(bytes) => ReceiveEventView::Bytes(bytes@),
            ReceiveEvent::Closed(arrived) => ReceiveEventView::Closed(*arrived),
            ReceiveEvent::Failed => ReceiveEventView::Failed,
            ReceiveEvent::Delivered => ReceiveEventView::Delivered,
            ReceiveEvent::Undeliverable => ReceiveEventView::Undeliverable,
        }
    }
}

/// What the driver of the receive loop is to do next.
#[derive(Debug, PartialEq, Eq)]
pub enum ReceiveAction {
    /// Read exactly so many bytes from the socket.
    Read(usize),
    /// Push the message onto the inbound channel.
    Deliver(NetworkMessage),
    /// Leave the loop with this result.
    Stop(Res<()>),
}

pub enum ReceiveActionView {
    Read(usize),
    Deliver(MessageView),
    Stop(Res<()>),
}

impl View for ReceiveAction {
    type V = ReceiveActionView;

    open spec fn view(&self) -> ReceiveActionView {
        match self {
            ReceiveAction::Read(n) => ReceiveActionView::Read(*n),
            ReceiveAction::Deliver(m) => ReceiveActionView::Deliver(m@),
            ReceiveAction::Stop(r) => ReceiveActionView::Stop(*r),
        }
    }
}

/// The receive loop ends with `result`.
pub open spec fn receive_stop(result: Res<()>) -> (ReceiveState, ReceiveActionView) {
    (ReceiveState::Finished, ReceiveActionView::Stop(result))
}

/// What the receive loop does with a decoded payload: a message goes to the
/// inbound channel, unless it is the sentinel, which must not come over the
/// wire and is refused like any payload that is no message.
pub open spec fn receive_decoded(decoded: Option<MessageView>) -> (
    ReceiveState,
    ReceiveActionView,
) {
    match decoded {
        Some(m) => if m == MessageView::TerminateThread {
            receive_stop(Err(LinkError::MalformedMessage))
        } else {
            (ReceiveState::Delivering, ReceiveActionView::Deliver(m))
        },
        None => receive_stop(Err(LinkError::MalformedMessage)),
    }
}

/// What the receive loop does when the peer closes the connection while the
/// loop waits for `wanted` bytes of which `arrived` are there; `boundary` says
/// that the bytes waited for are a prefix, so that a frame would begin. With
/// nothing arrived at a frame boundary the close is clean and the loop ends
/// without error. With part of a frame arrived the loop ends with
/// `ConnectionClosed`. A close that leaves nothing of the bytes missing does
/// not answer the read and counts as an I/O failure.
pub open spec fn receive_closed(boundary: bool, wanted: usize, arrived: usize) -> (
    ReceiveState,
    ReceiveActionView,
) {
    if arrived >= wanted {
        receive_stop(Err(LinkError::IoError))
    } else if boundary && arrived == 0 {
        receive_stop(Ok(()))
    } else {
        receive_stop(Err(LinkError::ConnectionClosed))
    }
}

/// One step of the receive loop: the state it goes to and the action it gives.
///
/// The loop reads a prefix, then the payload that the prefix announces, decodes
/// it and delivers the message, and starts over. It ends without error when
/// the peer closes the connection between two frames, and with an error when
/// the peer closes it inside a frame, a prefix announces too much, a payload
/// is no message, reading fails or the inbound channel is dead.
pub open spec fn receive_step(state: ReceiveState, event: ReceiveEventView) -> (
    ReceiveState,
    ReceiveActionView,
) {
    match (state, event) {
        (ReceiveState::AwaitingPrefix, ReceiveEventView::Bytes(bytes)) => {
            if bytes.len() != 4 {
                receive_stop(Err(LinkError::IoError))
            } else if be_value(bytes) > MAX_FRAME_LEN {
                receive_stop(Err(LinkError::FrameTooLarge))
            } else {
                (
                    ReceiveState::AwaitingPayload(be_value(bytes) as usize),
                    ReceiveActionView::Read(be_value(bytes) as usize),
                )
            }
        },
        (ReceiveState::AwaitingPayload(n), ReceiveEventView::Bytes(bytes)) => {
            if bytes.len() != n {
                receive_stop(Err(LinkError::IoError))
            } else {
                receive_decoded(decoded_message(bytes))
            }
        },
        (ReceiveState::AwaitingPrefix, ReceiveEventView::Closed(arrived)) => receive_closed(
            true,
            4,
            arrived,
        ),
        (ReceiveState::AwaitingPayload(n), ReceiveEventView::Closed(arrived)) => receive_closed(
            false,
            n,
            arrived,
        ),
        (ReceiveState::Delivering, ReceiveEventView::Delivered) => (
            ReceiveState::AwaitingPrefix,
            ReceiveActionView::Read(4),
        ),
        (ReceiveState::Delivering, ReceiveEventView::Undeliverable) => receive_stop(
            Err(LinkError::ChannelError(ChannelError::ChannelDead)),
        ),
        _ => receive_stop(Err(LinkError::IoError)),
    }
}

/// Where the send loop stands.
#[derive(Clone, Copy, Debug, PartialEq, Eq, Structural)]
pub enum SendState {
    /// Waiting for the next message of the outbound channel.
    Pulling,
    /// Waiting for a frame to be written.
    Writing,
    /// Waiting for the socket to be shut down.
    ShuttingDown,
    /// The loop has ended.
    Finished,
}

/// What the driver of the send loop reports.
#[derive(Debug, PartialEq, Eq)]
pub enum SendEvent {
    /// The outbound channel gave this message.
    Message(NetworkMessage),
    /// The outbound channel is dead.
    ChannelClosed,
    /// The frame was written, all of it.
    Written,
    /// Writing failed.
    WriteFailed,
    /// The socket is shut down in both directions.
    ShutDown,
    /// Shutting the socket down failed.
    ShutdownFailed,
}

pub enum SendEventView {
    Message(MessageView),
    ChannelClosed,
    Written,
    WriteFailed,
    ShutDown,
    ShutdownFailed,
}

impl View for SendEvent {
    type V = SendEventView;

    open spec fn view(&self) -> SendEventView {
        match self {
            SendEvent::Message(m) => SendEventView::Message(m@),
            SendEvent::ChannelClosed => SendEventView::ChannelClosed,
            SendEvent::Written => SendEventView::Written,
            SendEvent::WriteFailed => SendEventView::WriteFailed,
            SendEvent::ShutDown => SendEventView::ShutDown,
            SendEvent::ShutdownFailed => SendEventView::ShutdownFailed,
        }
    }
}

/// What the driver of the send loop is to do next.
#[derive(Debug, PartialEq, Eq)]
pub enum SendAction {
    /// Block on the outbound channel for the next message.
    Pull,
    /// Write these bytes, one whole frame, to the socket.
    Write(Vec<u8>),
    /// Shut the socket down in both directions.
    Shutdown,
    /// Leave the loop with this result.
    Stop(Res<()>),
}

pub enum SendActionView {
    Pull,
    Write(Seq<u8>),
    Shutdown,
    Stop(Res<()>),
}

impl View for SendAction {
    type V = SendActionView;

    open spec fn view(&self) -> SendActionView {
        match self {
            SendAction::Pull => SendActionView::Pull,
            SendAction::Write(bytes) => SendActionView::Write(bytes@),
            SendAction::Shutdown => SendActionView::Shutdown,
            SendAction::Stop(r) => SendActionView::Stop(*r),
        }
    }
}

/// The send loop ends with `result`.
pub open spec fn send_stop(result: Res<()>) -> (SendState, SendActionView) {
    (SendState::Finished, SendActionView::Stop(result))
}

/// What the send loop does with the outcome of encoding a message: the bytes
/// go out as one frame; a failure to encode, or bytes too long for a frame,
/// end the loop.
pub open spec fn send_encoded(encoded: Res<Seq<u8>>) -> (SendState, SendActionView) {
    match encoded {
        Ok(bytes) => if bytes.len() <= MAX_FRAME_LEN {
            (SendState::Writing, SendActionView::Write(frame(bytes)))
        } else {
            send_stop(Err(LinkError::FrameTooLarge))
        },
        Err(e) => send_stop(Err(e)),
    }
}

/// One step of the send loop, `encoded` being the outcome of encoding the
/// message where the event brings one that goes on the wire.
///
/// The loop pulls a message, writes it as one frame, and starts over. The
/// sentinel is not written: it makes the loop shut the socket down in both
/// directions and end. The loop also ends, without error, when the outbound
/// channel is dead, and with an error when encoding or the socket fails.
pub open spec fn send_step(state: SendState, event: SendEventView, encoded: Res<Seq<u8>>) -> (
    SendState,
    SendActionView,
) {
    match (state, event) {
        (SendState::Pulling, SendEventView::Message(m)) => {
            if m == MessageView::TerminateThread {
                (SendState::ShuttingDown, SendActionView::Shutdown)
            } else {
                send_encoded(encoded)
            }
        },
        (SendState::Pulling, SendEventView::ChannelClosed) => send_stop(Ok(())),
        (SendState::Writing, SendEventView::Written) => (SendState::Pulling, SendActionView::Pull),
        (SendState::ShuttingDown, SendEventView::ShutDown) => send_stop(Ok(())),
        _ => send_stop(Err(LinkError::IoError)),
    }
}

/// The sentinel never makes the send loop write: whatever the state, the
/// answer to it is no frame. A loop that is pulling answers it by shutting the
/// socket down in both directions, and ends without error once that is done.
pub proof fn lemma_sentinel_ends_send_loop(state: SendState, encoded: Res<Seq<u8>>)
    ensures
        !(send_step(state, SendEventView::Message(MessageView::TerminateThread), encoded).1
            is Write),
        send_step(SendState::Pulling, SendEventView::Message(MessageView::TerminateThread), encoded)
            == (SendState::ShuttingDown, SendActionView::Shutdown),
        send_step(SendState::ShuttingDown, SendEventView::ShutDown, encoded) == send_stop(Ok(())),
{
}

/// The send loop writes only in answer to a message that it pulled, and what
/// it writes is the one frame of that message's bytes.
pub proof fn lemma_send_writes_one_frame_per_message(
    state: SendState,
    event: SendEventView,
    encoded: Res<Seq<u8>>,
)
    requires
        send_step(state, event, encoded).1 is Write,
    ensures
        state == SendState::Pulling,
        event is Message,
        event->Message_0 != MessageView::TerminateThread,
        encoded is Ok,
        send_step(state, event, encoded).1 == SendActionView::Write(frame(encoded->Ok_0)),
        frame(encoded->Ok_0).len() == 4 + encoded->Ok_0.len(),
{
}

/// The receive loop delivers only what a whole payload decodes to, and never
/// the sentinel.
pub proof fn lemma_receive_delivers_decoded(state: ReceiveState, event: ReceiveEventView)
    requires
        receive_step(state, event).1 is Deliver,
    ensures
        state is AwaitingPayload,
        event is Bytes,
        event->Bytes_0.len() == state->AwaitingPayload_0,
        decoded_message(event->Bytes_0) == Some(receive_step(state, event).1->Deliver_0),
        receive_step(state, event).1->Deliver_0 != MessageView::TerminateThread,
{
}

/// The receive loop ends without error in one case only: it waits for a
/// prefix, and the peer closes the connection before any byte of it arrived.
pub proof fn lemma_receive_ends_cleanly_on_close(state: ReceiveState, event: ReceiveEventView)
    ensures
        receive_step(state, event).1 == ReceiveActionView::Stop(Ok(())) <==> (state
            == ReceiveState::AwaitingPrefix && event == ReceiveEventView::Closed(0)),
{
}

/// A close inside a frame ends the receive loop with `ConnectionClosed`: with
/// one to three bytes of a prefix arrived, and with less than the whole
/// payload arrived.
pub proof fn lemma_receive_fails_on_close_inside_frame(n: usize, arrived: usize)
    ensures
        1 <= arrived < 4 ==> receive_step(
            ReceiveState::AwaitingPrefix,
            ReceiveEventView::Closed(arrived),
        ) == receive_stop(Err(LinkError::ConnectionClosed)),
        arrived < n ==> receive_step(
            ReceiveState::AwaitingPayload(n),
            ReceiveEventView::Closed(arrived),
        ) == receive_stop(Err(LinkError::ConnectionClosed)),
{
}

/// The receive loop reads what the send loop writes: given the first four
/// bytes of a frame it asks for as many bytes as the payload has, and given
/// the rest of the frame it decodes the payload.
#[verifier::spinoff_prover]
pub proof fn lemma_receive_reads_written_frame(payload: Seq<u8>)
    requires
        payload.len() <= MAX_FRAME_LEN,
    ensures
        receive_step(
            ReceiveState::AwaitingPrefix,
            ReceiveEventView::Bytes(frame(payload).subrange(0, 4)),
        ) == (
            ReceiveState::AwaitingPayload(payload.len() as usize),
            ReceiveActionView::Read(payload.len() as usize),
        ),
        receive_step(
            ReceiveState::AwaitingPayload(payload.len() as usize),
            ReceiveEventView::Bytes(frame(payload).subrange(4, frame(payload).len() as int)),
        ) == receive_decoded(decoded_message(payload)),
{
    lemma_frame_shape(payload);
    assert(frame(payload).subrange(4, frame(payload).len() as int) =~= payload);
}

/// What the receive loop, standing between two frames, makes of a stream that
/// holds `stream` from offset `at` on and is then closed: the steps it takes
/// up to the next frame boundary or to its end.
///
/// Where a whole frame stands at `at`, the loop takes its first four bytes,
/// asks for exactly its payload and decodes that. Where the stream ends at
/// `at`, the loop ends without error. Where it ends inside the prefix or
/// inside the payload, the loop ends with `ConnectionClosed`, and where the
/// prefix announces too much, with `FrameTooLarge`: the errors of
/// [`read_outcome`].
#[verifier::spinoff_prover]
pub proof fn lemma_receive_agrees_with_read_outcome(stream: Seq<u8>, at: int)
    requires
        0 <= at <= stream.len(),
    ensures
        ({
            let left = stream.len() - at;
            let prefix_step = receive_step(
                ReceiveState::AwaitingPrefix,
                ReceiveEventView::Bytes(stream.subrange(at, at + 4)),
            );
            if left == 0 {
                receive_step(ReceiveState::AwaitingPrefix, ReceiveEventView::Closed(0))
                    == receive_stop(Ok(()))
            } else if left < 4 {
                receive_step(
                    ReceiveState::AwaitingPrefix,
                    ReceiveEventView::Closed(left as usize),
                ) == receive_stop(Err(LinkError::ConnectionClosed)) && read_outcome(stream, at)
                    == Err::<(Seq<u8>, int), LinkError>(LinkError::ConnectionClosed)
            } else {
                match read_outcome(stream, at) {
                    Ok((payload, next)) => prefix_step == (
                        ReceiveState::AwaitingPayload(payload.len() as usize),
                        ReceiveActionView::Read(payload.len() as usize),
                    ) && receive_step(
                        ReceiveState::AwaitingPayload(payload.len() as usize),
                        ReceiveEventView::Bytes(payload),
                    ) == receive_decoded(decoded_message(payload)) && next == at + 4
                        + payload.len(),
                    Err(e) => if e == LinkError::FrameTooLarge {
                        prefix_step == receive_stop(Err(LinkError::FrameTooLarge))
                    } else {
                        e == LinkError::ConnectionClosed && (prefix_step.1 matches ReceiveActionView::Read(
                            n,
                        ) && n > left - 4 && receive_step(
                            ReceiveState::AwaitingPayload(n),
                            ReceiveEventView::Closed((left - 4) as usize),
                        ) == receive_stop(Err(LinkError::ConnectionClosed)))
                    },
                }
            }
        }),
{
    if stream.len() - at >= 4 {
        lemma_be_bytes_of_value(stream.subrange(at, at + 4));
    }
}

} // verus!
