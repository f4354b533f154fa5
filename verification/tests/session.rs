use reflection::error::ChannelError;
use reflection::error::LinkError;
use reflection::frame::length_prefix;
use reflection::frame::MAX_FRAME_LEN;
use reflection::message::NetworkMessage;
use reflection::payload::Album;
use reflection::server::Server;
use reflection::session::ReceiveAction;
use reflection::session::ReceiveEvent;
use reflection::session::ReceiveState;
use reflection::session::SendAction;
use reflection::session::SendEvent;
use reflection::session::SendState;

fn some_album() -> Album {
    Album {
        id: 7,
        onedrive_id: "D7".to_string(),
        name: "Seven".to_string(),
        share_link: "https://1drv.ms/a/7".to_string(),
    }
}

fn stopped_receiving(result: Result<(), LinkError>) -> (ReceiveState, ReceiveAction) {
    (ReceiveState::Finished, ReceiveAction::Stop(result))
}

fn stopped_sending(result: Result<(), LinkError>) -> (SendState, SendAction) {
    (SendState::Finished, SendAction::Stop(result))
}

#[test]
fn receive_loop_reads_prefix_then_payload_then_delivers() {
    let message = NetworkMessage::PlayAlbum(some_album());
    let payload = message.to_bytes().unwrap();
    let prefix = length_prefix(payload.len() as u32).to_vec();

    let step = Server::recv(ReceiveState::AwaitingPrefix, ReceiveEvent::Bytes(prefix));
    assert_eq!(
        step,
        (ReceiveState::AwaitingPayload(payload.len()), ReceiveAction::Read(payload.len()))
    );
    let step = Server::recv(step.0, ReceiveEvent::Bytes(payload));
    assert_eq!(step, (ReceiveState::Delivering, ReceiveAction::Deliver(message)));
    let step = Server::recv(step.0, ReceiveEvent::Delivered);
    assert_eq!(step, (ReceiveState::AwaitingPrefix, ReceiveAction::Read(4)));
}

#[test]
fn receive_loop_ends_without_error_when_the_peer_closes_between_frames() {
    assert_eq!(
        Server::recv(ReceiveState::AwaitingPrefix, ReceiveEvent::Closed(0)),
        stopped_receiving(Ok(()))
    );
}

#[test]
fn receive_loop_ends_with_connection_closed_inside_a_prefix() {
    for arrived in 1..4 {
        assert_eq!(
            Server::recv(ReceiveState::AwaitingPrefix, ReceiveEvent::Closed(arrived)),
            stopped_receiving(Err(LinkError::ConnectionClosed))
        );
    }
}

#[test]
fn receive_loop_ends_with_connection_closed_inside_a_payload() {
    for arrived in 0..12 {
        assert_eq!(
            Server::recv(ReceiveState::AwaitingPayload(12), ReceiveEvent::Closed(arrived)),
            stopped_receiving(Err(LinkError::ConnectionClosed))
        );
    }
}

#[test]
fn receive_loop_takes_a_close_with_nothing_missing_for_an_io_failure() {
    assert_eq!(
        Server::recv(ReceiveState::AwaitingPrefix, ReceiveEvent::Closed(4)),
        stopped_receiving(Err(LinkError::IoError))
    );
    assert_eq!(
        Server::recv(ReceiveState::AwaitingPayload(12), ReceiveEvent::Closed(12)),
        stopped_receiving(Err(LinkError::IoError))
    );
    assert_eq!(
        Server::recv(ReceiveState::AwaitingPayload(0), ReceiveEvent::Closed(0)),
        stopped_receiving(Err(LinkError::IoError))
    );
}

/// Runs the receive loop over a stream that holds `stream` and is then closed.
fn received_from(stream: &[u8]) -> (Vec<NetworkMessage>, Result<(), LinkError>) {
    let mut delivered = Vec::new();
    let mut at = 0;
    let (mut state, mut action) = Server::receiving();
    loop {
        let event = match action {
            ReceiveAction::Read(n) if stream.len() - at >= n => {
                at += n;
                ReceiveEvent::Bytes(stream[at - n..at].to_vec())
            }
            ReceiveAction::Read(_) => ReceiveEvent::Closed(stream.len() - at),
            ReceiveAction::Deliver(message) => {
                delivered.push(message);
                ReceiveEvent::Delivered
            }
            ReceiveAction::Stop(result) => return (delivered, result),
        };
        (state, action) = Server::recv(state, event);
    }
}

#[test]
fn stream_closed_after_two_prefix_bytes() {
    assert_eq!(received_from(&[0x00, 0x00]), (vec![], Err(LinkError::ConnectionClosed)));
    assert_eq!(received_from(&[0x00]), (vec![], Err(LinkError::ConnectionClosed)));
    assert_eq!(received_from(&[0x00, 0x00, 0x00]), (vec![], Err(LinkError::ConnectionClosed)));
}

#[test]
fn stream_closed_after_two_of_five_payload_bytes() {
    assert_eq!(
        received_from(&[0x00, 0x00, 0x00, 0x05, 0x01, 0x02]),
        (vec![], Err(LinkError::ConnectionClosed))
    );
    assert_eq!(
        received_from(&[0x00, 0x00, 0x00, 0x05]),
        (vec![], Err(LinkError::ConnectionClosed))
    );
}

#[test]
fn stream_closed_before_any_byte() {
    assert_eq!(received_from(&[]), (vec![], Ok(())));
}

#[test]
fn receive_loop_ends_with_io_error_when_reading_fails() {
    for state in [
        ReceiveState::AwaitingPrefix,
        ReceiveState::AwaitingPayload(3),
        ReceiveState::Delivering,
        ReceiveState::Finished,
    ] {
        assert_eq!(
            Server::recv(state, ReceiveEvent::Failed),
            stopped_receiving(Err(LinkError::IoError))
        );
    }
}

#[test]
fn receive_loop_refuses_bytes_of_the_wrong_length() {
    assert_eq!(
        Server::recv(ReceiveState::AwaitingPrefix, ReceiveEvent::Bytes(vec![0, 0, 1])),
        stopped_receiving(Err(LinkError::IoError))
    );
    assert_eq!(
        Server::recv(ReceiveState::AwaitingPrefix, ReceiveEvent::Bytes(vec![0, 0, 0, 1, 0])),
        stopped_receiving(Err(LinkError::IoError))
    );
    assert_eq!(
        Server::recv(ReceiveState::AwaitingPayload(2), ReceiveEvent::Bytes(vec![1])),
        stopped_receiving(Err(LinkError::IoError))
    );
}

#[test]
fn receive_loop_refuses_a_prefix_above_the_limit() {
    let prefix = length_prefix(MAX_FRAME_LEN + 1).to_vec();
    assert_eq!(
        Server::recv(ReceiveState::AwaitingPrefix, ReceiveEvent::Bytes(prefix)),
        stopped_receiving(Err(LinkError::FrameTooLarge))
    );
    let prefix = length_prefix(MAX_FRAME_LEN).to_vec();
    assert_eq!(
        Server::recv(ReceiveState::AwaitingPrefix, ReceiveEvent::Bytes(prefix)),
        (
            ReceiveState::AwaitingPayload(MAX_FRAME_LEN as usize),
            ReceiveAction::Read(MAX_FRAME_LEN as usize)
        )
    );
}

#[test]
fn receive_loop_ends_on_a_payload_that_is_no_message() {
    assert_eq!(
        Server::recv(ReceiveState::AwaitingPayload(3), ReceiveEvent::Bytes(vec![1, 2, 3])),
        stopped_receiving(Err(LinkError::MalformedMessage))
    );
    assert_eq!(
        Server::recv(ReceiveState::AwaitingPayload(0), ReceiveEvent::Bytes(vec![])),
        stopped_receiving(Err(LinkError::MalformedMessage))
    );
}

#[test]
fn receive_loop_does_not_deliver_the_sentinel() {
    let payload = NetworkMessage::TerminateThread.to_bytes().unwrap();
    assert_eq!(
        Server::recv(ReceiveState::AwaitingPayload(payload.len()), ReceiveEvent::Bytes(payload)),
        stopped_receiving(Err(LinkError::MalformedMessage))
    );
    assert_eq!(
        Server::received(Ok(NetworkMessage::TerminateThread)),
        stopped_receiving(Err(LinkError::MalformedMessage))
    );
}

#[test]
fn receive_loop_ends_when_the_inbound_channel_is_dead() {
    assert_eq!(
        Server::recv(ReceiveState::Delivering, ReceiveEvent::Undeliverable),
        stopped_receiving(Err(LinkError::ChannelError(ChannelError::ChannelDead)))
    );
}

#[test]
fn receive_loop_takes_an_unexpected_event_for_an_io_failure() {
    assert_eq!(
        Server::recv(ReceiveState::AwaitingPrefix, ReceiveEvent::Delivered),
        stopped_receiving(Err(LinkError::IoError))
    );
    assert_eq!(
        Server::recv(ReceiveState::Delivering, ReceiveEvent::Bytes(vec![0, 0, 0, 0])),
        stopped_receiving(Err(LinkError::IoError))
    );
    assert_eq!(
        Server::recv(ReceiveState::Delivering, ReceiveEvent::Closed(0)),
        stopped_receiving(Err(LinkError::IoError))
    );
    assert_eq!(
        Server::recv(ReceiveState::Finished, ReceiveEvent::Closed(0)),
        stopped_receiving(Err(LinkError::IoError))
    );
}

#[test]
fn received_passes_a_decoding_error_on() {
    assert_eq!(
        Server::received(Err(LinkError::MalformedMessage)),
        stopped_receiving(Err(LinkError::MalformedMessage))
    );
    assert_eq!(
        Server::received(Ok(NetworkMessage::RequestThumbnails)),
        (ReceiveState::Delivering, ReceiveAction::Deliver(NetworkMessage::RequestThumbnails))
    );
}

#[test]
fn send_loop_writes_one_frame_per_message() {
    let message = NetworkMessage::NewAlbum(some_album());
    let payload = message.to_bytes().unwrap();
    let mut frame = length_prefix(payload.len() as u32).to_vec();
    frame.extend_from_slice(&payload);

    let step = Server::send(SendState::Pulling, SendEvent::Message(message));
    assert_eq!(step, (SendState::Writing, SendAction::Write(frame.clone())));
    assert_eq!(frame.len(), 4 + payload.len());
    let step = Server::send(step.0, SendEvent::Written);
    assert_eq!(step, (SendState::Pulling, SendAction::Pull));
}

#[test]
fn sentinel_shuts_the_socket_down_and_writes_nothing() {
    let step = Server::send(SendState::Pulling, SendEvent::Message(NetworkMessage::TerminateThread));
    assert_eq!(step, (SendState::ShuttingDown, SendAction::Shutdown));
    let step = Server::send(step.0, SendEvent::ShutDown);
    assert_eq!(step, stopped_sending(Ok(())));
}

#[test]
fn sentinel_is_never_answered_with_a_frame() {
    for state in
        [SendState::Pulling, SendState::Writing, SendState::ShuttingDown, SendState::Finished]
    {
        let (_, action) = Server::send(state, SendEvent::Message(NetworkMessage::TerminateThread));
        assert!(!matches!(action, SendAction::Write(_)));
    }
}

#[test]
fn send_loop_ends_without_error_when_the_outbound_channel_is_dead() {
    assert_eq!(Server::send(SendState::Pulling, SendEvent::ChannelClosed), stopped_sending(Ok(())));
}

#[test]
fn send_loop_ends_with_io_error_when_the_socket_fails() {
    assert_eq!(
        Server::send(SendState::Writing, SendEvent::WriteFailed),
        stopped_sending(Err(LinkError::IoError))
    );
    assert_eq!(
        Server::send(SendState::ShuttingDown, SendEvent::ShutdownFailed),
        stopped_sending(Err(LinkError::IoError))
    );
}

#[test]
fn send_loop_takes_an_unexpected_event_for_an_io_failure() {
    assert_eq!(
        Server::send(SendState::Pulling, SendEvent::Written),
        stopped_sending(Err(LinkError::IoError))
    );
    assert_eq!(
        Server::send(SendState::Writing, SendEvent::Message(NetworkMessage::RequestAllAlbums)),
        stopped_sending(Err(LinkError::IoError))
    );
    assert_eq!(
        Server::send(SendState::Finished, SendEvent::ChannelClosed),
        stopped_sending(Err(LinkError::IoError))
    );
}

#[test]
fn framed_wraps_encoded_bytes_and_passes_failures_on() {
    assert_eq!(
        Server::framed(Ok(vec![1, 2, 3])),
        (SendState::Writing, SendAction::Write(vec![0, 0, 0, 3, 1, 2, 3]))
    );
    assert_eq!(
        Server::framed(Err(LinkError::EncodeFailure)),
        stopped_sending(Err(LinkError::EncodeFailure))
    );
    assert_eq!(
        Server::framed(Ok(vec![0u8; MAX_FRAME_LEN as usize + 1])),
        stopped_sending(Err(LinkError::FrameTooLarge))
    );
}

#[test]
fn messages_cross_the_wire_in_the_order_in_which_they_were_sent() {
    let sent = vec![
        NetworkMessage::RequestAllAlbums,
        NetworkMessage::Sharelink("https://1drv.ms/a/x".to_string()),
        NetworkMessage::PlayAlbum(some_album()),
        NetworkMessage::Thumbnail(some_album(), vec![1, 2, 3, 4]),
        NetworkMessage::RequestActiveAlbum,
    ];
    let mut wire: Vec<u8> = Vec::new();
    let mut state = SendState::Pulling;
    for message in sent.iter().cloned().chain([NetworkMessage::TerminateThread]) {
        let (next, action) = Server::send(state, SendEvent::Message(message));
        state = next;
        match action {
            SendAction::Write(frame) => {
                wire.extend_from_slice(&frame);
                state = Server::send(state, SendEvent::Written).0;
            }
            SendAction::Shutdown => {
                state = Server::send(state, SendEvent::ShutDown).0;
            }
            other => panic!("unexpected action {other:?}"),
        }
    }
    assert_eq!(state, SendState::Finished);

    let (received, result) = received_from(&wire);
    assert_eq!(result, Ok(()));
    assert_eq!(received, sent);
}

#[test]
fn send_loop_ends_on_a_message_too_large_for_a_frame() {
    // Light enough to be encoded, too long to be framed.
    let large = NetworkMessage::Thumbnail(some_album(), vec![0u8; MAX_FRAME_LEN as usize]);
    assert!(large.to_bytes().unwrap().len() > MAX_FRAME_LEN as usize);
    assert_eq!(
        Server::send(SendState::Pulling, SendEvent::Message(large)),
        stopped_sending(Err(LinkError::FrameTooLarge))
    );
    // Too heavy to be encoded at all.
    let heavy = NetworkMessage::Thumbnail(some_album(), vec![0u8; 0x0800_0000]);
    assert_eq!(
        Server::send(SendState::Pulling, SendEvent::Message(heavy)),
        stopped_sending(Err(LinkError::FrameTooLarge))
    );
}
