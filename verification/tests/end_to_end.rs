use reflection::client::Client;
use reflection::client::ClientAction;
use reflection::client::ClientEvent;
use reflection::discovery::Address;
use reflection::discovery::DiscoveryEvent;
use reflection::discovery::ServiceRecord;
use reflection::discovery::SERVICE_TYPE;
use reflection::message::NetworkMessage;
use reflection::server::ResponderAction;
use reflection::server::ResponderState;
use reflection::server::Server;
use reflection::server::ServerAction;
use reflection::server::ServerEvent;
use reflection::session::ReceiveAction;
use reflection::session::ReceiveEvent;
use reflection::session::ReceiveState;
use reflection::session::SendAction;
use reflection::session::SendEvent;
use reflection::session::SendState;

/// Runs a send loop over the queued messages and returns what it wrote.
fn wire_of(queue: Vec<NetworkMessage>) -> Vec<u8> {
    let mut wire = Vec::new();
    let mut state = SendState::Pulling;
    for message in queue {
        let (next, action) = Server::send(state, SendEvent::Message(message));
        state = match action {
            SendAction::Write(frame) => {
                wire.extend_from_slice(&frame);
                Server::send(next, SendEvent::Written).0
            }
            SendAction::Shutdown => Server::send(next, SendEvent::ShutDown).0,
            other => panic!("unexpected action {other:?}"),
        };
    }
    wire
}

/// Runs a receive loop over a wire that is closed after its last byte and
/// returns what reached the inbound channel.
fn inbound_of(wire: &[u8]) -> (Vec<NetworkMessage>, Result<(), reflection::error::LinkError>) {
    let mut inbound = Vec::new();
    let mut at = 0;
    let (mut state, mut action) = (ReceiveState::AwaitingPrefix, ReceiveAction::Read(4));
    loop {
        let event = match action {
            ReceiveAction::Read(n) if wire.len() - at >= n => {
                at += n;
                ReceiveEvent::Bytes(wire[at - n..at].to_vec())
            }
            ReceiveAction::Read(_) => ReceiveEvent::Closed(wire.len() - at),
            ReceiveAction::Deliver(message) => {
                inbound.push(message);
                ReceiveEvent::Delivered
            }
            ReceiveAction::Stop(result) => return (inbound, result),
        };
        (state, action) = Server::recv(state, event);
    }
}

#[test]
fn controller_asks_for_all_albums_and_display_answers() {
    let display_ip = [192, 168, 1, 20];

    // The display binds, advertises and waits for a controller.
    let (mut server, first) = Server::spawn();
    assert_eq!(first, ServerAction::Bind);
    let (advertiser, register) = Server::registration(Ok(display_ip));
    assert_eq!(advertiser, ResponderState::Registering);
    let record = match register {
        ResponderAction::Register(record) => record,
        other => panic!("unexpected action {other:?}"),
    };
    assert_eq!(record, ServiceRecord::new(display_ip));
    assert_eq!(record.port, 7878);
    assert_eq!(record.service_type, "_reflection._tcp.local.");
    assert_eq!(server.run(ServerEvent::Bound), ServerAction::Accept);

    // The controller browses for the service type and resolves the display.
    let (mut client, first) = Client::spawn();
    assert_eq!(first, ClientAction::Discover("_reflection._tcp.local."));
    assert_eq!(SERVICE_TYPE, record.service_type);
    let browsed = vec![
        DiscoveryEvent::Other,
        DiscoveryEvent::Resolved(vec![Address::V6([0xfe; 16]), Address::V4(record.address)]),
    ];
    let discovered = Client::discover(&browsed);
    assert_eq!(discovered, Ok(display_ip));
    assert_eq!(
        client.run(ClientEvent::Discovered(discovered)),
        ClientAction::Connect(display_ip, 7878)
    );

    // Both sides start their session.
    assert_eq!(client.run(ClientEvent::Connected), ClientAction::StartSession);
    assert_eq!(client.run(ClientEvent::SessionStarted), ClientAction::AwaitReceive);
    assert_eq!(server.run(ServerEvent::Accepted), ServerAction::StartSession);
    assert_eq!(server.run(ServerEvent::SessionStarted), ServerAction::AwaitReceive);

    // The controller sends its request; the display's inbound channel gets
    // exactly that.
    let to_display = wire_of(vec![NetworkMessage::RequestAllAlbums]);
    let (inbound, _) = inbound_of(&to_display);
    assert_eq!(inbound, vec![NetworkMessage::RequestAllAlbums]);

    // The display answers; the controller's inbound channel gets exactly that.
    let to_controller = wire_of(vec![NetworkMessage::ReturnAllAlbums(vec![])]);
    let (inbound, result) = inbound_of(&to_controller);
    assert_eq!(inbound, vec![NetworkMessage::ReturnAllAlbums(vec![])]);
    assert_eq!(result, Ok(()));

    // The controller goes away; the display tears the session down and
    // accepts again.
    assert_eq!(server.run(ServerEvent::ReceiveFinished), ServerAction::QueueSentinel);
    assert_eq!(wire_of(vec![NetworkMessage::TerminateThread]), Vec::<u8>::new());
    assert_eq!(server.run(ServerEvent::SentinelQueued), ServerAction::AwaitSend);
    assert_eq!(server.run(ServerEvent::SendFinished), ServerAction::Drain);
    assert_eq!(server.run(ServerEvent::Drained), ServerAction::Accept);
}

#[test]
fn nothing_queued_behind_the_sentinel_reaches_the_wire() {
    let wire = wire_of(vec![NetworkMessage::RequestThumbnails, NetworkMessage::TerminateThread]);
    let (inbound, result) = inbound_of(&wire);
    assert_eq!(inbound, vec![NetworkMessage::RequestThumbnails]);
    assert_eq!(result, Ok(()));
    let (state, action) =
        Server::send(SendState::Finished, SendEvent::Message(NetworkMessage::RequestAllAlbums));
    assert_eq!(state, SendState::Finished);
    assert!(!matches!(action, SendAction::Write(_)));
}

#[test]
fn wire_cut_inside_a_frame_delivers_the_whole_frames_only() {
    let wire = wire_of(vec![
        NetworkMessage::RequestAllAlbums,
        NetworkMessage::Sharelink("https://1drv.ms/a/cut".to_string()),
    ]);
    let first = wire_of(vec![NetworkMessage::RequestAllAlbums]).len();
    let closed = Err(reflection::error::LinkError::ConnectionClosed);
    for cut in 0..=wire.len() {
        let (inbound, result) = inbound_of(&wire[..cut]);
        if cut == 0 {
            assert_eq!((inbound.len(), result), (0, Ok(())));
        } else if cut < first {
            assert_eq!((inbound.len(), result), (0, closed));
        } else if cut == first {
            assert_eq!(inbound, vec![NetworkMessage::RequestAllAlbums]);
            assert_eq!(result, Ok(()));
        } else if cut < wire.len() {
            assert_eq!(inbound, vec![NetworkMessage::RequestAllAlbums]);
            assert_eq!(result, closed);
        } else {
            assert_eq!(inbound.len(), 2);
            assert_eq!(result, Ok(()));
        }
    }
}
