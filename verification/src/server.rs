//! The display side of the link: it advertises itself, accepts one controller
//! at a time and runs a session with it.

use crate::discovery::all_faithful;
use crate::discovery::is_loopback_address;
use crate::discovery::lan_ip;
use crate::discovery::lemma_lan_ip_is_not_loopback;
use crate::discovery::select_lan_ip;
use crate::discovery::Address;
use crate::discovery::Interface;
use crate::discovery::ServiceRecord;
use crate::error::ApplicationError;
use crate::error::ChannelError;
use crate::error::LinkError;
use crate::error::Res;
use crate::frame::announced_length;
use crate::frame::frame;
use crate::frame::write_frame;
use crate::frame::MAX_FRAME_LEN;
use crate::message::encoding;
use crate::message::decoded_message;
use crate::message::NetworkMessage;
use crate::session::receive_decoded;
use crate::session::receive_step;
use crate::session::send_encoded;
use crate::session::send_step;
use crate::session::ReceiveAction;
use crate::session::ReceiveEvent;
use crate::session::ReceiveState;
use crate::session::SendAction;
use crate::session::SendActionView;
use crate::session::SendEvent;
use crate::session::SendEventView;
use crate::session::SendState;
use vstd::prelude::*;

verus! {

/// Where the server stands in its life.
#[derive(Clone, Copy, Debug, PartialEq, Eq, Structural)]
pub enum ServerState {
    /// Not serving yet: waiting for the listener to be bound and the
    /// advertiser to be started.
    Idle,
    /// Waiting for a controller to connect. No session is alive.
    Listening,
    /// A connection was accepted; waiting for its two loops to be started.
    Starting,
    /// A session is alive; waiting for its receive loop to end.
    Receiving,
    /// Waiting for the sentinel to be queued for the send loop.
    Terminating,
    /// Waiting for the send loop to end.
    AwaitingSend,
    /// Both loops have ended; waiting for the outbound channel to be emptied.
    Draining,
    /// Accepting has ended; waiting for the advertiser to be told to stop.
    Withdrawing,
    /// Waiting for the advertiser to end.
    Joining,
    /// The server has ended.
    Stopped,
}

/// What the driver of the server reports.
#[derive(Clone, Copy, Debug, PartialEq, Eq, Structural)]
pub enum ServerEvent {
    Bound,
    BindFailed,
    Accepted,
    AcceptFailed,
    SessionStarted,
    SessionStartFailed,
    ReceiveFinished,
    SentinelQueued,
    SentinelRefused,
    SendFinished,
    Drained,
    AdvertiserSignalled,
    AdvertiserGone,
    AdvertiserJoined,
}

/// What the driver of the server is to do next.
#[derive(Clone, Copy, Debug, PartialEq, Eq)]
pub enum ServerAction {
    /// Listen on every local address at the well-known port, and start the
    /// advertiser.
    Bind,
    /// Block until a controller connects.
    Accept,
    /// Duplicate the accepted socket and start the receive and the send loop.
    StartSession,
    /// Block until the receive loop has ended.
    AwaitReceive,
    /// Push the sentinel onto the outbound channel.
    QueueSentinel,
    /// Block until the send loop has ended.
    AwaitSend,
    /// Take every message that is left out of the outbound channel.
    Drain,
    /// Report this error to the owner: the session could not be started.
    /// Drop the connection and take every message that is left out of the
    /// outbound channel.
    Abandon(LinkError),
    /// Wake the advertiser through its shutdown channel.
    SignalAdvertiser,
    /// Block until the advertiser has ended.
    JoinAdvertiser,
    /// End with this result.
    Exit(Res<()>),
    /// Nothing new: the event answers no pending action and is not serviced.
    Wait,
}

/// A session exists: a connection was accepted and is not yet torn down.
pub open spec fn in_session(state: ServerState) -> bool {
    state is Starting || state is Receiving || state is Terminating || state is AwaitingSend
        || state is Draining
}

/// One step of the server: the state it goes to and the action it gives.
///
/// Bound, it accepts one connection, runs a session on it and tears it down:
/// when the receive loop has ended it queues the sentinel, waits for the send
/// loop, empties the outbound channel, and only then accepts again. A session
/// that cannot be started costs that session only: the failure is reported,
/// the outbound channel emptied, and the server accepts again. When accepting
/// fails it stops the advertiser and ends.
pub open spec fn server_step(state: ServerState, event: ServerEvent) -> (
    ServerState,
    ServerAction,
) {
    match (state, event) {
        (ServerState::Idle, ServerEvent::Bound) => (
            ServerState::Listening,
            ServerAction::Accept,
        ),
        (ServerState::Idle, ServerEvent::BindFailed) => (
            ServerState::Stopped,
            ServerAction::Exit(Err(LinkError::IoError)),
        ),
        (ServerState::Listening, ServerEvent::Accepted) => (
            ServerState::Starting,
            ServerAction::StartSession,
        ),
        (ServerState::Listening, ServerEvent::AcceptFailed) => (
            ServerState::Withdrawing,
            ServerAction::SignalAdvertiser,
        ),
        (ServerState::Starting, ServerEvent::SessionStarted) => (
            ServerState::Receiving,
            ServerAction::AwaitReceive,
        ),
        (ServerState::Starting, ServerEvent::SessionStartFailed) => (
            ServerState::Draining,
            ServerAction::Abandon(LinkError::IoError),
        ),
        (ServerState::Receiving, ServerEvent::ReceiveFinished) => (
            ServerState::Terminating,
            ServerAction::QueueSentinel,
        ),
        (ServerState::Terminating, ServerEvent::SentinelQueued) => (
            ServerState::AwaitingSend,
            ServerAction::AwaitSend,
        ),
        (ServerState::Terminating, ServerEvent::SentinelRefused) => (
            ServerState::Stopped,
            ServerAction::Exit(Err(LinkError::ChannelError(ChannelError::ChannelDead))),
        ),
        (ServerState::AwaitingSend, ServerEvent::SendFinished) => (
            ServerState::Draining,
            ServerAction::Drain,
        ),
        (ServerState::Draining, ServerEvent::Drained) => (
            ServerState::Listening,
            ServerAction::Accept,
        ),
        (ServerState::Withdrawing, ServerEvent::AdvertiserSignalled) => (
            ServerState::Joining,
            ServerAction::JoinAdvertiser,
        ),
        (ServerState::Withdrawing, ServerEvent::AdvertiserGone) => (
            ServerState::Stopped,
            ServerAction::Exit(Err(LinkError::ChannelError(ChannelError::ChannelDead))),
        ),
        (ServerState::Joining, ServerEvent::AdvertiserJoined) => (
            ServerState::Stopped,
            ServerAction::Exit(Ok(())),
        ),
        _ => (state, ServerAction::Wait),
    }
}

/// The state of a server that was spawned and has seen `events`, in order.
pub open spec fn server_after(events: Seq<ServerEvent>) -> ServerState
    decreases events.len(),
{
    if events.len() == 0 {
        ServerState::Idle
    } else {
        server_step(server_after(events.drop_last()), events.last()).0
    }
}

/// The action that a server gave in answer to the last of `events`.
pub open spec fn server_answer(events: Seq<ServerEvent>) -> ServerAction
    recommends
        events.len() > 0,
{
    server_step(server_after(events.drop_last()), events.last()).1
}

/// How many sessions a server has started while seeing `events`.
pub open spec fn sessions_started(events: Seq<ServerEvent>) -> nat
    decreases events.len(),
{
    if events.len() == 0 {
        0
    } else if server_answer(events) == ServerAction::StartSession {
        sessions_started(events.drop_last()) + 1
    } else {
        sessions_started(events.drop_last())
    }
}

/// How many sessions a server has torn down to the end, the outbound channel
/// emptied, while seeing `events`.
pub open spec fn sessions_torn_down(events: Seq<ServerEvent>) -> nat
    decreases events.len(),
{
    if events.len() == 0 {
        0
    } else if server_after(events.drop_last()) == ServerState::Draining && events.last()
        == ServerEvent::Drained {
        sessions_torn_down(events.drop_last()) + 1
    } else {
        sessions_torn_down(events.drop_last())
    }
}

/// While a session exists the server services no other connection: an
/// accepted connection is answered with `Wait` and changes nothing. A session
/// is started only by a listening server, and the server accepts only when it
/// was just bound or has just emptied the outbound channel after a session.
pub proof fn lemma_one_session_slot(state: ServerState, event: ServerEvent)
    ensures
        in_session(state) && event == ServerEvent::Accepted ==> server_step(state, event) == (
            state,
            ServerAction::Wait,
        ),
        server_step(state, event).1 == ServerAction::StartSession ==> state
            == ServerState::Listening && event == ServerEvent::Accepted,
        server_step(state, event).1 == ServerAction::Accept ==> (state == ServerState::Idle
            && event == ServerEvent::Bound) || (state == ServerState::Draining && event
            == ServerEvent::Drained),
        server_step(state, event).1 == ServerAction::Drain ==> state == ServerState::AwaitingSend
            && event == ServerEvent::SendFinished,
{
}

/// A failure inside a session costs that session only. The server ends in
/// four cases: it cannot bind, the outbound channel refuses the sentinel, the
/// advertiser is gone when told to stop, or the advertiser has ended after
/// accepting ended. A session that cannot be started is abandoned, and the
/// server is back to accepting once the outbound channel is empty.
pub proof fn lemma_server_outlives_sessions(state: ServerState, event: ServerEvent)
    ensures
        server_step(state, event).1 is Exit ==> (state == ServerState::Idle && event
            == ServerEvent::BindFailed) || (state == ServerState::Terminating && event
            == ServerEvent::SentinelRefused) || (state == ServerState::Withdrawing && event
            == ServerEvent::AdvertiserGone) || (state == ServerState::Joining && event
            == ServerEvent::AdvertiserJoined),
        server_step(ServerState::Starting, ServerEvent::SessionStartFailed) == (
            ServerState::Draining,
            ServerAction::Abandon(LinkError::IoError),
        ),
        server_step(ServerState::Draining, ServerEvent::Drained) == (
            ServerState::Listening,
            ServerAction::Accept,
        ),
{
}

/// Whatever the driver reports, at most one session is alive at any time:
/// every session started but the last has been torn down to the end, and a
/// server that listens has torn down every session it started.
pub proof fn lemma_single_session(events: Seq<ServerEvent>)
    ensures
        sessions_torn_down(events) <= sessions_started(events) <= sessions_torn_down(events) + 1,
        in_session(server_after(events)) ==> sessions_started(events) == sessions_torn_down(
            events,
        ) + 1,
        server_after(events) is Idle || server_after(events) is Listening || server_after(
            events,
        ) is Withdrawing || server_after(events) is Joining ==> sessions_started(events)
            == sessions_torn_down(events),
    decreases events.len(),
{
    if events.len() > 0 {
        lemma_single_session(events.drop_last());
    }
}

/// Where the advertiser stands.
#[derive(Clone, Copy, Debug, PartialEq, Eq, Structural)]
pub enum ResponderState {
    /// Not started.
    Idle,
    /// Waiting for the record to be registered.
    Registering,
    /// The record is registered; waiting for the shutdown signal.
    Advertising,
    /// Waiting for the record to be withdrawn.
    Withdrawing,
    /// The advertiser has ended.
    Finished,
}

/// What the driver of the advertiser reports.
#[derive(Clone, Copy, Debug, PartialEq, Eq, Structural)]
pub enum ResponderEvent {
    Start,
    Registered,
    RegisterFailed,
    ShutdownRequested,
    Withdrawn,
    WithdrawFailed,
}

/// What the driver of the advertiser is to do next.
#[derive(Debug, PartialEq, Eq)]
pub enum ResponderAction {
    /// Start the discovery responder and register this record.
    Register(ServiceRecord),
    /// Block on the shutdown channel.
    AwaitShutdown,
    /// Deregister and stop the discovery responder.
    Withdraw,
    /// End with this result.
    Stop(Res<()>),
    /// Nothing new: the event answers no pending action.
    Wait,
}

pub enum ResponderActionView {
    Register([u8; 4]),
    AwaitShutdown,
    Withdraw,
    Stop(Res<()>),
    Wait,
}

impl View for ResponderAction {
    type V = ResponderActionView;

    open spec fn view(&self) -> ResponderActionView {
        match self {
            ResponderAction::Register(record) => ResponderActionView::Register(record.address),
            ResponderAction::AwaitShutdown => ResponderActionView::AwaitShutdown,
            ResponderAction::Withdraw => ResponderActionView::Withdraw,
            ResponderAction::Stop(r) => ResponderActionView::Stop(*r),
            ResponderAction::Wait => ResponderActionView::Wait,
        }
    }
}

impl ResponderAction {
    /// A record to register is the record of the display service at its address.
    pub open spec fn well_formed(&self) -> bool {
        match self {
            ResponderAction::Register(record) => record.advertises(record.address),
            _ => true,
        }
    }
}

/// How the advertiser starts, given the outcome of looking for a local
/// address: it registers the record for that address, or ends with the error.
pub open spec fn responder_start(address: Res<[u8; 4]>) -> (ResponderState, ResponderActionView) {
    match address {
        Ok(ip) => (ResponderState::Registering, ResponderActionView::Register(ip)),
        Err(e) => (ResponderState::Finished, ResponderActionView::Stop(Err(e))),
    }
}

/// One step of the advertiser, `address` being the outcome of looking for a
/// local address where the advertiser starts.
///
/// It registers the record, waits for the one shutdown signal, withdraws the
/// record and ends. A refusal of the discovery daemon ends it with an error.
pub open spec fn responder_step(
    state: ResponderState,
    event: ResponderEvent,
    address: Res<[u8; 4]>,
) -> (ResponderState, ResponderActionView) {
    match (state, event) {
        (ResponderState::Idle, ResponderEvent::Start) => responder_start(address),
        (ResponderState::Registering, ResponderEvent::Registered) => (
            ResponderState::Advertising,
            ResponderActionView::AwaitShutdown,
        ),
        (ResponderState::Registering, ResponderEvent::RegisterFailed) => (
            ResponderState::Finished,
            ResponderActionView::Stop(Err(LinkError::MdnsError)),
        ),
        (ResponderState::Advertising, ResponderEvent::ShutdownRequested) => (
            ResponderState::Withdrawing,
            ResponderActionView::Withdraw,
        ),
        (ResponderState::Withdrawing, ResponderEvent::Withdrawn) => (
            ResponderState::Finished,
            ResponderActionView::Stop(Ok(())),
        ),
        (ResponderState::Withdrawing, ResponderEvent::WithdrawFailed) => (
            ResponderState::Finished,
            ResponderActionView::Stop(Err(LinkError::MdnsError)),
        ),
        _ => (state, ResponderActionView::Wait),
    }
}

/// What looking for a local address answers, given the interfaces found: the
/// address of the first usable one, `NoEndpoint` if none is usable, and
/// `IoError` if the interfaces could not be listed.
pub open spec fn lan_ip_outcome(found: Result<Seq<Interface>, ()>) -> Res<[u8; 4]> {
    match found {
        Ok(interfaces) => match lan_ip(interfaces) {
            Some(ip) => Ok(ip),
            None => Err(LinkError::ApplicationError(ApplicationError::NoEndpoint)),
        },
        Err(_) => Err(LinkError::IoError),
    }
}

/// The error type of the operating system's I/O.
#[verifier::external_type_specification]
#[verifier::external_body]
pub struct ExIoError(std::io::Error);

/// Lists the addresses of the local network interfaces with
/// `if_addrs::get_if_addrs`. Which interfaces it finds depends on the machine,
/// so nothing is claimed about that. Each one found is marked loopback by
/// `if_addrs::Interface::is_loopback`, which asks the address itself: std
/// documents that as 127.0.0.0/8 for IPv4 and `::1` for IPv6.
#[verifier::external_body]
fn local_interfaces() -> (r: Result<Vec<Interface>, std::io::Error>)
    ensures
        r matches Ok(found) ==> all_faithful(found@),
{
    let found = if_addrs::get_if_addrs()?;
    let plain = |i: if_addrs::Interface| Interface {
        loopback: i.is_loopback(),
        address: match i.addr {
            if_addrs::IfAddr::V4(a) => Address::V4(a.ip.octets()),
            if_addrs::IfAddr::V6(a) => Address::V6(a.ip.octets()),
        },
    };
    Ok(found.into_iter().map(plain).collect())
}

/// The server of the display: its place in the life cycle.
#[derive(Debug)]
pub struct Server {
    state: ServerState,
}

impl Server {
    /// Where the server stands.
    pub closed spec fn state(&self) -> ServerState {
        self.state
    }

    /// Where the server stands.
    pub fn current(&self) -> (state: ServerState)
        ensures
            state == self.state(),
    {
        self.state
    }

    /// A new server and its first action: to bind and advertise.
    pub fn spawn() -> (r: (Server, ServerAction))
        ensures
            r.0.state() == ServerState::Idle,
            r.1 == ServerAction::Bind,
    {
        (Server { state: ServerState::Idle }, ServerAction::Bind)
    }

    /// Takes one event and answers with the next action.
    pub fn run(&mut self, event: ServerEvent) -> (action: ServerAction)
        ensures
            (final(self).state(), action) == server_step(old(self).state(), event),
    {
        let (state, action) = match (self.state, event) {
            (ServerState::Idle, ServerEvent::Bound) => (
                ServerState::Listening,
                ServerAction::Accept,
            ),
            (ServerState::Idle, ServerEvent::BindFailed) => (
                ServerState::Stopped,
                ServerAction::Exit(Err(LinkError::IoError)),
            ),
            (ServerState::Listening, ServerEvent::Accepted) => (
                ServerState::Starting,
                ServerAction::StartSession,
            ),
            (ServerState::Listening, ServerEvent::AcceptFailed) => (
                ServerState::Withdrawing,
                ServerAction::SignalAdvertiser,
            ),
            (ServerState::Starting, ServerEvent::SessionStarted) => (
                ServerState::Receiving,
                ServerAction::AwaitReceive,
            ),
            (ServerState::Starting, ServerEvent::SessionStartFailed) => (
                ServerState::Draining,
                ServerAction::Abandon(LinkError::IoError),
            ),
            (ServerState::Receiving, ServerEvent::ReceiveFinished) => (
                ServerState::Terminating,
                ServerAction::QueueSentinel,
            ),
            (ServerState::Terminating, ServerEvent::SentinelQueued) => (
                ServerState::AwaitingSend,
                ServerAction::AwaitSend,
            ),
            (ServerState::Terminating, ServerEvent::SentinelRefused) => (
                ServerState::Stopped,
                ServerAction::Exit(Err(LinkError::ChannelError(ChannelError::ChannelDead))),
            ),
            (ServerState::AwaitingSend, ServerEvent::SendFinished) => (
                ServerState::Draining,
                ServerAction::Drain,
            ),
            (ServerState::Draining, ServerEvent::Drained) => (
                ServerState::Listening,
                ServerAction::Accept,
            ),
            (ServerState::Withdrawing, ServerEvent::AdvertiserSignalled) => (
                ServerState::Joining,
                ServerAction::JoinAdvertiser,
            ),
            (ServerState::Withdrawing, ServerEvent::AdvertiserGone) => (
                ServerState::Stopped,
                ServerAction::Exit(Err(LinkError::ChannelError(ChannelError::ChannelDead))),
            ),
            (ServerState::Joining, ServerEvent::AdvertiserJoined) => (
                ServerState::Stopped,
                ServerAction::Exit(Ok(())),
            ),
            (state, _) => (state, ServerAction::Wait),
        };
        self.state = state;
        action
    }

    /// How the receive loop of a session starts: by reading a prefix.
    pub fn receiving() -> (r: (ReceiveState, ReceiveAction))
        ensures
            r.0 == ReceiveState::AwaitingPrefix,
            r.1 == ReceiveAction::Read(4),
    {
        (ReceiveState::AwaitingPrefix, ReceiveAction::Read(4))
    }

    /// How the send loop of a session starts: by pulling a message.
    pub fn sending() -> (r: (SendState, SendAction))
        ensures
            r.0 == SendState::Pulling,
            r.1 == SendAction::Pull,
    {
        (SendState::Pulling, SendAction::Pull)
    }

    /// What the receive loop does with the outcome of decoding a payload.
    pub fn received(decoded: Res<NetworkMessage>) -> (r: (ReceiveState, ReceiveAction))
        ensures
            match decoded {
                Ok(m) => (r.0, r.1@) == receive_decoded(Some(m@)),
                Err(e) => r.0 == ReceiveState::Finished && r.1 == ReceiveAction::Stop(Err(e)),
            },
    {
        match decoded {
            Ok(message) => {
                if message.is_terminate() {
                    (ReceiveState::Finished, ReceiveAction::Stop(Err(LinkError::MalformedMessage)))
                } else {
                    (ReceiveState::Delivering, ReceiveAction::Deliver(message))
                }
            },
            Err(e) => (ReceiveState::Finished, ReceiveAction::Stop(Err(e))),
        }
    }

    /// One step of the receive loop of a session.
    #[verifier::spinoff_prover]
    pub fn recv(state: ReceiveState, event: ReceiveEvent) -> (r: (ReceiveState, ReceiveAction))
        ensures
            (r.0, r.1@) == receive_step(state, event@),
    {
        let failed = (ReceiveState::Finished, ReceiveAction::Stop(Err(LinkError::IoError)));
        match (state, event) {
            (ReceiveState::AwaitingPrefix, ReceiveEvent::Bytes(bytes)) => {
                if bytes.len() != 4 {
                    return failed;
                }
                let prefix: [u8; 4] = [bytes[0], bytes[1], bytes[2], bytes[3]];
                assert(prefix@ =~= bytes@);
                let announced = announced_length(&prefix);
                if announced > MAX_FRAME_LEN {
                    (ReceiveState::Finished, ReceiveAction::Stop(Err(LinkError::FrameTooLarge)))
                } else {
                    (
                        ReceiveState::AwaitingPayload(announced as usize),
                        ReceiveAction::Read(announced as usize),
                    )
                }
            },
            (ReceiveState::AwaitingPayload(n), ReceiveEvent::Bytes(bytes)) => {
                if bytes.len() != n {
                    return failed;
                }
                Server::received(NetworkMessage::from_bytes(bytes.as_slice()))
            },
            (ReceiveState::AwaitingPrefix, ReceiveEvent::Closed(arrived)) => {
                if arrived >= 4 {
                    failed
                } else if arrived == 0 {
                    (ReceiveState::Finished, ReceiveAction::Stop(Ok(())))
                } else {
                    (ReceiveState::Finished, ReceiveAction::Stop(Err(LinkError::ConnectionClosed)))
                }
            },
            (ReceiveState::AwaitingPayload(n), ReceiveEvent::Closed(arrived)) => {
                if arrived >= n {
                    failed
                } else {
                    (ReceiveState::Finished, ReceiveAction::Stop(Err(LinkError::ConnectionClosed)))
                }
            },
            (ReceiveState::Delivering, ReceiveEvent::Delivered) => (
                ReceiveState::AwaitingPrefix,
                ReceiveAction::Read(4),
            ),
            (ReceiveState::Delivering, ReceiveEvent::Undeliverable) => (
                ReceiveState::Finished,
                ReceiveAction::Stop(Err(LinkError::ChannelError(ChannelError::ChannelDead))),
            ),
            _ => failed,
        }
    }

    /// What the send loop does with the outcome of encoding a message.
    #[verifier::spinoff_prover]
    pub fn framed(encoded: Res<Vec<u8>>) -> (r: (SendState, SendAction))
        ensures
            (r.0, r.1@) == send_encoded(
                match encoded {
                    Ok(bytes) => Ok(bytes@),
                    Err(e) => Err(e),
                },
            ),
    {
        match encoded {
            Ok(bytes) => {
                let mut out: Vec<u8> = Vec::new();
                match write_frame(&mut out, bytes.as_slice()) {
                    Ok(()) => {
                        assert(out@ =~= frame(bytes@));
                        (SendState::Writing, SendAction::Write(out))
                    },
                    Err(e) => (SendState::Finished, SendAction::Stop(Err(e))),
                }
            },
            Err(e) => (SendState::Finished, SendAction::Stop(Err(e))),
        }
    }

    /// One step of the send loop of a session: that of [`send_step`], with the
    /// message encoded where the event brings one. A message too heavy to be
    /// encoded ends the loop with `FrameTooLarge`. What the loop writes is a
    /// frame whose payload decodes to the message that was pulled.
    #[verifier::spinoff_prover]
    pub fn send(state: SendState, event: SendEvent) -> (r: (SendState, SendAction))
        ensures
            (r.0, r.1@) == send_step(
                state,
                event@,
                match event@ {
                    SendEventView::Message(m) => encoding(m),
                    _ => Err(LinkError::FrameTooLarge),
                },
            ),
            r.1@ matches SendActionView::Write(wire) ==> (wire.len() >= 4 && decoded_message(
                wire.subrange(4, wire.len() as int),
            ) is Some && event@ == SendEventView::Message(
                decoded_message(wire.subrange(4, wire.len() as int))->Some_0,
            )),
    {
        let failed = (SendState::Finished, SendAction::Stop(Err(LinkError::IoError)));
        match (state, event) {
            (SendState::Pulling, SendEvent::Message(message)) => {
                if message.is_terminate() {
                    (SendState::ShuttingDown, SendAction::Shutdown)
                } else {
                    let encoded = message.to_bytes();
                    proof {
                        if encoded is Ok {
                            let payload = encoded->Ok_0@;
                            let wire = frame(payload);
                            assert(wire.subrange(4, wire.len() as int) =~= payload);
                        }
                    }
                    Server::framed(encoded)
                }
            },
            (SendState::Pulling, SendEvent::ChannelClosed) => (
                SendState::Finished,
                SendAction::Stop(Ok(())),
            ),
            (SendState::Writing, SendEvent::Written) => (SendState::Pulling, SendAction::Pull),
            (SendState::ShuttingDown, SendEvent::ShutDown) => (
                SendState::Finished,
                SendAction::Stop(Ok(())),
            ),
            _ => failed,
        }
    }

    /// What looking for a local address answers, given the interfaces found.
    pub fn lan_ip_among(found: Result<Vec<Interface>, std::io::Error>) -> (r: Res<[u8; 4]>)
        ensures
            r == lan_ip_outcome(
                match found {
                    Ok(interfaces) => Ok(interfaces@),
                    Err(_) => Err(()),
                },
            ),
    {
        match found {
            Ok(interfaces) => match select_lan_ip(&interfaces) {
                Some(ip) => Ok(ip),
                None => Err(LinkError::ApplicationError(ApplicationError::NoEndpoint)),
            },
            Err(_) => Err(LinkError::IoError),
        }
    }

    /// Looks for the address to advertise on: that of the first local
    /// interface that is IPv4 and not loopback. Which interfaces there are is
    /// the machine's affair. An address that comes back is not a loopback
    /// address; the failures are `NoEndpoint`, where no interface is usable,
    /// and `IoError`, where the interfaces cannot be listed.
    pub fn get_lan_ip() -> (r: Res<[u8; 4]>)
        ensures
            r matches Ok(ip) ==> !is_loopback_address(Address::V4(ip)),
            r matches Err(e) ==> e == LinkError::ApplicationError(ApplicationError::NoEndpoint)
                || e == LinkError::IoError,
    {
        let found = local_interfaces();
        proof {
            if found is Ok {
                lemma_lan_ip_is_not_loopback(found->Ok_0@);
            }
        }
        Server::lan_ip_among(found)
    }

    /// How the advertiser starts, given the outcome of looking for a local
    /// address.
    pub fn registration(address: Res<[u8; 4]>) -> (r: (ResponderState, ResponderAction))
        ensures
            r.1.well_formed(),
            (r.0, r.1@) == responder_start(address),
    {
        match address {
            Ok(ip) => (ResponderState::Registering, ResponderAction::Register(ServiceRecord::new(ip))),
            Err(e) => (ResponderState::Finished, ResponderAction::Stop(Err(e))),
        }
    }

    /// One step of the advertiser. Where it starts, the machine decides which
    /// address is found; the step is that of [`responder_step`] for whatever
    /// was found. A record that it registers is never for a loopback address.
    pub fn advertise_service(state: ResponderState, event: ResponderEvent) -> (r: (
        ResponderState,
        ResponderAction,
    ))
        ensures
            r.1.well_formed(),
            exists|address: Res<[u8; 4]>|
                (r.0, r.1@) == responder_step(state, event, address) && (address matches Err(e)
                    ==> e == LinkError::ApplicationError(ApplicationError::NoEndpoint) || e
                    == LinkError::IoError),
            r.1 matches ResponderAction::Register(record) ==> !is_loopback_address(
                Address::V4(record.address),
            ),
    {
        let ghost no_endpoint: Res<[u8; 4]> = Err(
            LinkError::ApplicationError(ApplicationError::NoEndpoint),
        );
        let r = match (state, event) {
            (ResponderState::Idle, ResponderEvent::Start) => {
                let address = Server::get_lan_ip();
                let r = Server::registration(address);
                assert((r.0, r.1@) == responder_step(state, event, address));
                return r;
            },
            (ResponderState::Registering, ResponderEvent::Registered) => (
                ResponderState::Advertising,
                ResponderAction::AwaitShutdown,
            ),
            (ResponderState::Registering, ResponderEvent::RegisterFailed) => (
                ResponderState::Finished,
                ResponderAction::Stop(Err(LinkError::MdnsError)),
            ),
            (ResponderState::Advertising, ResponderEvent::ShutdownRequested) => (
                ResponderState::Withdrawing,
                ResponderAction::Withdraw,
            ),
            (ResponderState::Withdrawing, ResponderEvent::Withdrawn) => (
                ResponderState::Finished,
                ResponderAction::Stop(Ok(())),
            ),
            (ResponderState::Withdrawing, ResponderEvent::WithdrawFailed) => (
                ResponderState::Finished,
                ResponderAction::Stop(Err(LinkError::MdnsError)),
            ),
            (state, _) => (state, ResponderAction::Wait),
        };
        assert((r.0, r.1@) == responder_step(state, event, no_endpoint));
        r
    }
}

} // verus!
