//! The controller side of the link: it seeks the display, connects to it and
//! runs one session. Failures are reported to the owner; nothing is retried.

use crate::discovery::discovery_outcome;
use crate::discovery::event_views;
use crate::discovery::resolve;
use crate::discovery::DiscoveryEvent;
use crate::discovery::ServiceRecord;
use crate::discovery::PORT;
use crate::discovery::SERVICE_TYPE;
use crate::error::ApplicationError;
use crate::error::ChannelError;
use crate::error::LinkError;
use crate::error::Res;
use vstd::prelude::*;

verus! {

/// Where the client stands in its life.
#[derive(Clone, Copy, Debug, PartialEq, Eq, Structural)]
pub enum ClientState {
    /// Waiting for discovery to name the display's address.
    Discovering,
    /// Waiting for the connection to the display.
    Connecting,
    /// Connected; waiting for the two loops of the session to be started.
    Starting,
    /// The session is alive; waiting for its receive loop to end.
    Receiving,
    /// Waiting for the sentinel to be queued for the send loop.
    Terminating,
    /// Waiting for the send loop to end.
    AwaitingSend,
    /// The client has ended.
    Stopped,
}

/// What the driver of the client reports.
#[derive(Clone, Copy, Debug, PartialEq, Eq)]
pub enum ClientEvent {
    /// Discovery has ended with this answer.
    Discovered(Res<[u8; 4]>),
    Connected,
    ConnectFailed,
    SessionStarted,
    SessionStartFailed,
    ReceiveFinished,
    SentinelQueued,
    SentinelRefused,
    SendFinished,
}

/// What the driver of the client is to do next.
#[derive(Clone, Copy, Debug, PartialEq, Eq)]
pub enum ClientAction {
    /// Browse for this service type until discovery answers.
    Discover(&'static str),
    /// Connect to this IPv4 address at this port.
    Connect([u8; 4], u16),
    /// Duplicate the socket and start the receive and the send loop.
    StartSession,
    /// Block until the receive loop has ended.
    AwaitReceive,
    /// Push the sentinel onto the outbound channel.
    QueueSentinel,
    /// Block until the send loop has ended.
    AwaitSend,
    /// End with this result.
    Exit(Res<()>),
    /// Nothing new: the event answers no pending action.
    Wait,
}

/// One step of the client: the state it goes to and the action it gives.
///
/// It connects to the discovered address at the well-known port, runs one
/// session and tears it down as the server does: when the receive loop has
/// ended it queues the sentinel and waits for the send loop. A failure of
/// discovery or of the connection ends it with that failure.
pub open spec fn client_step(state: ClientState, event: ClientEvent) -> (
    ClientState,
    ClientAction,
) {
    match (state, event) {
        (ClientState::Discovering, ClientEvent::Discovered(Ok(ip))) => (
            ClientState::Connecting,
            ClientAction::Connect(ip, PORT),
        ),
        (ClientState::Discovering, ClientEvent::Discovered(Err(e))) => (
            ClientState::Stopped,
            ClientAction::Exit(Err(e)),
        ),
        (ClientState::Connecting, ClientEvent::Connected) => (
            ClientState::Starting,
            ClientAction::StartSession,
        ),
        (ClientState::Connecting, ClientEvent::ConnectFailed) => (
            ClientState::Stopped,
            ClientAction::Exit(Err(LinkError::IoError)),
        ),
        (ClientState::Starting, ClientEvent::SessionStarted) => (
            ClientState::Receiving,
            ClientAction::AwaitReceive,
        ),
        (ClientState::Starting, ClientEvent::SessionStartFailed) => (
            ClientState::Stopped,
            ClientAction::Exit(Err(LinkError::IoError)),
        ),
        (ClientState::Receiving, ClientEvent::ReceiveFinished) => (
            ClientState::Terminating,
            ClientAction::QueueSentinel,
        ),
        (ClientState::Terminating, ClientEvent::SentinelQueued) => (
            ClientState::AwaitingSend,
            ClientAction::AwaitSend,
        ),
        (ClientState::Terminating, ClientEvent::SentinelRefused) => (
            ClientState::Stopped,
            ClientAction::Exit(Err(LinkError::ChannelError(ChannelError::ChannelDead))),
        ),
        (ClientState::AwaitingSend, ClientEvent::SendFinished) => (
            ClientState::Stopped,
            ClientAction::Exit(Ok(())),
        ),
        _ => (state, ClientAction::Wait),
    }
}

/// The client never discovers or connects a second time: once it has left a
/// state it does not come back to it, so a failure is final.
pub proof fn lemma_client_does_not_retry(state: ClientState, event: ClientEvent)
    ensures
        !(client_step(state, event).1 is Discover),
        client_step(state, event).1 is Connect ==> state == ClientState::Discovering,
        client_step(state, event).0 == ClientState::Discovering ==> state
            == ClientState::Discovering,
        state == ClientState::Stopped ==> client_step(state, event) == (
            ClientState::Stopped,
            ClientAction::Wait,
        ),
{
}

/// The client seeks what the server advertises: every record of the display
/// carries the service type that a new client browses for, and the port that
/// the client connects to at the address it has discovered.
pub proof fn lemma_client_seeks_what_is_advertised(
    record: ServiceRecord,
    advertised: [u8; 4],
    discovered: [u8; 4],
)
    requires
        record.advertises(advertised),
    ensures
        record.service_type@ == SERVICE_TYPE@,
        client_step(ClientState::Discovering, ClientEvent::Discovered(Ok(discovered))) == (
            ClientState::Connecting,
            ClientAction::Connect(discovered, record.port),
        ),
{
}

/// The client of the controller: its place in the life cycle.
#[derive(Debug)]
pub struct Client {
    state: ClientState,
}

impl Client {
    /// Where the client stands.
    pub closed spec fn state(&self) -> ClientState {
        self.state
    }

    /// Where the client stands.
    pub fn current(&self) -> (state: ClientState)
        ensures
            state == self.state(),
    {
        self.state
    }

    /// A new client and its first action: to browse for the service type
    /// under which the display is advertised.
    pub fn spawn() -> (r: (Client, ClientAction))
        ensures
            r.0.state() == ClientState::Discovering,
            r.1 == ClientAction::Discover(SERVICE_TYPE),
    {
        (Client { state: ClientState::Discovering }, ClientAction::Discover(SERVICE_TYPE))
    }

    /// The answer of discovery to a stream of browse events that then ends:
    /// the first resolved service decides, with its first IPv4 address; a
    /// stream without a resolved service, or a resolved service without an
    /// IPv4 address, gives `NoEndpoint`.
    pub fn discover(events: &Vec<DiscoveryEvent>) -> (r: Res<[u8; 4]>)
        ensures
            r == discovery_outcome(event_views(events@)),
    {
        let ghost all = event_views(events@);
        let mut i: usize = 0;
        assert(all.subrange(0, all.len() as int) =~= all);
        while i < events.len()
            invariant
                i <= events@.len(),
                all == event_views(events@),
                discovery_outcome(all) == discovery_outcome(
                    all.subrange(i as int, all.len() as int),
                ),
            decreases events@.len() - i,
        {
            let ghost rest = all.subrange(i as int, all.len() as int);
            assert(rest[0] == events@[i as int]@);
            assert(rest.drop_first() =~= all.subrange(i + 1, all.len() as int));
            match resolve(&events[i]) {
                Some(answer) => {
                    return answer;
                },
                None => {},
            }
            i = i + 1;
        }
        Err(LinkError::ApplicationError(ApplicationError::NoEndpoint))
    }

    /// Takes one event and answers with the next action.
    pub fn run(&mut self, event: ClientEvent) -> (action: ClientAction)
        ensures
            (final(self).state(), action) == client_step(old(self).state(), event),
    {
        let (state, action) = match (self.state, event) {
            (ClientState::Discovering, ClientEvent::Discovered(Ok(ip))) => (
                ClientState::Connecting,
                ClientAction::Connect(ip, PORT),
            ),
            (ClientState::Discovering, ClientEvent::Discovered(Err(e))) => (
                ClientState::Stopped,
                ClientAction::Exit(Err(e)),
            ),
            (ClientState::Connecting, ClientEvent::Connected) => (
                ClientState::Starting,
                ClientAction::StartSession,
            ),
            (ClientState::Connecting, ClientEvent::ConnectFailed) => (
                ClientState::Stopped,
                ClientAction::Exit(Err(LinkError::IoError)),
            ),
            (ClientState::Starting, ClientEvent::SessionStarted) => (
                ClientState::Receiving,
                ClientAction::AwaitReceive,
            ),
            (ClientState::Starting, ClientEvent::SessionStartFailed) => (
                ClientState::Stopped,
                ClientAction::Exit(Err(LinkError::IoError)),
            ),
            (ClientState::Receiving, ClientEvent::ReceiveFinished) => (
                ClientState::Terminating,
                ClientAction::QueueSentinel,
            ),
            (ClientState::Terminating, ClientEvent::SentinelQueued) => (
                ClientState::AwaitingSend,
                ClientAction::AwaitSend,
            ),
            (ClientState::Terminating, ClientEvent::SentinelRefused) => (
                ClientState::Stopped,
                ClientAction::Exit(Err(LinkError::ChannelError(ChannelError::ChannelDead))),
            ),
            (ClientState::AwaitingSend, ClientEvent::SendFinished) => (
                ClientState::Stopped,
                ClientAction::Exit(Ok(())),
            ),
            (state, _) => (state, ClientAction::Wait),
        };
        self.state = state;
        action
    }
}

} // verus!
