//! Error kinds of the library and of the collaborators whose failures it carries.

use vstd::prelude::*;
use vstd::std_specs::convert::FromSpecImpl;

verus! {

/// Misuse or teardown of one of the in-process channels.
#[derive(Clone, Copy, Debug, PartialEq, Eq, Structural)]
pub enum ChannelError {
    /// Every peer of the channel is gone.
    ChannelDead,
    /// Nothing is queued, but the channel is still open.
    ChannelEmpty,
}

/// Failures raised by the application layer itself.
#[derive(Clone, Copy, Debug, PartialEq, Eq, Structural)]
pub enum ApplicationError {
    NotAuthenticated,
    NoSuchAlbum,
    /// Discovery found no usable IPv4 endpoint.
    NoEndpoint,
}

/// Failures of the login callback listener.
#[derive(Clone, Copy, Debug, PartialEq, Eq, Structural)]
pub enum ServerError {
    NoQueryOnCallback,
    MalformedCallback,
    MalformedCSRF,
    InvalidCSRF,
}

/// Failures of the token endpoint.
#[derive(Clone, Copy, Debug, PartialEq, Eq, Structural)]
pub enum OAUTH2ApiError {
    POSTFailed,
}

/// Failures of the cache database interface.
#[derive(Clone, Copy, Debug, PartialEq, Eq, Structural)]
pub enum DatabaseInterfaceError {
    IncorrectNumberOfRows,
    MalformedRow,
}

/// Failures while preparing the application directories.
#[derive(Clone, Copy, Debug, PartialEq, Eq, Structural)]
pub enum DirectoryError {
    HomeDirError,
    FailedToCreateRoot,
    FailedToCreateAlbums,
    FailedToCreateDeps,
}

/// Failures of the drive API.
#[derive(Clone, Copy, Debug, PartialEq, Eq, Structural)]
pub enum OnedriveError {
    BadStatus,
}

/// Failures of the image downloader.
#[derive(Clone, Copy, Debug, PartialEq, Eq, Structural)]
pub enum DownloadError {
    CouldNotParseExtension,
}

/// Everything that can go wrong in the library or be reported through it.
#[derive(Clone, Copy, Debug, PartialEq, Eq, Structural)]
pub enum LinkError {
    /// A socket-level failure other than the peer closing.
    IoError,
    /// The peer closed the connection before a whole frame arrived.
    ConnectionClosed,
    /// A payload that is not a message of the catalog.
    MalformedMessage,
    /// The archiver could not turn a message into bytes.
    EncodeFailure,
    /// A frame longer than [`crate::frame::MAX_FRAME_LEN`].
    FrameTooLarge,
    /// The discovery daemon refused an operation.
    MdnsError,
    ChannelError(ChannelError),
    ApplicationError(ApplicationError),
    ServerError(ServerError),
    OAUTH2ApiError(OAUTH2ApiError),
    DatabaseInterfaceError(DatabaseInterfaceError),
    DirectoryError(DirectoryError),
    OnedriveError(OnedriveError),
    DownloadError(DownloadError),
}

pub type Res<T> = Result<T, LinkError>;

impl From<ChannelError> for LinkError {
    fn from(e: ChannelError) -> (r: LinkError) {
        LinkError::ChannelError(e)
    }
}

impl FromSpecImpl<ChannelError> for LinkError {
    open spec fn obeys_from_spec() -> bool {
        true
    }

    open spec fn from_spec(e: ChannelError) -> LinkError {
        LinkError::ChannelError(e)
    }
}

impl From<ApplicationError> for LinkError {
    fn from(e: ApplicationError) -> (r: LinkError) {
        LinkError::ApplicationError(e)
    }
}

impl FromSpecImpl<ApplicationError> for LinkError {
    open spec fn obeys_from_spec() -> bool {
        true
    }

    open spec fn from_spec(e: ApplicationError) -> LinkError {
        LinkError::ApplicationError(e)
    }
}

impl From<ServerError> for LinkError {
    fn from(e: ServerError) -> (r: LinkError) {
        LinkError::ServerError(e)
    }
}

impl FromSpecImpl<ServerError> for LinkError {
    open spec fn obeys_from_spec() -> bool {
        true
    }

    open spec fn from_spec(e: ServerError) -> LinkError {
        LinkError::ServerError(e)
    }
}

impl From<OAUTH2ApiError> for LinkError {
    fn from(e: OAUTH2ApiError) -> (r: LinkError) {
        LinkError::OAUTH2ApiError(e)
    }
}

impl FromSpecImpl<OAUTH2ApiError> for LinkError {
    open spec fn obeys_from_spec() -> bool {
        true
    }

    open spec fn from_spec(e: OAUTH2ApiError) -> LinkError {
        LinkError::OAUTH2ApiError(e)
    }
}

impl From<DatabaseInterfaceError> for LinkError {
    fn from(e: DatabaseInterfaceError) -> (r: LinkError) {
        LinkError::DatabaseInterfaceError(e)
    }
}

impl FromSpecImpl<DatabaseInterfaceError> for LinkError {
    open spec fn obeys_from_spec() -> bool {
        true
    }

    open spec fn from_spec(e: DatabaseInterfaceError) -> LinkError {
        LinkError::DatabaseInterfaceError(e)
    }
}

impl From<DirectoryError> for LinkError {
    fn from(e: DirectoryError) -> (r: LinkError) {
        LinkError::DirectoryError(e)
    }
}

impl FromSpecImpl<DirectoryError> for LinkError {
    open spec fn obeys_from_spec() -> bool {
        true
    }

    open spec fn from_spec(e: DirectoryError) -> LinkError {
        LinkError::DirectoryError(e)
    }
}

impl From<OnedriveError> for LinkError {
    fn from(e: OnedriveError) -> (r: LinkError) {
        LinkError::OnedriveError(e)
    }
}

impl FromSpecImpl<OnedriveError> for LinkError {
    open spec fn obeys_from_spec() -> bool {
        true
    }

    open spec fn from_spec(e: OnedriveError) -> LinkError {
        LinkError::OnedriveError(e)
    }
}

impl From<DownloadError> for LinkError {
    fn from(e: DownloadError) -> (r: LinkError) {
        LinkError::DownloadError(e)
    }
}

impl FromSpecImpl<DownloadError> for LinkError {
    open spec fn obeys_from_spec() -> bool {
        true
    }

    open spec fn from_spec(e: DownloadError) -> LinkError {
        LinkError::DownloadError(e)
    }
}

/// The error of `async_channel::Receiver::try_recv`, with its two variants visible.
#[verifier::external_type_specification]
pub struct ExTryRecvError(async_channel::TryRecvError);

/// The error of `async_channel::Receiver::recv`: the channel is empty and closed.
#[verifier::external_type_specification]
#[verifier::external_body]
pub struct ExRecvError(async_channel::RecvError);

/// The error of `async_channel::Sender::send`, which hands the message back.
#[verifier::external_type_specification]
#[verifier::external_body]
#[verifier::reject_recursive_types(T)]
pub struct ExSendError<T>(async_channel::SendError<T>);

impl From<async_channel::TryRecvError> for ChannelError {
    fn from(error: async_channel::TryRecvError) -> (r: ChannelError) {
        match error {
            async_channel::TryRecvError::Empty => ChannelError::ChannelEmpty,
            async_channel::TryRecvError::Closed => ChannelError::ChannelDead,
        }
    }
}

impl FromSpecImpl<async_channel::TryRecvError> for ChannelError {
    open spec fn obeys_from_spec() -> bool {
        true
    }

    open spec fn from_spec(error: async_channel::TryRecvError) -> ChannelError {
        match error {
            async_channel::TryRecvError::Empty => ChannelError::ChannelEmpty,
            async_channel::TryRecvError::Closed => ChannelError::ChannelDead,
        }
    }
}

impl From<async_channel::RecvError> for ChannelError {
    fn from(error: async_channel::RecvError) -> (r: ChannelError) {
        ChannelError::ChannelDead
    }
}

impl FromSpecImpl<async_channel::RecvError> for ChannelError {
    open spec fn obeys_from_spec() -> bool {
        true
    }

    open spec fn from_spec(error: async_channel::RecvError) -> ChannelError {
        ChannelError::ChannelDead
    }
}

impl<T> From<async_channel::SendError<T>> for ChannelError {
    fn from(error: async_channel::SendError<T>) -> (r: ChannelError) {
        ChannelError::ChannelDead
    }
}

impl<T> FromSpecImpl<async_channel::SendError<T>> for ChannelError {
    open spec fn obeys_from_spec() -> bool {
        true
    }

    open spec fn from_spec(error: async_channel::SendError<T>) -> ChannelError {
        ChannelError::ChannelDead
    }
}

} // verus!
