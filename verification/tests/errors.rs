use reflection::error::ApplicationError;
use reflection::error::ChannelError;
use reflection::error::DatabaseInterfaceError;
use reflection::error::DirectoryError;
use reflection::error::DownloadError;
use reflection::error::LinkError;
use reflection::error::OAUTH2ApiError;
use reflection::error::OnedriveError;
use reflection::error::ServerError;

#[test]
fn channel_error_from_try_recv() {
    assert_eq!(ChannelError::from(async_channel::TryRecvError::Empty), ChannelError::ChannelEmpty);
    assert_eq!(ChannelError::from(async_channel::TryRecvError::Closed), ChannelError::ChannelDead);
}

#[test]
fn channel_error_from_a_live_and_a_dead_channel() {
    let (sender, receiver) = async_channel::unbounded::<u8>();
    assert_eq!(receiver.try_recv().map_err(ChannelError::from), Err(ChannelError::ChannelEmpty));
    drop(sender);
    assert_eq!(receiver.try_recv().map_err(ChannelError::from), Err(ChannelError::ChannelDead));
    assert_eq!(receiver.recv_blocking().map_err(ChannelError::from), Err(ChannelError::ChannelDead));

    let (sender, receiver) = async_channel::unbounded::<u8>();
    drop(receiver);
    assert_eq!(sender.send_blocking(1).map_err(ChannelError::from), Err(ChannelError::ChannelDead));
}

#[test]
fn link_error_wraps_the_kinds_it_carries() {
    assert_eq!(
        LinkError::from(ChannelError::ChannelDead),
        LinkError::ChannelError(ChannelError::ChannelDead)
    );
    assert_eq!(
        LinkError::from(ChannelError::ChannelEmpty),
        LinkError::ChannelError(ChannelError::ChannelEmpty)
    );
    assert_eq!(
        LinkError::from(ApplicationError::NoEndpoint),
        LinkError::ApplicationError(ApplicationError::NoEndpoint)
    );
    assert_eq!(
        LinkError::from(ApplicationError::NoSuchAlbum),
        LinkError::ApplicationError(ApplicationError::NoSuchAlbum)
    );
}

#[test]
fn link_error_wraps_the_failures_of_the_collaborators() {
    assert_eq!(
        LinkError::from(ServerError::InvalidCSRF),
        LinkError::ServerError(ServerError::InvalidCSRF)
    );
    assert_eq!(
        LinkError::from(OAUTH2ApiError::POSTFailed),
        LinkError::OAUTH2ApiError(OAUTH2ApiError::POSTFailed)
    );
    assert_eq!(
        LinkError::from(DatabaseInterfaceError::MalformedRow),
        LinkError::DatabaseInterfaceError(DatabaseInterfaceError::MalformedRow)
    );
    assert_eq!(
        LinkError::from(DirectoryError::HomeDirError),
        LinkError::DirectoryError(DirectoryError::HomeDirError)
    );
    assert_eq!(
        LinkError::from(OnedriveError::BadStatus),
        LinkError::OnedriveError(OnedriveError::BadStatus)
    );
    assert_eq!(
        LinkError::from(DownloadError::CouldNotParseExtension),
        LinkError::DownloadError(DownloadError::CouldNotParseExtension)
    );
}
