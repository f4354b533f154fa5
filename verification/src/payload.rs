//! Records that travel inside messages. The link carries them without
//! interpreting them; their shapes belong to the collaborators that fill them.

use vstd::prelude::*;

verus! {

/// Access and refresh token of a login, with the second at which they expire.
#[derive(Clone, Debug, PartialEq, Eq)]
pub struct TokenSet {
    pub access_token: String,
    pub refresh_token: String,
    pub absolute_expiration: usize,
}

pub struct TokenSetView {
    pub access_token: Seq<char>,
    pub refresh_token: Seq<char>,
    pub absolute_expiration: int,
}

impl View for TokenSet {
    type V = TokenSetView;

    open spec fn view(&self) -> TokenSetView {
        TokenSetView {
            access_token: self.access_token@,
            refresh_token: self.refresh_token@,
            absolute_expiration: self.absolute_expiration as int,
        }
    }
}

/// A bearer token for the drive API.
#[derive(Clone, Debug, PartialEq, Eq)]
pub struct AccessToken {
    token: String,
}

impl View for AccessToken {
    type V = Seq<char>;

    closed spec fn view(&self) -> Seq<char> {
        self.token@
    }
}

impl AccessToken {
    pub fn new(access_token: String) -> (r: AccessToken)
        ensures
            r@ == access_token@,
    {
        Self { token: access_token }
    }

    pub fn get(&self) -> (r: &str)
        ensures
            r@ == self@,
    {
        self.token.as_str()
    }
}

/// What the drive API tells about a shared album.
#[derive(Clone, Debug, PartialEq, Eq)]
pub struct AlbumDriveItem {
    pub id: String,
    pub name: String,
}

/// An album as the cache knows it.
#[derive(Clone, Debug, PartialEq, Eq)]
pub struct Album {
    pub id: usize,
    pub onedrive_id: String,
    pub name: String,
    pub share_link: String,
}

pub struct AlbumView {
    pub id: int,
    pub onedrive_id: Seq<char>,
    pub name: Seq<char>,
    pub share_link: Seq<char>,
}

impl View for Album {
    type V = AlbumView;

    open spec fn view(&self) -> AlbumView {
        AlbumView {
            id: self.id as int,
            onedrive_id: self.onedrive_id@,
            name: self.name@,
            share_link: self.share_link@,
        }
    }
}

impl Album {
    /// The album that a drive item describes, not yet stored: its cache id is 0.
    pub fn from_response(response: AlbumDriveItem, share_link: String) -> (album: Album)
        ensures
            album@ == (AlbumView {
                id: 0,
                onedrive_id: response.id@,
                name: response.name@,
                share_link: share_link@,
            }),
    {
        Album { id: 0, onedrive_id: response.id, name: response.name, share_link }
    }
}

/// A point in time: seconds and nanoseconds since the Unix epoch.
#[derive(Clone, Copy, Debug, PartialEq, Eq, Structural)]
pub struct Timestamp {
    pub secs: u64,
    pub nanos: u32,
}

/// Where a photo was taken. Each coordinate is held as the bit pattern of its
/// IEEE 754 double, which the link carries through unchanged.
#[derive(Clone, Copy, Debug, PartialEq, Eq, Structural)]
pub struct LocationData {
    pub altitude: Option<u64>,
    pub latitude: u64,
    pub longitude: u64,
}

/// A photo as the cache knows it.
#[derive(Clone, Debug, PartialEq, Eq)]
pub struct Photo {
    pub id: usize,
    pub onedrive_id: String,
    pub name: String,
    pub creation_date: Option<Timestamp>,
    pub width: usize,
    pub height: usize,
    pub filesize: usize,
    pub location: Option<LocationData>,
}

pub struct PhotoView {
    pub id: int,
    pub onedrive_id: Seq<char>,
    pub name: Seq<char>,
    pub creation_date: Option<Timestamp>,
    pub width: int,
    pub height: int,
    pub filesize: int,
    pub location: Option<LocationData>,
}

impl View for Photo {
    type V = PhotoView;

    open spec fn view(&self) -> PhotoView {
        PhotoView {
            id: self.id as int,
            onedrive_id: self.onedrive_id@,
            name: self.name@,
            creation_date: self.creation_date,
            width: self.width as int,
            height: self.height as int,
            filesize: self.filesize as int,
            location: self.location,
        }
    }
}

/// The views of the albums in `albums`, in order.
pub open spec fn album_views(albums: Seq<Album>) -> Seq<AlbumView> {
    Seq::new(albums.len(), |i: int| albums[i]@)
}

/// The views of the photos in `photos`, in order.
pub open spec fn photo_views(photos: Seq<Photo>) -> Seq<PhotoView> {
    Seq::new(photos.len(), |i: int| photos[i]@)
}

} // verus!
