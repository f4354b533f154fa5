//! The message catalog and its codec.
//!
//! A message is lowered to a [`Record`]: its variant's position in the catalog
//! and its payload as plain values. The record is what gets archived to bytes
//! and checked when bytes come back. The positions are part of the wire
//! contract: new variants go to the end.

use crate::error::LinkError;
use crate::error::Res;
use crate::payload::album_views;
use crate::payload::photo_views;
use crate::payload::Album;
use crate::payload::AlbumView;
use crate::payload::LocationData;
use crate::payload::Photo;
use crate::payload::PhotoView;
use crate::payload::Timestamp;
use crate::payload::TokenSet;
use crate::payload::TokenSetView;
use vstd::prelude::*;
use vstd::slice::slice_to_vec;

verus! {

/// The closed set of messages that the two peers exchange.
#[derive(Clone, Debug, PartialEq, Eq)]
pub enum NetworkMessage {
    // controller to display
    TokenSet(TokenSet),
    Sharelink(String),
    PlayAlbum(Album),
    RequestAllAlbums,
    RequestPhotosInAlbum(Album),
    RequestThumbnails,
    RequestActiveAlbum,
    // display to controller
    NewAlbum(Album),
    ReturnAllAlbums(Vec<Album>),
    ReturnPhotosInAlbum(Vec<Photo>),
    Thumbnail(Album, Vec<u8>),
    ReturnActiveAlbum(Option<Album>),
    /// Stops the local send loop. It is never put on the wire.
    TerminateThread,
}

pub enum MessageView {
    TokenSet(TokenSetView),
    Sharelink(Seq<char>),
    PlayAlbum(AlbumView),
    RequestAllAlbums,
    RequestPhotosInAlbum(AlbumView),
    RequestThumbnails,
    RequestActiveAlbum,
    NewAlbum(AlbumView),
    ReturnAllAlbums(Seq<AlbumView>),
    ReturnPhotosInAlbum(Seq<PhotoView>),
    Thumbnail(AlbumView, Seq<u8>),
    ReturnActiveAlbum(Option<AlbumView>),
    TerminateThread,
}

impl View for NetworkMessage {
    type V = MessageView;

    open spec fn view(&self) -> MessageView {
        match self {
            NetworkMessage::TokenSet(t) => MessageView::TokenSet(t@),
            NetworkMessage::Sharelink(s) => MessageView::Sharelink(s@),
            NetworkMessage::PlayAlbum(a) => MessageView::PlayAlbum(a@),
            NetworkMessage::RequestAllAlbums => MessageView::RequestAllAlbums,
            NetworkMessage::RequestPhotosInAlbum(a) => MessageView::RequestPhotosInAlbum(a@),
            NetworkMessage::RequestThumbnails => MessageView::RequestThumbnails,
            NetworkMessage::RequestActiveAlbum => MessageView::RequestActiveAlbum,
            NetworkMessage::NewAlbum(a) => MessageView::NewAlbum(a@),
            NetworkMessage::ReturnAllAlbums(v) => MessageView::ReturnAllAlbums(album_views(v@)),
            NetworkMessage::ReturnPhotosInAlbum(v) => MessageView::ReturnPhotosInAlbum(
                photo_views(v@),
            ),
            NetworkMessage::Thumbnail(a, bytes) => MessageView::Thumbnail(a@, bytes@),
            NetworkMessage::ReturnActiveAlbum(a) => MessageView::ReturnActiveAlbum(
                match a {
                    Some(a) => Some(a@),
                    None => None,
                },
            ),
            NetworkMessage::TerminateThread => MessageView::TerminateThread,
        }
    }
}

/// An album as plain values: cache id, drive id, name, share link.
pub type AlbumRecord = (u64, String, String, String);

/// A photo as plain values: (cache id, drive id, name), (width, height, file
/// size), creation date as (seconds, nanoseconds), location as (altitude,
/// latitude, longitude).
pub type PhotoRecord = (
    (u64, String, String),
    (u64, u64, u64),
    Option<(u64, u32)>,
    Option<(Option<u64>, u64, u64)>,
);

/// A message lowered to plain values.
pub struct Record {
    /// Position of the variant in the catalog.
    pub tag: u8,
    pub texts: Vec<String>,
    pub numbers: Vec<u64>,
    pub albums: Vec<AlbumRecord>,
    pub photos: Vec<PhotoRecord>,
    pub blob: Vec<u8>,
}

pub struct RecordView {
    pub tag: u8,
    pub texts: Seq<Seq<char>>,
    pub numbers: Seq<u64>,
    pub albums: Seq<AlbumView>,
    pub photos: Seq<PhotoView>,
    pub blob: Seq<u8>,
}

pub open spec fn album_record_view(a: AlbumRecord) -> AlbumView {
    AlbumView { id: a.0 as int, onedrive_id: a.1@, name: a.2@, share_link: a.3@ }
}

pub open spec fn photo_record_view(p: PhotoRecord) -> PhotoView {
    PhotoView {
        id: p.0.0 as int,
        onedrive_id: p.0.1@,
        name: p.0.2@,
        creation_date: match p.2 {
            Some(date) => Some(Timestamp { secs: date.0, nanos: date.1 }),
            None => None,
        },
        width: p.1.0 as int,
        height: p.1.1 as int,
        filesize: p.1.2 as int,
        location: match p.3 {
            Some(place) => Some(
                LocationData { altitude: place.0, latitude: place.1, longitude: place.2 },
            ),
            None => None,
        },
    }
}

impl View for Record {
    type V = RecordView;

    open spec fn view(&self) -> RecordView {
        RecordView {
            tag: self.tag,
            texts: Seq::new(self.texts@.len(), |i: int| self.texts@[i]@),
            numbers: self.numbers@,
            albums: Seq::new(self.albums@.len(), |i: int| album_record_view(self.albums@[i])),
            photos: Seq::new(self.photos@.len(), |i: int| photo_record_view(self.photos@[i])),
            blob: self.blob@,
        }
    }
}

/// Position of a message's variant in the catalog.
pub open spec fn tag_of(m: MessageView) -> u8 {
    match m {
        MessageView::TokenSet(_) => 0,
        MessageView::Sharelink(_) => 1,
        MessageView::PlayAlbum(_) => 2,
        MessageView::RequestAllAlbums => 3,
        MessageView::RequestPhotosInAlbum(_) => 4,
        MessageView::RequestThumbnails => 5,
        MessageView::RequestActiveAlbum => 6,
        MessageView::NewAlbum(_) => 7,
        MessageView::ReturnAllAlbums(_) => 8,
        MessageView::ReturnPhotosInAlbum(_) => 9,
        MessageView::Thumbnail(_, _) => 10,
        MessageView::ReturnActiveAlbum(_) => 11,
        MessageView::TerminateThread => 12,
    }
}

/// A record with the given tag and nothing else.
pub open spec fn bare(tag: u8) -> RecordView {
    RecordView {
        tag,
        texts: Seq::empty(),
        numbers: Seq::empty(),
        albums: Seq::empty(),
        photos: Seq::empty(),
        blob: Seq::empty(),
    }
}

/// The record that stands for a message.
pub open spec fn record_of(m: MessageView) -> RecordView {
    let tag = tag_of(m);
    match m {
        MessageView::TokenSet(t) => RecordView {
            texts: seq![t.access_token, t.refresh_token],
            numbers: seq![t.absolute_expiration as u64],
            ..bare(tag)
        },
        MessageView::Sharelink(s) => RecordView { texts: seq![s], ..bare(tag) },
        MessageView::PlayAlbum(a) => RecordView { albums: seq![a], ..bare(tag) },
        MessageView::RequestPhotosInAlbum(a) => RecordView { albums: seq![a], ..bare(tag) },
        MessageView::NewAlbum(a) => RecordView { albums: seq![a], ..bare(tag) },
        MessageView::ReturnAllAlbums(v) => RecordView { albums: v, ..bare(tag) },
        MessageView::ReturnPhotosInAlbum(v) => RecordView { photos: v, ..bare(tag) },
        MessageView::Thumbnail(a, bytes) => RecordView {
            albums: seq![a],
            blob: bytes,
            ..bare(tag)
        },
        MessageView::ReturnActiveAlbum(a) => RecordView {
            albums: match a {
                Some(a) => seq![a],
                None => Seq::empty(),
            },
            ..bare(tag)
        },
        _ => bare(tag),
    }
}

/// A number that a `usize` field can hold.
pub open spec fn fits(n: int) -> bool {
    0 <= n <= usize::MAX
}

pub open spec fn album_fits(a: AlbumView) -> bool {
    fits(a.id)
}

pub open spec fn photo_fits(p: PhotoView) -> bool {
    fits(p.id) && fits(p.width) && fits(p.height) && fits(p.filesize)
}

pub open spec fn albums_fit(albums: Seq<AlbumView>) -> bool {
    forall|i: int| 0 <= i < albums.len() ==> album_fits(#[trigger] albums[i])
}

pub open spec fn photos_fit(photos: Seq<PhotoView>) -> bool {
    forall|i: int| 0 <= i < photos.len() ==> photo_fits(#[trigger] photos[i])
}

/// Every number in the message fits the field that holds it. This is so for
/// the view of any `NetworkMessage`.
pub open spec fn well_formed(m: MessageView) -> bool {
    match m {
        MessageView::TokenSet(t) => fits(t.absolute_expiration),
        MessageView::PlayAlbum(a) => album_fits(a),
        MessageView::RequestPhotosInAlbum(a) => album_fits(a),
        MessageView::NewAlbum(a) => album_fits(a),
        MessageView::ReturnAllAlbums(v) => albums_fit(v),
        MessageView::ReturnPhotosInAlbum(v) => photos_fit(v),
        MessageView::Thumbnail(a, _) => album_fits(a),
        MessageView::ReturnActiveAlbum(Some(a)) => album_fits(a),
        _ => true,
    }
}

/// The record holds exactly so many texts, numbers and albums, and no photos.
pub open spec fn holds(r: RecordView, texts: nat, numbers: nat, albums: nat) -> bool {
    r.texts.len() == texts && r.numbers.len() == numbers && r.albums.len() == albums
        && r.photos.len() == 0
}

/// The message that a record stands for, if it stands for one: the tag names a
/// variant, the record holds what that variant carries and nothing more, and
/// every number fits its field.
pub open spec fn message_of(r: RecordView) -> Option<MessageView> {
    if r.tag == 0 {
        if holds(r, 2, 1, 0) && r.blob.len() == 0 && fits(r.numbers[0] as int) {
            Some(
                MessageView::TokenSet(
                    TokenSetView {
                        access_token: r.texts[0],
                        refresh_token: r.texts[1],
                        absolute_expiration: r.numbers[0] as int,
                    },
                ),
            )
        } else {
            None
        }
    } else if r.tag == 1 {
        if holds(r, 1, 0, 0) && r.blob.len() == 0 {
            Some(MessageView::Sharelink(r.texts[0]))
        } else {
            None
        }
    } else if r.tag == 2 || r.tag == 4 || r.tag == 7 {
        if holds(r, 0, 0, 1) && r.blob.len() == 0 && album_fits(r.albums[0]) {
            Some(
                if r.tag == 2 {
                    MessageView::PlayAlbum(r.albums[0])
                } else if r.tag == 4 {
                    MessageView::RequestPhotosInAlbum(r.albums[0])
                } else {
                    MessageView::NewAlbum(r.albums[0])
                },
            )
        } else {
            None
        }
    } else if r.tag == 3 || r.tag == 5 || r.tag == 6 || r.tag == 12 {
        if holds(r, 0, 0, 0) && r.blob.len() == 0 {
            Some(
                if r.tag == 3 {
                    MessageView::RequestAllAlbums
                } else if r.tag == 5 {
                    MessageView::RequestThumbnails
                } else if r.tag == 6 {
                    MessageView::RequestActiveAlbum
                } else {
                    MessageView::TerminateThread
                },
            )
        } else {
            None
        }
    } else if r.tag == 8 {
        if r.texts.len() == 0 && r.numbers.len() == 0 && r.photos.len() == 0 && r.blob.len() == 0
            && albums_fit(r.albums) {
            Some(MessageView::ReturnAllAlbums(r.albums))
        } else {
            None
        }
    } else if r.tag == 9 {
        if r.texts.len() == 0 && r.numbers.len() == 0 && r.albums.len() == 0 && r.blob.len() == 0
            && photos_fit(r.photos) {
            Some(MessageView::ReturnPhotosInAlbum(r.photos))
        } else {
            None
        }
    } else if r.tag == 10 {
        if holds(r, 0, 0, 1) && album_fits(r.albums[0]) {
            Some(MessageView::Thumbnail(r.albums[0], r.blob))
        } else {
            None
        }
    } else if r.tag == 11 {
        if holds(r, 0, 0, 0) && r.blob.len() == 0 {
            Some(MessageView::ReturnActiveAlbum(None))
        } else if holds(r, 0, 0, 1) && r.blob.len() == 0 && album_fits(r.albums[0]) {
            Some(MessageView::ReturnActiveAlbum(Some(r.albums[0])))
        } else {
            None
        }
    } else {
        None
    }
}

/// Lowering a message and raising the record again gives the message back.
pub proof fn lemma_record_round_trip(m: MessageView)
    requires
        well_formed(m),
    ensures
        message_of(record_of(m)) == Some(m),
{
    let r = record_of(m);
    match m {
        MessageView::TokenSet(t) => {
            assert(r.numbers[0] as int == t.absolute_expiration);
        },
        MessageView::ReturnActiveAlbum(a) => {
            match a {
                Some(a) => {
                    assert(r.albums[0] == a);
                },
                None => {},
            }
        },
        _ => {},
    }
}

/// A record stands for at most one message, and only the record of that
/// message stands for it: raising is the inverse of lowering.
pub proof fn lemma_record_is_canonical(r: RecordView, m: MessageView)
    requires
        message_of(r) == Some(m),
    ensures
        record_of(m) == r,
        well_formed(m),
{
    let back = record_of(m);
    assert(back.texts =~= r.texts);
    assert(back.numbers =~= r.numbers);
    assert(back.albums =~= r.albums);
    assert(back.photos =~= r.photos);
    assert(back.blob =~= r.blob);
}

/// A message keeps the tag of its variant through the record.
pub proof fn lemma_record_keeps_tag(m: MessageView)
    ensures
        record_of(m).tag == tag_of(m),
        tag_of(m) <= 12,
{
}

/// The heaviest record that is archived: 128 MiB. What a record of this weight
/// or less archives to stays well below the reach of the archiver's 32-bit
/// offsets; a heavier one archives to more than any frame takes.
pub const MAX_RECORD_WEIGHT: usize = 0x0800_0000;

/// Bound on the bytes that a text takes in an archive.
pub open spec fn text_weight(text: Seq<char>) -> nat {
    16 + 4 * text.len()
}

/// Bound on the bytes that an album takes in an archive.
pub open spec fn album_weight(a: AlbumView) -> nat {
    64 + 4 * (a.onedrive_id.len() + a.name.len() + a.share_link.len())
}

/// Bound on the bytes that a photo takes in an archive.
pub open spec fn photo_weight(p: PhotoView) -> nat {
    256 + 4 * (p.onedrive_id.len() + p.name.len())
}

/// The sum of the weights of the first `n` texts.
pub open spec fn texts_weight(texts: Seq<Seq<char>>, n: nat) -> nat
    decreases n,
{
    if n == 0 {
        0
    } else {
        texts_weight(texts, (n - 1) as nat) + text_weight(texts[n - 1])
    }
}

/// The sum of the weights of the first `n` albums.
pub open spec fn albums_weight(albums: Seq<AlbumView>, n: nat) -> nat
    decreases n,
{
    if n == 0 {
        0
    } else {
        albums_weight(albums, (n - 1) as nat) + album_weight(albums[n - 1])
    }
}

/// The sum of the weights of the first `n` photos.
pub open spec fn photos_weight(photos: Seq<PhotoView>, n: nat) -> nat
    decreases n,
{
    if n == 0 {
        0
    } else {
        photos_weight(photos, (n - 1) as nat) + photo_weight(photos[n - 1])
    }
}

/// The weight of a record: a bound, in bytes, on what it takes when archived.
/// Every character counts for four bytes, every element for the fixed part of
/// its archived form, rounded up.
pub open spec fn weight(r: RecordView) -> nat {
    128 + texts_weight(r.texts, r.texts.len()) + 8 * r.numbers.len() + albums_weight(
        r.albums,
        r.albums.len(),
    ) + photos_weight(r.photos, r.photos.len()) + r.blob.len()
}

/// The bytes that archiving a record gives.
pub uninterp spec fn archived_bytes(record: RecordView) -> Seq<u8>;

/// The record that checked access to a byte buffer gives, if the bytes hold one.
pub uninterp spec fn accessed_record(bytes: Seq<u8>) -> Option<RecordView>;

/// The bytes that encoding a message gives, when it succeeds.
pub open spec fn encoded_bytes(m: MessageView) -> Seq<u8> {
    archived_bytes(record_of(m))
}

/// The message is light enough to be archived.
pub open spec fn encodable(m: MessageView) -> bool {
    weight(record_of(m)) <= MAX_RECORD_WEIGHT
}

/// What encoding a message gives: its bytes, or `FrameTooLarge` for a message
/// too heavy to be archived.
pub open spec fn encoding(m: MessageView) -> Res<Seq<u8>> {
    if encodable(m) {
        Ok(encoded_bytes(m))
    } else {
        Err(LinkError::FrameTooLarge)
    }
}

/// The message that decoding a byte buffer gives, if it gives one.
pub open spec fn decoded_message(bytes: Seq<u8>) -> Option<MessageView> {
    match accessed_record(bytes) {
        Some(record) => message_of(record),
        None => None,
    }
}

/// The error type of the archiver.
#[verifier::external_type_specification]
#[verifier::external_body]
pub struct ExRancorError(rkyv::rancor::Error);

/// Archives a record with `rkyv::to_bytes`.
///
/// The archiver panics where an offset inside the archive does not fit in 32
/// bits, so a record must be light enough for its archive to stay below that.
/// For such a record it succeeds: its writer and its allocator never refuse,
/// and the one refusal it has for these types, a text of more than 2^30 - 1
/// bytes, is out of reach of a light record. The bytes are those that the
/// archiver gives for a record with this view. They are not empty, since they
/// end with the record's fixed part, and they are bytes from which
/// `rkyv::from_bytes` gives the record back, as the archiver's documentation
/// shows for both functions.
#[verifier::external_body]
fn archive_record(record: Record) -> (r: Result<Vec<u8>, rkyv::rancor::Error>)
    requires
        weight(record@) <= MAX_RECORD_WEIGHT,
    ensures
        r is Ok,
        r matches Ok(bytes) ==> bytes@ == archived_bytes(record@),
        r matches Ok(bytes) ==> bytes@.len() > 0,
        r matches Ok(bytes) ==> accessed_record(bytes@) == Some(record@),
{
    let Record { tag, texts, numbers, albums, photos, blob } = record;
    match rkyv::to_bytes::<rkyv::rancor::Error>(&(tag, texts, numbers, albums, photos, blob)) {
        Ok(bytes) => Ok(bytes.into_vec()),
        Err(e) => Err(e),
    }
}

/// Reads a record back with `rkyv::from_bytes`, which validates the bytes
/// before it builds the value. The bytes are first copied to an aligned
/// buffer, so that the outcome depends on them alone: it is the record named
/// by [`accessed_record`], or an error where that is `None`.
#[verifier::external_body]
fn access_record(bytes: &[u8]) -> (r: Result<Record, rkyv::rancor::Error>)
    ensures
        match accessed_record(bytes@) {
            Some(view) => r matches Ok(record) && record@ == view,
            None => r is Err,
        },
{
    let mut aligned = rkyv::util::AlignedVec::<16>::new();
    aligned.extend_from_slice(bytes);
    match rkyv::from_bytes::<
        (u8, Vec<String>, Vec<u64>, Vec<AlbumRecord>, Vec<PhotoRecord>, Vec<u8>),
        rkyv::rancor::Error,
    >(&aligned) {
        Ok((tag, texts, numbers, albums, photos, blob)) => Ok(
            Record { tag, texts, numbers, albums, photos, blob },
        ),
        Err(e) => Err(e),
    }
}

fn lower_album(album: &Album) -> (r: AlbumRecord)
    ensures
        album_record_view(r) == album@,
{
    (album.id as u64, album.onedrive_id.clone(), album.name.clone(), album.share_link.clone())
}

fn lower_photo(photo: &Photo) -> (r: PhotoRecord)
    ensures
        photo_record_view(r) == photo@,
{
    let date = match photo.creation_date {
        Some(t) => Some((t.secs, t.nanos)),
        None => None,
    };
    let place = match photo.location {
        Some(l) => Some((l.altitude, l.latitude, l.longitude)),
        None => None,
    };
    (
        (photo.id as u64, photo.onedrive_id.clone(), photo.name.clone()),
        (photo.width as u64, photo.height as u64, photo.filesize as u64),
        date,
        place,
    )
}

fn raise_album(record: &AlbumRecord) -> (r: Option<Album>)
    ensures
        album_fits(album_record_view(*record)) ==> (r matches Some(album) && album@
            == album_record_view(*record)),
        !album_fits(album_record_view(*record)) ==> r is None,
{
    if record.0 > usize::MAX as u64 {
        return None;
    }
    Some(
        Album {
            id: record.0 as usize,
            onedrive_id: record.1.clone(),
            name: record.2.clone(),
            share_link: record.3.clone(),
        },
    )
}

fn raise_photo(record: &PhotoRecord) -> (r: Option<Photo>)
    ensures
        photo_fits(photo_record_view(*record)) ==> (r matches Some(photo) && photo@
            == photo_record_view(*record)),
        !photo_fits(photo_record_view(*record)) ==> r is None,
{
    let limit = usize::MAX as u64;
    if record.0.0 > limit || record.1.0 > limit || record.1.1 > limit || record.1.2 > limit {
        return None;
    }
    let creation_date = match record.2 {
        Some(date) => Some(Timestamp { secs: date.0, nanos: date.1 }),
        None => None,
    };
    let location = match record.3 {
        Some(place) => Some(
            LocationData { altitude: place.0, latitude: place.1, longitude: place.2 },
        ),
        None => None,
    };
    Some(
        Photo {
            id: record.0.0 as usize,
            onedrive_id: record.0.1.clone(),
            name: record.0.2.clone(),
            creation_date,
            width: record.1.0 as usize,
            height: record.1.1 as usize,
            filesize: record.1.2 as usize,
            location,
        },
    )
}

fn lower_albums(albums: &Vec<Album>) -> (r: Vec<AlbumRecord>)
    ensures
        r@.len() == albums@.len(),
        forall|i: int| 0 <= i < r@.len() ==> album_record_view(#[trigger] r@[i]) == albums@[i]@,
{
    let mut out: Vec<AlbumRecord> = Vec::new();
    let mut i: usize = 0;
    while i < albums.len()
        invariant
            i <= albums@.len(),
            out@.len() == i,
            forall|j: int| 0 <= j < i ==> album_record_view(#[trigger] out@[j]) == albums@[j]@,
        decreases albums@.len() - i,
    {
        out.push(lower_album(&albums[i]));
        i = i + 1;
    }
    out
}

fn lower_photos(photos: &Vec<Photo>) -> (r: Vec<PhotoRecord>)
    ensures
        r@.len() == photos@.len(),
        forall|i: int| 0 <= i < r@.len() ==> photo_record_view(#[trigger] r@[i]) == photos@[i]@,
{
    let mut out: Vec<PhotoRecord> = Vec::new();
    let mut i: usize = 0;
    while i < photos.len()
        invariant
            i <= photos@.len(),
            out@.len() == i,
            forall|j: int| 0 <= j < i ==> photo_record_view(#[trigger] out@[j]) == photos@[j]@,
        decreases photos@.len() - i,
    {
        out.push(lower_photo(&photos[i]));
        i = i + 1;
    }
    out
}

fn raise_albums(records: &Vec<AlbumRecord>) -> (r: Option<Vec<Album>>)
    ensures
        match r {
            Some(albums) => albums@.len() == records@.len() && forall|i: int|
                0 <= i < albums@.len() ==> (#[trigger] albums@[i])@ == album_record_view(
                    records@[i],
                ) && album_fits(albums@[i]@),
            None => exists|i: int|
                0 <= i < records@.len() && !album_fits(album_record_view(#[trigger] records@[i])),
        },
{
    let mut out: Vec<Album> = Vec::new();
    let mut i: usize = 0;
    while i < records.len()
        invariant
            i <= records@.len(),
            out@.len() == i,
            forall|j: int|
                0 <= j < i ==> (#[trigger] out@[j])@ == album_record_view(records@[j])
                    && album_fits(out@[j]@),
        decreases records@.len() - i,
    {
        match raise_album(&records[i]) {
            Some(album) => {
                out.push(album);
            },
            None => {
                return None;
            },
        }
        i = i + 1;
    }
    Some(out)
}

fn raise_photos(records: &Vec<PhotoRecord>) -> (r: Option<Vec<Photo>>)
    ensures
        match r {
            Some(photos) => photos@.len() == records@.len() && forall|i: int|
                0 <= i < photos@.len() ==> (#[trigger] photos@[i])@ == photo_record_view(
                    records@[i],
                ) && photo_fits(photos@[i]@),
            None => exists|i: int|
                0 <= i < records@.len() && !photo_fits(photo_record_view(#[trigger] records@[i])),
        },
{
    let mut out: Vec<Photo> = Vec::new();
    let mut i: usize = 0;
    while i < records.len()
        invariant
            i <= records@.len(),
            out@.len() == i,
            forall|j: int|
                0 <= j < i ==> (#[trigger] out@[j])@ == photo_record_view(records@[j])
                    && photo_fits(out@[j]@),
        decreases records@.len() - i,
    {
        match raise_photo(&records[i]) {
            Some(photo) => {
                out.push(photo);
            },
            None => {
                return None;
            },
        }
        i = i + 1;
    }
    Some(out)
}

/// `n`, or one more than the heaviest record weighs if `n` is above that.
pub open spec fn capped(n: nat) -> nat {
    if n <= MAX_RECORD_WEIGHT {
        n
    } else {
        (MAX_RECORD_WEIGHT + 1) as nat
    }
}

fn add_capped(total: usize, term: usize) -> (r: usize)
    requires
        total <= MAX_RECORD_WEIGHT + 1,
    ensures
        r == capped(total as nat + term as nat),
{
    if term > MAX_RECORD_WEIGHT || total > MAX_RECORD_WEIGHT - term {
        MAX_RECORD_WEIGHT + 1
    } else {
        total + term
    }
}

fn weigh_text(fixed: usize, text: &String) -> (r: usize)
    requires
        fixed <= 256,
    ensures
        r == capped(fixed as nat + 4 * text@.len()),
{
    let chars = text.as_str().unicode_len();
    if chars > MAX_RECORD_WEIGHT / 4 {
        MAX_RECORD_WEIGHT + 1
    } else {
        add_capped(fixed, 4 * chars)
    }
}

fn weigh_texts(texts: &Vec<String>) -> (r: usize)
    ensures
        r == capped(texts_weight(Seq::new(texts@.len(), |i: int| texts@[i]@), texts@.len())),
{
    let ghost views = Seq::new(texts@.len(), |i: int| texts@[i]@);
    let mut total: usize = 0;
    let mut i: usize = 0;
    while i < texts.len()
        invariant
            i <= texts@.len(),
            views == Seq::new(texts@.len(), |i: int| texts@[i]@),
            total == capped(texts_weight(views, i as nat)),
        decreases texts@.len() - i,
    {
        let term = weigh_text(16, &texts[i]);
        assert(term == capped(text_weight(views[i as int])));
        total = add_capped(total, term);
        i = i + 1;
    }
    total
}

fn weigh_albums(albums: &Vec<AlbumRecord>) -> (r: usize)
    ensures
        r == capped(
            albums_weight(
                Seq::new(albums@.len(), |i: int| album_record_view(albums@[i])),
                albums@.len(),
            ),
        ),
{
    let ghost views = Seq::new(albums@.len(), |i: int| album_record_view(albums@[i]));
    let mut total: usize = 0;
    let mut i: usize = 0;
    while i < albums.len()
        invariant
            i <= albums@.len(),
            views == Seq::new(albums@.len(), |i: int| album_record_view(albums@[i])),
            total == capped(albums_weight(views, i as nat)),
        decreases albums@.len() - i,
    {
        let album = &albums[i];
        let term = add_capped(
            add_capped(weigh_text(64, &album.1), weigh_text(0, &album.2)),
            weigh_text(0, &album.3),
        );
        assert(term == capped(album_weight(views[i as int])));
        total = add_capped(total, term);
        i = i + 1;
    }
    total
}

fn weigh_photos(photos: &Vec<PhotoRecord>) -> (r: usize)
    ensures
        r == capped(
            photos_weight(
                Seq::new(photos@.len(), |i: int| photo_record_view(photos@[i])),
                photos@.len(),
            ),
        ),
{
    let ghost views = Seq::new(photos@.len(), |i: int| photo_record_view(photos@[i]));
    let mut total: usize = 0;
    let mut i: usize = 0;
    while i < photos.len()
        invariant
            i <= photos@.len(),
            views == Seq::new(photos@.len(), |i: int| photo_record_view(photos@[i])),
            total == capped(photos_weight(views, i as nat)),
        decreases photos@.len() - i,
    {
        let photo = &photos[i];
        let term = add_capped(weigh_text(256, &photo.0.1), weigh_text(0, &photo.0.2));
        assert(term == capped(photo_weight(views[i as int])));
        total = add_capped(total, term);
        i = i + 1;
    }
    total
}

impl Record {
    /// A record with the given tag and nothing else.
    fn bare(tag: u8) -> (r: Record)
        ensures
            r@ == bare(tag),
            r.tag == tag,
            r.texts@.len() == 0,
            r.numbers@.len() == 0,
            r.albums@.len() == 0,
            r.photos@.len() == 0,
            r.blob@.len() == 0,
    {
        let r = Record {
            tag,
            texts: Vec::new(),
            numbers: Vec::new(),
            albums: Vec::new(),
            photos: Vec::new(),
            blob: Vec::new(),
        };
        assert(r@.texts =~= Seq::empty());
        assert(r@.albums =~= Seq::empty());
        assert(r@.photos =~= Seq::empty());
        r
    }

    fn with_album(tag: u8, album: &Album) -> (r: Record)
        ensures
            r@ == (RecordView { albums: seq![album@], ..bare(tag) }),
            r.tag == tag,
            r.texts@.len() == 0,
            r.numbers@.len() == 0,
            r.albums@.len() == 1,
            album_record_view(r.albums@[0]) == album@,
            r.photos@.len() == 0,
            r.blob@.len() == 0,
    {
        let mut r = Record::bare(tag);
        r.albums.push(lower_album(album));
        assert(r@.albums =~= seq![album@]);
        assert(r@.texts =~= Seq::empty());
        assert(r@.photos =~= Seq::empty());
        r
    }
}

impl Record {
    /// Whether the record is light enough to be archived.
    pub fn is_light(&self) -> (r: bool)
        ensures
            r == (weight(self@) <= MAX_RECORD_WEIGHT),
    {
        let numbers = if self.numbers.len() > MAX_RECORD_WEIGHT / 8 {
            MAX_RECORD_WEIGHT + 1
        } else {
            8 * self.numbers.len()
        };
        let total = add_capped(128, weigh_texts(&self.texts));
        let total = add_capped(total, numbers);
        let total = add_capped(total, weigh_albums(&self.albums));
        let total = add_capped(total, weigh_photos(&self.photos));
        let total = add_capped(total, self.blob.len());
        total <= MAX_RECORD_WEIGHT
    }
}

impl NetworkMessage {
    /// Whether this is the sentinel that stops the send loop.
    pub fn is_terminate(&self) -> (r: bool)
        ensures
            r == (self@ == MessageView::TerminateThread),
    {
        match self {
            NetworkMessage::TerminateThread => true,
            _ => false,
        }
    }

    /// Position of the variant in the catalog.
    pub fn tag(&self) -> (r: u8)
        ensures
            r == tag_of(self@),
    {
        match self {
            NetworkMessage::TokenSet(_) => 0,
            NetworkMessage::Sharelink(_) => 1,
            NetworkMessage::PlayAlbum(_) => 2,
            NetworkMessage::RequestAllAlbums => 3,
            NetworkMessage::RequestPhotosInAlbum(_) => 4,
            NetworkMessage::RequestThumbnails => 5,
            NetworkMessage::RequestActiveAlbum => 6,
            NetworkMessage::NewAlbum(_) => 7,
            NetworkMessage::ReturnAllAlbums(_) => 8,
            NetworkMessage::ReturnPhotosInAlbum(_) => 9,
            NetworkMessage::Thumbnail(_, _) => 10,
            NetworkMessage::ReturnActiveAlbum(_) => 11,
            NetworkMessage::TerminateThread => 12,
        }
    }

    /// Lowers the message to its record.
    pub fn to_record(&self) -> (r: Record)
        ensures
            r@ == record_of(self@),
            well_formed(self@),
    {
        let tag = self.tag();
        match self {
            NetworkMessage::TokenSet(t) => {
                let mut r = Record::bare(tag);
                r.texts.push(t.access_token.clone());
                r.texts.push(t.refresh_token.clone());
                r.numbers.push(t.absolute_expiration as u64);
                assert(r@.texts =~= seq![t@.access_token, t@.refresh_token]);
                assert(r@.numbers =~= seq![t@.absolute_expiration as u64]);
                assert(r@.albums =~= Seq::empty());
                assert(r@.photos =~= Seq::empty());
                r
            },
            NetworkMessage::Sharelink(s) => {
                let mut r = Record::bare(tag);
                r.texts.push(s.clone());
                assert(r@.texts =~= seq![s@]);
                assert(r@.albums =~= Seq::empty());
                assert(r@.photos =~= Seq::empty());
                r
            },
            NetworkMessage::PlayAlbum(a) => Record::with_album(tag, a),
            NetworkMessage::RequestPhotosInAlbum(a) => Record::with_album(tag, a),
            NetworkMessage::NewAlbum(a) => Record::with_album(tag, a),
            NetworkMessage::ReturnAllAlbums(v) => {
                let mut r = Record::bare(tag);
                r.albums = lower_albums(v);
                assert(r@.albums =~= album_views(v@));
                assert(r@.texts =~= Seq::empty());
                assert(r@.photos =~= Seq::empty());
                r
            },
            NetworkMessage::ReturnPhotosInAlbum(v) => {
                let mut r = Record::bare(tag);
                r.photos = lower_photos(v);
                assert(r@.photos =~= photo_views(v@));
                assert(r@.texts =~= Seq::empty());
                assert(r@.albums =~= Seq::empty());
                r
            },
            NetworkMessage::Thumbnail(a, bytes) => {
                let mut r = Record::with_album(tag, a);
                r.blob = slice_to_vec(bytes.as_slice());
                assert(r@.albums =~= seq![a@]);
                assert(r@.texts =~= Seq::empty());
                assert(r@.photos =~= Seq::empty());
                r
            },
            NetworkMessage::ReturnActiveAlbum(a) => match a {
                Some(a) => Record::with_album(tag, a),
                None => Record::bare(tag),
            },
            _ => Record::bare(tag),
        }
    }

    /// Raises a record to the message it stands for. A record that stands for
    /// none is refused with `MalformedMessage`.
    pub fn from_record(record: &Record) -> (r: Res<NetworkMessage>)
        ensures
            match message_of(record@) {
                Some(m) => r matches Ok(message) && message@ == m,
                None => r == Err::<NetworkMessage, LinkError>(LinkError::MalformedMessage),
            },
    {
        let tag = record.tag;
        let texts = record.texts.len();
        let numbers = record.numbers.len();
        let albums = record.albums.len();
        let no_photos = record.photos.len() == 0;
        let no_blob = record.blob.len() == 0;
        let malformed = Err(LinkError::MalformedMessage);
        proof {
            assert(record@.texts.len() == record.texts@.len());
            assert(record@.albums.len() == record.albums@.len());
            assert(record@.photos.len() == record.photos@.len());
            assert forall|i: int| 0 <= i < record.albums@.len() implies record@.albums[i]
                == album_record_view(record.albums@[i]) by {}
            assert forall|i: int| 0 <= i < record.photos@.len() implies record@.photos[i]
                == photo_record_view(record.photos@[i]) by {}
            assert forall|i: int| 0 <= i < record.texts@.len() implies record@.texts[i]
                == record.texts@[i]@ by {}
        }
        if tag == 0 {
            if texts == 2 && numbers == 1 && albums == 0 && no_photos && no_blob
                && record.numbers[0] <= usize::MAX as u64 {
                Ok(
                    NetworkMessage::TokenSet(
                        TokenSet {
                            access_token: record.texts[0].clone(),
                            refresh_token: record.texts[1].clone(),
                            absolute_expiration: record.numbers[0] as usize,
                        },
                    ),
                )
            } else {
                malformed
            }
        } else if tag == 1 {
            if texts == 1 && numbers == 0 && albums == 0 && no_photos && no_blob {
                Ok(NetworkMessage::Sharelink(record.texts[0].clone()))
            } else {
                malformed
            }
        } else if tag == 2 || tag == 4 || tag == 7 || tag == 10 {
            if texts == 0 && numbers == 0 && albums == 1 && no_photos && (no_blob || tag == 10) {
                match raise_album(&record.albums[0]) {
                    Some(album) => Ok(
                        if tag == 2 {
                            NetworkMessage::PlayAlbum(album)
                        } else if tag == 4 {
                            NetworkMessage::RequestPhotosInAlbum(album)
                        } else if tag == 7 {
                            NetworkMessage::NewAlbum(album)
                        } else {
                            NetworkMessage::Thumbnail(album, slice_to_vec(record.blob.as_slice()))
                        },
                    ),
                    None => malformed,
                }
            } else {
                malformed
            }
        } else if tag == 3 || tag == 5 || tag == 6 || tag == 12 {
            if texts == 0 && numbers == 0 && albums == 0 && no_photos && no_blob {
                Ok(
                    if tag == 3 {
                        NetworkMessage::RequestAllAlbums
                    } else if tag == 5 {
                        NetworkMessage::RequestThumbnails
                    } else if tag == 6 {
                        NetworkMessage::RequestActiveAlbum
                    } else {
                        NetworkMessage::TerminateThread
                    },
                )
            } else {
                malformed
            }
        } else if tag == 8 {
            if texts == 0 && numbers == 0 && no_photos && no_blob {
                match raise_albums(&record.albums) {
                    Some(list) => {
                        assert(album_views(list@) =~= record@.albums);
                        Ok(NetworkMessage::ReturnAllAlbums(list))
                    },
                    None => {
                        proof {
                            let i = choose|i: int|
                                0 <= i < record.albums@.len() && !album_fits(
                                    album_record_view(#[trigger] record.albums@[i]),
                                );
                            assert(!album_fits(record@.albums[i]));
                        }
                        malformed
                    },
                }
            } else {
                malformed
            }
        } else if tag == 9 {
            if texts == 0 && numbers == 0 && albums == 0 && no_blob {
                match raise_photos(&record.photos) {
                    Some(list) => {
                        assert(photo_views(list@) =~= record@.photos);
                        Ok(NetworkMessage::ReturnPhotosInAlbum(list))
                    },
                    None => {
                        proof {
                            let i = choose|i: int|
                                0 <= i < record.photos@.len() && !photo_fits(
                                    photo_record_view(#[trigger] record.photos@[i]),
                                );
                            assert(!photo_fits(record@.photos[i]));
                        }
                        malformed
                    },
                }
            } else {
                malformed
            }
        } else if tag == 11 {
            if texts == 0 && numbers == 0 && albums == 0 && no_photos && no_blob {
                Ok(NetworkMessage::ReturnActiveAlbum(None))
            } else if texts == 0 && numbers == 0 && albums == 1 && no_photos && no_blob {
                match raise_album(&record.albums[0]) {
                    Some(album) => Ok(NetworkMessage::ReturnActiveAlbum(Some(album))),
                    None => malformed,
                }
            } else {
                malformed
            }
        } else {
            malformed
        }
    }

    /// What encoding answers, given what the archiver gave: its bytes, or
    /// `EncodeFailure` should it ever refuse.
    pub fn encoded(archived: Result<Vec<u8>, rkyv::rancor::Error>) -> (r: Res<Vec<u8>>)
        ensures
            match archived {
                Ok(bytes) => r == Ok::<Vec<u8>, LinkError>(bytes),
                Err(_) => r == Err::<Vec<u8>, LinkError>(LinkError::EncodeFailure),
            },
    {
        match archived {
            Ok(bytes) => Ok(bytes),
            Err(_) => Err(LinkError::EncodeFailure),
        }
    }

    /// What decoding answers, given what checked access to the bytes gave: the
    /// message of the record, or `MalformedMessage` where the bytes hold no
    /// record or the record stands for no message.
    pub fn decoded(accessed: Result<Record, rkyv::rancor::Error>) -> (r: Res<NetworkMessage>)
        ensures
            match accessed {
                Ok(record) => match message_of(record@) {
                    Some(m) => r matches Ok(message) && message@ == m,
                    None => r == Err::<NetworkMessage, LinkError>(LinkError::MalformedMessage),
                },
                Err(_) => r == Err::<NetworkMessage, LinkError>(LinkError::MalformedMessage),
            },
    {
        match accessed {
            Ok(record) => NetworkMessage::from_record(&record),
            Err(_) => Err(LinkError::MalformedMessage),
        }
    }

    /// Encodes the message: the archived bytes of its record. They are not
    /// empty and decode to the message again. Encoding succeeds for every
    /// message but one whose record weighs more than [`MAX_RECORD_WEIGHT`],
    /// which is refused as `FrameTooLarge`.
    pub fn to_bytes(&self) -> (r: Res<Vec<u8>>)
        ensures
            encodable(self@) ==> (r matches Ok(bytes) && bytes@ == encoded_bytes(self@)),
            !encodable(self@) ==> r == Err::<Vec<u8>, LinkError>(LinkError::FrameTooLarge),
            r matches Ok(bytes) ==> bytes@.len() > 0 && decoded_message(bytes@) == Some(self@),
    {
        let record = self.to_record();
        if record.is_light() {
            proof {
                lemma_record_round_trip(self@);
            }
            NetworkMessage::encoded(archive_record(record))
        } else {
            Err(LinkError::FrameTooLarge)
        }
    }

    /// Decodes a message: the bytes must hold a record, and the record must
    /// stand for a message of the catalog. Anything else is `MalformedMessage`.
    pub fn from_bytes(bytes: &[u8]) -> (r: Res<NetworkMessage>)
        ensures
            match decoded_message(bytes@) {
                Some(m) => r matches Ok(message) && message@ == m,
                None => r == Err::<NetworkMessage, LinkError>(LinkError::MalformedMessage),
            },
    {
        NetworkMessage::decoded(access_record(bytes))
    }
}

} // verus!
