//! State of the album selection page, which feeds share links to the link layer.

use crate::payload::album_views;
use crate::payload::Album;
use crate::payload::AlbumView;
use vstd::prelude::*;

verus! {

/// The pages of the display application.
#[derive(Clone, Copy, Debug, PartialEq, Eq, Structural)]
pub enum Pages {
    SelectAlbum,
    PhotoDisplay,
    BrowseAlbum,
}

/// What can happen on the album selection page.
#[derive(Clone, Debug, PartialEq, Eq)]
pub enum SelectAlbumMessage {
    /// An album became known and is to be listed.
    AddAlbum(Album),
    /// The share link typed so far is submitted.
    AddNew,
    /// The text of the share link field changed.
    Input(String),
}

/// The known albums and the share link being typed.
pub struct SelectAlbumPage {
    albums: Vec<Album>,
    input: String,
}

impl SelectAlbumPage {
    /// The albums listed on the page, in the order in which they were added.
    pub closed spec fn albums(&self) -> Seq<AlbumView> {
        album_views(self.albums@)
    }

    /// The text of the share link field.
    pub closed spec fn input(&self) -> Seq<char> {
        self.input@
    }

    /// An empty page: no album, no text.
    pub fn new() -> (page: Self)
        ensures
            page.albums() == Seq::<AlbumView>::empty(),
            page.input() == Seq::<char>::empty(),
    {
        let page = Self { albums: Vec::new(), input: String::new() };
        assert(page.albums() =~= Seq::<AlbumView>::empty());
        page
    }

    /// Applies a message to the page. Returns the share link to look up where
    /// the message submits one; the field is then empty again.
    pub fn update(&mut self, message: SelectAlbumMessage) -> (submitted: Option<String>)
        ensures
            match message {
                SelectAlbumMessage::AddAlbum(album) => submitted is None && final(self).albums()
                    == old(self).albums().push(album@) && final(self).input() == old(
                    self,
                ).input(),
                SelectAlbumMessage::Input(text) => submitted is None && final(self).albums()
                    == old(self).albums() && final(self).input() == text@,
                SelectAlbumMessage::AddNew => submitted matches Some(link) && link@ == old(
                    self,
                ).input() && final(self).albums() == old(self).albums() && final(self).input()
                    == Seq::<char>::empty(),
            },
    {
        match message {
            SelectAlbumMessage::AddAlbum(album) => {
                self.albums.push(album);
                assert(self.albums() =~= old(self).albums().push(album@));
                None
            },
            SelectAlbumMessage::Input(text) => {
                self.input = text;
                None
            },
            SelectAlbumMessage::AddNew => {
                let mut link = String::new();
                std::mem::swap(&mut self.input, &mut link);
                Some(link)
            },
        }
    }

    /// Number of albums listed.
    pub fn len(&self) -> (n: usize)
        ensures
            n == self.albums().len(),
    {
        self.albums.len()
    }

    /// The text of the share link field.
    pub fn typed(&self) -> (text: &str)
        ensures
            text@ == self.input(),
    {
        self.input.as_str()
    }
}

} // verus!
