use reflection::pages::Pages;
use reflection::pages::SelectAlbumMessage;
use reflection::pages::SelectAlbumPage;
use reflection::payload::AccessToken;
use reflection::payload::Album;
use reflection::payload::AlbumDriveItem;

fn listed(id: usize) -> Album {
    Album {
        id,
        onedrive_id: format!("D{id}"),
        name: format!("Album {id}"),
        share_link: String::new(),
    }
}

#[test]
fn new_page_is_empty() {
    let page = SelectAlbumPage::new();
    assert_eq!(page.len(), 0);
    assert_eq!(page.typed(), "");
}

#[test]
fn page_lists_albums_as_they_come() {
    let mut page = SelectAlbumPage::new();
    assert_eq!(page.update(SelectAlbumMessage::AddAlbum(listed(1))), None);
    assert_eq!(page.update(SelectAlbumMessage::AddAlbum(listed(2))), None);
    assert_eq!(page.len(), 2);
    assert_eq!(page.typed(), "");
}

#[test]
fn page_submits_the_typed_share_link_and_clears_the_field() {
    let mut page = SelectAlbumPage::new();
    assert_eq!(page.update(SelectAlbumMessage::Input("https://1drv".to_string())), None);
    assert_eq!(page.update(SelectAlbumMessage::Input("https://1drv.ms/a/x".to_string())), None);
    assert_eq!(page.typed(), "https://1drv.ms/a/x");
    assert_eq!(page.update(SelectAlbumMessage::AddNew), Some("https://1drv.ms/a/x".to_string()));
    assert_eq!(page.typed(), "");
    assert_eq!(page.update(SelectAlbumMessage::AddNew), Some(String::new()));
    assert_eq!(page.len(), 0);
}

#[test]
fn pages_are_told_apart() {
    assert_ne!(Pages::SelectAlbum, Pages::BrowseAlbum);
    assert_ne!(Pages::SelectAlbum, Pages::PhotoDisplay);
    assert_eq!(Pages::BrowseAlbum, Pages::BrowseAlbum);
}

#[test]
fn access_token_hands_its_text_back() {
    let token = AccessToken::new("EwBwA8l6BAAU".to_string());
    assert_eq!(token.get(), "EwBwA8l6BAAU");
    assert_eq!(AccessToken::new(String::new()).get(), "");
}

#[test]
fn album_from_response_is_not_yet_stored() {
    let item = AlbumDriveItem { id: "A1B2!345".to_string(), name: "Summer".to_string() };
    let album = Album::from_response(item, "https://1drv.ms/a/s!Summer".to_string());
    assert_eq!(
        album,
        Album {
            id: 0,
            onedrive_id: "A1B2!345".to_string(),
            name: "Summer".to_string(),
            share_link: "https://1drv.ms/a/s!Summer".to_string(),
        }
    );
}
