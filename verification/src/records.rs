//! Rows read for the dashboard and the data endpoints, and the answers
//! built from them.

use vstd::prelude::*;

verus! {

/// An artist the user follows through an active mail subscription.
#[derive(Debug, Clone)]
pub struct SubscribedArtistRow {
    pub id: i64,
    pub name: Option<String>,
    pub intro: Option<String>,
}

/// An artist on the dashboard, with the URLs of its image thumbnails.
#[derive(Debug, Clone)]
pub struct SubscribedArtistResponse {
    pub id: i64,
    pub name: Option<String>,
    pub intro: Option<String>,
    pub image_thumbnail_urls: Vec<String>,
}

/// The dashboard entry of a followed artist: the row as it was read, with
/// the artist's thumbnail URLs.
pub fn subscribed_artist_response(row: SubscribedArtistRow, thumbnails: Vec<String>) -> (r:
    SubscribedArtistResponse)
    ensures
        r.id == row.id,
        r.name == row.name,
        r.intro == row.intro,
        r.image_thumbnail_urls@ == thumbnails@,
{
    SubscribedArtistResponse {
        id: row.id,
        name: row.name,
        intro: row.intro,
        image_thumbnail_urls: thumbnails,
    }
}

/// A mail subscriber whose ticket was scanned at an event.
#[derive(Debug, Clone)]
pub struct EventAttendeePresentRow {
    pub id: i64,
    pub scan_count: Option<i32>,
    pub email: String,
    pub full_name: String,
}

} // verus!
