use kbr_api_rust::records::{subscribed_artist_response, EventAttendeePresentRow, SubscribedArtistRow};

#[test]
fn dashboard_entry_keeps_the_row() {
    let row = SubscribedArtistRow { id: 4, name: Some("Band".to_string()), intro: None };
    let r = subscribed_artist_response(row, vec!["https://x/t.webp".to_string()]);
    assert_eq!(r.id, 4);
    assert_eq!(r.name.as_deref(), Some("Band"));
    assert_eq!(r.intro, None);
    assert_eq!(r.image_thumbnail_urls, vec!["https://x/t.webp".to_string()]);
}

#[test]
fn present_attendee_row_holds_its_fields() {
    let row = EventAttendeePresentRow { id: 1, scan_count: Some(2), email: "a@b.c".to_string(), full_name: "A B".to_string() };
    let copy = row.clone();
    assert_eq!(copy.scan_count, Some(2));
    assert_eq!(copy.email, "a@b.c");
}
