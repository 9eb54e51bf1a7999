use lemnux::posts::{assemble, convert_postsview_to_card, PostRecord};

fn record(name: &str) -> PostRecord {
    PostRecord {
        name: name.to_string(),
        url: None,
        body: Some("A body.".to_string()),
        thumbnail_url: None,
        creator_name: "alice".to_string(),
        community_title: "Rust Community".to_string(),
        published: 0,
        updated: None,
    }
}

#[test]
fn card_keeps_title_url_and_body() {
    let mut rec = record("Hello");
    rec.url = Some("https://example.org/post/1".to_string());
    let card = convert_postsview_to_card(&rec, None);
    assert_eq!(card.name, "Hello");
    assert_eq!(card.url, "https://example.org/post/1");
    assert_eq!(card.body, "A body.");
}

#[test]
fn card_url_is_empty_when_record_has_none() {
    let card = convert_postsview_to_card(&record("t"), None);
    assert_eq!(card.url, "");
}

#[test]
fn card_creator_label_is_creator_at_community() {
    let card = convert_postsview_to_card(&record("t"), None);
    assert_eq!(card.creator, "alice@Rust Community");
}

#[test]
fn card_body_placeholder_when_body_absent() {
    let mut rec = record("t");
    rec.body = None;
    let card = convert_postsview_to_card(&rec, None);
    assert_eq!(card.body, "Read more...");
}

#[test]
fn card_body_placeholder_when_body_empty() {
    let mut rec = record("t");
    rec.body = Some(String::new());
    let card = convert_postsview_to_card(&rec, None);
    assert_eq!(card.body, "Read more...");
}

#[test]
fn card_body_kept_when_non_empty() {
    let card = convert_postsview_to_card(&record("t"), None);
    assert_ne!(card.body, "Read more...");
}

#[test]
fn card_timestamp_uses_published_when_no_update() {
    let card = convert_postsview_to_card(&record("t"), None);
    assert_eq!(card.updated, "Thu, 1 Jan 1970 00:00:00 +0000");
}

#[test]
fn card_timestamp_prefers_update_time() {
    let mut rec = record("t");
    rec.updated = Some(1431648000);
    let card = convert_postsview_to_card(&rec, None);
    assert_eq!(card.updated, "Fri, 15 May 2015 00:00:00 +0000");
}

#[test]
fn card_carries_resolved_thumbnail_bytes() {
    let card = convert_postsview_to_card(&record("t"), Some(vec![1u8, 2, 3]));
    assert_eq!(card.thumbnail, Some(vec![1u8, 2, 3]));
}

#[test]
fn card_thumbnail_absent_when_fetch_failed() {
    let mut rec = record("t");
    rec.thumbnail_url = Some("https://example.org/img.png".to_string());
    let card = convert_postsview_to_card(&rec, None);
    assert!(card.thumbnail.is_none());
}

#[test]
fn assemble_preserves_order_and_cursor() {
    let records = vec![record("first"), record("second"), record("third")];
    let thumbnails = vec![None, Some(vec![9u8]), None];
    let page = assemble(&records, &thumbnails, Some("abc".to_string()));
    assert_eq!(page.cards.len(), 3);
    assert_eq!(page.cards[0].name, "first");
    assert_eq!(page.cards[1].name, "second");
    assert_eq!(page.cards[2].name, "third");
    assert_eq!(page.cards[1].thumbnail, Some(vec![9u8]));
    assert!(page.cards[0].thumbnail.is_none());
    assert_eq!(page.cursor, Some("abc".to_string()));
}

#[test]
fn assemble_empty_batch_gives_empty_page() {
    let page = assemble(&Vec::new(), &Vec::new(), None);
    assert!(page.cards.is_empty());
    assert!(page.cursor.is_none());
}
