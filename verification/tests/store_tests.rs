use message_board::handlers::{
    add_message, delete_message, edit_message, get_messages_by_lang, ApiOutcome,
};
use message_board::langs::Langs;
use message_board::messages::{EditMessage, Expiration, NewMessage};
use message_board::store::{MessageStore, SnapshotError};

fn new_message(content: &str, lang: Langs, expires: Expiration, title: &str) -> NewMessage {
    NewMessage {
        content: content.to_string(),
        lang,
        expires,
        title: title.to_string(),
        image_url: None,
        image_data: None,
        image_mime_type: None,
    }
}

#[test]
fn test_add_message() {
    let mut store = MessageStore::new();
    let body = new_message("Hello, world!", Langs::English, Expiration::Week, "Test");

    let outcome = add_message(&mut store, &body, 1000);
    assert_eq!(outcome, ApiOutcome::Success);

    let messages = store.export_all();
    assert!(messages.iter().any(|msg| {
        msg.content == body.content && msg.lang == body.lang && msg.expires == body.expires
    }));
}

#[test]
fn test_get_messages_by_lang() {
    let mut store = MessageStore::new();
    let body = new_message("Hello, world!", Langs::English, Expiration::Week, "Test");
    let message = store.create(&body, 1000);

    let returned_messages = get_messages_by_lang(&store, Langs::English);
    assert!(returned_messages.contains(&message));
}

#[test]
fn test_edit_message() {
    let mut store = MessageStore::new();
    let body = new_message("Hello, world!", Langs::English, Expiration::Week, "Test");
    let message = store.create(&body, 1000);

    let edit = EditMessage {
        id: message.id,
        content: "Hello, Rust!".to_string(),
        title: "Test".to_string(),
        image_url: None,
    };
    let outcome = edit_message(&mut store, &edit);
    assert_eq!(outcome, ApiOutcome::Success);

    let messages = store.export_all();
    assert_eq!(
        messages.iter().find(|x| x.id == message.id).unwrap().content,
        "Hello, Rust!"
    );
}

#[test]
fn test_delete_message() {
    let mut store = MessageStore::new();
    let body = new_message("Hello, world!", Langs::English, Expiration::Week, "Test");
    let message = store.create(&body, 1000);

    let outcome = delete_message(&mut store, message.id);
    assert_eq!(outcome, ApiOutcome::Success);

    let messages = store.export_all();
    assert!(messages.iter().find(|x| x.id == message.id).is_none());
}

#[test]
fn test_create_assigns_fresh_distinct_ids() {
    let mut store = MessageStore::new();
    let mut ids: Vec<u64> = Vec::new();
    let n: usize = 10;
    for k in 0..n {
        let body = new_message("body", Langs::German, Expiration::Day, "title");
        let now: u64 = 500 + k as u64;
        let m = store.create(&body, now);
        assert!(m.created <= 500 + k as u64);
        assert!(!ids.contains(&m.id));
        ids.push(m.id);
    }
    assert_eq!(store.len(), n);
    for a in 0..n {
        for b in (a + 1)..n {
            assert_ne!(ids[a], ids[b]);
        }
    }
}

#[test]
fn test_add_message_rejects_empty_content() {
    let mut store = MessageStore::new();
    let body = new_message("", Langs::English, Expiration::Week, "Test");
    let outcome = add_message(&mut store, &body, 1000);
    assert_eq!(outcome, ApiOutcome::BadRequest);
    assert_eq!(store.len(), 0);
}

#[test]
fn test_add_message_rejects_empty_title() {
    let mut store = MessageStore::new();
    let body = new_message("Hello", Langs::English, Expiration::Week, "");
    let outcome = add_message(&mut store, &body, 1000);
    assert_eq!(outcome, ApiOutcome::BadRequest);
    assert_eq!(store.len(), 0);
}

#[test]
fn test_list_by_lang_filters_and_keeps_order() {
    let mut store = MessageStore::new();
    let m1 = store.create(
        &new_message("first", Langs::Spanish, Expiration::Week, "t1"),
        10,
    );
    let _m2 = store.create(
        &new_message("second", Langs::Italian, Expiration::Week, "t2"),
        11,
    );
    let m3 = store.create(
        &new_message("third", Langs::Spanish, Expiration::Week, "t3"),
        12,
    );

    let spanish = store.list_by_lang(Langs::Spanish);
    assert_eq!(spanish.len(), 2);
    assert_eq!(spanish[0], m1);
    assert_eq!(spanish[1], m3);
    assert!(store.list_by_lang(Langs::German).is_empty());
}

#[test]
fn test_edit_nonexistent_id_leaves_store_unchanged() {
    let mut store = MessageStore::new();
    let _m = store.create(
        &new_message("keep", Langs::French, Expiration::Year, "t"),
        10,
    );
    let before = store.export_all();

    let edit = EditMessage {
        id: 999,
        content: "changed".to_string(),
        title: "changed".to_string(),
        image_url: Some("http://example.invalid/x".to_string()),
    };
    let outcome = edit_message(&mut store, &edit);
    assert_eq!(outcome, ApiOutcome::NotFound);
    assert_eq!(store.export_all(), before);
}

#[test]
fn test_edit_changes_only_mutable_fields() {
    let mut store = MessageStore::new();
    let mut body = new_message("orig", Langs::French, Expiration::Quarter, "orig title");
    body.image_url = Some("http://example.invalid/old".to_string());
    body.image_data = Some("imagebytes".to_string());
    body.image_mime_type = Some("image/png".to_string());
    let m = store.create(&body, 42);

    let edit = EditMessage {
        id: m.id,
        content: "new content".to_string(),
        title: "new title".to_string(),
        image_url: Some("http://example.invalid/new".to_string()),
    };
    let outcome = edit_message(&mut store, &edit);
    assert_eq!(outcome, ApiOutcome::Success);

    let stored = store.export_all();
    assert_eq!(stored.len(), 1);
    let u = &stored[0];
    assert_eq!(u.id, m.id);
    assert_eq!(u.created, 42);
    assert_eq!(u.lang, Langs::French);
    assert_eq!(u.expires, Expiration::Quarter);
    assert_eq!(u.content, "new content");
    assert_eq!(u.title, "new title");
    assert_eq!(u.image_url, Some("http://example.invalid/new".to_string()));
    assert_eq!(u.image_data, Some("imagebytes".to_string()));
    assert_eq!(u.image_mime_type, Some("image/png".to_string()));
}

#[test]
fn test_delete_twice_reports_not_found() {
    let mut store = MessageStore::new();
    let m = store.create(&new_message("x", Langs::English, Expiration::Day, "t"), 5);
    assert_eq!(delete_message(&mut store, m.id), ApiOutcome::Success);
    assert_eq!(delete_message(&mut store, m.id), ApiOutcome::NotFound);
}

#[test]
fn test_replace_all_accepts_valid_snapshot() {
    let mut source = MessageStore::new();
    source.create(&new_message("a", Langs::English, Expiration::Week, "t"), 1);
    source.create(&new_message("b", Langs::French, Expiration::Day, "t"), 2);
    let snapshot = source.export_all();

    let mut restored = MessageStore::new();
    assert_eq!(restored.replace_all(snapshot.clone()), Ok(()));
    assert_eq!(restored.export_all(), snapshot);

    // A create after the restore must pick an id above everything restored.
    let m = restored.create(&new_message("c", Langs::German, Expiration::Hour, "t"), 3);
    assert!(snapshot.iter().all(|s| s.id != m.id));
}

#[test]
fn test_replace_all_rejects_duplicate_ids() {
    let mut source = MessageStore::new();
    let m = source.create(&new_message("a", Langs::English, Expiration::Week, "t"), 1);
    let mut snapshot = source.export_all();
    snapshot.push(m.clone());

    let mut store = MessageStore::new();
    store.create(&new_message("keep", Langs::Italian, Expiration::Year, "t"), 9);
    let before = store.export_all();
    assert_eq!(
        store.replace_all(snapshot),
        Err(SnapshotError::DuplicateId)
    );
    assert_eq!(store.export_all(), before);
}

#[test]
fn test_replace_all_rejects_id_at_limit() {
    let mut source = MessageStore::new();
    let m = source.create(&new_message("a", Langs::English, Expiration::Week, "t"), 1);
    let mut bad = m.clone();
    bad.id = u64::MAX;
    let snapshot = vec![bad];

    let mut store = MessageStore::new();
    assert_eq!(store.replace_all(snapshot), Err(SnapshotError::IdTooLarge));
    assert_eq!(store.len(), 0);
}
