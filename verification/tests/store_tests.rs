use message_store::error::MessageError;
use message_store::message::{Identity, MessagePayload, MAX_COMBINED_LEN};
use message_store::store::MessageStore;

fn ident(bytes: &[u8]) -> Identity {
    Identity { bytes: bytes.to_vec() }
}

fn payload(title: &str, body: &str, url: &str) -> MessagePayload {
    MessagePayload {
        title: title.to_string(),
        body: body.to_string(),
        attachment_url: url.to_string(),
    }
}

fn sample_payload() -> MessagePayload {
    payload("Test Title", "Test Body", "https://test-url.com")
}

#[test]
fn create_returns_stored_record() {
    let mut store = MessageStore::new();
    let alice = ident(b"alice");
    let m = store.create(sample_payload(), alice, 1000).unwrap();
    assert_eq!(m.id, 0);
    assert_eq!(m.owner.bytes, b"alice".to_vec());
    assert_eq!(m.title, "Test Title");
    assert_eq!(m.body, "Test Body");
    assert_eq!(m.attachment_url, "https://test-url.com");
    assert_eq!(m.created_at, 1000);
    assert_eq!(m.updated_at, None);
}

#[test]
fn create_issues_unique_increasing_ids() {
    let mut store = MessageStore::new();
    let alice = ident(b"alice");
    let m0 = store.create(sample_payload(), alice.clone(), 1).unwrap();
    let m1 = store.create(sample_payload(), alice.clone(), 1).unwrap();
    let m2 = store.create(sample_payload(), alice, 1).unwrap();
    assert_eq!(m0.id, 0);
    assert_eq!(m1.id, 1);
    assert_eq!(m2.id, 2);
    assert_ne!(m0.id, m1.id);
    assert_ne!(m1.id, m2.id);
    assert_ne!(m0.id, m2.id);
}

#[test]
fn delete_does_not_free_an_id_for_reuse() {
    let mut store = MessageStore::new();
    let alice = ident(b"alice");
    let m0 = store.create(sample_payload(), alice.clone(), 1).unwrap();
    store.delete(m0.id, alice.clone()).unwrap();
    let m1 = store.create(sample_payload(), alice, 2).unwrap();
    assert_ne!(m0.id, m1.id);
}

#[test]
fn get_is_idempotent() {
    let mut store = MessageStore::new();
    let alice = ident(b"alice");
    let m = store.create(sample_payload(), alice, 7).unwrap();
    let r1 = store.get(m.id).unwrap();
    let r2 = store.get(m.id).unwrap();
    assert_eq!(r1.id, r2.id);
    assert_eq!(r1.owner.bytes, r2.owner.bytes);
    assert_eq!(r1.title, r2.title);
    assert_eq!(r1.body, r2.body);
    assert_eq!(r1.attachment_url, r2.attachment_url);
    assert_eq!(r1.created_at, r2.created_at);
    assert_eq!(r1.updated_at, r2.updated_at);
}

#[test]
fn absent_id_fails_with_not_found() {
    let mut store = MessageStore::new();
    let alice = ident(b"alice");
    match store.get(42) {
        Err(MessageError::NotFound { msg }) => {
            assert_eq!(msg, "Message with id=42 not found.");
        }
        _ => panic!("expected NotFound"),
    }
    match store.update(42, sample_payload(), alice.clone(), 5) {
        Err(MessageError::NotFound { msg }) => {
            assert_eq!(msg, "Message with id=42 not found.");
        }
        _ => panic!("expected NotFound"),
    }
    match store.delete(42, alice) {
        Err(MessageError::NotFound { msg }) => {
            assert_eq!(msg, "Message with id=42 not found.");
        }
        _ => panic!("expected NotFound"),
    }
}

#[test]
fn not_found_message_prints_id_zero() {
    let store = MessageStore::new();
    match store.get(0) {
        Err(MessageError::NotFound { msg }) => {
            assert_eq!(msg, "Message with id=0 not found.");
        }
        _ => panic!("expected NotFound"),
    }
}

#[test]
fn not_found_message_prints_large_ids_in_decimal() {
    let store = MessageStore::new();
    match store.get(1234567890123456789) {
        Err(MessageError::NotFound { msg }) => {
            assert_eq!(msg, "Message with id=1234567890123456789 not found.");
        }
        _ => panic!("expected NotFound"),
    }
}

#[test]
fn update_replaces_fields_and_keeps_identity() {
    let mut store = MessageStore::new();
    let alice = ident(b"alice");
    let m = store.create(sample_payload(), alice.clone(), 1000).unwrap();
    let updated = store
        .update(m.id, payload("Updated Title", "Updated Body", "https://new-url.com"), alice, 2000)
        .unwrap();
    assert_eq!(updated.id, m.id);
    assert_eq!(updated.owner.bytes, m.owner.bytes);
    assert_eq!(updated.created_at, 1000);
    assert_eq!(updated.title, "Updated Title");
    assert_eq!(updated.body, "Updated Body");
    assert_eq!(updated.attachment_url, "https://new-url.com");
    assert_eq!(updated.updated_at, Some(2000));
}

#[test]
fn updated_at_is_monotone_under_monotone_time() {
    let mut store = MessageStore::new();
    let alice = ident(b"alice");
    let m = store.create(sample_payload(), alice.clone(), 10).unwrap();
    let u1 = store.update(m.id, sample_payload(), alice.clone(), 20).unwrap();
    let u2 = store.update(m.id, sample_payload(), alice, 30).unwrap();
    assert_eq!(u1.updated_at, Some(20));
    assert_eq!(u2.updated_at, Some(30));
    assert!(u2.updated_at.unwrap() >= u1.updated_at.unwrap());
}

#[test]
fn delete_returns_record_and_get_then_fails() {
    let mut store = MessageStore::new();
    let alice = ident(b"alice");
    let m = store.create(sample_payload(), alice.clone(), 1).unwrap();
    let removed = store.delete(m.id, alice).unwrap();
    assert_eq!(removed.id, m.id);
    assert_eq!(removed.title, "Test Title");
    match store.get(m.id) {
        Err(MessageError::NotFound { msg }) => {
            assert_eq!(msg, format!("Message with id={} not found.", m.id));
        }
        _ => panic!("expected NotFound"),
    }
}

#[test]
fn non_owner_update_fails_unauthorized_and_leaves_record() {
    let mut store = MessageStore::new();
    let alice = ident(b"alice");
    let mallory = ident(b"mallory");
    let m = store.create(sample_payload(), alice, 1).unwrap();
    match store.update(m.id, payload("X", "Y", "Z"), mallory, 2) {
        Err(MessageError::Unauthorized { msg }) => {
            assert_eq!(msg, "Caller is not the owner of the message.");
        }
        _ => panic!("expected Unauthorized"),
    }
    let still = store.get(m.id).unwrap();
    assert_eq!(still.title, "Test Title");
    assert_eq!(still.updated_at, None);
}

#[test]
fn non_owner_delete_fails_unauthorized_and_leaves_record() {
    let mut store = MessageStore::new();
    let alice = ident(b"alice");
    let mallory = ident(b"mallory");
    let m = store.create(sample_payload(), alice, 1).unwrap();
    match store.delete(m.id, mallory) {
        Err(MessageError::Unauthorized { msg }) => {
            assert_eq!(msg, "Caller is not the owner of the message.");
        }
        _ => panic!("expected Unauthorized"),
    }
    assert!(store.get(m.id).is_ok());
}

#[test]
fn owner_with_equal_bytes_is_authorized() {
    let mut store = MessageStore::new();
    let m = store.create(sample_payload(), ident(b"alice"), 1).unwrap();
    // A fresh identity with the same bytes counts as the same caller.
    assert!(store.update(m.id, sample_payload(), ident(b"alice"), 2).is_ok());
}

#[test]
fn create_with_empty_field_fails_invalid_input() {
    let mut store = MessageStore::new();
    let alice = ident(b"alice");
    for p in [
        payload("", "Body", "https://u"),
        payload("Title", "", "https://u"),
        payload("Title", "Body", ""),
        payload("", "", ""),
    ] {
        match store.create(p, alice.clone(), 1) {
            Err(MessageError::InvalidInput { msg }) => {
                assert_eq!(msg, "All fields must be non-empty.");
            }
            _ => panic!("expected InvalidInput"),
        }
    }
    // Nothing was created: the first id issued later is still 0.
    let m = store.create(sample_payload(), alice, 1).unwrap();
    assert_eq!(m.id, 0);
}

#[test]
fn create_over_size_ceiling_fails_size_exceeded() {
    let mut store = MessageStore::new();
    let alice = ident(b"alice");
    let big = "x".repeat(MAX_COMBINED_LEN - 1);
    match store.create(payload(&big, "b", "c"), alice.clone(), 1) {
        Err(MessageError::SizeExceeded { msg }) => {
            assert_eq!(msg, "Combined field length exceeds the configured maximum.");
        }
        _ => panic!("expected SizeExceeded"),
    }
    assert!(store.get(0).is_err());
    // Exactly at the ceiling is accepted.
    let exact = "x".repeat(MAX_COMBINED_LEN - 2);
    assert!(store.create(payload(&exact, "b", "c"), alice, 1).is_ok());
}

#[test]
fn empty_field_takes_precedence_over_size() {
    let mut store = MessageStore::new();
    let big = "x".repeat(MAX_COMBINED_LEN + 10);
    match store.create(payload(&big, "", ""), ident(b"a"), 1) {
        Err(MessageError::InvalidInput { .. }) => {}
        _ => panic!("expected InvalidInput"),
    }
}

#[test]
fn update_with_invalid_payload_leaves_record() {
    let mut store = MessageStore::new();
    let alice = ident(b"alice");
    let m = store.create(sample_payload(), alice.clone(), 1).unwrap();
    match store.update(m.id, payload("", "b", "c"), alice.clone(), 2) {
        Err(MessageError::InvalidInput { .. }) => {}
        _ => panic!("expected InvalidInput"),
    }
    let big = "x".repeat(MAX_COMBINED_LEN);
    match store.update(m.id, payload(&big, "b", "c"), alice, 2) {
        Err(MessageError::SizeExceeded { .. }) => {}
        _ => panic!("expected SizeExceeded"),
    }
    let still = store.get(m.id).unwrap();
    assert_eq!(still.title, "Test Title");
    assert_eq!(still.updated_at, None);
}

#[test]
fn combined_length_counts_all_three_fields() {
    let mut store = MessageStore::new();
    let alice = ident(b"alice");
    // 683 * 3 = 2049 > 2048, though each field alone is far under the ceiling.
    let part = "x".repeat(683);
    match store.create(payload(&part, &part, &part), alice.clone(), 1) {
        Err(MessageError::SizeExceeded { .. }) => {}
        _ => panic!("expected SizeExceeded"),
    }
    // 683 + 683 + 682 = 2048 is accepted.
    let shorter = "x".repeat(682);
    assert!(store.create(payload(&part, &part, &shorter), alice, 1).is_ok());
}

#[test]
fn full_lifecycle_scenario() {
    let mut store = MessageStore::new();
    let alice = ident(b"alice");
    let created = store
        .create(payload("Test Title", "Test Body", "https://test-url.com"), alice.clone(), 100)
        .unwrap();
    assert_eq!(created.title, "Test Title");
    let updated = store
        .update(
            created.id,
            payload("Updated Title", "Test Body", "https://test-url.com"),
            alice.clone(),
            200,
        )
        .unwrap();
    assert_eq!(updated.title, "Updated Title");
    assert_eq!(updated.updated_at, Some(200));
    let removed = store.delete(created.id, alice).unwrap();
    assert_eq!(removed.id, created.id);
    match store.get(created.id) {
        Err(MessageError::NotFound { msg }) => {
            assert!(msg.contains(&created.id.to_string()));
        }
        _ => panic!("expected NotFound"),
    }
}
