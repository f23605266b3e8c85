use notes_service::handlers::{
    create_note_handler, create_note_with_id, error_body, find_many_note_handler,
    find_one_note_handler, health_check_handler, note_success_body, notes_success_body,
    root_handler, storage_error_reply,
};
use notes_service::models::{
    to_note_response, to_note_responses, CreateNoteSchema, NoteModel, NoteModelResponse, Timestamp,
};
use notes_service::store::{NoteStore, StorageError};

fn schema(title: &str, content: &str) -> CreateNoteSchema {
    CreateNoteSchema {
        title: title.to_owned(),
        content: content.to_owned(),
    }
}

fn plain_note(id: &str, title: &str, content: &str) -> NoteModel {
    NoteModel {
        id: id.to_owned(),
        title: title.to_owned(),
        content: content.to_owned(),
        is_published: false,
        created_at: None,
        updated_at: None,
    }
}

#[test]
fn health_check_returns_fixed_payload() {
    let r = health_check_handler();
    assert_eq!(r.status, 200);
    assert_eq!(r.body, "{\"message\":\"API\",\"status\":\"OK\"}");
}

#[test]
fn root_returns_fixed_payload() {
    let r = root_handler();
    assert_eq!(r.status, 200);
    assert_eq!(r.body, "{\"message\":\"Users\",\"status\":\"OK\"}");
}

#[test]
fn create_with_fixed_id_returns_exact_envelope() {
    let mut store = NoteStore::new();
    let r = create_note_with_id(&mut store, &schema("A", "B"), "note-1".to_owned());
    assert_eq!(r.status, 200);
    assert_eq!(
        r.body,
        "{\"status\":\"success\",\"data\":{\"note\":{\"id\":\"note-1\",\"title\":\"A\",\
         \"content\":\"B\",\"is_published\":false,\"created_at\":null,\"updated_at\":null}}}"
    );
    assert_eq!(store.count(), 1);
}

#[test]
fn create_echoes_title_and_content_unpublished() {
    let mut store = NoteStore::new();
    let r = create_note_handler(&mut store, &schema("A", "B"));
    assert_eq!(r.status, 200);
    assert!(r.body.contains("\"title\":\"A\""));
    assert!(r.body.contains("\"content\":\"B\""));
    assert!(r.body.contains("\"is_published\":false"));
    assert_eq!(store.count(), 1);
}

#[test]
fn created_ids_are_36_characters() {
    let mut store = NoteStore::new();
    let r = create_note_handler(&mut store, &schema("A", "B"));
    assert_eq!(r.status, 200);
    let notes = store.all();
    assert_eq!(notes.len(), 1);
    assert_eq!(notes[0].id.chars().count(), 36);
}

#[test]
fn two_creates_distinct_payloads_both_succeed_with_distinct_ids() {
    let mut store = NoteStore::new();
    let r1 = create_note_handler(&mut store, &schema("first", "one"));
    let r2 = create_note_handler(&mut store, &schema("second", "two"));
    assert_eq!(r1.status, 200);
    assert_eq!(r2.status, 200);
    assert_eq!(store.count(), 2);
    let notes = store.all();
    assert_ne!(notes[0].id, notes[1].id);
}

#[test]
fn duplicate_id_is_a_conflict_and_stores_nothing() {
    let mut store = NoteStore::new();
    let first = create_note_with_id(&mut store, &schema("A", "B"), "same-id".to_owned());
    assert_eq!(first.status, 200);
    let second = create_note_with_id(&mut store, &schema("C", "D"), "same-id".to_owned());
    assert_eq!(second.status, 409);
    assert_eq!(
        second.body,
        "{\"status\":\"error\",\"message\":\"Note already exists\"}"
    );
    assert_eq!(store.count(), 1);
}

#[test]
fn created_note_round_trips_through_get_one() {
    let mut store = NoteStore::new();
    let created = create_note_with_id(&mut store, &schema("A", "B"), "note-1".to_owned());
    assert_eq!(created.status, 200);
    let fetched = find_one_note_handler(&store, "note-1");
    assert_eq!(fetched.status, 200);
    assert_eq!(fetched.body, created.body);
}

#[test]
fn get_one_nonexistent_id_is_surfaced_as_500() {
    let store = NoteStore::new();
    let r = find_one_note_handler(&store, "no-such-id");
    assert_eq!(r.status, 500);
    assert_eq!(r.body, "{\"status\":\"error\",\"message\":\"Note not found\"}");
}

#[test]
fn list_on_fresh_store_is_empty() {
    let store = NoteStore::new();
    let r = find_many_note_handler(&store);
    assert_eq!(r.status, 200);
    assert_eq!(r.body, "{\"status\":\"success\",\"data\":{\"notes\":[]}}");
}

#[test]
fn list_size_equals_number_of_successful_creates() {
    let mut store = NoteStore::new();
    let _ = create_note_with_id(&mut store, &schema("A", "1"), "id-a".to_owned());
    let _ = create_note_with_id(&mut store, &schema("B", "2"), "id-b".to_owned());
    let conflict = create_note_with_id(&mut store, &schema("C", "3"), "id-a".to_owned());
    assert_eq!(conflict.status, 409);
    assert_eq!(store.count(), 2);
    let r = find_many_note_handler(&store);
    assert_eq!(r.status, 200);
    assert_eq!(
        r.body,
        "{\"status\":\"success\",\"data\":{\"notes\":[\
         {\"id\":\"id-a\",\"title\":\"A\",\"content\":\"1\",\"is_published\":false,\
         \"created_at\":null,\"updated_at\":null},\
         {\"id\":\"id-b\",\"title\":\"B\",\"content\":\"2\",\"is_published\":false,\
         \"created_at\":null,\"updated_at\":null}]}}"
    );
}

#[test]
fn timestamps_render_in_calendar_form() {
    let created = Timestamp::new(2024, 2, 29, 12, 30, 5).unwrap();
    let updated = Timestamp::new(1999, 12, 31, 23, 59, 59).unwrap();
    let mut store = NoteStore::new();
    let mut note = plain_note("stamped", "A", "B");
    note.created_at = Some(created);
    note.updated_at = Some(updated);
    assert!(store.insert(note).is_ok());
    let r = find_one_note_handler(&store, "stamped");
    assert_eq!(r.status, 200);
    assert!(r.body.contains("\"created_at\":\"2024-02-29T12:30:05\""));
    assert!(r.body.contains("\"updated_at\":\"1999-12-31T23:59:59\""));
}

#[test]
fn timestamp_validation_follows_the_calendar() {
    assert!(Timestamp::new(2024, 2, 29, 0, 0, 0).is_some());
    assert!(Timestamp::new(2023, 2, 29, 0, 0, 0).is_none());
    assert!(Timestamp::new(2000, 2, 29, 0, 0, 0).is_some());
    assert!(Timestamp::new(1900, 2, 29, 0, 0, 0).is_none());
    assert!(Timestamp::new(2024, 4, 31, 0, 0, 0).is_none());
    assert!(Timestamp::new(2024, 13, 1, 0, 0, 0).is_none());
    assert!(Timestamp::new(2024, 0, 1, 0, 0, 0).is_none());
    assert!(Timestamp::new(2024, 1, 0, 0, 0, 0).is_none());
    assert!(Timestamp::new(2024, 1, 1, 24, 0, 0).is_none());
    assert!(Timestamp::new(2024, 1, 1, 0, 60, 0).is_none());
    assert!(Timestamp::new(2024, 1, 1, 0, 0, 60).is_none());
    assert!(Timestamp::new(10000, 1, 1, 0, 0, 0).is_none());
}

#[test]
fn json_strings_are_escaped() {
    let r = error_body("a \"quoted\" \\ path\nwith\tcontrol\u{1}");
    assert_eq!(
        r,
        "{\"status\":\"error\",\"message\":\"a \\\"quoted\\\" \\\\ path\\nwith\\tcontrol\\u0001\"}"
    );
    let mut store = NoteStore::new();
    let created = create_note_with_id(
        &mut store,
        &schema("say \"hi\"", "tab\there"),
        "esc".to_owned(),
    );
    assert_eq!(created.status, 200);
    assert!(created.body.contains("\"title\":\"say \\\"hi\\\"\""));
    assert!(created.body.contains("\"content\":\"tab\\there\""));
}

#[test]
fn unicode_and_empty_strings_pass_through_unescaped() {
    let mut store = NoteStore::new();
    let r = create_note_with_id(
        &mut store,
        &schema("h\u{e9}llo \u{2603}", ""),
        "u-1".to_owned(),
    );
    assert_eq!(r.status, 200);
    assert!(r.body.contains("\"title\":\"h\u{e9}llo \u{2603}\""));
    assert!(r.body.contains("\"content\":\"\""));
    let fetched = find_one_note_handler(&store, "u-1");
    assert_eq!(fetched.body, r.body);
}

#[test]
fn storage_error_replies_carry_their_diagnostics() {
    let conflict = storage_error_reply(&StorageError::ConstraintViolation);
    assert_eq!(conflict.status, 409);
    assert_eq!(
        conflict.body,
        "{\"status\":\"error\",\"message\":\"Note already exists\"}"
    );
    let missing = storage_error_reply(&StorageError::NotFound);
    assert_eq!(missing.status, 500);
    assert_eq!(
        missing.body,
        "{\"status\":\"error\",\"message\":\"Note not found\"}"
    );
    let backend = storage_error_reply(&StorageError::Backend("connection lost".to_owned()));
    assert_eq!(backend.status, 500);
    assert_eq!(
        backend.body,
        "{\"status\":\"error\",\"message\":\"connection lost\"}"
    );
}

#[test]
fn store_classifies_failures_structurally() {
    let mut store = NoteStore::new();
    assert!(store.insert(plain_note("k", "A", "B")).is_ok());
    assert!(matches!(
        store.insert(plain_note("k", "C", "D")),
        Err(StorageError::ConstraintViolation)
    ));
    assert!(matches!(store.get("absent"), Err(StorageError::NotFound)));
    assert!(store.get("k").is_ok());
}

#[test]
fn note_responses_mirror_models_field_for_field() {
    let mut note = plain_note("id-1", "title", "content");
    note.is_published = false;
    note.created_at = Timestamp::new(2020, 1, 2, 3, 4, 5);
    let response = to_note_response(&note);
    assert_eq!(response.id, note.id);
    assert_eq!(response.title, note.title);
    assert_eq!(response.content, note.content);
    assert_eq!(response.is_published, note.is_published);
    assert_eq!(response.created_at, note.created_at);
    assert_eq!(response.updated_at, note.updated_at);

    let notes = vec![plain_note("a", "t1", "c1"), plain_note("b", "t2", "c2")];
    let responses = to_note_responses(&notes);
    assert_eq!(responses.len(), 2);
    assert_eq!(responses[0].id, "a");
    assert_eq!(responses[1].id, "b");
}

#[test]
fn body_builders_match_the_handlers() {
    let note = NoteModelResponse {
        id: "x".to_owned(),
        title: "t".to_owned(),
        content: "c".to_owned(),
        is_published: true,
        created_at: None,
        updated_at: None,
    };
    let one = note_success_body(&note);
    assert_eq!(
        one,
        "{\"status\":\"success\",\"data\":{\"note\":{\"id\":\"x\",\"title\":\"t\",\
         \"content\":\"c\",\"is_published\":true,\"created_at\":null,\"updated_at\":null}}}"
    );
    let many = notes_success_body(&vec![note]);
    assert_eq!(
        many,
        "{\"status\":\"success\",\"data\":{\"notes\":[{\"id\":\"x\",\"title\":\"t\",\
         \"content\":\"c\",\"is_published\":true,\"created_at\":null,\"updated_at\":null}]}}"
    );
}
