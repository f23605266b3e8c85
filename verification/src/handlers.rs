//! The request handlers as pure mappings: from the parsed request and the
//! state of the store to an HTTP status code and the exact JSON body.

use vstd::prelude::*;
use vstd::string::StringExecFns;
use crate::HttpReply;
use crate::json::{json_string, bool_text, push_json_string, push_bool};
use crate::models::{
    Timestamp, NoteView, NoteModel, NoteModelResponse, CreateNoteSchema, response_views,
    to_note_response, to_note_responses, push_timestamp, timestamps_wf, all_timestamps_wf,
};
use crate::store::{
    NoteStore, StorageError, has_note_id, lookup_note, lemma_lookup_is_find, lemma_lookup_push,
    lemma_lookup_push_other,
};

verus! {

/// How an optional timestamp appears in a note's JSON: `null` when absent,
/// a quoted `YYYY-MM-DDTHH:MM:SS` rendering when present.
pub open spec fn opt_timestamp_text(o: Option<Timestamp>) -> Seq<char> {
    match o {
        Option::None => "null"@,
        Option::Some(t) => "\""@ + t.text() + "\""@,
    }
}

/// One note as a JSON object, field names and order as the wire shape has
/// them.
pub open spec fn note_text(n: NoteView) -> Seq<char> {
    "{\"id\":"@ + json_string(n.id) + ",\"title\":"@ + json_string(n.title) + ",\"content\":"@
        + json_string(n.content) + ",\"is_published\":"@ + bool_text(n.is_published)
        + ",\"created_at\":"@ + opt_timestamp_text(n.created_at) + ",\"updated_at\":"@
        + opt_timestamp_text(n.updated_at) + "}"@
}

/// The comma-separated note objects inside the list body's JSON array.
pub open spec fn note_items_text(s: Seq<NoteView>) -> Seq<char>
    decreases s.len(),
{
    if s.len() == 0 {
        Seq::empty()
    } else if s.len() == 1 {
        note_text(s[0])
    } else {
        note_items_text(s.drop_last()) + ","@ + note_text(s.last())
    }
}

/// The success envelope around one note.
pub open spec fn success_note_text(n: NoteView) -> Seq<char> {
    "{\"status\":\"success\",\"data\":{\"note\":"@ + note_text(n) + "}}"@
}

/// The success envelope around the full list of notes.
pub open spec fn success_notes_text(s: Seq<NoteView>) -> Seq<char> {
    "{\"status\":\"success\",\"data\":{\"notes\":["@ + note_items_text(s) + "]}}"@
}

/// The error envelope around a diagnostic message.
pub open spec fn error_text(m: Seq<char>) -> Seq<char> {
    "{\"status\":\"error\",\"message\":"@ + json_string(m) + "}"@
}

/// The fixed health-check payload.
pub open spec fn health_text() -> Seq<char> {
    "{\"message\":\"API\",\"status\":\"OK\"}"@
}

/// The fixed root payload.
pub open spec fn root_text() -> Seq<char> {
    "{\"message\":\"Users\",\"status\":\"OK\"}"@
}

/// The diagnostic for a fetch that found no note.
pub open spec fn not_found_text() -> Seq<char> {
    "Note not found"@
}

/// The diagnostic for an insert refused by the unique-id constraint.
pub open spec fn conflict_text() -> Seq<char> {
    "Note already exists"@
}

/// The note a successful create stores: the submitted title and content
/// under the minted id, unpublished, with no timestamps assigned yet.
pub open spec fn created_note_view(id: Seq<char>, title: Seq<char>, content: Seq<char>) -> NoteView {
    NoteView {
        id: id,
        title: title,
        content: content,
        is_published: false,
        created_at: Option::None,
        updated_at: Option::None,
    }
}

fn push_opt_timestamp(out: &mut String, o: &Option<Timestamp>)
    requires
        o matches Some(t) ==> t.wf(),
    ensures
        final(out)@ == old(out)@ + opt_timestamp_text(*o),
{
    match o {
        Option::None => {
            out.append("null");
        },
        Option::Some(t) => {
            out.append("\"");
            push_timestamp(out, t);
            out.append("\"");
            assert(out@ =~= old(out)@ + opt_timestamp_text(Some(*t)));
        },
    }
}

#[verifier::rlimit(100)]
fn push_note(out: &mut String, n: &NoteModelResponse)
    requires
        n@.created_at matches Some(t) ==> t.wf(),
        n@.updated_at matches Some(t) ==> t.wf(),
    ensures
        final(out)@ == old(out)@ + note_text(n@),
{
    out.append("{\"id\":");
    push_json_string(out, n.id.as_str());
    out.append(",\"title\":");
    push_json_string(out, n.title.as_str());
    out.append(",\"content\":");
    push_json_string(out, n.content.as_str());
    out.append(",\"is_published\":");
    push_bool(out, n.is_published);
    out.append(",\"created_at\":");
    push_opt_timestamp(out, &n.created_at);
    out.append(",\"updated_at\":");
    push_opt_timestamp(out, &n.updated_at);
    out.append("}");
    assert(out@ =~= old(out)@ + note_text(n@));
}

/// The success body around one note, exactly as the wire sees it.
pub fn note_success_body(n: &NoteModelResponse) -> (r: String)
    requires
        timestamps_wf(n@),
    ensures
        r@ == success_note_text(n@),
{
    let mut out = String::new();
    out.append("{\"status\":\"success\",\"data\":{\"note\":");
    push_note(&mut out, n);
    out.append("}}");
    assert(out@ =~= success_note_text(n@));
    out
}

/// The success body around a list of notes, exactly as the wire sees it.
#[verifier::rlimit(60)]
pub fn notes_success_body(notes: &Vec<NoteModelResponse>) -> (r: String)
    requires
        all_timestamps_wf(response_views(notes@)),
    ensures
        r@ == success_notes_text(response_views(notes@)),
{
    let ghost views = response_views(notes@);
    proof {
        assert forall|j: int| 0 <= j < notes@.len() implies timestamps_wf(
            #[trigger] notes@[j]@,
        ) by {
            assert(views[j] == notes@[j]@);
            assert(timestamps_wf(views[j]));
        }
    }
    let mut out = String::new();
    out.append("{\"status\":\"success\",\"data\":{\"notes\":[");
    let ghost head = out@;
    let mut i: usize = 0;
    while i < notes.len()
        invariant
            views == response_views(notes@),
            views.len() == notes@.len(),
            forall|j: int| 0 <= j < notes@.len() ==> views[j] == #[trigger] notes@[j]@,
            forall|j: int| 0 <= j < notes@.len() ==> timestamps_wf(#[trigger] notes@[j]@),
            i <= notes@.len(),
            out@ == head + note_items_text(views.take(i as int)),
        decreases notes@.len() - i,
    {
        if i > 0 {
            out.append(",");
        }
        push_note(&mut out, &notes[i]);
        proof {
            assert(views.take(i + 1).drop_last() =~= views.take(i as int));
            assert(views.take(i + 1).last() == views[i as int]);
            if i == 0 {
                assert(views.take(1)[0] == views[0]);
            }
            assert(out@ =~= head + note_items_text(views.take(i + 1)));
        }
        i = i + 1;
    }
    out.append("]}}");
    proof {
        assert(views.take(notes@.len() as int) =~= views);
        assert(out@ =~= success_notes_text(views));
    }
    out
}

/// The error body around a diagnostic message, exactly as the wire sees it.
pub fn error_body(message: &str) -> (r: String)
    ensures
        r@ == error_text(message@),
{
    let mut out = String::new();
    out.append("{\"status\":\"error\",\"message\":");
    push_json_string(&mut out, message);
    out.append("}");
    assert(out@ =~= error_text(message@));
    out
}

/// Maps a storage failure to its HTTP reply: the unique-id collision to the
/// conflict status, everything else to an internal server error carrying the
/// diagnostic.
pub fn storage_error_reply(e: &StorageError) -> (r: HttpReply)
    ensures
        e matches StorageError::ConstraintViolation ==> r.status == 409 && r.body@ == error_text(
            conflict_text(),
        ),
        e matches StorageError::NotFound ==> r.status == 500 && r.body@ == error_text(
            not_found_text(),
        ),
        e matches StorageError::Backend(m) ==> r.status == 500 && r.body@ == error_text(m@),
{
    match e {
        StorageError::ConstraintViolation => HttpReply {
            status: 409,
            body: error_body("Note already exists"),
        },
        StorageError::NotFound => HttpReply { status: 500, body: error_body("Note not found") },
        StorageError::Backend(m) => HttpReply { status: 500, body: error_body(m.as_str()) },
    }
}

/// The health check: a fixed payload, computed from nothing — in particular
/// not from the storage handle.
pub fn health_check_handler() -> (r: HttpReply)
    ensures
        r.status == 200,
        r.body@ == health_text(),
{
    HttpReply { status: 200, body: String::from_str("{\"message\":\"API\",\"status\":\"OK\"}") }
}

/// The root endpoint: a fixed payload, computed from nothing.
pub fn root_handler() -> (r: HttpReply)
    ensures
        r.status == 200,
        r.body@ == root_text(),
{
    HttpReply { status: 200, body: String::from_str("{\"message\":\"Users\",\"status\":\"OK\"}") }
}

/// Fetch one note by id. Replies 200 with the note's success envelope when a
/// note carries the id; when none does, the miss surfaces as a 500 with the
/// not-found diagnostic (kept as the service's current wire behavior).
pub fn find_one_note_handler(store: &NoteStore, note_id: &str) -> (r: HttpReply)
    requires
        all_timestamps_wf(store@),
    ensures
        has_note_id(store@, note_id@) ==> r.status == 200 && r.body@ == success_note_text(
            lookup_note(store@, note_id@).unwrap(),
        ),
        !has_note_id(store@, note_id@) ==> r.status == 500 && r.body@ == error_text(
            not_found_text(),
        ),
{
    proof {
        lemma_lookup_is_find(store@, note_id@);
    }
    match store.get(note_id) {
        Ok(note) => {
            proof {
                let n = lookup_note(store@, note_id@).unwrap();
                let i = choose|i: int| 0 <= i < store@.len() && store@[i] == n;
                assert(timestamps_wf(store@[i]));
            }
            let response = to_note_response(note);
            HttpReply { status: 200, body: note_success_body(&response) }
        },
        Err(e) => storage_error_reply(&e),
    }
}

/// List all notes. Always replies 200 with the success envelope around the
/// store's full contents, in insertion order.
pub fn find_many_note_handler(store: &NoteStore) -> (r: HttpReply)
    requires
        all_timestamps_wf(store@),
    ensures
        r.status == 200,
        r.body@ == success_notes_text(store@),
{
    let all = store.all();
    let responses = to_note_responses(all);
    proof {
        assert(response_views(responses@) == store@);
    }
    HttpReply { status: 200, body: notes_success_body(&responses) }
}

/// Create a note under a caller-supplied id. Succeeds — 200 and the stored
/// note's success envelope — exactly when no stored note carries the id;
/// a collision replies 409 with the conflict envelope and stores nothing.
pub fn create_note_with_id(store: &mut NoteStore, body: &CreateNoteSchema, id: String) -> (r:
    HttpReply)
    requires
        old(store).wf(),
    ensures
        final(store).wf(),
        !has_note_id(old(store)@, id@) ==> r.status == 200
            && final(store)@ =~= old(store)@.push(created_note_view(id@, body.title@, body.content@))
            && r.body@ == success_note_text(created_note_view(id@, body.title@, body.content@)),
        has_note_id(old(store)@, id@) ==> r.status == 409 && final(store)@ == old(store)@
            && r.body@ == error_text(conflict_text()),
{
    let fetch_id = id.clone();
    let note = NoteModel {
        id: id,
        title: body.title.clone(),
        content: body.content.clone(),
        is_published: false,
        created_at: None,
        updated_at: None,
    };
    let ghost v = note@;
    match store.insert(note) {
        Err(e) => storage_error_reply(&e),
        Ok(_) => {
            proof {
                lemma_lookup_push(old(store)@, v);
            }
            match store.get(fetch_id.as_str()) {
                Ok(stored) => {
                    let response = to_note_response(stored);
                    HttpReply { status: 200, body: note_success_body(&response) }
                },
                Err(e) => {
                    proof {
                        lemma_lookup_is_find(store@, fetch_id@);
                        assert(false);
                    }
                    storage_error_reply(&e)
                },
            }
        },
    }
}

/// Relies on uuid::Uuid::new_v4 and its Display form: a fresh random v4
/// UUID rendered as the 36-character hyphenated string.
#[verifier::external_body]
fn new_note_id() -> (r: String)
    ensures
        r@.len() == 36,
{
    uuid::Uuid::new_v4().to_string()
}

/// Create a note under a freshly minted random id. Whatever id the generator
/// returns: either no stored note carried it — 200, and the store grows by
/// exactly the submitted note — or one did — 409, and the store is unchanged.
/// A conflict takes a stored note, so on an empty store the create succeeds.
pub fn create_note_handler(store: &mut NoteStore, body: &CreateNoteSchema) -> (r: HttpReply)
    requires
        old(store).wf(),
    ensures
        final(store).wf(),
        r.status == 200 || r.status == 409,
        r.status == 200 ==> final(store)@.len() == old(store)@.len() + 1
            && (forall|i: int| 0 <= i < old(store)@.len() ==> final(store)@[i] == old(store)@[i])
            && final(store)@.last() == created_note_view(
                final(store)@.last().id, body.title@, body.content@)
            && !has_note_id(old(store)@, final(store)@.last().id)
            && final(store)@.last().id.len() == 36
            && r.body@ == success_note_text(final(store)@.last()),
        r.status == 409 ==> final(store)@ == old(store)@ && r.body@ == error_text(conflict_text()),
        r.status == 409 ==> old(store)@.len() > 0,
{
    let id = new_note_id();
    create_note_with_id(store, body, id)
}

/// A created note round-trips: when a successful create appends `n` to the
/// store, the fetch-by-id that get-one performs on the new store finds
/// exactly `n`, every field identical — so `find_one_note_handler` replies
/// 200 with `n`'s success envelope.
pub proof fn lemma_created_note_round_trips(s: Seq<NoteView>, n: NoteView)
    requires
        !has_note_id(s, n.id),
    ensures
        lookup_note(s.push(n), n.id) == Some(n),
        has_note_id(s.push(n), n.id),
{
    lemma_lookup_push(s, n);
    lemma_lookup_is_find(s.push(n), n.id);
}

/// The listed collection counts the successfully created notes: the list
/// body is the envelope around the store's contents (see
/// `find_many_note_handler`), a successful create grows those contents by
/// exactly one, and a fresh store's contents are empty.
pub proof fn lemma_list_size_counts_creates(s: Seq<NoteView>, n: NoteView)
    ensures
        s.push(n).len() == s.len() + 1,
        Seq::<NoteView>::empty().len() == 0,
{
}

/// Two creates with distinct ids both succeed, whichever runs first: the
/// second id is still absent after the first create, both notes end up
/// stored, and each stays retrievable by its own id.
pub proof fn lemma_distinct_creates_both_succeed(s: Seq<NoteView>, n1: NoteView, n2: NoteView)
    requires
        n1.id != n2.id,
        !has_note_id(s, n1.id),
        !has_note_id(s, n2.id),
    ensures
        !has_note_id(s.push(n1), n2.id),
        lookup_note(s.push(n1).push(n2), n1.id) == Some(n1),
        lookup_note(s.push(n1).push(n2), n2.id) == Some(n2),
        s.push(n1).push(n2).len() == s.len() + 2,
{
    assert forall|i: int| 0 <= i < s.push(n1).len() implies #[trigger] s.push(n1)[i].id
        != n2.id by {
        if i < s.len() {
            assert(s.push(n1)[i] == s[i]);
            assert(!(0 <= i < s.len() && s[i].id == n2.id));
        } else {
            assert(s.push(n1)[i] == n1);
        }
    }
    lemma_lookup_push(s, n1);
    lemma_lookup_push_other(s.push(n1), n2, n1.id);
    lemma_lookup_push(s.push(n1), n2);
}

} // verus!
