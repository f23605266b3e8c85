//! A model of the notes table: one flat collection of records keyed by a
//! unique string id, with the semantics the handlers rely on — insert
//! refused on a key collision, fetch-by-id, list-all.

use vstd::prelude::*;
use crate::models::{NoteModel, NoteView, note_views};

verus! {

/// Structured classification of a storage failure.
pub enum StorageError {
    /// The inserted row's key collides with one already stored.
    ConstraintViolation,
    /// A fetch that expected exactly one row found none.
    NotFound,
    /// Any other backend failure, with its diagnostic text.
    Backend(String),
}

/// Some stored note carries the id.
pub open spec fn has_note_id(s: Seq<NoteView>, id: Seq<char>) -> bool {
    exists|i: int| 0 <= i < s.len() && s[i].id == id
}

/// The first stored note carrying the id, if any.
pub open spec fn lookup_note(s: Seq<NoteView>, id: Seq<char>) -> Option<NoteView>
    decreases s.len(),
{
    if s.len() == 0 {
        None
    } else if s[0].id == id {
        Some(s[0])
    } else {
        lookup_note(s.drop_first(), id)
    }
}

/// A lookup finds a note exactly when some stored note carries the id, and
/// what it finds carries that id.
pub proof fn lemma_lookup_is_find(s: Seq<NoteView>, id: Seq<char>)
    ensures
        lookup_note(s, id) is Some <==> has_note_id(s, id),
        lookup_note(s, id) matches Some(n) ==> n.id == id && s.contains(n),
    decreases s.len(),
{
    if s.len() > 0 && s[0].id != id {
        lemma_lookup_is_find(s.drop_first(), id);
        if has_note_id(s, id) {
            let i = choose|i: int| 0 <= i < s.len() && s[i].id == id;
            assert(s.drop_first()[i - 1].id == id);
        }
        if lookup_note(s, id) is Some {
            let n = lookup_note(s, id).unwrap();
            assert(s.drop_first().contains(n));
            let i = choose|i: int| 0 <= i < s.drop_first().len() && s.drop_first()[i] == n;
            assert(s[i + 1] == n);
        }
    }
}

/// If the first `i` notes miss the id and note `i` carries it, the lookup
/// returns note `i`.
pub proof fn lemma_lookup_first_match(s: Seq<NoteView>, id: Seq<char>, i: int)
    requires
        0 <= i < s.len(),
        forall|j: int| 0 <= j < i ==> s[j].id != id,
        s[i].id == id,
    ensures
        lookup_note(s, id) == Some(s[i]),
    decreases i,
{
    if i > 0 {
        assert(forall|j: int| 0 <= j < i - 1 ==> s.drop_first()[j].id == s[j + 1].id);
        lemma_lookup_first_match(s.drop_first(), id, i - 1);
    }
}

/// Appending a note whose id was absent makes it the one the lookup finds.
pub proof fn lemma_lookup_push(s: Seq<NoteView>, n: NoteView)
    requires
        !has_note_id(s, n.id),
    ensures
        lookup_note(s.push(n), n.id) == Some(n),
{
    assert(forall|j: int| 0 <= j < s.len() ==> s.push(n)[j].id != n.id);
    assert(s.push(n)[s.len() as int] == n);
    lemma_lookup_first_match(s.push(n), n.id, s.len() as int);
}

/// Appending a note with a different id leaves a lookup's answer unchanged.
pub proof fn lemma_lookup_push_other(s: Seq<NoteView>, n: NoteView, id: Seq<char>)
    requires
        n.id != id,
    ensures
        lookup_note(s.push(n), id) == lookup_note(s, id),
    decreases s.len(),
{
    if s.len() == 0 {
        assert(s.push(n)[0] == n);
        assert(s.push(n).drop_first() =~= s);
        assert(lookup_note(s.push(n), id) == lookup_note(s, id));
    } else {
        assert(s.push(n)[0] == s[0]);
        assert(s.push(n).drop_first() =~= s.drop_first().push(n));
        lemma_lookup_push_other(s.drop_first(), n, id);
    }
}

/// The notes table: records in insertion order, ids unique.
pub struct NoteStore {
    notes: Vec<NoteModel>,
}

impl View for NoteStore {
    type V = Seq<NoteView>;

    closed spec fn view(&self) -> Seq<NoteView> {
        note_views(self.notes@)
    }
}

impl NoteStore {
    /// Ids are unique across the stored notes.
    pub open spec fn wf(self) -> bool {
        forall|i: int, j: int| 0 <= i < j < self@.len() ==> self@[i].id != self@[j].id
    }

    /// A freshly initialized store holds no notes.
    pub fn new() -> (s: Self)
        ensures
            s@ =~= Seq::<NoteView>::empty(),
            s.wf(),
    {
        NoteStore { notes: Vec::new() }
    }

    /// How many notes are stored.
    pub fn count(&self) -> (n: usize)
        ensures
            n == self@.len(),
    {
        self.notes.len()
    }

    /// The stored records, in insertion order.
    pub fn all(&self) -> (r: &Vec<NoteModel>)
        ensures
            note_views(r@) == self@,
    {
        &self.notes
    }

    /// Whether some stored note carries the id.
    pub fn contains_id(&self, id: &str) -> (r: bool)
        ensures
            r == has_note_id(self@, id@),
    {
        let key = id.to_owned();
        let mut i: usize = 0;
        while i < self.notes.len()
            invariant
                key@ == id@,
                i <= self.notes@.len(),
                self@.len() == self.notes@.len(),
                forall|j: int| 0 <= j < i ==> self@[j].id != id@,
            decreases self.notes@.len() - i,
        {
            if self.notes[i].id.eq(&key) {
                assert(self@[i as int].id == id@);
                return true;
            }
            i = i + 1;
        }
        false
    }

    /// Inserts a record. Succeeds exactly when no stored note carries its id,
    /// and then appends it; on a collision the store is unchanged and the
    /// error is the constraint violation.
    pub fn insert(&mut self, note: NoteModel) -> (r: Result<(), StorageError>)
        requires
            old(self).wf(),
        ensures
            final(self).wf(),
            r is Ok <==> !has_note_id(old(self)@, note@.id),
            r is Ok ==> final(self)@ =~= old(self)@.push(note@),
            r is Err ==> final(self)@ == old(self)@ && (r matches Err(
                StorageError::ConstraintViolation,
            )),
    {
        if self.contains_id(note.id.as_str()) {
            Err(StorageError::ConstraintViolation)
        } else {
            let ghost pre = self@;
            let ghost v = note@;
            self.notes.push(note);
            proof {
                assert(self@ =~= pre.push(v));
            }
            Ok(())
        }
    }

    /// Fetches the note carrying the id, or reports that none does.
    pub fn get(&self, id: &str) -> (r: Result<&NoteModel, StorageError>)
        ensures
            r matches Ok(n) ==> lookup_note(self@, id@) == Some(n@),
            r is Err ==> !has_note_id(self@, id@) && (r matches Err(StorageError::NotFound)),
    {
        let key = id.to_owned();
        let mut i: usize = 0;
        while i < self.notes.len()
            invariant
                key@ == id@,
                i <= self.notes@.len(),
                self@.len() == self.notes@.len(),
                forall|j: int| 0 <= j < i ==> self@[j].id != id@,
            decreases self.notes@.len() - i,
        {
            if self.notes[i].id.eq(&key) {
                proof {
                    assert(self@[i as int] == self.notes@[i as int]@);
                    lemma_lookup_first_match(self@, id@, i as int);
                }
                return Ok(&self.notes[i]);
            }
            i = i + 1;
        }
        Err(StorageError::NotFound)
    }
}

} // verus!
