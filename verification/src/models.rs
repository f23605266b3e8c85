//! The note record as the storage layer and the API share it, with a plain
//! calendar timestamp standing for the database-assigned times.

use vstd::prelude::*;
use crate::json::{two_digits, four_digits};
use crate::json::{push_two_digits, push_four_digits};
use crate::json::push_char;

verus! {

/// `y` has a 29-day February.
pub open spec fn leap_year(y: int) -> bool {
    y % 4 == 0 && (y % 100 != 0 || y % 400 == 0)
}

/// How many days month `m` of year `y` has (for `1 <= m <= 12`).
pub open spec fn days_in_month(y: int, m: int) -> int {
    if m == 2 {
        if leap_year(y) {
            29
        } else {
            28
        }
    } else if m == 4 || m == 6 || m == 9 || m == 11 {
        30
    } else {
        31
    }
}

/// A calendar timestamp with second precision, the shape in which the
/// database-assigned creation and update times reach the API.
#[derive(Clone, Copy, PartialEq, Eq, Structural, Debug)]
pub struct Timestamp {
    pub year: u16,
    pub month: u8,
    pub day: u8,
    pub hour: u8,
    pub minute: u8,
    pub second: u8,
}

impl Timestamp {
    /// A real calendar date (leap years included) and a real time of day.
    pub open spec fn wf(self) -> bool {
        &&& self.year <= 9999
        &&& 1 <= self.month <= 12
        &&& 1 <= self.day <= days_in_month(self.year as int, self.month as int)
        &&& self.hour <= 23
        &&& self.minute <= 59
        &&& self.second <= 59
    }

    /// The timestamp rendered as `YYYY-MM-DDTHH:MM:SS`.
    pub open spec fn text(self) -> Seq<char> {
        four_digits(self.year as nat) + "-"@ + two_digits(self.month as nat) + "-"@ + two_digits(
            self.day as nat,
        ) + "T"@ + two_digits(self.hour as nat) + ":"@ + two_digits(self.minute as nat) + ":"@
            + two_digits(self.second as nat)
    }

    /// Builds a timestamp after checking every field, and returns `None` on
    /// exactly the field combinations that name no real date or time.
    pub fn new(year: u16, month: u8, day: u8, hour: u8, minute: u8, second: u8) -> (r: Option<
        Timestamp,
    >)
        ensures
            ({
                let t = Timestamp { year, month, day, hour, minute, second };
                &&& r is Some <==> t.wf()
                &&& r is Some ==> r == Some(t)
            }),
    {
        let t = Timestamp { year, month, day, hour, minute, second };
        if year > 9999 || month < 1 || month > 12 || hour > 23 || minute > 59 || second > 59 {
            return None;
        }
        let leap: bool = year % 4 == 0 && (year % 100 != 0 || year % 400 == 0);
        let month_days: u8 = if month == 2 {
            if leap {
                29
            } else {
                28
            }
        } else if month == 4 || month == 6 || month == 9 || month == 11 {
            30
        } else {
            31
        };
        if day < 1 || day > month_days {
            return None;
        }
        Some(t)
    }
}

/// Appends `t.text()`, the `YYYY-MM-DDTHH:MM:SS` rendering of `t`.
pub(crate) fn push_timestamp(out: &mut String, t: &Timestamp)
    requires
        t.wf(),
    ensures
        final(out)@ == old(out)@ + t.text(),
{
    push_four_digits(out, t.year as u32);
    push_char(out, '-');
    push_two_digits(out, t.month as u32);
    push_char(out, '-');
    push_two_digits(out, t.day as u32);
    push_char(out, 'T');
    push_two_digits(out, t.hour as u32);
    push_char(out, ':');
    push_two_digits(out, t.minute as u32);
    push_char(out, ':');
    push_two_digits(out, t.second as u32);
    proof {
        reveal_strlit("-");
        reveal_strlit("T");
        reveal_strlit(":");
        assert(out@ =~= old(out)@ + t.text());
    }
}

/// The mathematical shape of one note: what the record means, free of the
/// `String` carriers.
pub ghost struct NoteView {
    pub id: Seq<char>,
    pub title: Seq<char>,
    pub content: Seq<char>,
    pub is_published: bool,
    pub created_at: Option<Timestamp>,
    pub updated_at: Option<Timestamp>,
}

/// The persisted note record.
pub struct NoteModel {
    pub id: String,
    pub title: String,
    pub content: String,
    pub is_published: bool,
    pub created_at: Option<Timestamp>,
    pub updated_at: Option<Timestamp>,
}

impl View for NoteModel {
    type V = NoteView;

    open spec fn view(&self) -> NoteView {
        NoteView {
            id: self.id@,
            title: self.title@,
            content: self.content@,
            is_published: self.is_published,
            created_at: self.created_at,
            updated_at: self.updated_at,
        }
    }
}

/// The wire shape of one note. It mirrors `NoteModel` field for field; the
/// separation leaves room for the persisted and wire shapes to diverge.
pub struct NoteModelResponse {
    pub id: String,
    pub title: String,
    pub content: String,
    pub is_published: bool,
    pub created_at: Option<Timestamp>,
    pub updated_at: Option<Timestamp>,
}

impl View for NoteModelResponse {
    type V = NoteView;

    open spec fn view(&self) -> NoteView {
        NoteView {
            id: self.id@,
            title: self.title@,
            content: self.content@,
            is_published: self.is_published,
            created_at: self.created_at,
            updated_at: self.updated_at,
        }
    }
}

/// The parsed body of a create request: both fields are required, so a value
/// of this type always carries a title and a content.
pub struct CreateNoteSchema {
    pub title: String,
    pub content: String,
}

/// Every timestamp the record carries is a real calendar time.
pub open spec fn timestamps_wf(n: NoteView) -> bool {
    &&& n.created_at matches Some(t) ==> t.wf()
    &&& n.updated_at matches Some(t) ==> t.wf()
}

/// Every record in the sequence carries only real calendar times.
pub open spec fn all_timestamps_wf(s: Seq<NoteView>) -> bool {
    forall|i: int| 0 <= i < s.len() ==> timestamps_wf(#[trigger] s[i])
}

/// The meanings of a sequence of records, in order.
pub open spec fn note_views(s: Seq<NoteModel>) -> Seq<NoteView> {
    s.map_values(|n: NoteModel| n@)
}

/// The meanings of a sequence of wire records, in order.
pub open spec fn response_views(s: Seq<NoteModelResponse>) -> Seq<NoteView> {
    s.map_values(|n: NoteModelResponse| n@)
}

/// Copies a stored record into its wire shape, field for field.
pub fn to_note_response(note: &NoteModel) -> (r: NoteModelResponse)
    ensures
        r@ == note@,
{
    NoteModelResponse {
        id: note.id.clone(),
        title: note.title.clone(),
        content: note.content.clone(),
        is_published: note.is_published,
        created_at: note.created_at,
        updated_at: note.updated_at,
    }
}

/// Copies a sequence of stored records into their wire shapes, keeping order.
pub fn to_note_responses(notes: &Vec<NoteModel>) -> (r: Vec<NoteModelResponse>)
    ensures
        response_views(r@) == note_views(notes@),
{
    let mut r: Vec<NoteModelResponse> = Vec::new();
    let mut i: usize = 0;
    while i < notes.len()
        invariant
            i <= notes@.len(),
            r@.len() == i,
            forall|j: int| 0 <= j < i ==> r@[j]@ == notes@[j]@,
        decreases notes@.len() - i,
    {
        r.push(to_note_response(&notes[i]));
        i = i + 1;
    }
    proof {
        assert(response_views(r@) =~= note_views(notes@));
    }
    r
}

} // verus!
