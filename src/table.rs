use vstd::prelude::*;
use crate::model::{NewNote, Note};
use crate::reply::{
    create_reply, is_text, list_reply, new_note_from_fields, Body, Reply,
};

verus! {

/// The most notes one listing returns.
pub const LIST_LIMIT: usize = 100;

/// Identifiers grow strictly along the sequence (the order of insertion).
pub open spec fn ids_increasing(s: Seq<Note>) -> bool {
    forall|i: int, j: int| 0 <= i < j < s.len() ==> #[trigger] s[i].id < #[trigger] s[j].id
}

/// Identifiers fall strictly along the sequence.
pub open spec fn ids_descending(s: Seq<Note>) -> bool {
    forall|i: int, j: int| 0 <= i < j < s.len() ==> #[trigger] s[i].id > #[trigger] s[j].id
}

/// How many notes a listing of `n` stored notes returns.
pub open spec fn listed_count(n: nat) -> nat {
    if n < LIST_LIMIT { n } else { LIST_LIMIT as nat }
}

/// The listing of notes stored in this order of insertion: the newest
/// `LIST_LIMIT` of them, newest first.
pub open spec fn newest_first(s: Seq<Note>) -> Seq<Note> {
    Seq::new(listed_count(s.len()), |i: int| s[s.len() - 1 - i])
}

/// The message of an insert when identifiers have run out.
pub open spec fn exhausted_message() -> Seq<char> {
    "nextval: reached maximum value of sequence"@
}

/// The message of every call while storage is unreachable.
pub open spec fn outage_message() -> Seq<char> {
    "connection closed"@
}

/// Notes kept in memory with the semantics of the service's two statements:
/// an insert takes the next identifier of a sequence that starts at 1, and a
/// listing returns the newest notes first. Storage can be marked unreachable,
/// after which every call fails and nothing changes.
pub struct NoteTable {
    notes: Vec<Note>,
    last_id: i32,
    available: bool,
}

impl NoteTable {
    /// The stored notes, in the order of insertion.
    pub closed spec fn rows(&self) -> Seq<Note> {
        self.notes@
    }

    /// The last identifier the sequence handed out (0 before the first).
    pub closed spec fn last_id(&self) -> int {
        self.last_id as int
    }

    pub closed spec fn is_available(&self) -> bool {
        self.available
    }

    pub open spec fn wf(&self) -> bool {
        &&& ids_increasing(self.rows())
        &&& 0 <= self.last_id()
        &&& forall|i: int|
            0 <= i < self.rows().len() ==> 0 < #[trigger] self.rows()[i].id <= self.last_id()
    }

    /// An empty, reachable table.
    pub fn new() -> (r: NoteTable)
        ensures
            r.wf(),
            r.rows() == Seq::<Note>::empty(),
            r.last_id() == 0,
            r.is_available(),
    {
        NoteTable { notes: Vec::new(), last_id: 0, available: true }
    }

    /// Marks storage reachable or not; the stored notes stay as they are.
    pub fn set_available(&mut self, up: bool)
        ensures
            final(self).rows() == old(self).rows(),
            final(self).last_id() == old(self).last_id(),
            final(self).is_available() == up,
    {
        self.available = up;
    }

    /// How many notes are stored.
    pub fn len(&self) -> (r: usize)
        ensures
            r == self.rows().len(),
    {
        self.notes.len()
    }

    /// Stores a new note under the next identifier, which it returns.
    pub fn insert(&mut self, note: NewNote) -> (r: Result<i32, String>)
        requires
            old(self).wf(),
        ensures
            final(self).wf(),
            final(self).is_available() == old(self).is_available(),
            !old(self).is_available() ==> (r matches Err(e) && e@ == outage_message()),
            old(self).is_available() && old(self).last_id() == i32::MAX ==> (r matches Err(e)
                && e@ == exhausted_message()),
            r is Err ==> final(self).rows() == old(self).rows() && final(self).last_id() == old(
                self,
            ).last_id(),
            old(self).is_available() && old(self).last_id() < i32::MAX ==> (r matches Ok(id) && id
                == old(self).last_id() + 1 && final(self).last_id() == id && final(self).rows()
                == old(self).rows().push(Note { id, title: note.title, content: note.content })),
    {
        if !self.available {
            return Err(String::from_str("connection closed"));
        }
        if self.last_id == i32::MAX {
            return Err(String::from_str("nextval: reached maximum value of sequence"));
        }
        let id = self.last_id + 1;
        let ghost before = self.notes@;
        self.notes.push(Note { id, title: note.title, content: note.content });
        self.last_id = id;
        assert(self.notes@ == before.push(self.notes@.last()));
        Ok(id)
    }

    /// The newest `LIST_LIMIT` notes, newest first.
    pub fn list(&self) -> (r: Result<Vec<Note>, String>)
        requires
            self.wf(),
        ensures
            self.is_available() ==> (r matches Ok(v) && v@ == newest_first(self.rows())),
            !self.is_available() ==> (r matches Err(e) && e@ == outage_message()),
    {
        if !self.available {
            return Err(String::from_str("connection closed"));
        }
        let n = self.notes.len();
        let k: usize = if n < LIST_LIMIT { n } else { LIST_LIMIT };
        let mut out: Vec<Note> = Vec::new();
        let mut i: usize = 0;
        while i < k
            invariant
                k == listed_count(n as nat),
                n == self.notes@.len(),
                i <= k,
                out@ == newest_first(self.rows()).take(i as int),
            decreases k - i,
        {
            out.push(self.notes[n - 1 - i].duplicate());
            i = i + 1;
            assert(out@ =~= newest_first(self.rows()).take(i as int));
        }
        assert(out@ =~= newest_first(self.rows()));
        Ok(out)
    }

    /// `GET /notes/` served from this table.
    pub fn get_notes(&self) -> (r: Reply)
        requires
            self.wf(),
        ensures
            self.is_available() ==> r.status == 200,
            self.is_available() ==> (r.body matches Body::Notes(v) && v@ == newest_first(
                self.rows(),
            )),
            !self.is_available() ==> is_text(r, 500, "Error fetching notes: "@ + outage_message()),
    {
        list_reply(self.list())
    }

    /// `POST /notes/` served by this table, given the request's fields.
    pub fn post(&mut self, title: Option<String>, content: Option<String>) -> (r: Reply)
        requires
            old(self).wf(),
        ensures
            final(self).wf(),
            final(self).is_available() == old(self).is_available(),
            r.status != 201 ==> final(self).rows() == old(self).rows() && final(self).last_id()
                == old(self).last_id(),
            r.status == 201 ==> title is Some && content is Some && final(self).last_id() == old(
                self,
            ).last_id() + 1 && final(self).rows() == old(self).rows().push(
                Note {
                    id: (old(self).last_id() + 1) as i32,
                    title: title.unwrap(),
                    content: content.unwrap(),
                },
            ),
            title is None ==> is_text(r, 400, "missing field `title`"@),
            title is Some && content is None ==> is_text(r, 400, "missing field `content`"@),
            title is Some && content is Some && !old(self).is_available() ==> is_text(
                r,
                500,
                "Error creating note: "@ + outage_message(),
            ),
            title is Some && content is Some && old(self).is_available() && old(self).last_id()
                == i32::MAX ==> is_text(r, 500, "Error creating note: "@ + exhausted_message()),
            title is Some && content is Some && old(self).is_available() && old(self).last_id()
                < i32::MAX ==> is_text(r, 201, "Note created"@),
    {
        match new_note_from_fields(title, content) {
            Err(e) => e,
            Ok(note) => {
                let r = self.insert(note);
                let created = match r {
                    Ok(_) => Ok(1u64),
                    Err(e) => Err(e),
                };
                create_reply(created)
            },
        }
    }
}

/// A note just created is listed first, and its identifier is above that of
/// every note stored before it.
pub proof fn law_created_note_listed_first(before: NoteTable, after: NoteTable, created: Note)
    requires
        before.wf(),
        after.wf(),
        after.rows() == before.rows().push(created),
    ensures
        newest_first(after.rows()).len() > 0,
        newest_first(after.rows())[0] == created,
        forall|i: int| 0 <= i < before.rows().len() ==> #[trigger] before.rows()[i].id < created.id,
{
    let s = after.rows();
    assert forall|i: int| 0 <= i < before.rows().len() implies #[trigger] before.rows()[i].id
        < created.id by {
        assert(s[i] == before.rows()[i]);
        assert(s[s.len() - 1] == created);
    }
}

/// A listing holds at most `LIST_LIMIT` notes, in strictly descending order
/// of identifier, and each of them is stored.
pub proof fn law_listing_bounded_and_descending(t: NoteTable)
    requires
        t.wf(),
    ensures
        newest_first(t.rows()).len() <= LIST_LIMIT,
        ids_descending(newest_first(t.rows())),
        forall|i: int|
            0 <= i < newest_first(t.rows()).len() ==> t.rows().contains(
                #[trigger] newest_first(t.rows())[i],
            ),
{
    let s = t.rows();
    let l = newest_first(s);
    assert forall|i: int, j: int| 0 <= i < j < l.len() implies #[trigger] l[i].id > #[trigger] l[j].id by {
        assert(l[i] == s[s.len() - 1 - i]);
        assert(l[j] == s[s.len() - 1 - j]);
    }
    assert forall|i: int| 0 <= i < l.len() implies s.contains(#[trigger] l[i]) by {
        assert(s[s.len() - 1 - i] == l[i]);
    }
}

} // verus!
