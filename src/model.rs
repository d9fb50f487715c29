use vstd::prelude::*;

verus! {

/// A stored note: the identifier is assigned by storage on insert.
pub struct Note {
    pub id: i32,
    pub title: String,
    pub content: String,
}

/// The payload of a create request: no identifier is accepted from the client.
pub struct NewNote {
    pub title: String,
    pub content: String,
}

impl Note {
    /// A copy of this note, field for field.
    pub fn duplicate(&self) -> (r: Note)
        ensures
            r == *self,
    {
        Note { id: self.id, title: self.title.clone(), content: self.content.clone() }
    }
}

} // verus!
