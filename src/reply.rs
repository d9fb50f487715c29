use vstd::prelude::*;
use crate::model::{NewNote, Note};

verus! {

/// The body of a reply: plain text, or a list of notes sent as JSON.
pub enum Body {
    Text(String),
    Notes(Vec<Note>),
}

/// What a route answers: an HTTP status and a body.
pub struct Reply {
    pub status: u16,
    pub body: Body,
}

/// `r` is a text reply with this status and exactly this text.
pub open spec fn is_text(r: Reply, status: u16, text: Seq<char>) -> bool {
    &&& r.status == status
    &&& r.body matches Body::Text(s)
    &&& s@ == text
}

/// `r` is a text reply with this status whose text is `prefix` followed by
/// at least one more character.
pub open spec fn is_text_after(r: Reply, status: u16, prefix: Seq<char>) -> bool {
    &&& r.status == status
    &&& r.body matches Body::Text(s)
    &&& s@.len() > prefix.len()
    &&& s@.subrange(0, prefix.len() as int) == prefix
}

/// A text reply whose text is `prefix` followed by a non-empty `rest` is a
/// text reply after `prefix`.
pub proof fn lemma_text_after(r: Reply, status: u16, prefix: Seq<char>, rest: Seq<char>)
    requires
        is_text(r, status, prefix + rest),
        rest.len() > 0,
    ensures
        is_text_after(r, status, prefix),
{
    assert((prefix + rest).subrange(0, prefix.len() as int) =~= prefix);
}

/// A reply with this status and this text.
pub fn text(status: u16, s: &str) -> (r: Reply)
    ensures
        is_text(r, status, s@),
{
    Reply { status, body: Body::Text(String::from_str(s)) }
}

/// `GET /`: a liveness probe.
pub fn index() -> (r: Reply)
    ensures
        is_text(r, 200, "Server is ready"@),
{
    text(200, "Server is ready")
}

/// `GET /no_db_endpoint/`: a liveness probe that touches no database.
pub fn no_db_endpoint() -> (r: Reply)
    ensures
        is_text(r, 200, "No db endpoint"@),
{
    text(200, "No db endpoint")
}

/// `GET /no_db_endpoint2/`: a second liveness probe that touches no database.
pub fn no_db_endpoint2() -> (r: Reply)
    ensures
        is_text(r, 200, "No db endpoint2"@),
{
    text(200, "No db endpoint2")
}

/// `prefix` followed by `detail`.
pub fn prefixed(prefix: &str, detail: &str) -> (r: String)
    ensures
        r@ == prefix@ + detail@,
{
    String::from_str(prefix).concat(detail)
}

/// The reply of `GET /notes/` once the query has been answered: the notes
/// with 200, or 500 with the error's text after a fixed prefix.
pub fn list_reply(result: Result<Vec<Note>, String>) -> (r: Reply)
    ensures
        result matches Ok(v) ==> r.status == 200 && r.body == Body::Notes(v),
        result matches Err(e) ==> is_text(r, 500, "Error fetching notes: "@ + e@),
{
    match result {
        Ok(v) => Reply { status: 200, body: Body::Notes(v) },
        Err(e) => Reply { status: 500, body: Body::Text(prefixed("Error fetching notes: ", e.as_str())) },
    }
}

/// The reply of `POST /notes/` once the insert has been answered: 201 with a
/// confirmation, or 500 with the error's text after a fixed prefix.
pub fn create_reply(result: Result<u64, String>) -> (r: Reply)
    ensures
        result is Ok ==> is_text(r, 201, "Note created"@),
        result matches Err(e) ==> is_text(r, 500, "Error creating note: "@ + e@),
{
    match result {
        Ok(_) => text(201, "Note created"),
        Err(e) => Reply { status: 500, body: Body::Text(prefixed("Error creating note: ", e.as_str())) },
    }
}

} // verus!

verus! {

/// Checks the fields of a create request: both `title` and `content` are
/// required; the first one absent is named in a 400 reply.
pub fn new_note_from_fields(title: Option<String>, content: Option<String>) -> (r: Result<NewNote, Reply>)
    ensures
        r is Ok <==> (title is Some && content is Some),
        r matches Ok(n) ==> Some(n.title) == title && Some(n.content) == content,
        title is None ==> (r matches Err(e) && is_text(e, 400, "missing field `title`"@)),
        title is Some && content is None ==> (r matches Err(e) && is_text(
            e,
            400,
            "missing field `content`"@,
        )),
{
    match (title, content) {
        (None, _) => Err(text(400, "missing field `title`")),
        (Some(_), None) => Err(text(400, "missing field `content`")),
        (Some(title), Some(content)) => Ok(NewNote { title, content }),
    }
}

} // verus!
