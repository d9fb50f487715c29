use vstd::prelude::*;
use crate::model::{NewNote, Note};
use crate::reply::{create_reply, is_text, is_text_after, lemma_text_after, list_reply, Body, Reply};

verus! {

#[verifier::external_type_specification]
#[verifier::external_body]
pub struct ExRow(tokio_postgres::Row);

#[verifier::external_type_specification]
#[verifier::external_body]
pub struct ExError(tokio_postgres::Error);

/// The query behind `GET /notes/`: the 100 newest notes, newest first.
pub const LIST_NOTES_SQL: &'static str = "SELECT * FROM note ORDER BY id DESC LIMIT 100";

/// The statement behind `POST /notes/`: storage assigns the identifier.
pub const INSERT_NOTE_SQL: &'static str = "INSERT INTO note (title, content) VALUES ($1, $2)";

/// Relies on tokio_postgres::Row::try_get, for an INT4 column: it fails
/// rather than panics when the column is absent, of another type, or NULL.
#[verifier::external_body]
fn column_int(row: &tokio_postgres::Row, name: &str) -> (r: Result<i32, tokio_postgres::Error>) {
    row.try_get(name)
}

/// Relies on tokio_postgres::Row::try_get, for a TEXT column: it fails
/// rather than panics when the column is absent, of another type, or NULL.
#[verifier::external_body]
fn column_text(row: &tokio_postgres::Row, name: &str) -> (r: Result<String, tokio_postgres::Error>) {
    row.try_get(name)
}

/// Relies on the Display impl of tokio_postgres::Error: every kind of error
/// writes a non-empty description.
#[verifier::external_body]
fn error_text(e: &tokio_postgres::Error) -> (r: String)
    ensures
        r@.len() > 0,
{
    e.to_string()
}

/// Reads the columns `id`, `title` and `content` of one row into a note.
pub fn note_from_row(row: &tokio_postgres::Row) -> (r: Result<Note, tokio_postgres::Error>) {
    let id = match column_int(row, "id") {
        Ok(v) => v,
        Err(e) => return Err(e),
    };
    let title = match column_text(row, "title") {
        Ok(v) => v,
        Err(e) => return Err(e),
    };
    let content = match column_text(row, "content") {
        Ok(v) => v,
        Err(e) => return Err(e),
    };
    Ok(Note { id, title, content })
}

/// Reads every row into a note, in the order of the rows; the first row that
/// cannot be read gives the error.
pub fn notes_from_rows(rows: &Vec<tokio_postgres::Row>) -> (r: Result<Vec<Note>, tokio_postgres::Error>)
    ensures
        r matches Ok(v) ==> v@.len() == rows@.len(),
        rows@.len() == 0 ==> (r matches Ok(v) && v@.len() == 0),
{
    let mut out: Vec<Note> = Vec::new();
    let mut i: usize = 0;
    while i < rows.len()
        invariant
            i <= rows@.len(),
            out@.len() == i,
        decreases rows@.len() - i,
    {
        match note_from_row(&rows[i]) {
            Ok(n) => out.push(n),
            Err(e) => return Err(e),
        }
        i = i + 1;
    }
    Ok(out)
}

/// The reply of `GET /notes/` to the outcome of `LIST_NOTES_SQL`: 200 with one
/// note per row, or 500 with a description of what failed.
pub fn list_outcome(result: Result<Vec<tokio_postgres::Row>, tokio_postgres::Error>) -> (r: Reply)
    ensures
        r.status == 200 || r.status == 500,
        r.status == 200 <==> (r.body matches Body::Notes(v) && result matches Ok(rows)
            && v@.len() == rows@.len()),
        r.status == 500 ==> is_text_after(r, 500, "Error fetching notes: "@),
        result is Err ==> r.status == 500,
        (result matches Ok(rows) && rows@.len() == 0) ==> r.status == 200,
        (result matches Ok(rows) && rows@.len() == 0) ==> (r.body matches Body::Notes(v) && v@.len()
            == 0),
{
    let decoded = match result {
        Ok(rows) => notes_from_rows(&rows),
        Err(e) => Err(e),
    };
    match decoded {
        Ok(v) => list_reply(Ok(v)),
        Err(e) => {
            let t = error_text(&e);
            let ghost tv = t@;
            let r = list_reply(Err(t));
            proof {
                lemma_text_after(r, 500, "Error fetching notes: "@, tv);
            }
            r
        },
    }
}

/// The reply of `POST /notes/` to the outcome of `INSERT_NOTE_SQL`: 201 with a
/// confirmation, or 500 with a description of what failed.
pub fn create_outcome(result: Result<u64, tokio_postgres::Error>) -> (r: Reply)
    ensures
        result is Ok ==> is_text(r, 201, "Note created"@),
        result is Err ==> is_text_after(r, 500, "Error creating note: "@),
{
    match result {
        Ok(n) => create_reply(Ok(n)),
        Err(e) => {
            let t = error_text(&e);
            let ghost tv = t@;
            let r = create_reply(Err(t));
            proof {
                lemma_text_after(r, 500, "Error creating note: "@, tv);
            }
            r
        },
    }
}

/// The parameters of `INSERT_NOTE_SQL` for a new note, in order.
pub fn insert_params(note: &NewNote) -> (r: (&String, &String))
    ensures
        r.0 == note.title,
        r.1 == note.content,
{
    (&note.title, &note.content)
}

} // verus!
