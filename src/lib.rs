//! A small note service: the note model, the database configuration, the
//! replies of each route, the decoding of database rows and an in-memory
//! note table with the same semantics as the service's two SQL statements.

mod config;
mod db;
mod model;
mod reply;
mod table;

pub use config::{connection_string_of, env_name_of, ConfigVar, DbConfig};
pub use db::{
    create_outcome, insert_params, list_outcome, note_from_row, notes_from_rows, INSERT_NOTE_SQL,
    LIST_NOTES_SQL,
};
pub use model::{NewNote, Note};
pub use reply::{
    create_reply, index, is_text, is_text_after, lemma_text_after, list_reply, new_note_from_fields, no_db_endpoint,
    no_db_endpoint2, prefixed, text, Body, Reply,
};
pub use table::{
    exhausted_message, ids_descending, ids_increasing, law_created_note_listed_first,
    law_listing_bounded_and_descending, listed_count, newest_first, outage_message, NoteTable,
    LIST_LIMIT,
};
