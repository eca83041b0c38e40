//! What the repositories write to the database, and where users' photos go.
//!
//! In a `NoteActive`, a `book_id` or `created` that is `None` is left unset in
//! the row that is written (the database keeps or defaults it); a `title`
//! that is `None` is written as NULL.
use vstd::prelude::*;

use crate::clock::{now_timestamp_millis, MAX_TIMESTAMP};
use crate::crypto_manager::{is_uuid_v4, new_uuid};
use crate::models::{BookAdd, NoteAdd, Notes, UserRegister};
use crate::text::{contains_str, contains_text, last_segment, last_segment_of};

verus! {

/// The row written for a note.
#[derive(Debug)]
pub struct NoteActive {
    pub id: String,
    pub title: Option<String>,
    pub content: String,
    pub user_id: String,
    pub book_id: Option<String>,
    pub created: Option<i64>,
    pub last_modified: i64,
}

/// The row written for a book.
#[derive(Debug)]
pub struct BookActive {
    pub id: String,
    pub name: String,
    pub user_id: String,
    pub created: i64,
    pub last_modified: i64,
}

/// The row written for a new user; the photo is left unset.
#[derive(Debug)]
pub struct UserActive {
    pub id: String,
    pub name: String,
    pub last_name: String,
    pub email: String,
    pub password: String,
}

/// A file found in the photo directory: its path, and whether it is a regular file.
#[derive(Debug)]
pub struct PhotoEntry {
    pub path: String,
    pub is_file: bool,
}

/// The view of an optional string.
pub open spec fn opt_view(s: Option<String>) -> Option<Seq<char>> {
    match s {
        Some(s) => Some(s@),
        None => None,
    }
}

/// A copy of an optional string.
fn copy_opt(s: &Option<String>) -> (res: Option<String>)
    ensures
        opt_view(res) == opt_view(*s),
{
    match s {
        Some(v) => Some(v.clone()),
        None => None,
    }
}

/// The row of a note taken from `note`, with the id `id`, the creation time
/// `created` (`None`: left unset) and the modification time `now_ms`.
pub open spec fn note_row(
    note: NoteAdd,
    id: Seq<char>,
    created: Option<i64>,
    now_ms: i64,
    row: NoteActive,
) -> bool {
    &&& row.id@ == id
    &&& opt_view(row.title) == opt_view(note.title)
    &&& row.content@ == note.content@
    &&& row.user_id@ == note.user_id@
    &&& opt_view(row.book_id) == opt_view(note.book_id)
    &&& row.created == created
    &&& row.last_modified == now_ms
}

/// The row of a note from `note` with the id `id`, the creation time
/// `created` and the modification time `now_ms`.
pub fn note_row_at(note: &NoteAdd, id: String, created: Option<i64>, now_ms: i64) -> (res: NoteActive)
    ensures
        note_row(*note, id@, created, now_ms, res),
{
    NoteActive {
        id,
        title: copy_opt(&note.title),
        content: note.content.clone(),
        user_id: note.user_id.clone(),
        book_id: copy_opt(&note.book_id),
        created,
        last_modified: now_ms,
    }
}

/// The id a note is written under: its own, or a fresh one.
fn note_id_or_fresh(note: &NoteAdd) -> (res: String)
    ensures
        match note.id {
            Some(id) => res@ == id@,
            None => is_uuid_v4(res@),
        },
{
    match &note.id {
        Some(id) => id.clone(),
        None => new_uuid(),
    }
}

/// The row inserted for a new note: its id (a fresh one when it has none),
/// no creation time (the database sets it) and the current time in
/// milliseconds as modification time.
pub fn note_insert_row(note: &NoteAdd) -> (res: NoteActive)
    ensures
        exists|now_ms: i64|
            0 <= now_ms <= MAX_TIMESTAMP * 1000 + 999 && note_row(
                *note,
                res.id@,
                None,
                now_ms,
                res,
            ),
        match note.id {
            Some(id) => res.id@ == id@,
            None => is_uuid_v4(res.id@),
        },
{
    let id = note_id_or_fresh(note);
    let now_ms = now_timestamp_millis();
    note_row_at(note, id, None, now_ms)
}

/// The row written over the stored note `current`: the fields of `note`,
/// the creation time of `current` and the current time in milliseconds.
pub fn note_update_row(current: &Notes, note: &NoteAdd) -> (res: NoteActive)
    ensures
        exists|now_ms: i64|
            0 <= now_ms <= MAX_TIMESTAMP * 1000 + 999 && note_row(
                *note,
                res.id@,
                Some(current.created),
                now_ms,
                res,
            ),
        match note.id {
            Some(id) => res.id@ == id@,
            None => is_uuid_v4(res.id@),
        },
{
    let id = note_id_or_fresh(note);
    let now_ms = now_timestamp_millis();
    note_row_at(note, id, Some(current.created), now_ms)
}

/// The creation time kept from a stored note, if there is one.
pub open spec fn created_of(existing: Option<&Notes>) -> Option<i64> {
    match existing {
        Some(cur) => Some(cur.created),
        None => None,
    }
}

/// The row that saving `note` writes: an update of `existing` when the note
/// was found under its id, an insert otherwise. The flag says which.
pub fn note_save_row(note: &NoteAdd, existing: Option<&Notes>) -> (res: (NoteActive, bool))
    ensures
        res.1 == (existing is Some),
        match note.id {
            Some(id) => res.0.id@ == id@,
            None => is_uuid_v4(res.0.id@),
        },
        exists|now_ms: i64|
            0 <= now_ms <= MAX_TIMESTAMP * 1000 + 999 && #[trigger] note_row(
                *note,
                res.0.id@,
                created_of(existing),
                now_ms,
                res.0,
            ),
{
    match existing {
        Some(current) => (note_update_row(current, note), true),
        None => (note_insert_row(note), false),
    }
}

/// The row inserted for a new book: its id, or a fresh one when it has none.
pub fn book_insert_row(book: &BookAdd) -> (res: BookActive)
    ensures
        match book.id {
            Some(id) => res.id@ == id@,
            None => is_uuid_v4(res.id@),
        },
        res.name@ == book.name@,
        res.user_id@ == book.user_id@,
        res.created == book.created,
        res.last_modified == book.last_modified,
{
    let fresh = new_uuid();
    let id = match &book.id {
        Some(id) => id.clone(),
        None => fresh,
    };
    BookActive {
        id,
        name: book.name.clone(),
        user_id: book.user_id.clone(),
        created: book.created,
        last_modified: book.last_modified,
    }
}

/// The row inserted for a new user, under a fresh id.
pub fn user_insert_row(user: UserRegister) -> (res: UserActive)
    ensures
        is_uuid_v4(res.id@),
        res.name@ == user.name@,
        res.last_name@ == user.last_name@,
        res.email@ == user.email@,
        res.password@ == user.password@,
{
    UserActive {
        id: new_uuid(),
        name: user.name,
        last_name: user.last_name,
        email: user.email,
        password: user.password,
    }
}

/// Where a user's uploaded photo is stored: `./photos/<user id>.<extension>`,
/// the extension being what follows the last dot of the uploaded file's name.
pub fn photo_path(user_id: &str, file_name: &str) -> (res: String)
    ensures
        res@ == "./photos/"@ + user_id@ + "."@ + last_segment(file_name@, '.'),
{
    let ext = last_segment_of(file_name, '.');
    let mut path = "./photos/".to_owned();
    path.append(user_id);
    path.append(".");
    path.append(ext.as_str());
    path
}

/// The photo of user `user_id`: a regular file whose path contains the id.
pub open spec fn is_photo_of(entry: PhotoEntry, user_id: Seq<char>) -> bool {
    entry.is_file && contains_str(entry.path@, user_id)
}

/// Whether `entry` is the photo of user `user_id`.
pub fn is_user_photo(entry: &PhotoEntry, user_id: &str) -> (res: bool)
    ensures
        res == is_photo_of(*entry, user_id@),
{
    entry.is_file && contains_text(entry.path.as_str(), user_id)
}

/// The first regular file among `entries` whose path contains the user's id.
pub fn find_user_photo(entries: &Vec<PhotoEntry>, user_id: &str) -> (res: Option<usize>)
    ensures
        match res {
            Some(i) => {
                &&& i < entries@.len()
                &&& is_photo_of(entries@[i as int], user_id@)
                &&& forall|j: int| 0 <= j < i ==> !is_photo_of(#[trigger] entries@[j], user_id@)
            },
            None => forall|j: int|
                0 <= j < entries@.len() ==> !is_photo_of(#[trigger] entries@[j], user_id@),
        },
{
    let mut i: usize = 0;
    while i < entries.len()
        invariant
            i <= entries@.len(),
            forall|j: int| 0 <= j < i ==> !is_photo_of(#[trigger] entries@[j], user_id@),
        decreases entries@.len() - i,
    {
        if is_user_photo(&entries[i], user_id) {
            return Some(i);
        }
        i = i + 1;
    }
    None
}

} // verus!
