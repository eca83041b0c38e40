//! The records that the API stores and the bodies of the requests that create them.
use vstd::prelude::*;

verus! {

/// A book (a notebook grouping notes), as the API lists it.
#[derive(Debug)]
pub struct Books {
    pub id: String,
    pub name: String,
    pub created: i32,
    pub last_modified: i32,
}

/// A note, as the API returns it.
#[derive(Debug)]
pub struct Notes {
    pub id: String,
    pub title: Option<String>,
    pub content: String,
    pub user_id: String,
    pub book_id: Option<String>,
    pub created: i64,
    pub last_modified: i64,
}

/// A user's profile, as the API returns it.
#[derive(Debug)]
pub struct Users {
    pub id: String,
    pub name: String,
    pub last_name: String,
    pub email: String,
    pub photo: Option<String>,
}

/// The body of a request that adds a book.
#[derive(Debug)]
pub struct BookAdd {
    pub id: Option<String>,
    pub name: String,
    pub user_id: String,
    pub created: i64,
    pub last_modified: i64,
}

/// The body of a request that adds or updates a note.
#[derive(Debug)]
pub struct NoteAdd {
    pub id: Option<String>,
    pub title: Option<String>,
    pub content: String,
    pub user_id: String,
    pub book_id: Option<String>,
}

/// The body of a registration request.
#[derive(Debug)]
pub struct UserRegister {
    pub name: String,
    pub last_name: String,
    pub email: String,
    pub password: String,
}

/// The body of a login request.
#[derive(Debug)]
pub struct UserLogin {
    pub email: String,
    pub password: String,
}

} // verus!
