use notes_api::models::{BookAdd, NoteAdd, Notes, UserRegister};
use notes_api::repository::{
    book_insert_row, find_user_photo, is_user_photo, note_insert_row, note_row_at, note_save_row, note_update_row,
    photo_path, user_insert_row, PhotoEntry,
};
use notes_api::text::{contains_text, last_segment_of, remove_char};

fn row_id_is_uuid_v4(s: &str) -> bool {
    let c: Vec<char> = s.chars().collect();
    c.len() == 36
        && c.iter().enumerate().all(|(i, ch)| {
            if [8, 13, 18, 23].contains(&i) {
                *ch == '-'
            } else {
                ch.is_ascii_digit() || ('a'..='f').contains(ch)
            }
        })
        && c[14] == '4'
        && "89ab".contains(c[19])
}


fn note(id: Option<&str>, book: Option<&str>) -> NoteAdd {
    NoteAdd {
        id: id.map(|s| s.to_string()),
        title: Some("t".to_string()),
        content: "c".to_string(),
        user_id: "u".to_string(),
        book_id: book.map(|s| s.to_string()),
    }
}

fn stored() -> Notes {
    Notes {
        id: "n1".to_string(),
        title: None,
        content: "old".to_string(),
        user_id: "u".to_string(),
        book_id: None,
        created: 42,
        last_modified: 43,
    }
}

#[test]
fn insert_row_keeps_the_given_id() {
    let row = note_insert_row(&note(Some("n1"), Some("b1")));
    assert_eq!(row.id, "n1");
    assert_eq!(row.title.as_deref(), Some("t"));
    assert_eq!(row.content, "c");
    assert_eq!(row.book_id.as_deref(), Some("b1"));
    assert_eq!(row.created, None);
}

#[test]
fn insert_row_draws_an_id() {
    let row = note_insert_row(&note(None, None));
    assert!(row_id_is_uuid_v4(&row.id));
    assert!(row.book_id.is_none());
}

#[test]
fn update_row_keeps_the_creation_time() {
    let row = note_update_row(&stored(), &note(Some("n1"), None));
    assert_eq!(row.created, Some(42));
    assert_eq!(row.content, "c");
    assert!(row.last_modified > 43);
}

#[test]
fn row_at_uses_the_given_time() {
    let row = note_row_at(&note(None, Some("b")), "id".to_string(), Some(1), 99);
    assert_eq!(row.id, "id");
    assert_eq!(row.created, Some(1));
    assert_eq!(row.last_modified, 99);
}

#[test]
fn save_row_chooses_update_or_insert() {
    let current = stored();
    let (row, is_update) = note_save_row(&note(Some("n1"), None), Some(&current));
    assert!(is_update);
    assert_eq!(row.created, Some(42));
    let (row, is_update) = note_save_row(&note(Some("n9"), None), None);
    assert!(!is_update);
    assert_eq!(row.created, None);
    assert_eq!(row.id, "n9");
}

#[test]
fn book_row() {
    let book = BookAdd { id: None, name: "b".to_string(), user_id: "u".to_string(), created: 1, last_modified: 2 };
    let row = book_insert_row(&book);
    assert!(row_id_is_uuid_v4(&row.id));
    assert_eq!((row.created, row.last_modified), (1, 2));
    let book = BookAdd { id: Some("given".to_string()), ..book };
    assert_eq!(book_insert_row(&book).id, "given");
}

#[test]
fn user_row() {
    let row = user_insert_row(UserRegister {
        name: "n".to_string(),
        last_name: "l".to_string(),
        email: "e".to_string(),
        password: "p".to_string(),
    });
    assert!(row_id_is_uuid_v4(&row.id));
    assert_eq!(row.email, "e");
    assert_eq!(row.password, "p");
}

#[test]
fn photo_path_uses_the_last_extension() {
    assert_eq!(photo_path("u1", "pic.final.png"), "./photos/u1.png");
    assert_eq!(photo_path("u1", "noext"), "./photos/u1.noext");
    assert_eq!(photo_path("u1", "trailing."), "./photos/u1.");
}

#[test]
fn finds_the_first_matching_file() {
    let entries = vec![
        PhotoEntry { path: "./photos/u1".to_string(), is_file: false },
        PhotoEntry { path: "./photos/u2.png".to_string(), is_file: true },
        PhotoEntry { path: "./photos/u1.jpg".to_string(), is_file: true },
        PhotoEntry { path: "./photos/u1.png".to_string(), is_file: true },
    ];
    assert_eq!(find_user_photo(&entries, "u1"), Some(2));
    assert_eq!(find_user_photo(&entries, "u3"), None);
    assert!(!is_user_photo(&entries[0], "u1"));
    assert!(!is_user_photo(&entries[1], "u1"));
    assert!(is_user_photo(&entries[2], "u1"));
    assert!(is_user_photo(&entries[1], "u2"));
}

#[test]
fn text_helpers() {
    assert!(contains_text("abcdef", "cde"));
    assert!(contains_text("abc", ""));
    assert!(!contains_text("abc", "abcd"));
    assert!(!contains_text("abc", "ac"));
    assert_eq!(remove_char("\"a\"b\"", '"'), "ab");
    assert_eq!(last_segment_of("a b c", ' '), "c");
    assert_eq!(last_segment_of("abc", ' '), "abc");
}
