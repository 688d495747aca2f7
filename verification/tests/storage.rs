use diary::error::DiaryError;
use diary::storage::{NoteStorage, NOTES_PATH};

fn opened(path: &str, text: &str) -> NoteStorage {
    match NoteStorage::new(path.to_string(), Some(text.to_string())) {
        Ok(storage) => storage,
        Err(error) => panic!("the store did not open: {:?}", error),
    }
}

/// Inserts `note` as a program does whose file is `file` and never fails.
fn insert_on(storage: &mut NoteStorage, file: &mut String, note: &str) {
    *file = storage.pending(note);
    assert_eq!(storage.insert(note.to_string(), true), Ok(()));
}

/// Reads the notes as a program does whose file is `file`.
fn read_from(storage: &NoteStorage, file: &str) -> String {
    match storage.read_notes(Some(file.to_string())) {
        Ok(text) => text,
        Err(error) => panic!("the notes were not read: {:?}", error),
    }
}

#[test]
fn the_notes_file_lies_where_it_always_did() {
    assert_eq!(NOTES_PATH, "src/notes.txt");
}

#[test]
fn a_store_opens_on_the_text_of_its_file() {
    let storage = opened("src/notes.txt", "Morning run.\n");
    assert_eq!(storage.notes(), "Morning run.\n");
    assert_eq!(storage.path(), "src/notes.txt");
}

#[test]
fn a_store_opens_on_an_empty_file() {
    let storage = opened("diary.txt", "");
    assert_eq!(storage.notes(), "");
    assert_eq!(storage.path(), "diary.txt");
}

#[test]
fn a_store_does_not_open_without_its_file() {
    let storage = NoteStorage::new("src/notes.txt".to_string(), None);
    assert!(matches!(storage, Err(DiaryError::StartupFile)));
}

#[test]
fn what_is_pending_is_the_whole_text() {
    let storage = opened("src/notes.txt", "Morning run.\n");
    assert_eq!(storage.pending("Lunch with A.\n"), "Morning run.\nLunch with A.\n");
    assert_eq!(storage.notes(), "Morning run.\n");
}

#[test]
fn nothing_is_put_between_two_notes() {
    let storage = opened("src/notes.txt", "first");
    assert_eq!(storage.pending("second"), "firstsecond");
}

#[test]
fn a_written_note_is_in_memory() {
    let mut storage = opened("src/notes.txt", "Morning run.\n");
    assert_eq!(storage.insert("Lunch with A.\n".to_string(), true), Ok(()));
    assert_eq!(storage.notes(), "Morning run.\nLunch with A.\n");
    assert_eq!(storage.path(), "src/notes.txt");
}

#[test]
fn a_note_that_was_not_written_is_not_in_memory() {
    let mut storage = opened("src/notes.txt", "Morning run.\n");
    assert_eq!(
        storage.insert("Lunch with A.\n".to_string(), false),
        Err(DiaryError::WriteFailure)
    );
    assert_eq!(storage.notes(), "Morning run.\n");
    assert_eq!(storage.path(), "src/notes.txt");
    assert_eq!(storage.pending("Dinner.\n"), "Morning run.\nDinner.\n");
}

#[test]
fn a_failed_write_leaves_no_trace_in_what_is_read() {
    let mut file = String::from("Morning run.\n");
    let mut storage = opened("src/notes.txt", &file);
    let before = read_from(&storage, &file);
    assert_eq!(
        storage.insert("Lunch with A.\n".to_string(), false),
        Err(DiaryError::WriteFailure)
    );
    let after = read_from(&storage, &file);
    assert_eq!(after, before);
    assert!(!after.contains("Lunch with A.\n"));
    insert_on(&mut storage, &mut file, "Dinner.\n");
    assert_eq!(read_from(&storage, &file), "Morning run.\nDinner.\n");
}

#[test]
fn the_empty_note_is_inserted_and_changes_nothing() {
    let mut file = String::from("Morning run.\n");
    let mut storage = opened("src/notes.txt", &file);
    assert_eq!(storage.pending(""), "Morning run.\n");
    insert_on(&mut storage, &mut file, "");
    assert_eq!(storage.notes(), "Morning run.\n");
    assert_eq!(file, "Morning run.\n");
    assert_eq!(read_from(&storage, &file), "Morning run.\n");
}

#[test]
fn the_empty_note_is_inserted_into_an_empty_diary() {
    let mut file = String::new();
    let mut storage = opened("src/notes.txt", &file);
    insert_on(&mut storage, &mut file, "");
    assert_eq!(storage.notes(), "");
    assert_eq!(file, "");
}

#[test]
fn notes_are_read_back_joined_in_their_order() {
    let notes = ["one\n", "", "two", " three \n", "\n", "quatro: ação\n", "1", "2\n"];
    let mut file = String::new();
    let mut storage = opened("src/notes.txt", &file);
    let mut joined = String::new();
    for note in notes {
        insert_on(&mut storage, &mut file, note);
        joined.push_str(note);
        assert_eq!(read_from(&storage, &file), joined);
        assert_eq!(storage.notes(), joined);
        assert!(read_from(&storage, &file).ends_with(note));
    }
    assert_eq!(
        read_from(&storage, &file),
        "one\ntwo three \n\nquatro: ação\n12\n"
    );
}

#[test]
fn notes_are_joined_to_what_the_file_held() {
    let mut file = String::from("Morning run.\n");
    let mut storage = opened("src/notes.txt", &file);
    insert_on(&mut storage, &mut file, "Lunch with A.\n");
    insert_on(&mut storage, &mut file, "Dinner.\n");
    assert_eq!(
        read_from(&storage, &file),
        "Morning run.\nLunch with A.\nDinner.\n"
    );
}

#[test]
fn a_written_note_is_read_by_a_store_opened_anew() {
    let mut file = String::from("Morning run.\n");
    let mut storage = opened("src/notes.txt", &file);
    insert_on(&mut storage, &mut file, "Lunch with A.\n");
    let anew = opened("src/notes.txt", &file);
    assert_eq!(anew.notes(), "Morning run.\nLunch with A.\n");
    assert!(read_from(&anew, &file).ends_with("Lunch with A.\n"));
}

#[test]
fn a_note_is_kept_as_typed() {
    let mut file = String::new();
    let mut storage = opened("src/notes.txt", &file);
    insert_on(&mut storage, &mut file, "  \t spaced out \r\n");
    assert_eq!(file, "  \t spaced out \r\n");
    assert_eq!(storage.notes(), "  \t spaced out \r\n");
}

#[test]
fn what_is_read_is_the_file_and_not_memory() {
    let storage = opened("src/notes.txt", "Morning run.\n");
    assert_eq!(
        storage.read_notes(Some("changed by another hand\n".to_string())),
        Ok("changed by another hand\n".to_string())
    );
    assert_eq!(storage.notes(), "Morning run.\n");
}

#[test]
fn a_file_that_cannot_be_read_is_an_error_whatever_is_in_memory() {
    let storage = opened("src/notes.txt", "Morning run.\n");
    assert_eq!(storage.read_notes(None), Err(DiaryError::ReadFailure));
    assert_eq!(storage.notes(), "Morning run.\n");
}

#[test]
fn reading_twice_gives_the_same() {
    let file = String::from("Morning run.\nLunch with A.\n");
    let storage = opened("src/notes.txt", &file);
    let first = read_from(&storage, &file);
    let second = read_from(&storage, &file);
    assert_eq!(first, second);
    assert_eq!(first, "Morning run.\nLunch with A.\n");
}

#[test]
fn an_insert_writes_over_what_another_hand_put_in_the_file() {
    let mut file = String::from("Morning run.\n");
    let mut storage = opened("src/notes.txt", &file);
    file = String::from("changed by another hand\n");
    insert_on(&mut storage, &mut file, "Lunch with A.\n");
    assert_eq!(file, "Morning run.\nLunch with A.\n");
}
