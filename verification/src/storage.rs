//! The notes, in memory and on file.
//!
//! The diary is one text: each note is joined to the end of it as typed, with
//! nothing put between two notes. The notes file holds that text and nothing
//! else. A [`NoteStorage`] keeps in memory what was last read from or written
//! to the file. It never touches the file: it says what is to be written, and
//! is told whether the file was read or written.

use crate::error::DiaryError;
use vstd::prelude::*;

verus! {

/// Where the notes file lies.
pub const NOTES_PATH: &'static str = "src/notes.txt";

/// What a [`NoteStorage`] stands for: the text of the notes and the path of
/// the file that holds them.
#[verifier::ext_equal]
pub struct NoteLog {
    pub notes: Seq<char>,
    pub path: Seq<char>,
}

impl NoteLog {
    /// The text that the file must hold for `note` to be inserted: the notes
    /// so far and then the note, which is the whole file and not its end
    /// alone.
    pub open spec fn pending(self, note: Seq<char>) -> Seq<char> {
        self.notes + note
    }

    /// The log once `note` is inserted.
    pub open spec fn inserted(self, note: Seq<char>) -> NoteLog {
        NoteLog { notes: self.pending(note), path: self.path }
    }
}

/// The notes of the diary as the program holds them.
pub struct NoteStorage {
    notes: String,
    path: String,
}

impl View for NoteStorage {
    type V = NoteLog;

    closed spec fn view(&self) -> NoteLog {
        NoteLog { notes: self.notes@, path: self.path@ }
    }
}

impl NoteStorage {
    /// Opens the diary kept in the file at `path_file`. `loaded` is the text
    /// of that file, or `None` if the file could not be read.
    ///
    /// A file that cannot be read is an error: the diary does not start
    /// without its file, and no empty diary is made up in its place.
    pub fn new(path_file: String, loaded: Option<String>) -> (opened: Result<
        NoteStorage,
        DiaryError,
    >)
        ensures
            match loaded {
                Some(text) => opened is Ok && opened->Ok_0@ == (NoteLog {
                    notes: text@,
                    path: path_file@,
                }),
                None => opened == Err::<NoteStorage, DiaryError>(DiaryError::StartupFile),
            },
    {
        match loaded {
            Some(text) => Ok(NoteStorage { notes: text, path: path_file }),
            None => Err(DiaryError::StartupFile),
        }
    }

    /// The text to write to the file in order to insert `note`: all the
    /// notes so far, then `note` as it is.
    pub fn pending(&self, note: &str) -> (contents: String)
        ensures
            contents@ == self@.pending(note@),
    {
        let mut contents = self.notes.clone();
        contents.append(note);
        contents
    }

    /// Inserts `note` at the end of the notes. `written` tells whether the
    /// file was written with [`pending`](Self::pending) of that note.
    ///
    /// The note is taken as it is, an empty one too. If the file was not
    /// written, the notes in memory stay as they were and the failure is
    /// returned.
    pub fn insert(&mut self, note: String, written: bool) -> (done: Result<(), DiaryError>)
        ensures
            written ==> done is Ok && final(self)@ == old(self)@.inserted(note@),
            !written ==> done == Err::<(), DiaryError>(DiaryError::WriteFailure) && final(self)@
                == old(self)@,
    {
        if written {
            self.notes.append(note.as_str());
            Ok(())
        } else {
            Err(DiaryError::WriteFailure)
        }
    }

    /// The notes to show. `loaded` is the text of the file as it was read
    /// just now, or `None` if it could not be read.
    ///
    /// What the file holds is shown, not what is in memory; and if the file
    /// cannot be read that is an error, whatever is in memory.
    pub fn read_notes(&self, loaded: Option<String>) -> (shown: Result<String, DiaryError>)
        ensures
            match loaded {
                Some(text) => shown == Ok::<String, DiaryError>(text),
                None => shown == Err::<String, DiaryError>(DiaryError::ReadFailure),
            },
    {
        match loaded {
            Some(text) => Ok(text),
            None => Err(DiaryError::ReadFailure),
        }
    }

    /// The notes as they are in memory.
    pub fn notes(&self) -> (notes: &str)
        ensures
            notes@ == self@.notes,
    {
        self.notes.as_str()
    }

    /// The path of the notes file.
    pub fn path(&self) -> (path: &str)
        ensures
            path@ == self@.path,
    {
        self.path.as_str()
    }
}

/// A store and the file behind it, as far as the notes go: what the store
/// holds in memory and what the file holds. This is how the statements below
/// speak of the file, which the store itself never sees.
///
/// The program that drives a store goes through these steps: it opens the
/// store on the text that it read from the file; for an insert it writes the
/// file with [`NoteStorage::pending`] and hands the outcome to
/// [`NoteStorage::insert`]; to show the notes it reads the file and hands the
/// text to [`NoteStorage::read_notes`].
#[verifier::ext_equal]
pub struct StoreAndFile {
    pub store: NoteLog,
    pub file: Seq<char>,
}

impl StoreAndFile {
    /// A store just opened at `path`, on a file that holds `file`.
    pub open spec fn opened(path: Seq<char>, file: Seq<char>) -> StoreAndFile {
        StoreAndFile { store: NoteLog { notes: file, path }, file }
    }

    /// Memory and file hold the same text.
    pub open spec fn agree(self) -> bool {
        self.store.notes == self.file
    }

    /// One insert of `note`: the file is written with what is pending for the
    /// note, and the store is told whether that was done. A write that was
    /// not done is taken to have left the file as it was.
    pub open spec fn insert(self, note: Seq<char>, written: bool) -> StoreAndFile {
        if written {
            StoreAndFile { store: self.store.inserted(note), file: self.store.pending(note) }
        } else {
            self
        }
    }

    /// The inserts of `notes`, first to last, with every write done.
    pub open spec fn insert_all(self, notes: Seq<Seq<char>>) -> StoreAndFile
        decreases notes.len(),
    {
        if notes.len() == 0 {
            self
        } else {
            self.insert_all(notes.drop_last()).insert(notes.last(), true)
        }
    }

    /// The notes that are shown when the file is read: the text of the file.
    pub open spec fn read_notes(self) -> Seq<char> {
        self.file
    }
}

/// `part` stands somewhere in `whole`, in one piece.
pub open spec fn occurs_in(part: Seq<char>, whole: Seq<char>) -> bool {
    exists|from: int, to: int|
        0 <= from <= to <= whole.len() && #[trigger] whole.subrange(from, to) == part
}

/// Memory and file agree when the store is opened, and every insert keeps
/// them so, whether its write is done or not: the store holds what was last
/// written to the file, never a text that was not written.
pub proof fn lemma_memory_follows_file(
    path: Seq<char>,
    file: Seq<char>,
    both: StoreAndFile,
    note: Seq<char>,
    written: bool,
)
    ensures
        StoreAndFile::opened(path, file).agree(),
        both.agree() ==> both.insert(note, written).agree(),
        written ==> both.insert(note, written).agree(),
{
}

/// Notes inserted one after the other are read back joined in that order,
/// after what the file held when the store was opened, with nothing between
/// them. On a file that was empty, what is read back is the notes joined.
pub proof fn lemma_inserts_are_joined(path: Seq<char>, file: Seq<char>, notes: Seq<Seq<char>>)
    ensures
        StoreAndFile::opened(path, file).insert_all(notes).read_notes() == file + notes.flatten(),
        StoreAndFile::opened(path, file).insert_all(notes).store == (NoteLog {
            notes: file + notes.flatten(),
            path,
        }),
        file.len() == 0 ==> StoreAndFile::opened(path, file).insert_all(notes).read_notes()
            == notes.flatten(),
    decreases notes.len(),
{
    notes.lemma_flatten_and_flatten_alt_are_equivalent();
    if notes.len() > 0 {
        let before = notes.drop_last();
        lemma_inserts_are_joined(path, file, before);
        before.lemma_flatten_and_flatten_alt_are_equivalent();
        assert(file + before.flatten() + notes.last() == file + notes.flatten());
    }
    if file.len() == 0 {
        assert(file + notes.flatten() == notes.flatten());
    }
}

/// A note whose write was done is read back as the end of the notes. That
/// holds of the file itself, so also of a store that is opened anew on it.
pub proof fn lemma_inserted_note_is_read_back(both: StoreAndFile, note: Seq<char>)
    ensures
        note.is_suffix_of(both.insert(note, true).read_notes()),
        note.is_suffix_of(
            StoreAndFile::opened(both.store.path, both.insert(note, true).file).store.notes,
        ),
        both.insert(note, true).read_notes() == both.store.notes + note,
{
    let text = both.store.notes + note;
    assert(text.skip(text.len() - note.len()) == note);
}

/// An insert whose write was not done leaves no trace: the store holds what
/// it held, and the notes read back are those of before. So a note that did
/// not stand in the file before is not in what is read back.
pub proof fn lemma_failed_insert_leaves_no_trace(both: StoreAndFile, note: Seq<char>)
    ensures
        both.insert(note, false) == both,
        both.insert(note, false).read_notes() == both.read_notes(),
        !occurs_in(note, both.file) ==> !occurs_in(note, both.insert(note, false).read_notes()),
{
}

/// The empty note can be inserted like any other, and its insert changes
/// neither the notes in memory nor, where memory and file agreed, the file.
pub proof fn lemma_empty_note_changes_nothing(both: StoreAndFile)
    ensures
        both.store.inserted(Seq::empty()) == both.store,
        both.insert(Seq::empty(), true).store == both.store,
        both.agree() ==> both.insert(Seq::empty(), true) == both,
{
}

} // verus!
