//! The cycle of menu, choice and action.
//!
//! A [`Session`] is the diary at work. It never reads, prints or touches the
//! file itself. At every moment it has one [`Request`] to the program that
//! drives it: read a line, write the file, read the file, or stop. The program
//! prints the text that the session has gathered, does what is requested and
//! reports how it went as an [`Event`]; [`Session::step`] then decides what
//! comes next.
//!
//! One round goes like this. The menu is shown and a line is read. `1` asks
//! for a note, reads one more line, taken as it is, and writes the file with
//! that note at its end. `2` reads the file and shows all of it. `3` ends the
//! session. Any other line is answered with a notice. Then the menu is shown
//! again. A file that cannot be read or written, and an input that ends, end
//! the session with an error.

use crate::command::{chosen, lemma_single_mark, UserOptions};
use crate::error::DiaryError;
use crate::storage::{NoteLog, NoteStorage, StoreAndFile};
use crate::terminal::{
    Terminal, BANNER, CLEAR_SCREEN, INVALID_OPTION, NOTES_HEADER, NOTE_PROMPT, OPTIONS,
    OPTIONS_HEADER,
};
use vstd::prelude::*;

verus! {

/// Where a session stands in its cycle.
#[derive(Clone, Copy, Debug, PartialEq, Eq, Structural)]
pub enum Stage {
    /// The menu is shown; the next line is a choice.
    AwaitingOption,
    /// A note was asked for; the next line is the note.
    AwaitingNote,
    /// The file is being written with a new note at its end.
    Saving,
    /// The file is being read so that the notes can be shown.
    Loading,
    /// The user left.
    Finished,
    /// The session ended with an error.
    Failed(DiaryError),
}

/// What the program reports to the session.
#[derive(Debug, PartialEq, Eq)]
pub enum Event {
    /// A line was read. It is handed over as it came, its end included.
    Line(String),
    /// The input ended before a line could be read.
    InputClosed,
    /// The file was written.
    Saved,
    /// The file could not be written.
    SaveFailed,
    /// The file was read and holds this text.
    Loaded(String),
    /// The file could not be read.
    LoadFailed,
}

/// What the session asks of the program.
#[derive(Debug, PartialEq, Eq)]
pub enum Request {
    /// Read one line from the input.
    ReadLine,
    /// Write `contents` to the file at `path`, in place of all it held.
    Save { path: String, contents: String },
    /// Read all of the file at `path`.
    Load { path: String },
    /// Stop: the user left.
    Exit,
    /// Stop with this error.
    Fail(DiaryError),
}

/// What an [`Event`] stands for.
#[verifier::ext_equal]
pub enum EventView {
    Line(Seq<char>),
    InputClosed,
    Saved,
    SaveFailed,
    Loaded(Seq<char>),
    LoadFailed,
}

/// What a [`Request`] stands for.
#[verifier::ext_equal]
pub enum RequestView {
    ReadLine,
    Save { path: Seq<char>, contents: Seq<char> },
    Load { path: Seq<char> },
    Exit,
    Fail(DiaryError),
}

impl View for Event {
    type V = EventView;

    open spec fn view(&self) -> EventView {
        match *self {
            Event::Line(line) => EventView::Line(line@),
            Event::InputClosed => EventView::InputClosed,
            Event::Saved => EventView::Saved,
            Event::SaveFailed => EventView::SaveFailed,
            Event::Loaded(text) => EventView::Loaded(text@),
            Event::LoadFailed => EventView::LoadFailed,
        }
    }
}

impl View for Request {
    type V = RequestView;

    open spec fn view(&self) -> RequestView {
        match *self {
            Request::ReadLine => RequestView::ReadLine,
            Request::Save { path, contents } => RequestView::Save {
                path: path@,
                contents: contents@,
            },
            Request::Load { path } => RequestView::Load { path: path@ },
            Request::Exit => RequestView::Exit,
            Request::Fail(error) => RequestView::Fail(error),
        }
    }
}

/// The text of one menu: the banner, then the choices.
pub open spec fn menu() -> Seq<char> {
    BANNER@ + OPTIONS_HEADER@ + OPTIONS@
}

/// What a [`Session`] stands for.
#[verifier::ext_equal]
pub struct SessionView {
    /// Where the session stands in its cycle.
    pub stage: Stage,
    /// The notes.
    pub storage: NoteLog,
    /// The note that is being written, while the stage is [`Stage::Saving`].
    pub note: Seq<char>,
    /// The text that is to be printed and was not yet taken.
    pub output: Seq<char>,
}

impl SessionView {
    /// The session that begins on `storage`: the first menu is to be printed
    /// and a choice is awaited.
    pub open spec fn begin(storage: NoteLog) -> SessionView {
        SessionView {
            stage: Stage::AwaitingOption,
            storage,
            note: Seq::empty(),
            output: menu(),
        }
    }

    /// What the session asks of the program at this moment.
    pub open spec fn request(self) -> RequestView {
        match self.stage {
            Stage::AwaitingOption => RequestView::ReadLine,
            Stage::AwaitingNote => RequestView::ReadLine,
            Stage::Saving => RequestView::Save {
                path: self.storage.path,
                contents: self.storage.pending(self.note),
            },
            Stage::Loading => RequestView::Load { path: self.storage.path },
            Stage::Finished => RequestView::Exit,
            Stage::Failed(error) => RequestView::Fail(error),
        }
    }

    /// Whether `event` is a report on what the session asks for.
    pub open spec fn answers(self, event: EventView) -> bool {
        match self.stage {
            Stage::AwaitingOption | Stage::AwaitingNote => event is Line || event is InputClosed,
            Stage::Saving => event is Saved || event is SaveFailed,
            Stage::Loading => event is Loaded || event is LoadFailed,
            Stage::Finished | Stage::Failed(_) => false,
        }
    }

    /// The session with `text` added to what is to be printed, at `stage`.
    pub open spec fn showing(self, text: Seq<char>, stage: Stage) -> SessionView {
        SessionView { stage, output: self.output + text, ..self }
    }

    /// The session ended by `error`. Nothing else changes: the notes stay as
    /// they are.
    pub open spec fn failed(self, error: DiaryError) -> SessionView {
        SessionView { stage: Stage::Failed(error), ..self }
    }

    /// The session after `event`.
    ///
    /// An event that does not answer the request of the moment changes
    /// nothing, and a session that has ended stays as it is.
    pub open spec fn step(self, event: EventView) -> SessionView {
        match (self.stage, event) {
            (Stage::AwaitingOption, EventView::Line(line)) => match chosen(line) {
                UserOptions::Insert => self.showing(NOTE_PROMPT@, Stage::AwaitingNote),
                UserOptions::Read => self.showing(CLEAR_SCREEN@, Stage::Loading),
                UserOptions::Exit => SessionView { stage: Stage::Finished, ..self },
                UserOptions::Other => self.showing(
                    CLEAR_SCREEN@ + INVALID_OPTION@ + menu(),
                    Stage::AwaitingOption,
                ),
            },
            (Stage::AwaitingNote, EventView::Line(note)) => SessionView {
                stage: Stage::Saving,
                note,
                ..self
            },
            (Stage::AwaitingOption, EventView::InputClosed) => self.failed(
                DiaryError::InputChannelClosed,
            ),
            (Stage::AwaitingNote, EventView::InputClosed) => self.failed(
                DiaryError::InputChannelClosed,
            ),
            (Stage::Saving, EventView::Saved) => SessionView {
                stage: Stage::AwaitingOption,
                storage: self.storage.inserted(self.note),
                note: Seq::empty(),
                output: self.output + CLEAR_SCREEN@ + menu(),
            },
            (Stage::Saving, EventView::SaveFailed) => SessionView {
                note: Seq::empty(),
                ..self.failed(DiaryError::WriteFailure)
            },
            (Stage::Loading, EventView::Loaded(text)) => self.showing(
                NOTES_HEADER@ + text + menu(),
                Stage::AwaitingOption,
            ),
            (Stage::Loading, EventView::LoadFailed) => self.failed(DiaryError::ReadFailure),
            _ => self,
        }
    }
}

/// An event that does not answer the request of the moment is passed over:
/// the session stays as it is, and so does its request.
pub proof fn lemma_other_events_change_nothing(session: SessionView, event: EventView)
    requires
        !session.answers(event),
    ensures
        session.step(event) == session,
{
}

/// Whatever is reported, the notes of a session only grow, and they grow
/// only when a write is reported done: by the note that was written.
pub proof fn lemma_notes_only_grow(session: SessionView, event: EventView)
    ensures
        session.step(event).storage.path == session.storage.path,
        session.storage.notes.is_prefix_of(session.step(event).storage.notes),
        !(session.stage == Stage::Saving && event is Saved) ==> session.step(event).storage
            == session.storage,
{
    let notes = session.storage.notes;
    assert(notes.is_prefix_of(notes));
    assert(notes.is_prefix_of(notes + session.note));
}

/// One round of inserting: a line that selects it, then the note.
///
/// The note is asked for and taken as typed; the file is to be written with
/// the notes so far and the note at their end. Once the write is reported
/// done the session holds what [`StoreAndFile::insert`] says, the screen is cleared
/// and the menu is shown again. If the write is reported failed the session
/// ends with [`DiaryError::WriteFailure`] and its notes are those of before.
pub proof fn lemma_insert_round(
    session: SessionView,
    file: Seq<char>,
    choice: Seq<char>,
    note: Seq<char>,
)
    requires
        session.stage == Stage::AwaitingOption,
        chosen(choice) == UserOptions::Insert,
    ensures
        ({
            let asked = session.step(EventView::Line(choice));
            let saving = asked.step(EventView::Line(note));
            let before = (StoreAndFile { store: session.storage, file });
            &&& asked == session.showing(NOTE_PROMPT@, Stage::AwaitingNote)
            &&& asked.request() == RequestView::ReadLine
            &&& saving.request() == (RequestView::Save {
                path: session.storage.path,
                contents: before.insert(note, true).file,
            })
            &&& saving.step(EventView::Saved) == (SessionView {
                storage: before.insert(note, true).store,
                note: Seq::empty(),
                ..session.showing(NOTE_PROMPT@ + CLEAR_SCREEN@ + menu(), Stage::AwaitingOption)
            })
            &&& saving.step(EventView::SaveFailed) == (SessionView {
                storage: before.insert(note, false).store,
                note: Seq::empty(),
                ..session.showing(NOTE_PROMPT@, Stage::Failed(DiaryError::WriteFailure))
            })
            &&& saving.step(EventView::SaveFailed).request() == RequestView::Fail(
                DiaryError::WriteFailure,
            )
        }),
{
}

/// One round of reading: a line that selects it, then the text of the file.
///
/// The screen is cleared and the file at the path of the notes is to be
/// read. Its text is shown whole and as it is, under the header, and the menu
/// is shown again; nothing but the text to print has changed by then. If the
/// file cannot be read the session ends with [`DiaryError::ReadFailure`].
pub proof fn lemma_read_round(session: SessionView, choice: Seq<char>, file: Seq<char>)
    requires
        session.stage == Stage::AwaitingOption,
        chosen(choice) == UserOptions::Read,
    ensures
        ({
            let loading = session.step(EventView::Line(choice));
            &&& loading == session.showing(CLEAR_SCREEN@, Stage::Loading)
            &&& loading.request() == (RequestView::Load { path: session.storage.path })
            &&& loading.step(EventView::Loaded(file)) == session.showing(
                CLEAR_SCREEN@ + NOTES_HEADER@ + file + menu(),
                Stage::AwaitingOption,
            )
            &&& loading.step(EventView::LoadFailed) == session.showing(
                CLEAR_SCREEN@,
                Stage::Failed(DiaryError::ReadFailure),
            )
            &&& loading.step(EventView::LoadFailed).request() == RequestView::Fail(
                DiaryError::ReadFailure,
            )
        }),
{
}

/// Reading twice, with the file left alone in between, shows the same text
/// both times, and leaves the session as one reading does.
pub proof fn lemma_reading_twice_shows_the_same(
    session: SessionView,
    first: Seq<char>,
    second: Seq<char>,
    file: Seq<char>,
)
    requires
        session.stage == Stage::AwaitingOption,
        session.output == Seq::<char>::empty(),
        chosen(first) == UserOptions::Read,
        chosen(second) == UserOptions::Read,
    ensures
        ({
            let once = session.step(EventView::Line(first)).step(EventView::Loaded(file));
            let printed = (SessionView { output: Seq::empty(), ..once });
            let twice = printed.step(EventView::Line(second)).step(EventView::Loaded(file));
            &&& printed == session
            &&& twice == once
            &&& once.output == CLEAR_SCREEN@ + NOTES_HEADER@ + file + menu()
        }),
{
    lemma_read_round(session, first, file);
    lemma_read_round(session, second, file);
}

/// A session and the file that serves it: a file that is read and written as
/// the session asks, and never fails.
#[verifier::ext_equal]
pub struct Served {
    pub session: SessionView,
    pub file: Seq<char>,
}

impl Served {
    /// A session just begun on the file at `path` that holds `file`.
    pub open spec fn begin(path: Seq<char>, file: Seq<char>) -> Served {
        Served { session: SessionView::begin(NoteLog { notes: file, path }), file }
    }

    /// What the session asks of the file is done and reported.
    pub open spec fn answered(self) -> Served {
        match self.session.request() {
            RequestView::Save { path, contents } => Served {
                session: self.session.step(EventView::Saved),
                file: contents,
            },
            RequestView::Load { path } => Served {
                session: self.session.step(EventView::Loaded(self.file)),
                file: self.file,
            },
            _ => self,
        }
    }

    /// The user types `line`, and the file is read or written if the session
    /// then asks for it.
    pub open spec fn typed(self, line: Seq<char>) -> Served {
        (Served { session: self.session.step(EventView::Line(line)), file: self.file }).answered()
    }

    /// The user inserts `notes`, first to last: `1` at the menu and then the
    /// note, for each of them.
    pub open spec fn inserted_all(self, notes: Seq<Seq<char>>) -> Served
        decreases notes.len(),
    {
        if notes.len() == 0 {
            self
        } else {
            self.inserted_all(notes.drop_last()).typed(seq!['1']).typed(notes.last())
        }
    }

    /// All that was to be printed is printed.
    pub open spec fn printed(self) -> Served {
        Served { session: SessionView { output: Seq::empty(), ..self.session }, file: self.file }
    }
}

/// The diary gives back what was put into it. A user who inserts notes one
/// after the other and then selects reading is shown what the file held at
/// first and then those notes, in their order and as typed, with nothing
/// between them; and that is what the file then holds.
pub proof fn lemma_notes_come_back(path: Seq<char>, file: Seq<char>, notes: Seq<Seq<char>>)
    ensures
        ({
            let filled = Served::begin(path, file).inserted_all(notes);
            let shown = filled.printed().typed(seq!['2']);
            &&& filled.file == file + notes.flatten()
            &&& filled.session.storage == (NoteLog { notes: file + notes.flatten(), path })
            &&& filled.session.stage == Stage::AwaitingOption
            &&& shown.session.output == CLEAR_SCREEN@ + NOTES_HEADER@ + (file + notes.flatten())
                + menu()
            &&& shown.file == filled.file
            &&& shown.session.stage == Stage::AwaitingOption
        }),
    decreases notes.len(),
{
    let filled = Served::begin(path, file).inserted_all(notes);
    notes.lemma_flatten_and_flatten_alt_are_equivalent();
    if notes.len() > 0 {
        let earlier = notes.drop_last();
        lemma_notes_come_back(path, file, earlier);
        earlier.lemma_flatten_and_flatten_alt_are_equivalent();
        let before = Served::begin(path, file).inserted_all(earlier);
        lemma_single_mark(seq!['1'], 0);
        lemma_insert_round(before.session, before.file, seq!['1'], notes.last());
        assert(file + earlier.flatten() + notes.last() == file + notes.flatten());
    }
    lemma_single_mark(seq!['2'], 0);
    lemma_read_round(filled.printed().session, seq!['2'], filled.file);
}

/// The diary at work: its notes, what it has to show, and where it stands in
/// its cycle.
pub struct Session {
    stage: Stage,
    storage: NoteStorage,
    note: String,
    terminal: Terminal,
}

impl View for Session {
    type V = SessionView;

    closed spec fn view(&self) -> SessionView {
        SessionView {
            stage: self.stage,
            storage: self.storage@,
            note: self.note@,
            output: self.terminal@,
        }
    }
}

impl Session {
    /// Begins a session on the notes in `storage`. The first menu is ready to
    /// be printed and the session asks for the line with the choice.
    pub fn new(storage: NoteStorage) -> (session: Session)
        ensures
            session@ == SessionView::begin(storage@),
    {
        let mut terminal = Terminal::new();
        terminal.start();
        terminal.show_user_options();
        Session { stage: Stage::AwaitingOption, storage, note: String::new(), terminal }
    }

    /// What the session asks of the program at this moment.
    pub fn request(&self) -> (request: Request)
        ensures
            request@ == self@.request(),
    {
        match self.stage {
            Stage::AwaitingOption => Request::ReadLine,
            Stage::AwaitingNote => Request::ReadLine,
            Stage::Saving => Request::Save {
                path: self.storage.path().to_owned(),
                contents: self.storage.pending(self.note.as_str()),
            },
            Stage::Loading => Request::Load { path: self.storage.path().to_owned() },
            Stage::Finished => Request::Exit,
            Stage::Failed(error) => Request::Fail(error),
        }
    }

    /// Takes in what the program reports and decides what comes next. The
    /// result is the next request.
    ///
    /// An event that does not answer the request of the moment changes
    /// nothing: the same request is made again.
    pub fn step(&mut self, event: Event) -> (request: Request)
        ensures
            final(self)@ == old(self)@.step(event@),
            request@ == final(self)@.request(),
    {
        match self.stage {
            Stage::AwaitingOption => match event {
                Event::Line(line) => match self.terminal.user_chosen_option(line.as_str()) {
                    UserOptions::Insert => {
                        self.terminal.ask_new_note();
                        self.stage = Stage::AwaitingNote;
                    },
                    UserOptions::Read => {
                        self.terminal.clear();
                        self.stage = Stage::Loading;
                    },
                    UserOptions::Exit => {
                        self.stage = Stage::Finished;
                    },
                    UserOptions::Other => {
                        self.terminal.clear();
                        self.terminal.user_option_invalid();
                        self.show_menu();
                    },
                },
                Event::InputClosed => {
                    self.stage = Stage::Failed(DiaryError::InputChannelClosed);
                },
                _ => {},
            },
            Stage::AwaitingNote => match event {
                Event::Line(note) => {
                    self.note = note;
                    self.stage = Stage::Saving;
                },
                Event::InputClosed => {
                    self.stage = Stage::Failed(DiaryError::InputChannelClosed);
                },
                _ => {},
            },
            Stage::Saving => match event {
                Event::Saved => self.insert_note(true),
                Event::SaveFailed => self.insert_note(false),
                _ => {},
            },
            Stage::Loading => match event {
                Event::Loaded(text) => self.show_notes(Some(text)),
                Event::LoadFailed => self.show_notes(None),
                _ => {},
            },
            Stage::Finished => {},
            Stage::Failed(_) => {},
        }
        self.request()
    }

    /// Hands out the text that is to be printed now, and keeps none of it.
    /// The program prints it before it does what the session asks for.
    pub fn take_output(&mut self) -> (text: String)
        ensures
            text@ == old(self)@.output,
            final(self)@ == (SessionView { output: Seq::empty(), ..old(self)@ }),
    {
        self.terminal.take_output()
    }

    /// Where the session stands in its cycle.
    pub fn stage(&self) -> (stage: Stage)
        ensures
            stage == self@.stage,
    {
        self.stage
    }

    /// The notes of the session.
    pub fn storage(&self) -> (storage: &NoteStorage)
        ensures
            storage@ == self@.storage,
    {
        &self.storage
    }

    /// Ends the writing of the note: `written` tells whether the file was
    /// written. If it was, the note is among the notes and the menu comes
    /// next; if not, the session ends.
    fn insert_note(&mut self, written: bool)
        requires
            old(self)@.stage == Stage::Saving,
        ensures
            final(self)@ == old(self)@.step(
                if written {
                    EventView::Saved
                } else {
                    EventView::SaveFailed
                },
            ),
    {
        let mut note = String::new();
        core::mem::swap(&mut self.note, &mut note);
        match self.storage.insert(note, written) {
            Ok(()) => {
                self.terminal.clear();
                self.show_menu();
            },
            Err(error) => {
                self.stage = Stage::Failed(error);
            },
        }
    }

    /// Ends the reading of the file: `loaded` is its text, or `None` if it
    /// could not be read. The text is shown and the menu comes next; without
    /// it the session ends.
    fn show_notes(&mut self, loaded: Option<String>)
        requires
            old(self)@.stage == Stage::Loading,
        ensures
            final(self)@ == old(self)@.step(
                match loaded {
                    Some(text) => EventView::Loaded(text@),
                    None => EventView::LoadFailed,
                },
            ),
    {
        match self.storage.read_notes(loaded) {
            Ok(all_notes) => {
                self.terminal.show_notes(all_notes.as_str());
                self.show_menu();
            },
            Err(error) => {
                self.stage = Stage::Failed(error);
            },
        }
    }

    /// Shows the menu and awaits the choice.
    fn show_menu(&mut self)
        ensures
            final(self)@ == old(self)@.showing(menu(), Stage::AwaitingOption),
    {
        self.terminal.start();
        self.terminal.show_user_options();
        self.stage = Stage::AwaitingOption;
    }
}

} // verus!
