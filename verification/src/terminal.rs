//! What is shown to the user.
//!
//! A [`Terminal`] gathers the text to show, in the order in which it is to
//! appear, until the program takes it and prints it. Clearing the screen is
//! text like any other: the control sequence that does it.

use crate::command::{
    all_whitespace, chosen, is_whitespace, lemma_blank, lemma_single_mark, lemma_two_marks,
    trimmed, whitespace, UserOptions,
};
use vstd::prelude::*;

verus! {

/// The line that opens every round of the menu.
pub const BANNER: &'static str = "\n********* SEU DIÁRIO *********\n";

/// The line above the choices.
pub const OPTIONS_HEADER: &'static str = "\nEscolha uma opção:\n";

/// The choices.
pub const OPTIONS: &'static str =
    "\n1 - Adicionar uma nota ao seu Diário\n2 - Ver o seu Diário\n3 - Sair\n        ";

/// The request for a note.
pub const NOTE_PROMPT: &'static str = "\nDigite uma nota que deseja adicionar ao seu Diario:\n";

/// The line above the notes when they are shown.
pub const NOTES_HEADER: &'static str = "\nO seu diario contém:\n\n";

/// The answer to a line that selects nothing.
pub const INVALID_OPTION: &'static str = "\nO comando digitado é inválido!\n";

/// The control sequence that clears the screen: escape, then `c`.
pub const CLEAR_SCREEN: &'static str = "\u{1b}c";

/// The text that a terminal has gathered and not yet handed out.
pub struct Terminal {
    output: String,
}

impl View for Terminal {
    type V = Seq<char>;

    closed spec fn view(&self) -> Seq<char> {
        self.output@
    }
}

impl Terminal {
    /// A terminal with nothing to show yet.
    pub fn new() -> (terminal: Terminal)
        ensures
            terminal@ == Seq::<char>::empty(),
    {
        Terminal { output: String::new() }
    }

    /// Opens a round of the menu with the banner.
    pub fn start(&mut self)
        ensures
            final(self)@ == old(self)@ + BANNER@,
    {
        self.print(BANNER);
    }

    /// Reads the choice off a line that was typed at the menu: the digit of
    /// a choice with any white space around it selects that choice, every
    /// other line selects [`UserOptions::Other`].
    ///
    /// The line is taken as it was typed, its end included.
    pub fn user_chosen_option(&self, option: &str) -> (choice: UserOptions)
        ensures
            choice == chosen(option@),
    {
        let ghost line = option@;
        let mut marks: u8 = 0;
        let mut mark: char = ' ';
        let ghost mut first: int = 0;
        let ghost mut second: int = 0;
        let letters = option.chars();
        for c in it: letters
            invariant
                it.seq() == line,
                marks <= 2,
                marks == 0 ==> all_whitespace(line.take(it.index())),
                marks == 1 ==> 0 <= first < it.index() && line[first] == mark && !is_whitespace(
                    mark,
                ) && forall|i: int|
                    0 <= i < it.index() && i != first ==> is_whitespace(#[trigger] line[i]),
                marks == 2 ==> 0 <= first < second < it.index() && !is_whitespace(line[first])
                    && !is_whitespace(line[second]),
        {
            let ghost at = it.index();
            assert(c == line[at]);
            if !whitespace(c) {
                if marks == 0 {
                    mark = c;
                    marks = 1;
                    proof {
                        assert forall|i: int| 0 <= i < at implies is_whitespace(
                            #[trigger] line[i],
                        ) by {
                            assert(line.take(at)[i] == line[i]);
                        }
                        first = at;
                    }
                } else if marks == 1 {
                    marks = 2;
                    proof {
                        second = at;
                    }
                }
            } else if marks == 0 {
                assert forall|i: int| 0 <= i < at + 1 implies is_whitespace(
                    #[trigger] line.take(at + 1)[i],
                ) by {
                    if i < at {
                        assert(line.take(at)[i] == line[i]);
                    }
                }
            }
        }
        proof {
            assert(line.take(line.len() as int) == line);
            if marks == 0 {
                lemma_blank(line);
            } else if marks == 1 {
                lemma_single_mark(line, first);
                assert(trimmed(line)[0] == mark);
            } else {
                lemma_two_marks(line, first, second);
            }
            assert(seq!['1'].len() == 1 && seq!['1'][0] == '1');
            assert(seq!['2'].len() == 1 && seq!['2'][0] == '2');
            assert(seq!['3'].len() == 1 && seq!['3'][0] == '3');
        }
        if marks != 1 {
            UserOptions::Other
        } else if mark == '1' {
            UserOptions::Insert
        } else if mark == '2' {
            UserOptions::Read
        } else if mark == '3' {
            UserOptions::Exit
        } else {
            UserOptions::Other
        }
    }

    /// Shows the choices.
    pub fn show_user_options(&mut self)
        ensures
            final(self)@ == old(self)@ + OPTIONS_HEADER@ + OPTIONS@,
    {
        self.print(OPTIONS_HEADER);
        self.print(OPTIONS);
    }

    /// Asks for the note to insert.
    pub fn ask_new_note(&mut self)
        ensures
            final(self)@ == old(self)@ + NOTE_PROMPT@,
    {
        self.print(NOTE_PROMPT);
    }

    /// Shows the notes, all of them and as they are, under their header.
    pub fn show_notes(&mut self, all_notes: &str)
        ensures
            final(self)@ == old(self)@ + NOTES_HEADER@ + all_notes@,
    {
        self.print(NOTES_HEADER);
        self.print(all_notes);
    }

    /// Tells the user that the line selected nothing.
    pub fn user_option_invalid(&mut self)
        ensures
            final(self)@ == old(self)@ + INVALID_OPTION@,
    {
        self.print(INVALID_OPTION);
    }

    /// Adds `message` to the text to show.
    pub fn print(&mut self, message: &str)
        ensures
            final(self)@ == old(self)@ + message@,
    {
        self.output.append(message);
    }

    /// Clears the screen.
    pub fn clear(&mut self)
        ensures
            final(self)@ == old(self)@ + CLEAR_SCREEN@,
    {
        self.print(CLEAR_SCREEN);
    }

    /// Hands out the text gathered so far, to be printed as it is, and
    /// starts anew with none.
    pub fn take_output(&mut self) -> (text: String)
        ensures
            text@ == old(self)@,
            final(self)@ == Seq::<char>::empty(),
    {
        let mut text = String::new();
        core::mem::swap(&mut self.output, &mut text);
        text
    }
}

} // verus!
