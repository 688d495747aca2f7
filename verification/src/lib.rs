//! A personal diary kept in one text file: notes are appended to the file and
//! the whole file can be shown.
//!
//! The crate holds every decision of the diary and performs no input or
//! output itself. A program drives it: it reads the lines, prints the text and
//! touches the file, and tells the diary how each of these went.
//!
//! - [`command`]: the choices of the menu and how a typed line selects one.
//! - [`storage`]: the notes, in memory and on file.
//! - [`terminal`]: what is shown to the user.
//! - [`session`]: the cycle of menu, choice and action.
//! - [`error`]: what can end the diary other than the user leaving.
//!
//! Every function is verified against its contract. Beyond the contracts,
//! these are proved:
//!
//! - a line selects a choice by its digit alone, whatever white space stands
//!   around it ([`command::lemma_chosen_by_digit`]);
//! - notes inserted one after the other are read back joined, in their order
//!   ([`storage::lemma_inserts_are_joined`], and of a whole session
//!   [`session::lemma_notes_come_back`]);
//! - a note that was written is the end of what is read back
//!   ([`storage::lemma_inserted_note_is_read_back`]);
//! - a write that fails leaves no trace
//!   ([`storage::lemma_failed_insert_leaves_no_trace`]);
//! - the store holds what was last written to the file
//!   ([`storage::lemma_memory_follows_file`]);
//! - the empty note is inserted like any other and changes nothing
//!   ([`storage::lemma_empty_note_changes_nothing`]);
//! - reading twice shows the same ([`session::lemma_reading_twice_shows_the_same`]);
//! - the notes of a session only grow ([`session::lemma_notes_only_grow`]).

#![allow(unused_imports)]

pub mod command;
pub mod error;
pub mod session;
pub mod storage;
pub mod terminal;
