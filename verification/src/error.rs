//! What can end the diary other than the user leaving.

use vstd::prelude::*;

verus! {

/// A failure of the world around the diary. None of them is recovered from:
/// each ends the session.
#[derive(Clone, Copy, Debug, PartialEq, Eq, Structural)]
pub enum DiaryError {
    /// The notes file could not be read when the diary was opened. The file
    /// is never created in its place.
    StartupFile,
    /// The notes file could not be written when a note was inserted.
    WriteFailure,
    /// The notes file could not be read when the notes were to be shown.
    ReadFailure,
    /// The input ended where a line was expected.
    InputChannelClosed,
}

} // verus!
