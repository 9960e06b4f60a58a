//! Why opening a note stopped before the editor ran.

use vstd::prelude::*;

verus! {

/// The kinds of failure of an invocation; each one ends it.
#[derive(Clone, Copy, Debug, PartialEq, Eq, Structural)]
pub enum ErrorKind {
    /// The notes root or the editor is not configured.
    ConfigurationMissing,
    /// The index note of the year does not exist; it is never made from a
    /// template.
    FileNotFound,
    /// The template that a new note is made from could not be read.
    TemplateUnreadable,
    /// The directories of a new note could not be made.
    DirectoryCreateFailed,
    /// A new note could not be written.
    WriteFailed,
    /// The editor could not be started.
    EditorLaunchFailed,
}

/// A failure, with what the user needs to correct it: the missing setting,
/// the path concerned, or the editor command.
#[derive(Clone, Debug)]
pub struct NoteError {
    pub kind: ErrorKind,
    pub subject: String,
}

/// A failure as a kind and the characters of its subject.
pub open spec fn error_view(e: NoteError) -> (ErrorKind, Seq<char>) {
    (e.kind, e.subject@)
}

} // verus!
