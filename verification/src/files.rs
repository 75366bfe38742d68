//! File-operation errors and temporary-file bookkeeping.  The operations
//! themselves are I/O and live in the binary; this module holds their
//! error taxonomy and the cleanup state machine.

use vstd::prelude::*;

verus! {

use vstd::string::*;

/// File operation errors.
#[derive(Debug)]
pub enum FileError {
    /// A directory could not be created.
    DirectoryCreate(String),
    /// A file could not be removed.
    FileRemove(String),
    /// A file could not be read.
    FileRead(String),
    /// A file does not exist; holds its path.
    FileNotFound(String),
}

impl FileError {
    /// The view of the message that `message` renders for this error.
    pub open spec fn spec_message(self) -> Seq<char> {
        match self {
            FileError::DirectoryCreate(detail) => "Cannot create directory '"@ + detail@
                + "'. Please check permissions."@,
            FileError::FileRemove(detail) => "Cannot remove file '"@ + detail@
                + "'. Please check if the file exists and you have permission to delete it."@,
            FileError::FileRead(detail) => "Cannot read file '"@ + detail@
                + "'. Please check if the file exists and you have permission to access it."@,
            FileError::FileNotFound(path) => "File not found: '"@ + path@
                + "'. Please verify the file path and try again."@,
        }
    }

    /// Renders the error as a human-readable message.
    pub fn message(&self) -> (r: String)
        ensures
            r@ == self.spec_message(),
    {
        let mut r = String::new();
        match self {
            FileError::DirectoryCreate(detail) => {
                r.append("Cannot create directory '");
                r.append(detail.as_str());
                r.append("'. Please check permissions.");
            },
            FileError::FileRemove(detail) => {
                r.append("Cannot remove file '");
                r.append(detail.as_str());
                r.append("'. Please check if the file exists and you have permission to delete it.");
            },
            FileError::FileRead(detail) => {
                r.append("Cannot read file '");
                r.append(detail.as_str());
                r.append("'. Please check if the file exists and you have permission to access it.");
            },
            FileError::FileNotFound(path) => {
                r.append("File not found: '");
                r.append(path.as_str());
                r.append("'. Please verify the file path and try again.");
            },
        }
        r
    }
}

/// Bookkeeping for a temporary file: its path and whether it still wants
/// cleanup.  The removal itself is I/O and is the binary's job; it records
/// a performed cleanup through `keep`.  Nothing is removed by merely
/// dropping a value of this type.
pub struct TemporaryFile {
    /// The path of the temporary file.
    pub path: String,
    /// Whether the file should still be removed.
    pub should_cleanup: bool,
}

impl TemporaryFile {
    /// Starts tracking a temporary file; a fresh file always wants
    /// cleanup.
    pub fn new(path: String) -> (r: Self)
        ensures
            r.path == path,
            r.should_cleanup,
    {
        TemporaryFile { path, should_cleanup: true }
    }

    /// The path of the temporary file.
    pub fn path(&self) -> (r: &str)
        ensures
            r@ == self.path@,
    {
        self.path.as_str()
    }

    /// Prevents cleanup of the file, either because it should be kept or
    /// because it was already removed.
    pub fn keep(&mut self)
        ensures
            final(self).path == old(self).path,
            !final(self).should_cleanup,
    {
        self.should_cleanup = false;
    }
}

} // verus!
