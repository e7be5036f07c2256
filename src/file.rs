//! A file as the library sees it: a path and, once loaded, its content.
use vstd::prelude::*;
use vstd::string::StringExecFns;
use crate::error::{Error, ErrorKind};
use crate::text::{Mode, apply, transformed};

verus! {

/// A file: the path to read, and the content once it has been loaded.
#[derive(Debug, PartialEq, Eq, PartialOrd, Ord, Clone)]
pub struct File {
    pub path: Option<String>,
    pub content: Option<String>,
}

/// What `file` shows under `mode`: the transformed content, or
/// `EmptyContent` when nothing has been loaded.
pub open spec fn shown(file: File, mode: Mode, r: Result<String, Error>) -> bool {
    match file.content {
        Some(c) => r is Ok && r->Ok_0@ == transformed(c@, mode),
        None => r is Err && r->Err_0.kind == ErrorKind::EmptyContent,
    }
}

/// The number of flags that are set.
pub open spec fn flag_count(full_rev: bool, line_rev: bool, chars_rev: bool) -> int {
    (if full_rev { 1int } else { 0int }) + (if line_rev { 1int } else { 0int }) + (if chars_rev {
        1int
    } else {
        0int
    })
}

/// The mode that the flags choose, where at most one is set.
pub open spec fn mode_of(full_rev: bool, line_rev: bool, chars_rev: bool) -> Mode {
    if full_rev {
        Mode::FullReverse
    } else if line_rev {
        Mode::LineReverse
    } else if chars_rev {
        Mode::CharsWithinLineReverse
    } else {
        Mode::Plain
    }
}

/// Chooses the mode from the three reversal flags: none set is the plain
/// mode, one set is its mode, and two or more are refused.
pub fn select_mode(full_rev: bool, line_rev: bool, chars_rev: bool) -> (r: Result<Mode, Error>)
    ensures
        flag_count(full_rev, line_rev, chars_rev) >= 2 <==> r is Err,
        r is Err ==> r->Err_0.kind == ErrorKind::MultipleFlags,
        r is Ok ==> r->Ok_0 == mode_of(full_rev, line_rev, chars_rev),
{
    match (full_rev, line_rev, chars_rev) {
        (false, false, false) => Ok(Mode::Plain),
        (true, false, false) => Ok(Mode::FullReverse),
        (false, true, false) => Ok(Mode::LineReverse),
        (false, false, true) => Ok(Mode::CharsWithinLineReverse),
        _ => Err(Error::new(ErrorKind::MultipleFlags)),
    }
}

impl Default for File {
    fn default() -> (r: File)
        ensures
            r.path is None,
            r.content is None,
    {
        File::new()
    }
}

impl File {
    /// A file with neither path nor content.
    pub fn new() -> (r: File)
        ensures
            r.path is None,
            r.content is None,
    {
        File { path: None, content: None }
    }

    /// A file with `path` set and no content yet.
    pub fn from_path(path: String) -> (r: File)
        ensures
            r.path == Some(path),
            r.content is None,
    {
        File { path: Some(path), content: None }
    }

    /// Sets the path to read.
    pub fn set_path(&mut self, path: String)
        ensures
            final(self).path == Some(path),
            final(self).content == old(self).content,
    {
        self.path = Some(path);
    }

    /// Takes the outcome of reading the file at the path: `Some` with the
    /// text that was read, `None` where it could not be read. With no path
    /// set the outcome is not looked at.
    pub fn load_content(&mut self, read: Option<String>) -> (r: Result<(), Error>)
        ensures
            old(self).path is None ==> r is Err && r->Err_0.kind == ErrorKind::PathNotSpecified
                && *final(self) == *old(self),
            old(self).path is Some && read is None ==> r is Err && r->Err_0.kind
                == ErrorKind::FileNotFound && *final(self) == *old(self),
            old(self).path is Some && read is Some ==> r is Ok && final(self).content == read
                && final(self).path == old(self).path,
    {
        match &self.path {
            Some(_) => match read {
                Some(content) => {
                    self.content = Some(content);
                    Ok(())
                },
                None => Err(Error::new(ErrorKind::FileNotFound)),
            },
            None => Err(Error::new(ErrorKind::PathNotSpecified)),
        }
    }

    /// The loaded content under `mode`.
    pub fn print_with(&self, mode: Mode) -> (r: Result<String, Error>)
        ensures
            shown(*self, mode, r),
    {
        match &self.content {
            Some(c) => Ok(apply(c.as_str(), mode)),
            None => Err(Error::new(ErrorKind::EmptyContent)),
        }
    }

    /// The loaded content as it is.
    pub fn print_content(&self) -> (r: Result<String, Error>)
        ensures
            shown(*self, Mode::Plain, r),
    {
        self.print_with(Mode::Plain)
    }

    /// The loaded content with all its characters reversed.
    pub fn print_reverse(&self) -> (r: Result<String, Error>)
        ensures
            shown(*self, Mode::FullReverse, r),
    {
        self.print_with(Mode::FullReverse)
    }

    /// The loaded content with its lines in reverse order.
    pub fn print_lines_reverse(&self) -> (r: Result<String, Error>)
        ensures
            shown(*self, Mode::LineReverse, r),
    {
        self.print_with(Mode::LineReverse)
    }

    /// The loaded content with the characters of each line reversed.
    pub fn print_chars_reverse(&self) -> (r: Result<String, Error>)
        ensures
            shown(*self, Mode::CharsWithinLineReverse, r),
    {
        self.print_with(Mode::CharsWithinLineReverse)
    }

    /// A description of the file: its path, and its content once loaded.
    pub fn describe(&self) -> (r: String)
        ensures
            r@ == match (self.path, self.content) {
                (Some(p), Some(c)) => "\nThe file "@ + p@ + " has the following content:\n\n "@
                    + c@,
                (Some(p), None) => "\nThe file has the "@ + p@ + " path, but has no content"@,
                (None, _) => "\nThe file has no path"@,
            },
    {
        match &self.path {
            Some(p) => match &self.content {
                Some(c) => {
                    let mut r = "\nThe file ".to_owned();
                    r.append(p.as_str());
                    r.append(" has the following content:\n\n ");
                    r.append(c.as_str());
                    r
                },
                None => {
                    let mut r = "\nThe file has the ".to_owned();
                    r.append(p.as_str());
                    r.append(" path, but has no content");
                    r
                },
            },
            None => "\nThe file has no path".to_owned(),
        }
    }
}

} // verus!
