//! The library's errors: a kind and a hint on how to mend it.
use vstd::prelude::*;
use vstd::string::StringExecFns;

verus! {

/// What went wrong.
#[derive(Clone, Copy, Debug, PartialEq, Eq, Structural)]
pub enum ErrorKind {
    /// No path was given before loading.
    PathNotSpecified,
    /// The path did not give readable content.
    FileNotFound,
    /// The content was asked for before it was loaded.
    EmptyContent,
    /// More than one reversal flag was set.
    MultipleFlags,
}

/// An error: its kind and a hint for the user.
#[derive(Clone, Debug)]
pub struct Error {
    pub kind: ErrorKind,
    pub error: String,
}

/// The hint that an error of `kind` carries.
pub open spec fn hint_text(kind: ErrorKind) -> Seq<char> {
    match kind {
        ErrorKind::PathNotSpecified => "You must specify a path in order to get the content.\nUse the `set_path()` method or create with the `from_path()` method."@,
        ErrorKind::FileNotFound => "Ensure you introduce a correct path. If you use Tab it can help you autocomplete the name of the file."@,
        ErrorKind::EmptyContent => "The file has no content. Execute the `get_content()` method first."@,
        ErrorKind::MultipleFlags => "Don't use multiple flags. It doesn't make sense."@,
    }
}

/// The one-line description of `kind`.
pub open spec fn summary_text(kind: ErrorKind) -> Seq<char> {
    match kind {
        ErrorKind::PathNotSpecified => "The path attribute is empty!"@,
        ErrorKind::FileNotFound => "Didn't found any file"@,
        ErrorKind::EmptyContent => "You didn't get the content from the file, invoque the `get_content()` method"@,
        ErrorKind::MultipleFlags => "Can't use more than one flag"@,
    }
}

impl Error {
    /// An error of `kind` with its hint.
    pub fn new(kind: ErrorKind) -> (r: Error)
        ensures
            r.kind == kind,
            r.error@ == hint_text(kind),
    {
        let error = match kind {
            ErrorKind::PathNotSpecified => "You must specify a path in order to get the content.\nUse the `set_path()` method or create with the `from_path()` method.".to_owned(),
            ErrorKind::FileNotFound => "Ensure you introduce a correct path. If you use Tab it can help you autocomplete the name of the file.".to_owned(),
            ErrorKind::EmptyContent => "The file has no content. Execute the `get_content()` method first.".to_owned(),
            ErrorKind::MultipleFlags => "Don't use multiple flags. It doesn't make sense.".to_owned(),
        };
        Error { kind, error }
    }

    /// The kind of this error.
    pub fn kind(&self) -> (r: ErrorKind)
        ensures
            r == self.kind,
    {
        self.kind
    }

    /// A one-line description of this error.
    pub fn summary(&self) -> (r: String)
        ensures
            r@ == summary_text(self.kind),
    {
        match self.kind {
            ErrorKind::PathNotSpecified => "The path attribute is empty!".to_owned(),
            ErrorKind::FileNotFound => "Didn't found any file".to_owned(),
            ErrorKind::EmptyContent => "You didn't get the content from the file, invoque the `get_content()` method".to_owned(),
            ErrorKind::MultipleFlags => "Can't use more than one flag".to_owned(),
        }
    }

    /// The full report: a heading, the description and the hint.
    pub fn details(&self) -> (r: String)
        ensures
            r@ == "khat error.\n"@ + summary_text(self.kind) + "\n"@ + self.error@,
    {
        let mut r = "khat error.\n".to_owned();
        let s = self.summary();
        r.append(s.as_str());
        r.append("\n");
        r.append(self.error.as_str());
        r
    }
}

} // verus!
