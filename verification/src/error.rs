//! Why a selector could not be parsed.

use vstd::prelude::*;
use vstd::string::*;

verus! {

/// The ways in which parsing a selector fails.
#[derive(Debug)]
pub enum ErrorKind {
    /// The path was empty, or was white space only.
    EmptyPath,
    /// One piece of the path, kept here as it was written, is neither the
    /// wildcard nor an identifier.
    InvalidSegment(String),
}

/// What an [`ErrorKind`] stands for in contracts.
pub enum ErrorKindView {
    EmptyPath,
    InvalidSegment(Seq<char>),
}

impl View for ErrorKind {
    type V = ErrorKindView;

    open spec fn view(&self) -> ErrorKindView {
        match self {
            ErrorKind::EmptyPath => ErrorKindView::EmptyPath,
            ErrorKind::InvalidSegment(segment) => ErrorKindView::InvalidSegment(segment@),
        }
    }
}

impl ErrorKindView {
    /// The text shown to a person for this failure.
    pub open spec fn message(self) -> Seq<char> {
        match self {
            ErrorKindView::EmptyPath => "Empty path"@,
            ErrorKindView::InvalidSegment(segment) => "Invalid path segment: `"@ + segment
                + "` is not an identifier"@,
        }
    }
}

/// An error met while parsing a selector.
#[derive(Debug)]
pub struct Error {
    kind: ErrorKind,
}

impl View for Error {
    type V = ErrorKindView;

    closed spec fn view(&self) -> ErrorKindView {
        self.kind@
    }
}

impl Error {
    pub fn new(kind: ErrorKind) -> (error: Self)
        ensures
            error@ == kind@,
    {
        Error { kind }
    }

    /// The error for a path with nothing in it.
    pub fn empty_path() -> (error: Self)
        ensures
            error@ == ErrorKindView::EmptyPath,
    {
        Error::new(ErrorKind::EmptyPath)
    }

    /// The error for a piece of a path that cannot be searched for.
    pub fn invalid_segment(segment: String) -> (error: Self)
        ensures
            error@ == ErrorKindView::InvalidSegment(segment@),
    {
        Error::new(ErrorKind::InvalidSegment(segment))
    }

    /// Which failure this is.
    pub fn kind(&self) -> (kind: &ErrorKind)
        ensures
            kind@ == self@,
    {
        &self.kind
    }

    /// The text shown to a person for this error.
    pub fn message(&self) -> (text: String)
        ensures
            text@ == self@.message(),
    {
        match &self.kind {
            ErrorKind::EmptyPath => String::from_str("Empty path"),
            ErrorKind::InvalidSegment(segment) => {
                let mut text = String::from_str("Invalid path segment: `");
                text.append(segment.as_str());
                text.append("` is not an identifier");
                text
            },
        }
    }
}

} // verus!
