//! Errors raised while building or converting formula nodes.

use vstd::prelude::*;

verus! {

/// An opaque handle for a location in the source text.
///
/// The handle is passed through unchanged from the node that triggered an
/// error to the error itself.
#[derive(Clone, Copy, Debug, PartialEq, Eq, Structural, Hash)]
pub struct Span(pub u64);

/// What went wrong.
#[derive(Clone, Copy, Debug, PartialEq, Eq, Structural, Hash)]
pub enum ErrorKind {
    /// A symbol's name has no entry in the symbol table.
    UnknownSymbol,
    /// A node without a markup representation stands in a formula.
    NotAllowedHere,
    /// An accent operand is empty, spans more than one character or is no
    /// known accent.
    NotAnAccent,
}

/// An error together with the location of the node that caused it.
#[derive(Clone, Copy, Debug, PartialEq, Eq, Structural, Hash)]
pub struct SourceError {
    /// The kind of failure.
    pub kind: ErrorKind,
    /// Where the failure originated.
    pub span: Span,
}

impl ErrorKind {
    /// The diagnostic text of this kind of error.
    pub open spec fn message_spec(self) -> Seq<char> {
        match self {
            ErrorKind::UnknownSymbol => "unknown symbol"@,
            ErrorKind::NotAllowedHere => "not allowed here"@,
            ErrorKind::NotAnAccent => "not an accent"@,
        }
    }

    /// Returns the diagnostic text of this kind of error.
    pub fn message(&self) -> (text: &'static str)
        ensures
            text@ == self.message_spec(),
    {
        match self {
            ErrorKind::UnknownSymbol => "unknown symbol",
            ErrorKind::NotAllowedHere => "not allowed here",
            ErrorKind::NotAnAccent => "not an accent",
        }
    }
}

impl SourceError {
    /// Creates an error of the given kind at the given location.
    pub fn new(kind: ErrorKind, span: Span) -> (error: SourceError)
        ensures
            error == (SourceError { kind, span }),
    {
        SourceError { kind, span }
    }
}

} // verus!
