//! The errors of a conversion.
use vstd::prelude::*;

verus! {

/// Why a conversion stopped.
///
/// The `Expected*` variants report a token of the wrong shape and name what
/// the grammar asked for at that point.
#[derive(Debug, Clone, PartialEq, Eq)]
pub enum ProcessingError {
    /// Any start tag was expected.
    ExpectedStart,
    /// The start tag of the named element was expected.
    ExpectedStartOf(&'static str),
    /// The end tag of the named element was expected.
    ExpectedEndOf(&'static str),
    /// The self-closing tag of the named element was expected.
    ExpectedEmpty(&'static str),
    /// A text node was expected.
    ExpectedText,
    /// A text node holding exactly one line feed was expected.
    ExpectedNewline,
    /// The end of the input was expected.
    ExpectedEof,
    /// A release carries a status outside the fixed vocabulary.
    UnknownStatus,
}

} // verus!
