use vstd::prelude::*;

verus! {

/// Why a request produced no line of notes.
#[derive(Clone, Copy, Debug, PartialEq, Eq, Structural)]
pub enum CommandError {
    /// The root spelling is empty or does not begin with a note letter.
    InvalidNaturalLetter,
    /// What follows the root's letter is none of: nothing, `b`, `bb`, `#`, `##`.
    UnsupportedAccidentalPattern,
    /// The chord symbol is not one that `staff` can read.
    ChordSymbolParseFailure,
    /// `staff` cannot spell some degree of the requested scale from this root.
    UnspellableScale,
}

} // verus!
