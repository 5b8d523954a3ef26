use vstd::prelude::*;
use vstd::std_specs::iter::IteratorSpec;

use crate::error::CommandError;
use crate::note::{is_note_name, letter_of_char};
use crate::theory::{chord_names, chord_spelling, natural_from_char};

verus! {

/// How many characters at the head of `rest` are the root's accidental: a `b`
/// or a `#`, taken twice where the same mark follows itself.
pub open spec fn accidental_prefix_len(rest: Seq<char>) -> int {
    if rest.len() >= 1 && (rest[0] == 'b' || rest[0] == '#') {
        if rest.len() >= 2 && rest[1] == rest[0] {
            2
        } else {
            1
        }
    } else {
        0
    }
}

/// What is left of a chord symbol after its root: the quality and the sevenths.
pub open spec fn after_root(symbol: Seq<char>) -> Seq<char> {
    symbol.skip(1 + accidental_prefix_len(symbol.skip(1)))
}

/// What is left of a chord symbol after its root and the `m` of a minor chord.
pub open spec fn after_quality(symbol: Seq<char>) -> Seq<char> {
    let quality = after_root(symbol);
    if quality.len() >= 1 && quality[0] == 'm' {
        quality.skip(1)
    } else {
        quality
    }
}

/// The chord symbols that `staff` reads: a note letter, an accidental of one or
/// two equal marks or none, an `m` for minor or nothing for major, and then
/// any number of `7`. On every other text its parser panics.
pub open spec fn is_chord_symbol(symbol: Seq<char>) -> bool {
    &&& symbol.len() >= 1
    &&& letter_of_char(symbol[0]) is Some
    &&& forall|i: int|
        0 <= i < after_quality(symbol).len() ==> #[trigger] after_quality(symbol)[i] == '7'
}

/// What is still to be read of a text: the character in hand, if there is
/// one, and then what the iterator has left.
spec fn unread(next: Option<char>, left: Seq<char>) -> Seq<char> {
    match next {
        Some(c) => seq![c] + left,
        None => Seq::empty(),
    }
}

/// Whether `symbol` is a chord symbol that `staff` reads.
pub fn recognize_chord_symbol(symbol: &str) -> (recognized: bool)
    ensures
        recognized == is_chord_symbol(symbol@),
{
    let mut chars = symbol.chars();
    let first = match chars.next() {
        None => {
            return false;
        },
        Some(c) => c,
    };
    if natural_from_char(first).is_none() {
        return false;
    }
    let mut next = chars.next();
    assert(unread(next, chars.remaining()) == symbol@.skip(1));
    match next {
        Some(mark) => {
            if mark == 'b' || mark == '#' {
                next = chars.next();
                match next {
                    Some(second) => {
                        if second == mark {
                            next = chars.next();
                        }
                    },
                    None => {},
                }
            }
        },
        None => {},
    }
    assert(unread(next, chars.remaining()) == after_root(symbol@));
    match next {
        Some(quality) => {
            if quality == 'm' {
                next = chars.next();
            }
        },
        None => {},
    }
    assert(unread(next, chars.remaining()) == after_quality(symbol@));
    let ghost sevenths = after_quality(symbol@);
    let ghost mut seen: int = 0;
    loop
        invariant
            sevenths == after_quality(symbol@),
            0 <= seen <= sevenths.len(),
            unread(next, chars.remaining()) == sevenths.skip(seen),
            forall|i: int| 0 <= i < seen ==> #[trigger] sevenths[i] == '7',
        ensures
            seen == sevenths.len(),
        decreases sevenths.len() - seen,
    {
        match next {
            None => {
                break;
            },
            Some(c) => {
                assert(sevenths.skip(seen)[0] == c);
                if c != '7' {
                    return false;
                }
                assert(sevenths.skip(seen).skip(1) == sevenths.skip(seen + 1));
                assert(unread(next, chars.remaining()).skip(1) == chars.remaining());
                next = chars.next();
                proof {
                    seen = seen + 1;
                }
            },
        }
    }
    true
}

/// The note names of the chord that `symbol` names, from its root upwards.
///
/// A symbol that `staff` does not read gives `ChordSymbolParseFailure`, and so
/// does one that its parser turns down.
pub fn chord_notes(symbol: &str) -> (notes: Result<Vec<String>, CommandError>)
    ensures
        is_chord_symbol(symbol@) ==> notes is Ok,
        !is_chord_symbol(symbol@) ==> notes == Err::<Vec<String>, CommandError>(
            CommandError::ChordSymbolParseFailure,
        ),
        notes matches Ok(names) ==> {
            &&& names.deep_view() == chord_spelling(symbol@)
            &&& names@.len() >= 3
            &&& forall|i: int| 0 <= i < names@.len() ==> is_note_name(#[trigger] names@[i]@)
        },
{
    if !recognize_chord_symbol(symbol) {
        return Err(CommandError::ChordSymbolParseFailure);
    }
    match chord_names(symbol) {
        Some(names) => Ok(names),
        None => Err(CommandError::ChordSymbolParseFailure),
    }
}

} // verus!
