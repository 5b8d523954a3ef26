use vstd::prelude::*;

use crate::chord::{chord_notes, is_chord_symbol};
use crate::error::CommandError;
use crate::line::{
    format_line, is_word, line_of, line_separates_words, tokens_of, well_separated,
};
use crate::mode::{scale_kind, Mode};
use crate::note::{decode_root, decoded_root, note_name_is_word, written, Accidental};
use crate::scale::{scale_notes, scale_spellable, scale_spelling};
use crate::theory::chord_spelling;

verus! {

/// What is asked for: the notes of a chord, or those of a scale.
#[derive(Clone, Debug)]
pub enum Request {
    /// The chord that the symbol `name` names.
    Chord { name: String },
    /// The scale on the note that `root` spells, in the given mode.
    Scale { root: String, mode: Mode },
}

/// The line that answers a chord request, or the error that stands in its place.
pub open spec fn chord_output(symbol: Seq<char>) -> Result<Seq<char>, CommandError> {
    if is_chord_symbol(symbol) {
        Ok(line_of(chord_spelling(symbol)))
    } else {
        Err(CommandError::ChordSymbolParseFailure)
    }
}

/// The line that answers a scale request, or the error that stands in its
/// place. The root is decoded first, so its errors come before
/// `UnspellableScale`.
pub open spec fn scale_output(root: Seq<char>, mode: Mode) -> Result<Seq<char>, CommandError> {
    match decoded_root(root) {
        Err(error) => Err(error),
        Ok(note) => if scale_spellable(note, scale_kind(mode)) {
            Ok(line_of(scale_spelling(note, scale_kind(mode))))
        } else {
            Err(CommandError::UnspellableScale)
        },
    }
}

/// The answer to a request, as a function of its text alone.
pub open spec fn output_of(request: Request) -> Result<Seq<char>, CommandError> {
    match request {
        Request::Chord { name } => chord_output(name@),
        Request::Scale { root, mode } => scale_output(root@, mode),
    }
}

/// An answer with its line taken as the characters it holds.
pub open spec fn text_of(answer: Result<String, CommandError>) -> Result<Seq<char>, CommandError> {
    match answer {
        Ok(line) => Ok(line@),
        Err(error) => Err(error),
    }
}

/// Whether two requests read the same: the same command on the same text.
pub open spec fn same_text(first: Request, second: Request) -> bool {
    match (first, second) {
        (Request::Chord { name: a }, Request::Chord { name: b }) => a@ == b@,
        (Request::Scale { root: a, mode: m }, Request::Scale { root: b, mode: n }) => a@ == b@ && m
            == n,
        _ => false,
    }
}

/// The line of the notes of the chord that `symbol` names.
///
/// Every symbol that `staff` reads gets its line, of three notes or more.
pub fn chord_line(symbol: &str) -> (answer: Result<String, CommandError>)
    ensures
        text_of(answer) == chord_output(symbol@),
        answer matches Ok(line) ==> {
            &&& well_separated(line@)
            &&& tokens_of(line@) == chord_spelling(symbol@)
            &&& tokens_of(line@).len() >= 3
        },
{
    match chord_notes(symbol) {
        Err(error) => Err(error),
        Ok(names) => {
            proof {
                let words = names.deep_view();
                assert forall|i: int| 0 <= i < words.len() implies is_word(#[trigger] words[i]) by {
                    assert(words[i] == names@[i]@);
                    note_name_is_word(words[i]);
                }
                line_separates_words(words);
            }
            Ok(format_line(&names))
        },
    }
}

/// The line of the notes of the scale on the note that `root` spells, in the
/// given mode: seven notes, from the root upwards.
pub fn scale_line(root: &str, mode: Mode) -> (answer: Result<String, CommandError>)
    ensures
        text_of(answer) == scale_output(root@, mode),
        answer matches Ok(line) ==> {
            &&& well_separated(line@)
            &&& tokens_of(line@) == scale_spelling(decoded_root(root@)->Ok_0, scale_kind(mode))
            &&& tokens_of(line@).len() == 7
            &&& tokens_of(line@)[0] == written(decoded_root(root@)->Ok_0)
        },
{
    let note = match decode_root(root) {
        Err(error) => {
            return Err(error);
        },
        Ok(note) => note,
    };
    match scale_notes(note, mode) {
        Err(error) => Err(error),
        Ok(names) => {
            proof {
                let words = names.deep_view();
                assert forall|i: int| 0 <= i < words.len() implies is_word(#[trigger] words[i]) by {
                    assert(words[i] == names@[i]@);
                    note_name_is_word(words[i]);
                }
                line_separates_words(words);
            }
            Ok(format_line(&names))
        },
    }
}

/// Answers a request with the line to print, or with the error that ends it.
pub fn respond(request: &Request) -> (answer: Result<String, CommandError>)
    ensures
        text_of(answer) == output_of(*request),
        answer matches Ok(line) ==> well_separated(line@),
{
    match request {
        Request::Chord { name } => chord_line(name.as_str()),
        Request::Scale { root, mode } => scale_line(root.as_str(), *mode),
    }
}

/// Asking twice gives the same answer: requests that read the same have the
/// same line, character for character, or the same error.
pub proof fn same_request_same_output(first: Request, second: Request)
    requires
        same_text(first, second),
    ensures
        output_of(first) == output_of(second),
{
}

/// A root with no mark or a single one has its scale in every mode.
pub proof fn plain_roots_have_scales(root: Seq<char>, mode: Mode)
    requires
        decoded_root(root) is Ok,
        decoded_root(root)->Ok_0.accidental != Accidental::DoubleFlat,
        decoded_root(root)->Ok_0.accidental != Accidental::DoubleSharp,
    ensures
        scale_output(root, mode) == Ok::<Seq<char>, CommandError>(
            line_of(scale_spelling(decoded_root(root)->Ok_0, scale_kind(mode))),
        ),
{
}

} // verus!
