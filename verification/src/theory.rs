//! The calls into `staff`. Nothing in this file is proved: each contract here is
//! read off the source of `staff` and believed.

use vstd::prelude::*;

use crate::chord::is_chord_symbol;
use crate::mode::ScaleKind;
use crate::note::{is_note_name, letter_of_char, written, Accidental, Letter, NoteSpelling};
use crate::scale::scale_spellable;

verus! {

/// `staff::Natural::try_from(char)`: the seven letters, in upper or lower case,
/// convert to their natural; every other character is handed back as the error.
#[verifier::external_body]
pub(crate) fn natural_from_char(c: char) -> (letter: Option<Letter>)
    ensures
        letter == letter_of_char(c),
{
    match staff::Natural::try_from(c) {
        Ok(staff::Natural::A) => Some(Letter::A),
        Ok(staff::Natural::B) => Some(Letter::B),
        Ok(staff::Natural::C) => Some(Letter::C),
        Ok(staff::Natural::D) => Some(Letter::D),
        Ok(staff::Natural::E) => Some(Letter::E),
        Ok(staff::Natural::F) => Some(Letter::F),
        Ok(staff::Natural::G) => Some(Letter::G),
        Err(_) => None,
    }
}

/// The note names of the major scale on a root, as `staff` spells them.
pub uninterp spec fn major_scale_spelling(root: NoteSpelling) -> Seq<Seq<char>>;

/// `staff::Scale::major` on the note that `root` spells, run to its end, each
/// degree turned into text by its `Display`. The letter goes over by its place
/// among A to G, which is how `staff::Natural::from(u8)` numbers them. The scale
/// has seven degrees; the first is the root as written, and each comes out as an
/// upper-case letter with at most two marks. On a root outside `scale_spellable`
/// the iterator panics at the first degree that it cannot spell.
#[verifier::external_body]
pub(crate) fn major_scale_names(root: NoteSpelling) -> (names: Vec<String>)
    requires
        scale_spellable(root, ScaleKind::Major),
    ensures
        names.deep_view() == major_scale_spelling(root),
        names@.len() == 7,
        names@[0]@ == written(root),
        forall|i: int| 0 <= i < names@.len() ==> is_note_name(#[trigger] names@[i]@),
{
    let accidental = match root.accidental {
        Accidental::Natural => staff::note::Accidental::Natural,
        Accidental::Flat => staff::note::Accidental::Flat,
        Accidental::DoubleFlat => staff::note::Accidental::DoubleFlat,
        Accidental::Sharp => staff::note::Accidental::Sharp,
        Accidental::DoubleSharp => staff::note::Accidental::DoubleSharp,
    };
    let note = staff::Note::new(staff::Natural::from(root.letter as u8), accidental);
    staff::Scale::major(note).map(|degree| degree.to_string()).collect()
}

/// The note names of the natural minor scale on a root, as `staff` spells them.
pub uninterp spec fn natural_minor_scale_spelling(root: NoteSpelling) -> Seq<Seq<char>>;

/// `staff::Scale::natural_minor` on the note that `root` spells, run to its end, each
/// degree turned into text by its `Display`. The letter goes over by its place
/// among A to G, which is how `staff::Natural::from(u8)` numbers them. The scale
/// has seven degrees; the first is the root as written, and each comes out as an
/// upper-case letter with at most two marks. On a root outside `scale_spellable`
/// the iterator panics at the first degree that it cannot spell.
#[verifier::external_body]
pub(crate) fn natural_minor_scale_names(root: NoteSpelling) -> (names: Vec<String>)
    requires
        scale_spellable(root, ScaleKind::NaturalMinor),
    ensures
        names.deep_view() == natural_minor_scale_spelling(root),
        names@.len() == 7,
        names@[0]@ == written(root),
        forall|i: int| 0 <= i < names@.len() ==> is_note_name(#[trigger] names@[i]@),
{
    let accidental = match root.accidental {
        Accidental::Natural => staff::note::Accidental::Natural,
        Accidental::Flat => staff::note::Accidental::Flat,
        Accidental::DoubleFlat => staff::note::Accidental::DoubleFlat,
        Accidental::Sharp => staff::note::Accidental::Sharp,
        Accidental::DoubleSharp => staff::note::Accidental::DoubleSharp,
    };
    let note = staff::Note::new(staff::Natural::from(root.letter as u8), accidental);
    staff::Scale::natural_minor(note).map(|degree| degree.to_string()).collect()
}

/// The note names of the dorian mode on a root, as `staff` spells them.
pub uninterp spec fn dorian_scale_spelling(root: NoteSpelling) -> Seq<Seq<char>>;

/// `staff::Scale::dorian` on the note that `root` spells, run to its end, each
/// degree turned into text by its `Display`. The letter goes over by its place
/// among A to G, which is how `staff::Natural::from(u8)` numbers them. The scale
/// has seven degrees; the first is the root as written, and each comes out as an
/// upper-case letter with at most two marks. On a root outside `scale_spellable`
/// the iterator panics at the first degree that it cannot spell.
#[verifier::external_body]
pub(crate) fn dorian_scale_names(root: NoteSpelling) -> (names: Vec<String>)
    requires
        scale_spellable(root, ScaleKind::Dorian),
    ensures
        names.deep_view() == dorian_scale_spelling(root),
        names@.len() == 7,
        names@[0]@ == written(root),
        forall|i: int| 0 <= i < names@.len() ==> is_note_name(#[trigger] names@[i]@),
{
    let accidental = match root.accidental {
        Accidental::Natural => staff::note::Accidental::Natural,
        Accidental::Flat => staff::note::Accidental::Flat,
        Accidental::DoubleFlat => staff::note::Accidental::DoubleFlat,
        Accidental::Sharp => staff::note::Accidental::Sharp,
        Accidental::DoubleSharp => staff::note::Accidental::DoubleSharp,
    };
    let note = staff::Note::new(staff::Natural::from(root.letter as u8), accidental);
    staff::Scale::dorian(note).map(|degree| degree.to_string()).collect()
}

/// The note names of the chord that a symbol names, as `staff` spells them.
pub uninterp spec fn chord_spelling(symbol: Seq<char>) -> Seq<Seq<char>>;

/// `<staff::Chord as FromStr>::from_str`, then the chord's own iterator run to
/// its end, each pitch turned into text by its `Display`. On a symbol in
/// `is_chord_symbol` the parser returns a chord; on any other it panics. A chord
/// holds its root, a third and a fifth, and a seventh where the symbol has a
/// `7`; a pitch is written as an upper-case letter, followed by `#` where it is
/// raised.
#[verifier::external_body]
pub(crate) fn chord_names(symbol: &str) -> (names: Option<Vec<String>>)
    requires
        is_chord_symbol(symbol@),
    ensures
        names is Some,
        names->0.deep_view() == chord_spelling(symbol@),
        names->0@.len() >= 3,
        forall|i: int| 0 <= i < names->0@.len() ==> is_note_name(#[trigger] names->0@[i]@),
{
    match symbol.parse::<staff::Chord>() {
        Ok(chord) => Some(chord.into_iter().map(|pitch| pitch.to_string()).collect()),
        Err(()) => None,
    }
}

} // verus!
