use vstd::prelude::*;

use crate::error::CommandError;
use crate::mode::{scale_kind, Mode, ScaleKind};
use crate::note::{is_note_name, written, Accidental, Letter, NoteSpelling};
use crate::theory::{
    dorian_scale_names, dorian_scale_spelling, major_scale_names, major_scale_spelling,
    natural_minor_scale_names, natural_minor_scale_spelling,
};

verus! {

/// The roots from which `staff` spells every degree of a scale of the given
/// kind. It writes a degree with at most two marks, and where the degree and its
/// letter lie on two sides of the octave's seam, with one mark only; at a degree
/// that it cannot write so, it panics. Every root with no mark or a single one
/// is spelled in all three kinds; of the doubly marked roots, only those named
/// here.
pub open spec fn scale_spellable(root: NoteSpelling, kind: ScaleKind) -> bool {
    match (root.accidental, kind) {
        (Accidental::DoubleFlat, ScaleKind::Major) => {
            root.letter == Letter::D || root.letter == Letter::E || root.letter == Letter::A
                || root.letter == Letter::B
        },
        (Accidental::DoubleFlat, ScaleKind::NaturalMinor) => root.letter == Letter::B,
        (Accidental::DoubleFlat, ScaleKind::Dorian) => {
            root.letter == Letter::E || root.letter == Letter::B
        },
        (Accidental::DoubleSharp, ScaleKind::Major) => root.letter == Letter::F,
        (Accidental::DoubleSharp, ScaleKind::NaturalMinor) => {
            root.letter == Letter::C || root.letter == Letter::D || root.letter == Letter::F
                || root.letter == Letter::G
        },
        (Accidental::DoubleSharp, ScaleKind::Dorian) => {
            root.letter == Letter::C || root.letter == Letter::F || root.letter == Letter::G
        },
        _ => true,
    }
}

/// The note names of the scale of the given kind on `root`, as `staff` spells them.
pub open spec fn scale_spelling(root: NoteSpelling, kind: ScaleKind) -> Seq<Seq<char>> {
    match kind {
        ScaleKind::Major => major_scale_spelling(root),
        ScaleKind::NaturalMinor => natural_minor_scale_spelling(root),
        ScaleKind::Dorian => dorian_scale_spelling(root),
    }
}

/// Whether `staff` can spell the scale of the given kind on `root`.
pub fn can_spell_scale(root: NoteSpelling, kind: ScaleKind) -> (spellable: bool)
    ensures
        spellable == scale_spellable(root, kind),
{
    match root.accidental {
        Accidental::DoubleFlat => match kind {
            ScaleKind::Major => match root.letter {
                Letter::D | Letter::E | Letter::A | Letter::B => true,
                _ => false,
            },
            ScaleKind::NaturalMinor => match root.letter {
                Letter::B => true,
                _ => false,
            },
            ScaleKind::Dorian => match root.letter {
                Letter::E | Letter::B => true,
                _ => false,
            },
        },
        Accidental::DoubleSharp => match kind {
            ScaleKind::Major => match root.letter {
                Letter::F => true,
                _ => false,
            },
            ScaleKind::NaturalMinor => match root.letter {
                Letter::C | Letter::D | Letter::F | Letter::G => true,
                _ => false,
            },
            ScaleKind::Dorian => match root.letter {
                Letter::C | Letter::F | Letter::G => true,
                _ => false,
            },
        },
        _ => true,
    }
}

/// The note names of the scale on `root` in the given mode, from the root upwards.
///
/// Major and ionian build the major scale, minor and aeolian the natural minor,
/// dorian the dorian mode. A root that `staff` cannot spell the scale from gives
/// `UnspellableScale`, and no call into `staff` is made.
pub fn scale_notes(root: NoteSpelling, mode: Mode) -> (notes: Result<Vec<String>, CommandError>)
    ensures
        scale_spellable(root, scale_kind(mode)) ==> notes is Ok,
        !scale_spellable(root, scale_kind(mode)) ==> notes == Err::<Vec<String>, CommandError>(
            CommandError::UnspellableScale,
        ),
        notes matches Ok(names) ==> {
            &&& names.deep_view() == scale_spelling(root, scale_kind(mode))
            &&& names@.len() == 7
            &&& names@[0]@ == written(root)
            &&& forall|i: int| 0 <= i < names@.len() ==> is_note_name(#[trigger] names@[i]@)
        },
{
    let kind = mode.kind();
    if !can_spell_scale(root, kind) {
        return Err(CommandError::UnspellableScale);
    }
    let names = match kind {
        ScaleKind::Major => major_scale_names(root),
        ScaleKind::NaturalMinor => natural_minor_scale_names(root),
        ScaleKind::Dorian => dorian_scale_names(root),
    };
    Ok(names)
}

} // verus!
