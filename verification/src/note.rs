use vstd::prelude::*;

use crate::error::CommandError;
use crate::line::{is_separator, is_word};
use crate::theory::natural_from_char;

verus! {

/// One of the seven natural note letters, in the order in which `staff` numbers
/// them.
#[derive(Clone, Copy, Debug, PartialEq, Eq, Structural)]
pub enum Letter {
    A,
    B,
    C,
    D,
    E,
    F,
    G,
}

/// How far, and in which direction, a note is moved away from its natural letter.
#[derive(Clone, Copy, Debug, PartialEq, Eq, Structural)]
pub enum Accidental {
    Natural,
    Flat,
    DoubleFlat,
    Sharp,
    DoubleSharp,
}

/// A note as it is written: a letter and at most two accidental marks of one sign.
#[derive(Clone, Copy, Debug, PartialEq, Eq, Structural)]
pub struct NoteSpelling {
    pub letter: Letter,
    pub accidental: Accidental,
}

/// The letter that a character stands for, in either case.
pub open spec fn letter_of_char(c: char) -> Option<Letter> {
    if c == 'a' || c == 'A' {
        Some(Letter::A)
    } else if c == 'b' || c == 'B' {
        Some(Letter::B)
    } else if c == 'c' || c == 'C' {
        Some(Letter::C)
    } else if c == 'd' || c == 'D' {
        Some(Letter::D)
    } else if c == 'e' || c == 'E' {
        Some(Letter::E)
    } else if c == 'f' || c == 'F' {
        Some(Letter::F)
    } else if c == 'g' || c == 'G' {
        Some(Letter::G)
    } else {
        None
    }
}

/// The accidental that a run of marks stands for, if it is one of the five
/// patterns: no mark, `b`, `bb`, `#`, `##`.
pub open spec fn accidental_of_marks(marks: Seq<char>) -> Option<Accidental> {
    if marks.len() == 0 {
        Some(Accidental::Natural)
    } else if marks.len() == 1 && marks[0] == 'b' {
        Some(Accidental::Flat)
    } else if marks.len() == 2 && marks[0] == 'b' && marks[1] == 'b' {
        Some(Accidental::DoubleFlat)
    } else if marks.len() == 1 && marks[0] == '#' {
        Some(Accidental::Sharp)
    } else if marks.len() == 2 && marks[0] == '#' && marks[1] == '#' {
        Some(Accidental::DoubleSharp)
    } else {
        None
    }
}

/// The upper-case character of a letter.
pub open spec fn letter_char(letter: Letter) -> char {
    match letter {
        Letter::A => 'A',
        Letter::B => 'B',
        Letter::C => 'C',
        Letter::D => 'D',
        Letter::E => 'E',
        Letter::F => 'F',
        Letter::G => 'G',
    }
}

/// The marks that write an accidental.
pub open spec fn marks_of(accidental: Accidental) -> Seq<char> {
    match accidental {
        Accidental::Natural => Seq::empty(),
        Accidental::Flat => seq!['b'],
        Accidental::DoubleFlat => seq!['b', 'b'],
        Accidental::Sharp => seq!['#'],
        Accidental::DoubleSharp => seq!['#', '#'],
    }
}

/// A note as it is written out: its letter in upper case, then its marks.
pub open spec fn written(note: NoteSpelling) -> Seq<char> {
    seq![letter_char(note.letter)] + marks_of(note.accidental)
}

/// Whether a token is a note as `staff` writes one: an upper-case letter, then
/// one of the five patterns of marks.
pub open spec fn is_note_name(token: Seq<char>) -> bool {
    &&& token.len() >= 1
    &&& (token[0] == 'A' || token[0] == 'B' || token[0] == 'C' || token[0] == 'D' || token[0] == 'E'
        || token[0] == 'F' || token[0] == 'G')
    &&& accidental_of_marks(token.skip(1)) is Some
}

/// What a root spelling decodes to. The letter is judged first: a spelling with
/// a bad first character is `InvalidNaturalLetter` whatever follows it.
pub open spec fn decoded_root(root: Seq<char>) -> Result<NoteSpelling, CommandError> {
    if root.len() == 0 {
        Err(CommandError::InvalidNaturalLetter)
    } else {
        match letter_of_char(root[0]) {
            None => Err(CommandError::InvalidNaturalLetter),
            Some(letter) => match accidental_of_marks(root.skip(1)) {
                None => Err(CommandError::UnsupportedAccidentalPattern),
                Some(accidental) => Ok(NoteSpelling { letter, accidental }),
            },
        }
    }
}

/// Writing a note out and decoding it again gives the note back, and what is
/// written is a note name.
pub proof fn written_note_decodes(note: NoteSpelling)
    ensures
        decoded_root(written(note)) == Ok::<NoteSpelling, CommandError>(note),
        is_note_name(written(note)),
{
    let text = written(note);
    assert(text[0] == letter_char(note.letter));
    assert(text.skip(1) == marks_of(note.accidental));
}

/// A note name is a word: it is not empty, and its letter and marks are neither
/// spaces nor newlines.
pub proof fn note_name_is_word(token: Seq<char>)
    requires
        is_note_name(token),
    ensures
        is_word(token),
{
    let marks = token.skip(1);
    assert(accidental_of_marks(marks) is Some);
    assert forall|i: int| 0 <= i < token.len() implies !is_separator(#[trigger] token[i]) by {
        if i > 0 {
            assert(token[i] == marks[i - 1]);
        }
    }
}

/// Decodes the spelling of a scale's root: a letter, then at most two marks of
/// one sign, then nothing.
pub fn decode_root(root: &str) -> (decoded: Result<NoteSpelling, CommandError>)
    ensures
        decoded == decoded_root(root@),
{
    let mut chars = root.chars();
    let first = match chars.next() {
        None => {
            return Err(CommandError::InvalidNaturalLetter);
        },
        Some(c) => c,
    };
    let letter = match natural_from_char(first) {
        None => {
            return Err(CommandError::InvalidNaturalLetter);
        },
        Some(letter) => letter,
    };
    let accidental = match chars.next() {
        None => Accidental::Natural,
        Some(mark) => {
            if mark != 'b' && mark != '#' {
                return Err(CommandError::UnsupportedAccidentalPattern);
            }
            match chars.next() {
                None => if mark == 'b' {
                    Accidental::Flat
                } else {
                    Accidental::Sharp
                },
                Some(second) => {
                    if second != mark {
                        return Err(CommandError::UnsupportedAccidentalPattern);
                    }
                    match chars.next() {
                        None => if mark == 'b' {
                            Accidental::DoubleFlat
                        } else {
                            Accidental::DoubleSharp
                        },
                        Some(_) => {
                            return Err(CommandError::UnsupportedAccidentalPattern);
                        },
                    }
                },
            }
        },
    };
    Ok(NoteSpelling { letter, accidental })
}

} // verus!
