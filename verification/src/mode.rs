use vstd::prelude::*;

verus! {

/// The mode that a scale is asked for in.
#[derive(Clone, Copy, Debug, PartialEq, Eq, Structural)]
pub enum Mode {
    Major,
    Minor,
    Ionian,
    Aeolian,
    Dorian,
}

/// The interval pattern that a scale is built from.
#[derive(Clone, Copy, Debug, PartialEq, Eq, Structural)]
pub enum ScaleKind {
    Major,
    NaturalMinor,
    Dorian,
}

/// Ionian is another name for major, and aeolian for natural minor.
pub open spec fn scale_kind(mode: Mode) -> ScaleKind {
    match mode {
        Mode::Major | Mode::Ionian => ScaleKind::Major,
        Mode::Minor | Mode::Aeolian => ScaleKind::NaturalMinor,
        Mode::Dorian => ScaleKind::Dorian,
    }
}

impl Mode {
    /// The pattern that builds a scale in this mode.
    pub fn kind(self) -> (kind: ScaleKind)
        ensures
            kind == scale_kind(self),
    {
        match self {
            Mode::Major | Mode::Ionian => ScaleKind::Major,
            Mode::Minor | Mode::Aeolian => ScaleKind::NaturalMinor,
            Mode::Dorian => ScaleKind::Dorian,
        }
    }
}

} // verus!
