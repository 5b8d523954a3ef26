//! Names of the notes of a chord or of a scale, as one line of text.
//!
//! A request is either a chord symbol (`Cm7`) or the root and mode of a scale
//! (`Eb`, dorian). The note spellings themselves come from the `staff` crate;
//! this library decodes the root spelling, guards and dispatches the calls into
//! `staff`, and lays the resulting note names out on a line.

pub mod chord;
pub mod command;
pub mod error;
pub mod line;
pub mod mode;
pub mod note;
pub mod scale;
pub mod theory;
