//! The directions and alignments of a flex box.
use vstd::prelude::*;

verus! {

/// The direction of a flex box.
#[derive(Clone, Default, Copy, Debug, PartialEq, Eq, Structural)]
pub enum Direction {
    /// The children of the container are laid out horizontally.
    #[default]
    Horizontal,
    /// The children of the container are laid out vertically.
    Vertical,
}

/// The alignment of a child in a flex box.
#[derive(Clone, Default, Copy, Debug, PartialEq, Eq, Structural)]
pub enum Align {
    /// Align the child at the start of the flex box.
    #[default]
    Start,
    /// Align the child at the center of the flex box.
    Center,
    /// Align the child at the end of the flex box.
    End,
}

} // verus!
