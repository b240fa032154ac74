//! The directions and alignments of a linear layout.
use vstd::prelude::*;

verus! {

/// A direction in which elements can be placed.
#[derive(Debug, Clone, Copy, PartialEq, Eq, Hash, Structural)]
pub enum Direction {
    /// Elements are placed horizontally.
    Horizontal,
    /// Elements are placed vertically.
    Vertical,
}

/// Describes how to justify the children of a layout along the main axis.
#[derive(Debug, Clone, Copy, PartialEq, Eq, Hash, Structural)]
pub enum Justify {
    /// Children should be justified at the start of the layout.
    Start,
    /// Children should be justified at the center of the layout.
    Center,
    /// Children should be justified at the end of the layout.
    End,
}

/// Describes how to align the children of a layout along the cross axis.
#[derive(Debug, Clone, Copy, PartialEq, Eq, Hash, Structural)]
pub enum Align {
    /// Children should be aligned at the start of the layout.
    Start,
    /// Children should be aligned at the center of the layout.
    Center,
    /// Children should be aligned at the end of the layout.
    End,
    /// The children should take up the full length of the cross-axis.
    Stretch,
}

} // verus!
