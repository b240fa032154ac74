//! An element that carries data along with a child.
use vstd::prelude::*;

verus! {

/// An element that carries data along with a child.
///
/// The data is ignored and is simply here to be used externally.
pub struct WithData<T, E> {
    /// The data.
    pub data: T,
    /// The child element.
    pub child: E,
}

} // verus!
