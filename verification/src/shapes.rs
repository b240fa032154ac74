//! Elements that draw a shape behind their child, and may clip the child to it.
use vstd::prelude::*;

verus! {

/// The shape of a rectangle.
#[derive(Debug, Clone, Copy, Default)]
pub struct Rect;

/// The shape of an ellipse.
#[derive(Debug, Clone, Copy, Default)]
pub struct Ellipse;

/// An element that draws a shape.
pub struct ShapeElement<S, D, C, E> {
    /// The shape to draw.
    pub shape: S,
    /// Information about how to draw the shape.
    pub draw: D,
    /// Information about how to clip the shape.
    pub clip: C,
    /// Whether hits should be blocked without caring about the child element.
    pub block_all_hits: bool,
    /// The child element of the shape.
    pub child: E,
}

impl<S: Default> ShapeElement<S, (), (), ()> {
    /// Creates a new shape element: the default shape, neither drawn nor clipping, without
    /// child, and blocking all hits.
    pub fn new() -> (r: Self)
        ensures
            call_ensures(S::default, (), r.shape),
            r.draw == (),
            r.clip == (),
            r.block_all_hits,
            r.child == (),
    {
        ShapeElement { shape: S::default(), draw: (), clip: (), block_all_hits: true, child: () }
    }
}

impl<S, D, C, E> ShapeElement<S, D, C, E> {
    /// Sets whether the shape element should be allowed to block all hits without caring about
    /// the child element.
    pub fn with_no_block_hits(self) -> (r: Self)
        ensures
            r.shape == self.shape,
            r.draw == self.draw,
            r.clip == self.clip,
            !r.block_all_hits,
            r.child == self.child,
    {
        ShapeElement {
            shape: self.shape,
            draw: self.draw,
            clip: self.clip,
            block_all_hits: false,
            child: self.child,
        }
    }

    /// Sets the child element of the shape.
    pub fn with_child<E2>(self, element: E2) -> (r: ShapeElement<S, D, C, E2>)
        ensures
            r.shape == self.shape,
            r.draw == self.draw,
            r.clip == self.clip,
            r.block_all_hits == self.block_all_hits,
            r.child == element,
    {
        ShapeElement {
            shape: self.shape,
            draw: self.draw,
            clip: self.clip,
            block_all_hits: self.block_all_hits,
            child: element,
        }
    }

    /// Whether a point hits the shape element, from what the parts answer: `in_shape` tells
    /// whether the point lies in the shape, `clip_hit` whether the clip lets the point through
    /// (a shape that does not clip lets nothing through), and `child_hit` whether the point
    /// hits the child.
    ///
    /// An element that blocks all hits is hit exactly where its shape is; otherwise it is hit
    /// where the clip lets the point through and the child is hit.
    pub fn hit(&self, in_shape: bool, clip_hit: bool, child_hit: bool) -> (r: bool)
        ensures
            r == if self.block_all_hits {
                in_shape
            } else {
                clip_hit && child_hit
            },
    {
        if self.block_all_hits {
            in_shape
        } else {
            clip_hit && child_hit
        }
    }
}

} // verus!
