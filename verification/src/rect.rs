//! Rectangles in physical (pre-rotation) device pixel coordinates.

use vstd::prelude::*;

verus! {

/// An axis-aligned region of the display, in physical device pixels.
///
/// A rectangle of zero area stands for "unset".
#[derive(Debug, Clone, Copy, PartialEq, Eq, Structural)]
pub struct FbInkRect {
    pub left: u16,
    pub top: u16,
    pub width: u16,
    pub height: u16,
}

impl FbInkRect {
    /// The unset rectangle: all four fields zero.
    pub open spec fn unset() -> FbInkRect {
        FbInkRect { left: 0, top: 0, width: 0, height: 0 }
    }

    /// True when the rectangle covers no pixel.
    pub open spec fn spec_is_empty(&self) -> bool {
        self.width == 0 || self.height == 0
    }

    /// One past the rightmost column covered.
    pub open spec fn spec_right(&self) -> int {
        self.left + self.width
    }

    /// One past the lowest row covered.
    pub open spec fn spec_bottom(&self) -> int {
        self.top + self.height
    }

    /// True when the pixel at `(x, y)` lies inside the rectangle.
    pub open spec fn covers(&self, x: int, y: int) -> bool {
        self.left <= x < self.spec_right() && self.top <= y < self.spec_bottom()
    }

    /// True when `inner` lies fully inside `self`, edges included.
    pub open spec fn spec_contains(&self, inner: FbInkRect) -> bool {
        &&& self.left <= inner.left
        &&& self.top <= inner.top
        &&& inner.spec_right() <= self.spec_right()
        &&& inner.spec_bottom() <= self.spec_bottom()
    }

    /// True when `inner` may serve as a clip of a capture of `self`: it covers
    /// at least one pixel and none outside `self`.
    pub open spec fn admits(&self, inner: FbInkRect) -> bool {
        !inner.spec_is_empty() && self.spec_contains(inner)
    }

    pub fn new(left: u16, top: u16, width: u16, height: u16) -> (r: FbInkRect)
        ensures
            r == (FbInkRect { left, top, width, height }),
    {
        FbInkRect { left, top, width, height }
    }

    #[verifier::when_used_as_spec(spec_is_empty)]
    pub fn is_empty(&self) -> (r: bool)
        ensures
            r == self.spec_is_empty(),
    {
        self.width == 0 || self.height == 0
    }

    pub fn right(&self) -> (r: u32)
        ensures
            r == self.spec_right(),
    {
        let left: u32 = self.left as u32;
        let width: u32 = self.width as u32;
        left + width
    }

    pub fn bottom(&self) -> (r: u32)
        ensures
            r == self.spec_bottom(),
    {
        let top: u32 = self.top as u32;
        let height: u32 = self.height as u32;
        top + height
    }

    #[verifier::when_used_as_spec(spec_contains)]
    pub fn contains(&self, inner: FbInkRect) -> (r: bool)
        ensures
            r == self.spec_contains(inner),
    {
        self.left <= inner.left && self.top <= inner.top && inner.right() <= self.right()
            && inner.bottom() <= self.bottom()
    }
}

impl Default for FbInkRect {
    fn default() -> (r: FbInkRect)
        ensures
            r == FbInkRect::unset(),
    {
        FbInkRect { left: 0, top: 0, width: 0, height: 0 }
    }
}

/// Containment is reflexive and transitive, and a contained rectangle covers
/// only pixels that its container covers.
pub proof fn lemma_containment(outer: FbInkRect, middle: FbInkRect, inner: FbInkRect)
    ensures
        outer.spec_contains(outer),
        outer.spec_contains(middle) && middle.spec_contains(inner) ==> outer.spec_contains(inner),
        outer.spec_contains(inner) ==> forall|x: int, y: int|
            inner.covers(x, y) ==> outer.covers(x, y),
{
}

} // verus!
