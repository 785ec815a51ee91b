//! Where text is placed on the display.

use vstd::prelude::*;

verus! {

/// The options of the driver's configuration that decide where text goes.
#[derive(Debug, Clone, Copy, PartialEq, Eq, Structural)]
pub struct Positioning {
    /// Row of the grid to start at.
    pub row: i16,
    /// Column of the grid to start at.
    pub col: i16,
    /// Horizontal offset in pixels.
    pub hoffset: i16,
    /// Vertical offset in pixels.
    pub voffset: i16,
    pub is_centered: bool,
    pub is_halfway: bool,
    pub is_padded: bool,
    pub is_rpadded: bool,
}

impl Positioning {
    /// The positioning that puts text at the pixel `(x, y)`: the offsets are
    /// the coordinates, and every other option that moves text is off.
    pub open spec fn spec_at(x: i16, y: i16) -> Positioning {
        Positioning {
            row: 0,
            col: 0,
            hoffset: x,
            voffset: y,
            is_centered: false,
            is_halfway: false,
            is_padded: false,
            is_rpadded: false,
        }
    }

    #[verifier::when_used_as_spec(spec_at)]
    pub fn at(x: i16, y: i16) -> (r: Positioning)
        ensures
            r == Self::spec_at(x, y),
    {
        Positioning {
            row: 0,
            col: 0,
            hoffset: x,
            voffset: y,
            is_centered: false,
            is_halfway: false,
            is_padded: false,
            is_rpadded: false,
        }
    }
}

} // verus!
