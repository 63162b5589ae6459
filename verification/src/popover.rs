//! Where a popover hangs on the element that opens it.

use vstd::prelude::*;

verus! {

/// A corner of a rectangle.
#[derive(Clone, Copy, Debug, PartialEq, Eq, Hash, Structural)]
pub enum AnchorCorner {
    TopLeft,
    TopRight,
    BottomLeft,
    BottomRight,
}

impl AnchorCorner {
    /// The corner on the same side, at the other end of that side's height.
    pub open spec fn flipped(self) -> AnchorCorner {
        match self {
            AnchorCorner::TopLeft => AnchorCorner::BottomLeft,
            AnchorCorner::TopRight => AnchorCorner::BottomRight,
            AnchorCorner::BottomLeft => AnchorCorner::TopLeft,
            AnchorCorner::BottomRight => AnchorCorner::TopRight,
        }
    }
}

/// The corner of the opening element at which a popover hangs that is
/// anchored by its own corner `anchor`: a popover anchored by a top corner
/// hangs below the element, one anchored by a bottom corner stands on it,
/// and in both cases it keeps to the anchor's side.
pub fn resolved_corner(anchor: AnchorCorner) -> (corner: AnchorCorner)
    ensures
        corner == anchor.flipped(),
{
    match anchor {
        AnchorCorner::TopLeft => AnchorCorner::BottomLeft,
        AnchorCorner::TopRight => AnchorCorner::BottomRight,
        AnchorCorner::BottomLeft => AnchorCorner::TopLeft,
        AnchorCorner::BottomRight => AnchorCorner::TopRight,
    }
}

/// The corner at which a popover hangs is never its own anchor, and
/// resolving that corner in turn leads back to the anchor.
pub proof fn lemma_flipped_twice(anchor: AnchorCorner)
    ensures
        anchor.flipped() != anchor,
        anchor.flipped().flipped() == anchor,
{
}

} // verus!
