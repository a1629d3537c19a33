//! Texture rectangles of faces, in texels.

use vstd::prelude::*;

verus! {

/// A point of a texture, in texels from its top left corner.
#[derive(Clone, Copy, Debug, PartialEq, Eq, Structural, Hash)]
pub struct UvPoint {
    pub x: u16,
    pub y: u16,
}

/// The texture rectangle of one face, corner by corner.
#[derive(Clone, Copy, Debug, PartialEq, Eq, Structural, Hash)]
pub struct FaceUv {
    pub top_left: UvPoint,
    pub top_right: UvPoint,
    pub bottom_left: UvPoint,
    pub bottom_right: UvPoint,
}

/// The texture rectangles of the six faces of a box.
#[derive(Clone, Copy, Debug, PartialEq, Eq, Structural, Hash)]
pub struct CubeFaceUvs {
    pub north: FaceUv,
    pub south: FaceUv,
    pub east: FaceUv,
    pub west: FaceUv,
    pub up: FaceUv,
    pub down: FaceUv,
}

impl FaceUv {
    /// The rectangle with its left and right corners swapped.
    pub open spec fn flipped_horizontally(self) -> FaceUv {
        FaceUv {
            top_left: self.top_right,
            top_right: self.top_left,
            bottom_left: self.bottom_right,
            bottom_right: self.bottom_left,
        }
    }

    /// The rectangle with its top and bottom corners swapped.
    pub open spec fn flipped_vertically(self) -> FaceUv {
        FaceUv {
            top_left: self.bottom_left,
            top_right: self.bottom_right,
            bottom_left: self.top_left,
            bottom_right: self.top_right,
        }
    }

    /// The axis-aligned rectangle between two corners.
    pub fn from_rectangle(left: u16, top: u16, right: u16, bottom: u16) -> (uv: FaceUv)
        ensures
            uv.top_left == (UvPoint { x: left, y: top }),
            uv.top_right == (UvPoint { x: right, y: top }),
            uv.bottom_left == (UvPoint { x: left, y: bottom }),
            uv.bottom_right == (UvPoint { x: right, y: bottom }),
    {
        FaceUv {
            top_left: UvPoint { x: left, y: top },
            top_right: UvPoint { x: right, y: top },
            bottom_left: UvPoint { x: left, y: bottom },
            bottom_right: UvPoint { x: right, y: bottom },
        }
    }

    /// Swaps the left corners with the right corners.
    #[verifier::when_used_as_spec(flipped_horizontally)]
    pub fn flip_horizontally(self) -> (flipped: FaceUv)
        ensures
            flipped == self.flipped_horizontally(),
            flipped.flipped_horizontally() == self,
    {
        FaceUv {
            top_left: self.top_right,
            top_right: self.top_left,
            bottom_left: self.bottom_right,
            bottom_right: self.bottom_left,
        }
    }

    /// Swaps the top corners with the bottom corners.
    #[verifier::when_used_as_spec(flipped_vertically)]
    pub fn flip_vertically(self) -> (flipped: FaceUv)
        ensures
            flipped == self.flipped_vertically(),
            flipped.flipped_vertically() == self,
    {
        FaceUv {
            top_left: self.bottom_left,
            top_right: self.bottom_right,
            bottom_left: self.top_left,
            bottom_right: self.top_right,
        }
    }
}

impl From<[u16; 8]> for FaceUv {
    /// Reads the corners in the order top left, top right, bottom left,
    /// bottom right, each as `x` then `y`.
    fn from(value: [u16; 8]) -> (uv: FaceUv) {
        FaceUv {
            top_left: UvPoint { x: value[0], y: value[1] },
            top_right: UvPoint { x: value[2], y: value[3] },
            bottom_left: UvPoint { x: value[4], y: value[5] },
            bottom_right: UvPoint { x: value[6], y: value[7] },
        }
    }
}

impl vstd::std_specs::convert::FromSpecImpl<[u16; 8]> for FaceUv {
    open spec fn obeys_from_spec() -> bool {
        true
    }

    open spec fn from_spec(value: [u16; 8]) -> FaceUv {
        FaceUv {
            top_left: UvPoint { x: value[0], y: value[1] },
            top_right: UvPoint { x: value[2], y: value[3] },
            bottom_left: UvPoint { x: value[4], y: value[5] },
            bottom_right: UvPoint { x: value[6], y: value[7] },
        }
    }
}

/// Flipping a rectangle twice along the same axis gives the rectangle back.
pub proof fn lemma_flip_twice(uv: FaceUv)
    ensures
        uv.flipped_horizontally().flipped_horizontally() == uv,
        uv.flipped_vertically().flipped_vertically() == uv,
{
}

} // verus!
