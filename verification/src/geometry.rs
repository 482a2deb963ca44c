//! Plane geometry shared with the compositor side.
use vstd::prelude::*;

verus! {

/// An axis-aligned rectangle in compositor coordinates.
#[derive(Clone, Copy, Debug, PartialEq, Eq, Structural)]
pub struct Rect {
    pub x: i32,
    pub y: i32,
    pub width: i32,
    pub height: i32,
}

impl Rect {
    pub open spec fn spec_is_empty(self) -> bool {
        self.width <= 0 || self.height <= 0
    }

    /// Whether the rectangle covers no pixel.
    #[verifier::when_used_as_spec(spec_is_empty)]
    pub fn is_empty(self) -> (empty: bool)
        ensures
            empty == self.spec_is_empty(),
    {
        self.width <= 0 || self.height <= 0
    }
}

/// A width and a height.
#[derive(Clone, Copy, Debug, PartialEq, Eq, Structural)]
pub struct Size {
    pub width: i32,
    pub height: i32,
}

/// The half-open interval `start..end` along one axis.
#[derive(Clone, Copy, Debug, PartialEq, Eq, Structural)]
pub struct AxisSpan {
    pub start: i32,
    pub end: i32,
}

impl AxisSpan {
    pub open spec fn spec_is_empty(self) -> bool {
        self.end <= self.start
    }

    /// Whether the interval holds no coordinate.
    #[verifier::when_used_as_spec(spec_is_empty)]
    pub fn is_empty(self) -> (empty: bool)
        ensures
            empty == self.spec_is_empty(),
    {
        self.end <= self.start
    }
}

/// The size limits a client asked for its window.
#[derive(Clone, Copy, Debug, PartialEq, Eq, Structural)]
pub struct SurfaceConstraints {
    pub min_size: Option<Size>,
    pub max_size: Option<Size>,
}

/// An edge of the output a client may reserve space along.
#[derive(Clone, Copy, Debug, PartialEq, Eq, Structural)]
pub enum OutputEdge {
    Left,
    Right,
    Top,
    Bottom,
}

/// Space a client reserves along one output edge: `depth` pixels in from the
/// edge, over `span` along it.
#[derive(Clone, Copy, Debug, PartialEq, Eq, Structural)]
pub struct OutputReservation {
    pub edge: OutputEdge,
    pub depth: i32,
    pub span: AxisSpan,
}

} // verus!
