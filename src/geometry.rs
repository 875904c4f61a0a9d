use vstd::prelude::*;

verus! {

/// Width of the visible world, in pixels.
pub const WORLD_WIDTH: i64 = 1024;

/// Height of the visible world, in pixels.
pub const WORLD_HEIGHT: i64 = 768;

/// Largest magnitude any coordinate or extent of the world may take.
pub const COORD_LIMIT: i64 = 1_000_000_000;

/// Largest movement rate, in pixels per tick, that an actor may have.
pub const MAX_SPEED: i64 = 1_000_000;

/// Whether `v` is within the world's coordinate limit.
pub open spec fn in_limit(v: int) -> bool {
    -COORD_LIMIT <= v <= COORD_LIMIT
}

/// An axis-aligned rectangle `[x, y, w, h]` in pixels. A negative width or
/// height encodes an extent that runs the other way (a mirrored sprite, or a
/// fishing line that hangs down from its anchor).
#[derive(Clone, Copy, Debug, PartialEq, Eq, Structural)]
pub struct Rect {
    pub x: i64,
    pub y: i64,
    pub w: i64,
    pub h: i64,
}

impl Rect {
    /// Every field within the world's coordinate limit.
    pub open spec fn bounded(self) -> bool {
        in_limit(self.x as int) && in_limit(self.y as int) && in_limit(self.w as int)
            && in_limit(self.h as int)
    }

    pub fn new(x: i64, y: i64, w: i64, h: i64) -> (r: Rect)
        ensures
            r.x == x && r.y == y && r.w == w && r.h == h,
    {
        Rect { x, y, w, h }
    }

    /// The rectangle that covers nothing, at the origin.
    pub fn empty() -> (r: Rect)
        ensures
            r.x == 0 && r.y == 0 && r.w == 0 && r.h == 0,
    {
        Rect { x: 0, y: 0, w: 0, h: 0 }
    }
}

} // verus!
