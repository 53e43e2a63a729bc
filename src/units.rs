use vstd::prelude::*;

verus! {

/// Length units per world unit: positions are billionths of a unit.
pub const UNIT: i64 = 1_000_000_000;

/// Time units per second: durations are nanoseconds.
pub const SECOND: u64 = 1_000_000_000;

/// Direction units per unit of a tear's direction vector: directions are
/// halves.
pub const DIRECTION_SCALE: i64 = 2;

/// Logical window size, in world units.
pub const WINDOW_WIDTH: i64 = 1920;
pub const WINDOW_HEIGHT: i64 = 1080;

/// Side lengths of the player's sprite, in world units.
pub const PLAYER_X_SIZE: i64 = 24;
pub const PLAYER_Y_SIZE: i64 = 24;

/// How far from the origin the player may stand on the x axis before
/// outward movement is blocked, in length units.
pub const X_BOUND: i64 = 948_000_000_000;

/// How far from the origin the player may stand on the y axis before
/// outward movement is blocked, in length units.
pub const Y_BOUND: i64 = 528_000_000_000;

/// The bounds are half the window minus half the sprite, and a length unit
/// is covered in a time unit at one world unit per second.
pub proof fn constants_agree()
    ensures
        2 * X_BOUND == (WINDOW_WIDTH - PLAYER_X_SIZE) * UNIT,
        2 * Y_BOUND == (WINDOW_HEIGHT - PLAYER_Y_SIZE) * UNIT,
        SECOND == UNIT,
{
}

/// A pair of integer coordinates; what its units are depends on the field
/// that holds it.
#[derive(Clone, Copy, Debug, PartialEq, Eq, Structural)]
pub struct Vec2 {
    pub x: i64,
    pub y: i64,
}

impl Vec2 {
    pub fn new(x: i64, y: i64) -> (r: Vec2)
        ensures
            r.x == x,
            r.y == y,
    {
        Vec2 { x, y }
    }

    pub fn zero() -> (r: Vec2)
        ensures
            r.x == 0,
            r.y == 0,
    {
        Vec2 { x: 0, y: 0 }
    }
}

/// The state of four directional keys in one frame.
#[derive(Clone, Copy, Debug, PartialEq, Eq, Structural)]
pub struct Keys {
    pub up: bool,
    pub down: bool,
    pub left: bool,
    pub right: bool,
}

/// `1` for the positive key alone, `-1` for the negative key alone, `0` for
/// both or neither.
pub open spec fn axis(negative: bool, positive: bool) -> int {
    (if positive { 1int } else { 0int }) - (if negative { 1int } else { 0int })
}

impl Keys {
    pub fn none() -> (r: Keys)
        ensures
            !r.up && !r.down && !r.left && !r.right,
    {
        Keys { up: false, down: false, left: false, right: false }
    }

    /// Sum of the horizontal unit contributions of the held keys.
    pub open spec fn dx(&self) -> int {
        axis(self.left, self.right)
    }

    /// Sum of the vertical unit contributions of the held keys.
    pub open spec fn dy(&self) -> int {
        axis(self.down, self.up)
    }

    pub open spec fn any(&self) -> bool {
        self.up || self.down || self.left || self.right
    }

    pub fn horizontal(&self) -> (r: i64)
        ensures
            r == self.dx(),
    {
        let mut r: i64 = 0;
        if self.right {
            r = r + 1;
        }
        if self.left {
            r = r - 1;
        }
        r
    }

    pub fn vertical(&self) -> (r: i64)
        ensures
            r == self.dy(),
    {
        let mut r: i64 = 0;
        if self.up {
            r = r + 1;
        }
        if self.down {
            r = r - 1;
        }
        r
    }

    pub fn any_held(&self) -> (r: bool)
        ensures
            r == self.any(),
    {
        self.up || self.down || self.left || self.right
    }
}

/// `v` limited to the range of `i64`.
pub open spec fn saturate(v: int) -> int {
    if v < i64::MIN {
        i64::MIN as int
    } else if v > i64::MAX {
        i64::MAX as int
    } else {
        v
    }
}

pub fn saturate_i128(v: i128) -> (r: i64)
    ensures
        r == saturate(v as int),
{
    if v < i64::MIN as i128 {
        i64::MIN
    } else if v > i64::MAX as i128 {
        i64::MAX
    } else {
        v as i64
    }
}

} // verus!
