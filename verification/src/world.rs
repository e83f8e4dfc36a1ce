//! The fixed constants of the world and motion along one axis.

use vstd::prelude::*;

verus! {

/// Thousandths in one world unit.
pub const UNIT: i64 = 1_000;

/// Width of the visible screen.
pub const SCREEN_WIDTH: i64 = 1_280_000;

/// Left edge of the visible screen; the origin is the screen's centre.
pub const LEFT: i64 = -640_000;

/// Right edge of the visible screen.
pub const RIGHT: i64 = 640_000;

/// Upper edge of the visible screen.
pub const TOP: i64 = 360_000;

/// The world floor: lower edge of the visible screen.
pub const BOTTOM: i64 = -360_000;

/// Downward acceleration: thousandths per frame lost for each millisecond.
pub const GRAVITY: i64 = 3;

/// Upward speed that a jump sets: thousandths per frame for each millisecond.
pub const JUMP_IMPULSE: i64 = 380;

/// Speed of the player's own walk, in world units per second.
pub const MOVE_SPEED: i64 = 200;

/// Speed at which the world scrolls left while the player walks right.
pub const SCROLL_SPEED: i64 = 80;

/// Speed at which enemies fly left.
pub const ENEMY_SPEED: i64 = 120;

/// Milliseconds between two enemy spawns.
pub const SPAWN_DELAY: u64 = 1_000;

/// The elapsed-time accumulator starts over once it is beyond this.
pub const ELAPSED_LIMIT: u64 = 9_999_000;

/// Value from which the elapsed-time accumulator starts over.
pub const ELAPSED_RESTART: u64 = 1_000;

/// How many positions are sampled for a platform before it has to wait for
/// the next frame.
pub const RESPAWN_ATTEMPTS: u32 = 64;

/// The coordinate nearest to `v` that an `i64` can hold.
pub open spec fn clamp_coord(v: int) -> i64 {
    if v < i64::MIN {
        i64::MIN
    } else if v > i64::MAX {
        i64::MAX
    } else {
        v as i64
    }
}

/// Distance covered in `dt` milliseconds at `speed` world units per second,
/// in thousandths.
pub open spec fn travel(speed: int, dt: u32) -> int {
    speed * dt
}

/// Moves the coordinate `a` for `dt` milliseconds at `speed` world units per
/// second, stopping at the ends of the `i64` range.
pub fn advance(a: i64, speed: i64, dt: u32) -> (r: i64)
    ensures
        r == clamp_coord(a + travel(speed as int, dt)),
{
    assert(-0x8000_0000_0000_0000 * 0x1_0000_0000 <= speed * dt <= 0x8000_0000_0000_0000
        * 0x1_0000_0000) by (nonlinear_arith)
        requires
            -0x8000_0000_0000_0000 <= speed < 0x8000_0000_0000_0000,
            0 <= dt < 0x1_0000_0000,
    ;
    let s: i128 = a as i128 + (speed as i128) * (dt as i128);
    if s < i64::MIN as i128 {
        i64::MIN
    } else if s > i64::MAX as i128 {
        i64::MAX
    } else {
        s as i64
    }
}

/// Moves the coordinate `a` by `d`, stopping at the ends of the `i64` range.
pub fn shift(a: i64, d: i64) -> (r: i64)
    ensures
        r == clamp_coord(a + d),
{
    let s: i128 = a as i128 + d as i128;
    if s < i64::MIN as i128 {
        i64::MIN
    } else if s > i64::MAX as i128 {
        i64::MAX
    } else {
        s as i64
    }
}

} // verus!
