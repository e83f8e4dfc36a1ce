//! The player: motion under gravity, the response to the keys and the clamp
//! that keeps the player on the left half of the screen.

use vstd::prelude::*;
use crate::geometry::Rect;
use crate::input::{Input, Key};
use crate::world::{
    advance,
    clamp_coord,
    shift,
    travel,
    BOTTOM,
    GRAVITY,
    JUMP_IMPULSE,
    LEFT,
    MOVE_SPEED,
    UNIT,
};

verus! {

/// Where a new player stands.
pub const PLAYER_START_X: i64 = BOTTOM + 48 * UNIT;

pub const PLAYER_START_Y: i64 = 120 * UNIT;

#[derive(Clone, Copy, Debug, PartialEq, Eq, Structural)]
pub struct Player {
    /// Centre of the player.
    pub x: i64,
    pub y: i64,
    pub width: u64,
    pub height: u64,
    /// Displacement per frame along each axis.
    pub vx: i64,
    pub vy: i64,
    /// Whether the player stood over a platform when the last frame ended.
    pub on_platform: bool,
    /// Whether the player walked right in the last frame.
    pub right: bool,
    /// Length of all the walking to the right so far.
    pub distance: i64,
}

/// The horizontal position nearest to `x` at which a player of width `width`
/// is allowed: not right of the origin, and with its left edge not past the
/// screen's left edge. For an odd width the leftmost such position is half a
/// thousandth right of `LEFT + width / 2`.
pub open spec fn kept_on_screen(x: i64, width: u64) -> i64 {
    if x >= 0 {
        0
    } else if 2 * x <= 2 * LEFT + width {
        (LEFT + (width + 1) / 2) as i64
    } else {
        x
    }
}

impl Player {
    pub open spec fn rect(self) -> Rect {
        Rect { x: self.x, y: self.y, w: self.width, h: self.height }
    }

    /// A player no wider than the screen; such a player has a position
    /// between the screen's left edge and the origin.
    pub open spec fn fits_screen(self) -> bool {
        2 * LEFT + self.width <= 0
    }

    /// The vertical speed after gravity and the floor have had their say, for
    /// a player that has already been moved to `y`.
    pub open spec fn fall_speed(self, y: i64, dt: u32) -> i64 {
        if 2 * (y + self.vy) - self.height > 2 * BOTTOM {
            clamp_coord(self.vy - travel(GRAVITY as int, dt))
        } else {
            0
        }
    }

    /// The horizontal position after the walk that the keys ask for, from
    /// `x`, before the clamp.
    pub open spec fn walked(self, x: i64, input: Input, dt: u32) -> i64 {
        let after_right = if input.right {
            clamp_coord(x + travel(MOVE_SPEED as int, dt))
        } else {
            x
        };
        if input.left && self.on_platform {
            clamp_coord(after_right - travel(MOVE_SPEED as int, dt))
        } else {
            after_right
        }
    }

    /// The player after one frame of `dt` milliseconds under `input`, before
    /// the world has resolved landings.
    pub open spec fn stepped(self, input: Input, dt: u32) -> Player {
        let x = clamp_coord(self.x + self.vx);
        let y = clamp_coord(self.y + self.vy);
        Player {
            x: kept_on_screen(self.walked(x, input, dt), self.width),
            y,
            width: self.width,
            height: self.height,
            vx: self.vx,
            vy: if input.up {
                travel(JUMP_IMPULSE as int, dt) as i64
            } else {
                self.fall_speed(y, dt)
            },
            on_platform: self.on_platform,
            right: input.right,
            distance: if input.right {
                clamp_coord(self.distance + travel(MOVE_SPEED as int, dt))
            } else {
                self.distance
            },
        }
    }

    /// A player of the given size at the starting position, at rest.
    pub fn new(width: u64, height: u64) -> (p: Player)
        ensures
            p == (Player {
                x: PLAYER_START_X,
                y: PLAYER_START_Y,
                width,
                height,
                vx: 0,
                vy: 0,
                on_platform: false,
                right: false,
                distance: 0,
            }),
    {
        Player {
            x: PLAYER_START_X,
            y: PLAYER_START_Y,
            width,
            height,
            vx: 0,
            vy: 0,
            on_platform: false,
            right: false,
            distance: 0,
        }
    }

    /// The rectangle that the player covers.
    pub fn bounds(&self) -> (r: Rect)
        ensures
            r == self.rect(),
    {
        Rect { x: self.x, y: self.y, w: self.width, h: self.height }
    }

    /// Simulates one frame of `dt` milliseconds. The position moves by the
    /// velocity that the previous frame left; then gravity or the floor sets
    /// the vertical speed, the keys are answered and the horizontal position
    /// is clamped.
    pub fn update(&mut self, input: &Input, dt: u32)
        ensures
            *final(self) == old(self).stepped(*input, dt),
            old(self).fits_screen() ==> 2 * LEFT + old(self).width <= 2 * final(self).x
                && final(self).x <= 0,
    {
        self.x = shift(self.x, self.vx);
        self.y = shift(self.y, self.vy);

        let feet2: i128 = 2 * (self.y as i128 + self.vy as i128) - self.height as i128;
        if feet2 > 2 * (BOTTOM as i128) {
            self.vy = advance(self.vy, -GRAVITY, dt);
        } else {
            self.vy = 0;
        }

        if input.key_down(Key::Up) {
            self.vy = advance(0, JUMP_IMPULSE, dt);
        }
        if input.key_down(Key::Right) {
            self.x = advance(self.x, MOVE_SPEED, dt);
            self.distance = advance(self.distance, MOVE_SPEED, dt);
            self.right = true;
        } else {
            self.right = false;
        }
        if input.key_down(Key::Left) && self.on_platform {
            self.x = advance(self.x, -MOVE_SPEED, dt);
        }

        if self.x >= 0 {
            self.x = 0;
        } else if 2 * (self.x as i128) <= 2 * (LEFT as i128) + self.width as i128 {
            let half: u128 = (self.width as u128 + 1) / 2;
            self.x = (LEFT as i128 + half as i128) as i64;
        }
    }
}

} // verus!
