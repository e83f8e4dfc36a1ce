//! Enemies: they fly left across the screen and come back on the right.

use vstd::prelude::*;
use rand::rngs::ThreadRng;
use crate::geometry::Rect;
use crate::random::draw_between;
use crate::world::{
    advance,
    clamp_coord,
    shift,
    travel,
    BOTTOM,
    ENEMY_SPEED,
    LEFT,
    RIGHT,
    SCREEN_WIDTH,
    TOP,
    UNIT,
};

verus! {

/// Distance that a recycled enemy keeps from the upper and the lower edge of
/// the screen.
pub const ENEMY_MARGIN: i64 = 40 * UNIT;

#[derive(Clone, Copy, Debug, PartialEq, Eq, Structural)]
pub enum Species {
    Flying,
}

impl Species {
    pub open spec fn width_of(self) -> u64 {
        48_000
    }

    pub open spec fn height_of(self) -> u64 {
        48_000
    }
}

#[derive(Clone, Copy, Debug, PartialEq, Eq, Structural)]
pub struct Enemy {
    /// Centre of the enemy.
    pub x: i64,
    pub y: i64,
    pub species: Species,
    pub width: u64,
    pub height: u64,
}

impl Enemy {
    pub open spec fn rect(self) -> Rect {
        Rect { x: self.x, y: self.y, w: self.width, h: self.height }
    }

    /// The enemy has left the screen: its right edge is beyond the screen's
    /// left edge.
    pub open spec fn past_left(self) -> bool {
        self.rect().right2() < 2 * LEFT
    }

    pub open spec fn at(self, x: i64, y: i64) -> Enemy {
        Enemy { x, y, ..self }
    }

    pub open spec fn moved(self, dx: i64, dy: i64) -> Enemy {
        Enemy { x: clamp_coord(self.x + dx), y: clamp_coord(self.y + dy), ..self }
    }

    /// The enemy after `dt` milliseconds of flight to the left.
    pub open spec fn flown(self, dt: u32) -> Enemy {
        Enemy { x: clamp_coord(self.x + travel(-ENEMY_SPEED, dt)), ..self }
    }

    /// A new enemy of the given species, centred at the origin.
    pub open spec fn fresh(species: Species) -> Enemy {
        Enemy { x: 0, y: 0, species, width: species.width_of(), height: species.height_of() }
    }

    /// (`x`, `y`) is a place where a recycled enemy may reappear: in the
    /// screen's width right of the screen, away from the upper and lower
    /// edge.
    pub open spec fn recycle_spot(x: i64, y: i64) -> bool {
        RIGHT <= x < SCREEN_WIDTH && BOTTOM + ENEMY_MARGIN <= y < TOP - ENEMY_MARGIN
    }

    /// (`x`, `y`) is a place where a new enemy may appear.
    pub open spec fn spawn_spot(x: i64, y: i64) -> bool {
        RIGHT <= x < SCREEN_WIDTH && BOTTOM <= y < TOP
    }

    pub fn new(species: Species) -> (e: Enemy)
        ensures
            e == Enemy::fresh(species),
    {
        match species {
            Species::Flying => Enemy { x: 0, y: 0, species, width: 48_000, height: 48_000 },
        }
    }

    /// The rectangle that the enemy covers.
    pub fn bounds(&self) -> (r: Rect)
        ensures
            r == self.rect(),
    {
        Rect { x: self.x, y: self.y, w: self.width, h: self.height }
    }

    pub fn is_past_left(&self) -> (r: bool)
        ensures
            r == self.past_left(),
    {
        self.bounds().doubled_right() < 2 * (LEFT as i128)
    }

    pub fn set_position(&mut self, x: i64, y: i64)
        ensures
            *final(self) == old(self).at(x, y),
    {
        self.x = x;
        self.y = y;
    }

    /// Flies left for `dt` milliseconds.
    pub fn fly(&mut self, dt: u32)
        ensures
            *final(self) == old(self).flown(dt),
    {
        self.x = advance(self.x, -ENEMY_SPEED, dt);
    }

    pub fn translate(&mut self, dx: i64, dy: i64)
        ensures
            *final(self) == old(self).moved(dx, dy),
    {
        self.x = shift(self.x, dx);
        self.y = shift(self.y, dy);
    }
}

/// What holds of an enemy after a frame of `dt` milliseconds, whatever was
/// drawn: it has flown left, and if that took it off the screen it has
/// reappeared at a place right of the screen, otherwise unchanged.
pub open spec fn enemy_outcome(before: Enemy, after: Enemy, dt: u32) -> bool {
    if before.flown(dt).past_left() {
        after == before.at(after.x, after.y) && Enemy::recycle_spot(after.x, after.y)
    } else {
        after == before.flown(dt)
    }
}

/// Enemy `after` is one that has just been spawned.
pub open spec fn just_spawned(after: Enemy) -> bool {
    after == Enemy::fresh(Species::Flying).at(after.x, after.y) && Enemy::spawn_spot(
        after.x,
        after.y,
    )
}

/// Lets every enemy fly for `dt` milliseconds and recycles those that have
/// left the screen.
pub fn fly_all(enemies: &mut Vec<Enemy>, dt: u32, rng: &mut ThreadRng)
    ensures
        final(enemies)@.len() == old(enemies)@.len(),
        forall|i: int|
            0 <= i < old(enemies)@.len() ==> enemy_outcome(
                old(enemies)@[i],
                #[trigger] final(enemies)@[i],
                dt,
            ),
{
    let mut i: usize = 0;
    while i < enemies.len()
        invariant
            i <= enemies.len(),
            enemies@.len() == old(enemies)@.len(),
            forall|k: int| i <= k < enemies@.len() ==> #[trigger] enemies@[k] == old(enemies)@[k],
            forall|k: int|
                0 <= k < i ==> enemy_outcome(old(enemies)@[k], #[trigger] enemies@[k], dt),
        decreases enemies.len() - i,
    {
        let mut e = enemies[i];
        e.fly(dt);
        if e.is_past_left() {
            let x = draw_between(rng, RIGHT, SCREEN_WIDTH);
            let y = draw_between(rng, BOTTOM + ENEMY_MARGIN, TOP - ENEMY_MARGIN);
            e.set_position(x, y);
        }
        enemies[i] = e;
        i = i + 1;
    }
}

/// Adds a new flying enemy at a place right of the screen. Enemies are
/// never removed: their number grows with every call.
pub fn spawn_enemy(enemies: &mut Vec<Enemy>, rng: &mut ThreadRng)
    ensures
        final(enemies)@.len() == old(enemies)@.len() + 1,
        final(enemies)@.drop_last() == old(enemies)@,
        just_spawned(final(enemies)@.last()),
{
    let mut e = Enemy::new(Species::Flying);
    let x = draw_between(rng, RIGHT, SCREEN_WIDTH);
    let y = draw_between(rng, BOTTOM, TOP);
    e.set_position(x, y);
    enemies.push(e);
    assert(enemies@.drop_last() =~= old(enemies)@);
}

} // verus!
