//! The world: it owns every entity and simulates one frame at a time.
//!
//! A frame runs in a fixed order: the player moves; the player picks up the
//! collectibles that it now touches; the enemies fly and those that have left
//! the screen are recycled; platforms that have scrolled out of the world
//! are brought back; the platforms are consulted for a landing; the world
//! scrolls if the player walks right; the spawn timer runs.
//!
//! Random numbers are drawn in this order: for each enemy that is recycled,
//! in the order of the sequence, its `x` and then its `y`; for each platform
//! that is off on the left, in the order of the sequence, the number for its
//! type and then `y` and `x` of each place tried; for a spawned enemy its
//! `x` and then its `y`.

use vstd::prelude::*;
use rand::rngs::ThreadRng;
use crate::enemy::{enemy_outcome, fly_all, just_spawned, spawn_enemy, Enemy};
use crate::input::Input;
use crate::landing::{grounded, resolve, Grounding};
use crate::platform::{
    capped_score,
    collect_all,
    passed_all,
    scroll_all,
    scrolled_all,
    total_gain,
    views,
    Platform,
    PlatformType,
    PlatformView,
    Size,
};
use crate::player::{Player, PLAYER_START_X, PLAYER_START_Y};
use crate::respawn::{all_apart, respawn_outcome, respawn_platforms};
use crate::world::{
    advance,
    clamp_coord,
    travel,
    ELAPSED_LIMIT,
    ELAPSED_RESTART,
    LEFT,
    SCROLL_SPEED,
    SPAWN_DELAY,
    UNIT,
};

verus! {

/// Centre of the platform under the player's starting place: 100 units
/// right of the screen's left edge.
pub const START_X: i64 = LEFT + 100 * UNIT;

pub const START_Y: i64 = -50_000;

/// Heights of the two lower platforms ahead.
pub const NEAR_Y: i64 = -100_000;

pub const MIDDLE_Y: i64 = -150_000;

/// Horizontal place of the first control.
pub const FIRST_CONTROL_X: i64 = -210_000;

/// A hint that is shown on the screen and scrolls with the world.
#[derive(Clone, Copy, Debug, PartialEq, Eq, Structural)]
pub struct Control {
    pub x: i64,
    pub y: i64,
}

impl Control {
    pub open spec fn scrolled(self, dt: u32) -> Control {
        Control { x: clamp_coord(self.x + travel(-SCROLL_SPEED, dt)), y: self.y }
    }
}

pub struct Game {
    pub player: Player,
    /// The platforms, in the order in which they are updated.
    pub platforms: Vec<Platform>,
    pub enemies: Vec<Enemy>,
    pub controls: Vec<Control>,
    /// Milliseconds since the game began, starting over now and then.
    pub elapsed_time: u64,
    /// Milliseconds since the last enemy was spawned.
    pub spawn_time: u64,
    pub score: u32,
    /// The rule by which the platforms are consulted for a landing.
    pub grounding: Grounding,
    /// The source of the places and types that are drawn.
    pub rng: ThreadRng,
}

/// The world as a plain value.
pub struct GameView {
    pub player: Player,
    pub platforms: Seq<PlatformView>,
    pub enemies: Seq<Enemy>,
    pub controls: Seq<Control>,
    pub elapsed_time: u64,
    pub spawn_time: u64,
    pub score: u32,
    pub grounding: Grounding,
}

impl View for Game {
    type V = GameView;

    open spec fn view(&self) -> GameView {
        GameView {
            player: self.player,
            platforms: views(self.platforms@),
            enemies: self.enemies@,
            controls: self.controls@,
            elapsed_time: self.elapsed_time,
            spawn_time: self.spawn_time,
            score: self.score,
            grounding: self.grounding,
        }
    }
}

/// The controls after the world has scrolled left for `dt` milliseconds.
pub open spec fn scrolled_controls(controls: Seq<Control>, dt: u32) -> Seq<Control> {
    Seq::new(controls.len(), |i: int| controls[i].scrolled(dt))
}

/// The elapsed-time accumulator after `dt` more milliseconds: beyond its
/// limit it starts over before it counts on.
pub open spec fn elapsed_after(elapsed: u64, dt: u32) -> u64 {
    if elapsed > ELAPSED_LIMIT {
        (ELAPSED_RESTART + dt) as u64
    } else {
        (elapsed + dt) as u64
    }
}

/// The spawn timer, `dt` milliseconds on, has reached the spawn delay.
pub open spec fn timer_fires(spawn_time: u64, dt: u32) -> bool {
    spawn_time + dt >= SPAWN_DELAY
}

/// The spawn timer after `dt` more milliseconds: it starts from zero when it
/// has fired.
pub open spec fn timer_after(spawn_time: u64, dt: u32) -> u64 {
    if timer_fires(spawn_time, dt) {
        0
    } else {
        (spawn_time + dt) as u64
    }
}

/// What holds of the platforms and the player after a frame in which the
/// player, already moved, is `walker`, and `mid` are the platforms as the
/// respawning left them.
pub open spec fn staged(
    before: Seq<PlatformView>,
    walker: Player,
    dt: u32,
    mid: Seq<PlatformView>,
    new: GameView,
) -> bool {
    &&& respawn_outcome(passed_all(before, walker.rect()), mid)
    &&& new.player == grounded(walker, mid, new.grounding)
    &&& new.platforms == if walker.right {
        scrolled_all(mid, dt)
    } else {
        mid
    }
}

/// What holds of the enemies after a frame, whatever was drawn.
pub open spec fn enemies_after(before: GameView, dt: u32, after: Seq<Enemy>) -> bool {
    let fires = timer_fires(before.spawn_time, dt);
    &&& after.len() == before.enemies.len() + if fires {
        1int
    } else {
        0int
    }
    &&& forall|i: int|
        0 <= i < before.enemies.len() ==> enemy_outcome(before.enemies[i], #[trigger] after[i], dt)
    &&& fires ==> just_spawned(after.last())
}

/// The world `new` can be what one frame of `dt` milliseconds under `input`
/// makes of the world `old`. All but the places and types that are drawn at
/// random is fixed by `old`, `input` and `dt`.
pub open spec fn frame(old: GameView, input: Input, dt: u32, new: GameView) -> bool {
    let walker = old.player.stepped(input, dt);
    &&& exists|mid: Seq<PlatformView>| #[trigger] staged(old.platforms, walker, dt, mid, new)
    &&& new.score == capped_score(old.score + total_gain(old.platforms, walker.rect()))
    &&& enemies_after(old, dt, new.enemies)
    &&& new.controls == if walker.right {
        scrolled_controls(old.controls, dt)
    } else {
        old.controls
    }
    &&& new.elapsed_time == elapsed_after(old.elapsed_time, dt)
    &&& new.spawn_time == timer_after(old.spawn_time, dt)
    &&& new.grounding == old.grounding
}

impl Game {
    /// The world in which every game begins, for a player of the given
    /// size: four plain platforms, no enemy, two controls; landings go by
    /// the first platform that the player overlaps.
    pub open spec fn initial(player_width: u64, player_height: u64) -> GameView {
        GameView {
            player: Player {
                x: PLAYER_START_X,
                y: PLAYER_START_Y,
                width: player_width,
                height: player_height,
                vx: 0,
                vy: 0,
                on_platform: false,
                right: false,
                distance: 0,
            },
            platforms: seq![
                PlatformView::fresh(START_X, START_Y, Size::XLarge, PlatformType::Plain),
                PlatformView::fresh(1_060_000, 50_000, Size::Small, PlatformType::Plain),
                PlatformView::fresh(800_000, MIDDLE_Y, Size::Medium, PlatformType::Plain),
                PlatformView::fresh(510_000, NEAR_Y, Size::Large, PlatformType::Plain),
            ],
            enemies: Seq::empty(),
            controls: seq![
                Control { x: FIRST_CONTROL_X, y: 160_000 },
                Control { x: 510_000, y: 160_000 },
            ],
            elapsed_time: 0,
            spawn_time: 0,
            score: 0,
            grounding: Grounding::FirstOverlap,
        }
    }

    /// A new game for a player of the given size.
    pub fn new(player_width: u64, player_height: u64) -> (g: Game)
        ensures
            g@ == Game::initial(player_width, player_height),
            all_apart(g@.platforms),
    {
        let mut platforms: Vec<Platform> = Vec::new();
        let mut starting_platform = Platform::new(Size::XLarge);
        starting_platform.set_position(START_X, START_Y);
        platforms.push(starting_platform);
        let mut i: u32 = 0;
        while i < 3
            invariant
                i <= 3,
                platforms@.len() == i + 1,
                platforms@[0]@ == PlatformView::fresh(
                    START_X,
                    START_Y,
                    Size::XLarge,
                    PlatformType::Plain,
                ),
                forall|k: int|
                    1 <= k <= i ==> (#[trigger] platforms@[k])@ == PlatformView::fresh(
                        0,
                        0,
                        Size::of_number((k - 1) as u32),
                        PlatformType::Plain,
                    ),
            decreases 3 - i,
        {
            platforms.push(Platform::new(Size::from_u32(i % 3)));
            i = i + 1;
        }
        platforms[3].set_position(510_000, NEAR_Y);
        platforms[2].set_position(800_000, MIDDLE_Y);
        platforms[1].set_position(1_060_000, 50_000);

        let mut controls: Vec<Control> = Vec::new();
        controls.push(Control { x: FIRST_CONTROL_X, y: 160_000 });
        controls.push(Control { x: 510_000, y: 160_000 });

        let g = Game {
            player: Player::new(player_width, player_height),
            platforms,
            enemies: Vec::new(),
            controls,
            elapsed_time: 0,
            spawn_time: 0,
            score: 0,
            grounding: Grounding::FirstOverlap,
            rng: rand::thread_rng(),
        };
        proof {
            let init = Game::initial(player_width, player_height);
            assert(g@.platforms =~= init.platforms);
            assert(g@.controls =~= init.controls);
            assert(g@.enemies =~= init.enemies);
            lemma_initial_platforms_apart(player_width, player_height);
        }
        g
    }

    /// Simulates one frame of `dt` milliseconds under `input`.
    pub fn update(&mut self, input: &Input, dt: u32)
        ensures
            frame(old(self)@, *input, dt, final(self)@),
    {
        self.player.update(input, dt);
        let ghost walker = self.player;

        let body = self.player.bounds();
        self.score = collect_all(&mut self.platforms, &body, self.score);

        fly_all(&mut self.enemies, dt, &mut self.rng);
        let ghost flown = self.enemies@;

        respawn_platforms(&mut self.platforms, &mut self.rng);
        let ghost mid = views(self.platforms@);

        resolve(&mut self.player, &self.platforms, self.grounding);

        if self.elapsed_time > ELAPSED_LIMIT {
            self.elapsed_time = ELAPSED_RESTART;
        }
        self.elapsed_time = self.elapsed_time + dt as u64;

        if self.player.right {
            scroll_all(&mut self.platforms, dt);
            self.scroll_controls(dt);
        }

        if self.spawn_time >= SPAWN_DELAY || SPAWN_DELAY - self.spawn_time <= dt as u64 {
            spawn_enemy(&mut self.enemies, &mut self.rng);
            self.spawn_time = 0;
            assert forall|i: int| 0 <= i < flown.len() implies #[trigger] self.enemies@[i]
                == flown[i] by {
                assert(self.enemies@.drop_last()[i] == flown[i]);
            }
        } else {
            self.spawn_time = self.spawn_time + dt as u64;
        }
        assert(staged(old(self)@.platforms, walker, dt, mid, self@));
        assert(enemies_after(old(self)@, dt, self@.enemies));
        assert(self@.spawn_time == timer_after(old(self)@.spawn_time, dt));
    }

    /// Scrolls the controls left for `dt` milliseconds.
    fn scroll_controls(&mut self, dt: u32)
        ensures
            final(self).controls@ == scrolled_controls(old(self).controls@, dt),
            final(self).player == old(self).player,
            final(self).platforms == old(self).platforms,
            final(self).enemies == old(self).enemies,
            final(self).elapsed_time == old(self).elapsed_time,
            final(self).spawn_time == old(self).spawn_time,
            final(self).score == old(self).score,
            final(self).grounding == old(self).grounding,
    {
        let mut i: usize = 0;
        while i < self.controls.len()
            invariant
                i <= self.controls.len(),
                self.controls@.len() == old(self).controls@.len(),
                self.player == old(self).player,
                self.platforms == old(self).platforms,
                self.enemies == old(self).enemies,
                self.elapsed_time == old(self).elapsed_time,
                self.spawn_time == old(self).spawn_time,
                self.score == old(self).score,
                self.grounding == old(self).grounding,
                forall|k: int|
                    i <= k < self.controls@.len() ==> #[trigger] self.controls@[k] == old(
                        self,
                    ).controls@[k],
                forall|k: int|
                    0 <= k < i ==> #[trigger] self.controls@[k] == old(self).controls@[k].scrolled(
                        dt,
                    ),
            decreases self.controls.len() - i,
        {
            let c = self.controls[i];
            self.controls[i] = Control { x: advance(c.x, -SCROLL_SPEED, dt), y: c.y };
            i = i + 1;
        }
        assert(self.controls@ =~= scrolled_controls(old(self).controls@, dt));
    }
}

/// In the world in which every game begins, no two platforms overlap
/// horizontally.
pub proof fn lemma_initial_platforms_apart(player_width: u64, player_height: u64)
    ensures
        all_apart(Game::initial(player_width, player_height).platforms),
{
    let p = Game::initial(player_width, player_height).platforms;
    assert(p[0].rect().right2() == -780_000);
    assert(p[3].rect().left2() == 820_000 && p[3].rect().right2() == 1_220_000);
    assert(p[2].rect().left2() == 1_450_000 && p[2].rect().right2() == 1_750_000);
    assert(p[1].rect().left2() == 2_020_000);
}

} // verus!
