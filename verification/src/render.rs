//! What the simulation hands to the stage that draws it: the sprites of a
//! frame, in the order in which they are to be drawn.

use vstd::prelude::*;
use crate::enemy::{Enemy, Species};
use crate::game::{Control, Game, GameView};
use crate::geometry::Rect;
use crate::platform::{PlatformType, PlatformView};
use crate::player::Player;

verus! {

/// One thing to draw. Controls, platforms and enemies carry their index in
/// the world's sequences.
#[derive(Clone, Copy, Debug, PartialEq, Eq, Structural)]
pub enum Sprite {
    Control { index: usize, x: i64, y: i64 },
    Platform { index: usize, rect: Rect, platform_type: PlatformType },
    Player { rect: Rect, moving_right: bool, on_platform: bool },
    Enemy { index: usize, rect: Rect, species: Species },
    Score { value: u32 },
}

pub open spec fn control_sprite(controls: Seq<Control>, i: int) -> Sprite {
    Sprite::Control { index: i as usize, x: controls[i].x, y: controls[i].y }
}

pub open spec fn platform_sprite(platforms: Seq<PlatformView>, i: int) -> Sprite {
    Sprite::Platform {
        index: i as usize,
        rect: platforms[i].rect(),
        platform_type: platforms[i].platform_type,
    }
}

pub open spec fn player_sprite(player: Player) -> Sprite {
    Sprite::Player {
        rect: player.rect(),
        moving_right: player.right,
        on_platform: player.on_platform,
    }
}

pub open spec fn enemy_sprite(enemies: Seq<Enemy>, i: int) -> Sprite {
    Sprite::Enemy { index: i as usize, rect: enemies[i].rect(), species: enemies[i].species }
}

/// The sprites of a world in drawing order: the controls; the platforms
/// from the last to the first, so that the first is drawn on top of the
/// others; the player; the enemies; the score.
pub open spec fn draw_list(g: GameView) -> Seq<Sprite> {
    Seq::new(g.controls.len(), |i: int| control_sprite(g.controls, i)) + Seq::new(
        g.platforms.len(),
        |i: int| platform_sprite(g.platforms, g.platforms.len() - 1 - i),
    ) + seq![player_sprite(g.player)] + Seq::new(
        g.enemies.len(),
        |i: int| enemy_sprite(g.enemies, i),
    ) + seq![Sprite::Score { value: g.score }]
}

impl Player {
    /// The player's sprite.
    pub fn draw(&self) -> (s: Sprite)
        ensures
            s == player_sprite(*self),
    {
        Sprite::Player {
            rect: self.bounds(),
            moving_right: self.right,
            on_platform: self.on_platform,
        }
    }
}

impl Game {
    /// The sprites of the world in drawing order. A world without platforms
    /// or enemies has none of their sprites.
    pub fn draw(&self) -> (sprites: Vec<Sprite>)
        ensures
            sprites@ == draw_list(self@),
    {
        let ghost g = self@;
        let ghost part1 = Seq::new(g.controls.len(), |i: int| control_sprite(g.controls, i));
        let ghost part2 = Seq::new(
            g.platforms.len(),
            |i: int| platform_sprite(g.platforms, g.platforms.len() - 1 - i),
        );
        let ghost part3 = Seq::new(g.enemies.len(), |i: int| enemy_sprite(g.enemies, i));
        let mut sprites: Vec<Sprite> = Vec::new();
        let mut i: usize = 0;
        while i < self.controls.len()
            invariant
                i <= self.controls.len(),
                g == self@,
                sprites@ == part1.take(i as int),
                part1 == Seq::new(g.controls.len(), |i: int| control_sprite(g.controls, i)),
            decreases self.controls.len() - i,
        {
            let c = self.controls[i];
            sprites.push(Sprite::Control { index: i, x: c.x, y: c.y });
            assert(sprites@ =~= part1.take(i as int + 1));
            i = i + 1;
        }
        assert(sprites@ =~= part1);
        let n = self.platforms.len();
        let mut k: usize = 0;
        while k < n
            invariant
                k <= n,
                n == self.platforms.len(),
                g == self@,
                sprites@ == part1 + part2.take(k as int),
                part2 == Seq::new(
                    g.platforms.len(),
                    |i: int| platform_sprite(g.platforms, g.platforms.len() - 1 - i),
                ),
            decreases n - k,
        {
            let index = n - 1 - k;
            let p = &self.platforms[index];
            assert(g.platforms[index as int] == p@);
            sprites.push(
                Sprite::Platform { index, rect: p.bounds(), platform_type: p.platform_type() },
            );
            assert(sprites@ =~= part1 + part2.take(k as int + 1));
            k = k + 1;
        }
        assert(sprites@ =~= part1 + part2);
        sprites.push(self.player.draw());
        let ghost head = part1 + part2 + seq![player_sprite(g.player)];
        assert(sprites@ =~= head);
        let mut e: usize = 0;
        while e < self.enemies.len()
            invariant
                e <= self.enemies.len(),
                g == self@,
                sprites@ == head + part3.take(e as int),
                part3 == Seq::new(g.enemies.len(), |i: int| enemy_sprite(g.enemies, i)),
            decreases self.enemies.len() - e,
        {
            let enemy = self.enemies[e];
            sprites.push(Sprite::Enemy { index: e, rect: enemy.bounds(), species: enemy.species });
            assert(sprites@ =~= head + part3.take(e as int + 1));
            e = e + 1;
        }
        sprites.push(Sprite::Score { value: self.score });
        assert(sprites@ =~= draw_list(g));
        sprites
    }
}

} // verus!
