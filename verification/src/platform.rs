//! Platforms, their size classes, and the collectibles that a platform of
//! the fish kind carries.

use vstd::prelude::*;
use crate::geometry::{intersect, Rect};
use crate::world::{advance, clamp_coord, shift, travel, SCREEN_WIDTH, SCROLL_SPEED};

verus! {

/// Width and height of a collectible.
pub const FISH_WIDTH: u64 = 32_000;

pub const FISH_HEIGHT: u64 = 32_000;

/// How far above a platform's centre its collectibles float.
pub const FISH_LIFT: i64 = 40_000;

/// The size classes of platforms.
#[derive(Clone, Copy, Debug, PartialEq, Eq, Structural)]
pub enum Size {
    Small,
    Medium,
    Large,
    XLarge,
}

impl Size {
    pub open spec fn of_number(n: u32) -> Size {
        if n == 0 {
            Size::Small
        } else if n == 1 {
            Size::Medium
        } else if n == 2 {
            Size::Large
        } else {
            Size::XLarge
        }
    }

    pub open spec fn width_of(self) -> u64 {
        match self {
            Size::Small => 100_000,
            Size::Medium => 150_000,
            Size::Large => 200_000,
            Size::XLarge => 300_000,
        }
    }

    pub open spec fn height_of(self) -> u64 {
        30_000
    }

    /// The size class with the given number; every number above two names
    /// the largest class.
    pub fn from_u32(n: u32) -> (s: Size)
        ensures
            s == Size::of_number(n),
    {
        if n == 0 {
            Size::Small
        } else if n == 1 {
            Size::Medium
        } else if n == 2 {
            Size::Large
        } else {
            Size::XLarge
        }
    }

    pub fn width(&self) -> (w: u64)
        ensures
            w == self.width_of(),
    {
        match self {
            Size::Small => 100_000,
            Size::Medium => 150_000,
            Size::Large => 200_000,
            Size::XLarge => 300_000,
        }
    }

    pub fn height(&self) -> (h: u64)
        ensures
            h == self.height_of(),
    {
        30_000
    }
}

/// What a platform carries.
#[derive(Clone, Copy, Debug, PartialEq, Eq, Structural)]
pub enum PlatformType {
    Plain,
    Fish,
    Enemy,
}

/// An item that the player can pick up once. Its position is relative to
/// the centre of the platform that owns it.
#[derive(Clone, Copy, Debug, PartialEq, Eq, Structural)]
pub struct Collectible {
    pub dx: i64,
    pub dy: i64,
    pub taken: bool,
}

impl Collectible {
    /// The rectangle of the collectible on a platform centred at (`px`, `py`).
    pub open spec fn rect_at(self, px: i64, py: i64) -> Rect {
        Rect {
            x: clamp_coord(px + self.dx),
            y: clamp_coord(py + self.dy),
            w: FISH_WIDTH,
            h: FISH_HEIGHT,
        }
    }

    /// Whether the player, covering `player`, picks this collectible up.
    pub open spec fn picked_by(self, px: i64, py: i64, player: Rect) -> bool {
        !self.taken && self.rect_at(px, py).intersects(player)
    }

    /// The collectible after the player, covering `player`, has passed.
    pub open spec fn after_pass(self, px: i64, py: i64, player: Rect) -> Collectible {
        Collectible {
            dx: self.dx,
            dy: self.dy,
            taken: self.taken || self.rect_at(px, py).intersects(player),
        }
    }

    pub fn bounds_at(&self, px: i64, py: i64) -> (r: Rect)
        ensures
            r == self.rect_at(px, py),
    {
        Rect { x: shift(px, self.dx), y: shift(py, self.dy), w: FISH_WIDTH, h: FISH_HEIGHT }
    }
}

/// The untaken collectibles that a platform of class `size` gets when it
/// becomes a fish platform: one above the centre and one above the middle of
/// each half.
pub open spec fn fresh_school(size: Size) -> Seq<Collectible> {
    let quarter = (size.width_of() / 4) as i64;
    seq![
        Collectible { dx: (-quarter) as i64, dy: FISH_LIFT, taken: false },
        Collectible { dx: 0, dy: FISH_LIFT, taken: false },
        Collectible { dx: quarter, dy: FISH_LIFT, taken: false },
    ]
}

/// How many of `fish`, on a platform centred at (`px`, `py`), the player
/// picks up.
pub open spec fn picked_count(fish: Seq<Collectible>, px: i64, py: i64, player: Rect) -> nat
    decreases fish.len(),
{
    if fish.len() == 0 {
        0
    } else {
        let rest = picked_count(fish.drop_last(), px, py, player);
        if fish.last().picked_by(px, py, player) {
            rest + 1
        } else {
            rest
        }
    }
}

/// The kind of a platform together with what only that kind owns.
#[derive(Debug)]
pub enum Kind {
    Plain,
    Fish { fish: Vec<Collectible> },
    Enemy,
}

#[derive(Debug)]
pub struct Platform {
    /// Centre of the platform.
    pub x: i64,
    pub y: i64,
    pub size: Size,
    pub kind: Kind,
}

/// A platform as a plain value. Only a platform of the fish kind has
/// collectibles.
pub struct PlatformView {
    pub x: i64,
    pub y: i64,
    pub size: Size,
    pub platform_type: PlatformType,
    pub fish: Seq<Collectible>,
}

impl PlatformView {
    pub open spec fn rect(self) -> Rect {
        Rect { x: self.x, y: self.y, w: self.size.width_of(), h: self.size.height_of() }
    }

    /// The platform has scrolled out of the world: its right edge is more
    /// than a screen's width left of the origin.
    pub open spec fn off_left(self) -> bool {
        self.rect().right2() < -2 * SCREEN_WIDTH
    }

    /// The platform after the player, covering `player`, has passed.
    pub open spec fn after_pass(self, player: Rect) -> PlatformView {
        PlatformView {
            x: self.x,
            y: self.y,
            size: self.size,
            platform_type: self.platform_type,
            fish: Seq::new(
                self.fish.len(),
                |j: int| self.fish[j].after_pass(self.x, self.y, player),
            ),
        }
    }

    /// How many collectibles the player picks up in passing.
    pub open spec fn gain(self, player: Rect) -> nat {
        picked_count(self.fish, self.x, self.y, player)
    }

    /// The platform after the world has scrolled left for `dt` milliseconds.
    pub open spec fn scrolled(self, dt: u32) -> PlatformView {
        PlatformView {
            x: clamp_coord(self.x + travel(-SCROLL_SPEED, dt)),
            y: self.y,
            size: self.size,
            platform_type: self.platform_type,
            fish: self.fish,
        }
    }

    /// The platform moved by (`dx`, `dy`).
    pub open spec fn moved(self, dx: i64, dy: i64) -> PlatformView {
        PlatformView {
            x: clamp_coord(self.x + dx),
            y: clamp_coord(self.y + dy),
            size: self.size,
            platform_type: self.platform_type,
            fish: self.fish,
        }
    }

    /// A platform of class `size` and type `platform_type` at (`x`, `y`) in
    /// its first state: with a fresh school where it is a fish platform.
    pub open spec fn fresh(x: i64, y: i64, size: Size, platform_type: PlatformType)
        -> PlatformView {
        PlatformView {
            x,
            y,
            size,
            platform_type,
            fish: if platform_type == PlatformType::Fish {
                fresh_school(size)
            } else {
                Seq::empty()
            },
        }
    }
}

impl View for Platform {
    type V = PlatformView;

    open spec fn view(&self) -> PlatformView {
        PlatformView {
            x: self.x,
            y: self.y,
            size: self.size,
            platform_type: match self.kind {
                Kind::Plain => PlatformType::Plain,
                Kind::Fish { .. } => PlatformType::Fish,
                Kind::Enemy => PlatformType::Enemy,
            },
            fish: match self.kind {
                Kind::Fish { fish } => fish@,
                _ => Seq::empty(),
            },
        }
    }
}

/// The platforms of a sequence as plain values, in the same order.
pub open spec fn views(platforms: Seq<Platform>) -> Seq<PlatformView> {
    Seq::new(platforms.len(), |i: int| platforms[i]@)
}

impl Platform {
    /// A plain platform of the given size class, centred at the origin.
    pub fn new(size: Size) -> (p: Platform)
        ensures
            p@ == PlatformView::fresh(0, 0, size, PlatformType::Plain),
    {
        Platform { x: 0, y: 0, size, kind: Kind::Plain }
    }

    pub fn platform_type(&self) -> (t: PlatformType)
        ensures
            t == self@.platform_type,
    {
        match &self.kind {
            Kind::Plain => PlatformType::Plain,
            Kind::Fish { .. } => PlatformType::Fish,
            Kind::Enemy => PlatformType::Enemy,
        }
    }

    /// The rectangle that the platform covers.
    pub fn bounds(&self) -> (r: Rect)
        ensures
            r == self@.rect(),
    {
        Rect { x: self.x, y: self.y, w: self.size.width(), h: self.size.height() }
    }

    /// Whether the platform has scrolled out of the world on the left.
    pub fn is_off_left(&self) -> (r: bool)
        ensures
            r == self@.off_left(),
    {
        self.bounds().doubled_right() < -2 * (SCREEN_WIDTH as i128)
    }

    pub fn set_position(&mut self, x: i64, y: i64)
        ensures
            final(self)@ == (PlatformView { x, y, ..old(self)@ }),
    {
        self.x = x;
        self.y = y;
    }

    /// Moves the platform, and with it what it carries, by (`dx`, `dy`).
    pub fn translate(&mut self, dx: i64, dy: i64)
        ensures
            final(self)@ == old(self)@.moved(dx, dy),
    {
        self.x = shift(self.x, dx);
        self.y = shift(self.y, dy);
    }

    /// Gives the platform a new type and resets all that depends on the
    /// type: a fish platform gets a fresh school of untaken collectibles,
    /// whatever it carried before.
    pub fn set_type(&mut self, platform_type: PlatformType)
        ensures
            final(self)@ == PlatformView::fresh(
                old(self).x,
                old(self).y,
                old(self).size,
                platform_type,
            ),
    {
        match platform_type {
            PlatformType::Plain => {
                self.kind = Kind::Plain;
            },
            PlatformType::Enemy => {
                self.kind = Kind::Enemy;
            },
            PlatformType::Fish => {
                let quarter: i64 = (self.size.width() / 4) as i64;
                let mut fish: Vec<Collectible> = Vec::new();
                fish.push(Collectible { dx: -quarter, dy: FISH_LIFT, taken: false });
                fish.push(Collectible { dx: 0, dy: FISH_LIFT, taken: false });
                fish.push(Collectible { dx: quarter, dy: FISH_LIFT, taken: false });
                assert(fish@ =~= fresh_school(self.size));
                self.kind = Kind::Fish { fish };
            },
        }
    }

    /// Scrolls the platform, and with it what it carries, left for `dt`
    /// milliseconds.
    pub fn scroll(&mut self, dt: u32)
        ensures
            final(self)@ == old(self)@.scrolled(dt),
    {
        self.x = advance(self.x, -SCROLL_SPEED, dt);
    }

    /// Puts the platform back into play at (`x`, `y`) with a new type. Of
    /// its earlier state only the size class is kept.
    pub fn respawn(&mut self, x: i64, y: i64, platform_type: PlatformType)
        ensures
            final(self)@ == PlatformView::fresh(x, y, old(self).size, platform_type),
    {
        self.set_type(platform_type);
        self.set_position(x, y);
    }

    /// Lets the player, covering `player`, pick up every untaken collectible
    /// that the player's rectangle intersects, and returns how many those
    /// were.
    pub fn collect(&mut self, player: &Rect) -> (n: usize)
        ensures
            final(self)@ == old(self)@.after_pass(*player),
            n == old(self)@.gain(*player),
    {
        let px = self.x;
        let py = self.y;
        let mut n: usize = 0;
        match &mut self.kind {
            Kind::Fish { fish } => {
                let ghost before = fish@;
                let mut j: usize = 0;
                while j < fish.len()
                    invariant
                        j <= fish.len(),
                        fish.len() == before.len(),
                        n <= j,
                        n == picked_count(before.take(j as int), px, py, *player),
                        forall|k: int|
                            0 <= k < j ==> fish@[k] == before[k].after_pass(px, py, *player),
                        forall|k: int| j <= k < before.len() ==> fish@[k] == before[k],
                    decreases fish.len() - j,
                {
                    let c = fish[j];
                    proof {
                        assert(before.take(j as int + 1).drop_last() =~= before.take(j as int));
                    }
                    if intersect(&c.bounds_at(px, py), player) {
                        if !c.taken {
                            n = n + 1;
                        }
                        fish[j] = Collectible { dx: c.dx, dy: c.dy, taken: true };
                    }
                    j = j + 1;
                }
                proof {
                    assert(before.take(j as int) =~= before);
                    assert(fish@ =~= old(self)@.after_pass(*player).fish);
                }
            },
            _ => {},
        }
        proof {
            assert(self@.fish =~= old(self)@.after_pass(*player).fish);
        }
        n
    }
}

/// The platforms after the player, covering `player`, has passed each.
pub open spec fn passed_all(platforms: Seq<PlatformView>, player: Rect) -> Seq<PlatformView> {
    Seq::new(platforms.len(), |i: int| platforms[i].after_pass(player))
}

/// The platforms after the world has scrolled left for `dt` milliseconds.
pub open spec fn scrolled_all(platforms: Seq<PlatformView>, dt: u32) -> Seq<PlatformView> {
    Seq::new(platforms.len(), |i: int| platforms[i].scrolled(dt))
}

/// How many collectibles, over all the platforms, the player picks up.
pub open spec fn total_gain(platforms: Seq<PlatformView>, player: Rect) -> nat
    decreases platforms.len(),
{
    if platforms.len() == 0 {
        0
    } else {
        total_gain(platforms.drop_last(), player) + platforms.last().gain(player)
    }
}

/// The score that stands for `v` points: the counter stops at the largest
/// number it can hold.
pub open spec fn capped_score(v: int) -> u32 {
    if v > u32::MAX {
        u32::MAX
    } else {
        v as u32
    }
}

/// Lets the player, covering `player`, pick up what it touches on every
/// platform, and returns `score` raised by one for each collectible picked
/// up.
pub fn collect_all(platforms: &mut Vec<Platform>, player: &Rect, score: u32) -> (total: u32)
    ensures
        views(final(platforms)@) == passed_all(views(old(platforms)@), *player),
        total == capped_score(score + total_gain(views(old(platforms)@), *player)),
{
    let ghost before = views(platforms@);
    let mut total: u32 = score;
    let mut i: usize = 0;
    while i < platforms.len()
        invariant
            i <= platforms.len(),
            before == views(old(platforms)@),
            platforms@.len() == before.len(),
            total == capped_score(score + total_gain(before.take(i as int), *player)),
            forall|k: int| i <= k < before.len() ==> (#[trigger] platforms@[k])@ == before[k],
            forall|k: int|
                0 <= k < i ==> (#[trigger] platforms@[k])@ == before[k].after_pass(*player),
        decreases platforms.len() - i,
    {
        proof {
            assert(before.take(i as int + 1).drop_last() =~= before.take(i as int));
        }
        let n = platforms[i].collect(player);
        let sum: u128 = total as u128 + n as u128;
        total = if sum > u32::MAX as u128 {
            u32::MAX
        } else {
            sum as u32
        };
        i = i + 1;
    }
    proof {
        assert(before.take(i as int) =~= before);
        assert(views(platforms@) =~= passed_all(before, *player));
    }
    total
}

/// Scrolls every platform left for `dt` milliseconds.
pub fn scroll_all(platforms: &mut Vec<Platform>, dt: u32)
    ensures
        views(final(platforms)@) == scrolled_all(views(old(platforms)@), dt),
{
    let ghost before = views(platforms@);
    let mut i: usize = 0;
    while i < platforms.len()
        invariant
            i <= platforms.len(),
            before == views(old(platforms)@),
            platforms@.len() == before.len(),
            forall|k: int| i <= k < before.len() ==> (#[trigger] platforms@[k])@ == before[k],
            forall|k: int| 0 <= k < i ==> (#[trigger] platforms@[k])@ == before[k].scrolled(dt),
        decreases platforms.len() - i,
    {
        platforms[i].scroll(dt);
        i = i + 1;
    }
    proof {
        assert(views(platforms@) =~= scrolled_all(before, dt));
    }
}

} // verus!
