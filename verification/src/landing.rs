//! Landing: how the platforms stop a falling player.
//!
//! There are two rules. Under `Grounding::FirstOverlap` only the first
//! platform that the player overlaps horizontally is asked, and overlapping
//! it counts as standing on a platform at whatever height the player is:
//! a player far above or below a platform is taken to stand on it. Under
//! `Grounding::Surface` the player stands on a platform only where it comes
//! down onto one or rests on one, and every platform is asked. A new game
//! goes by the first rule.

use vstd::prelude::*;
use crate::geometry::{overlap_x, Rect};
use crate::platform::{views, Platform, PlatformView};
use crate::player::Player;

verus! {

/// The rule by which the platforms are consulted.
#[derive(Clone, Copy, Debug, PartialEq, Eq, Structural)]
pub enum Grounding {
    FirstOverlap,
    Surface,
}

/// The player comes down onto the platform in this frame: the two overlap
/// horizontally, the player's lower edge is at or above the platform's upper
/// edge, and one more frame at the present vertical speed brings it to that
/// edge or below.
pub open spec fn is_landing(player: Player, platform: PlatformView) -> bool {
    &&& player.rect().overlaps_x(platform.rect())
    &&& player.rect().bottom2() + 2 * player.vy <= platform.rect().top2()
    &&& player.rect().bottom2() >= platform.rect().top2()
}

/// Platform `k` is the first, in the order of the sequence, that the player
/// overlaps horizontally.
pub open spec fn first_under(player: Player, platforms: Seq<PlatformView>, k: int) -> bool {
    &&& 0 <= k < platforms.len()
    &&& player.rect().overlaps_x(platforms[k].rect())
    &&& forall|i: int| 0 <= i < k ==> !player.rect().overlaps_x(#[trigger] platforms[i].rect())
}

/// The player overlaps one of the platforms horizontally.
pub open spec fn over_some(player: Player, platforms: Seq<PlatformView>) -> bool {
    exists|i: int|
        0 <= i < platforms.len() && player.rect().overlaps_x(#[trigger] platforms[i].rect())
}

/// The player lands on the first platform that it overlaps horizontally.
pub open spec fn lands(player: Player, platforms: Seq<PlatformView>) -> bool {
    exists|k: int| #[trigger]
        first_under(player, platforms, k) && is_landing(player, platforms[k])
}

/// The player after the platforms have been consulted. Only the first
/// platform that the player overlaps horizontally is asked: landing on it
/// stops the fall, and overlapping it, at whatever height, counts as
/// standing on a platform.
pub open spec fn landed(player: Player, platforms: Seq<PlatformView>) -> Player {
    Player {
        vy: if lands(player, platforms) {
            0
        } else {
            player.vy
        },
        on_platform: over_some(player, platforms),
        ..player
    }
}

/// The player comes down onto one of the platforms, or rests on one.
pub open spec fn lands_on_some(player: Player, platforms: Seq<PlatformView>) -> bool {
    exists|i: int| 0 <= i < platforms.len() && is_landing(player, #[trigger] platforms[i])
}

/// The player after the platforms have been consulted by the stricter rule:
/// coming down onto any platform stops the fall, and only that counts as
/// standing on a platform.
pub open spec fn landed_on_surface(player: Player, platforms: Seq<PlatformView>) -> Player {
    Player {
        vy: if lands_on_some(player, platforms) {
            0
        } else {
            player.vy
        },
        on_platform: lands_on_some(player, platforms),
        ..player
    }
}

/// The player after the platforms have been consulted by `rule`.
pub open spec fn grounded(player: Player, platforms: Seq<PlatformView>, rule: Grounding)
    -> Player {
    match rule {
        Grounding::FirstOverlap => landed(player, platforms),
        Grounding::Surface => landed_on_surface(player, platforms),
    }
}

/// Whether the player comes down onto the platform in this frame.
pub fn player_landed(player: &Player, platform: &Platform) -> (r: bool)
    ensures
        r == is_landing(*player, platform@),
{
    let p: Rect = player.bounds();
    let q: Rect = platform.bounds();
    overlap_x(p, q) && p.doubled_bottom() + 2 * (player.vy as i128) <= q.doubled_top()
        && p.doubled_bottom() >= q.doubled_top()
}

/// Consults the platforms in order, up to the first that the player overlaps
/// horizontally.
pub fn resolve_landing(player: &mut Player, platforms: &Vec<Platform>)
    ensures
        *final(player) == landed(*old(player), views(platforms@)),
{
    let ghost seen = views(platforms@);
    let ghost start = *player;
    let mut found = false;
    let mut i: usize = 0;
    while i < platforms.len() && !found
        invariant
            i <= platforms.len(),
            seen == views(platforms@),
            player.x == start.x,
            player.y == start.y,
            player.width == start.width,
            player.height == start.height,
            player.vx == start.vx,
            player.right == start.right,
            player.distance == start.distance,
            !found ==> player.vy == start.vy,
            !found ==> forall|k: int|
                0 <= k < i ==> !start.rect().overlaps_x(#[trigger] seen[k].rect()),
            found ==> i >= 1 && first_under(start, seen, i - 1),
            found ==> player.vy == if is_landing(start, seen[i - 1]) {
                0
            } else {
                start.vy
            },
        decreases platforms.len() - i + if found { 0int } else { 1int },
    {
        assert(seen[i as int] == platforms@[i as int]@);
        if player_landed(player, &platforms[i]) {
            player.vy = 0;
        }
        if overlap_x(player.bounds(), platforms[i].bounds()) {
            found = true;
        }
        i = i + 1;
    }
    player.on_platform = found;
    proof {
        if found {
            assert(first_under(start, seen, i - 1));
            assert(over_some(start, seen));
            assert forall|k: int| #[trigger] first_under(start, seen, k) implies k == i - 1 by {
                if k < i - 1 {
                    assert(!start.rect().overlaps_x(seen[k].rect()));
                } else if k > i - 1 {
                    assert(!start.rect().overlaps_x(seen[i - 1].rect()));
                }
            }
        } else {
            assert(!over_some(start, seen));
            assert(!lands(start, seen));
        }
    }
}

/// Consults every platform: the player stands on a platform, and stops
/// falling, where it comes down onto one or rests on one.
pub fn resolve_landing_on_surface(player: &mut Player, platforms: &Vec<Platform>)
    ensures
        *final(player) == landed_on_surface(*old(player), views(platforms@)),
{
    let ghost seen = views(platforms@);
    let mut found = false;
    let mut i: usize = 0;
    while i < platforms.len() && !found
        invariant
            i <= platforms.len(),
            seen == views(platforms@),
            *player == *old(player),
            !found ==> forall|k: int| 0 <= k < i ==> !is_landing(*player, #[trigger] seen[k]),
            found ==> lands_on_some(*player, seen),
        decreases platforms.len() - i + if found { 0int } else { 1int },
    {
        assert(seen[i as int] == platforms@[i as int]@);
        if player_landed(player, &platforms[i]) {
            found = true;
        }
        i = i + 1;
    }
    if found {
        player.vy = 0;
    }
    player.on_platform = found;
}

/// Consults the platforms by `rule`.
pub fn resolve(player: &mut Player, platforms: &Vec<Platform>, rule: Grounding)
    ensures
        *final(player) == grounded(*old(player), views(platforms@), rule),
{
    match rule {
        Grounding::FirstOverlap => resolve_landing(player, platforms),
        Grounding::Surface => resolve_landing_on_surface(player, platforms),
    }
}

} // verus!
