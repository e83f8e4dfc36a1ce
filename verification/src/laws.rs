//! What holds of every frame, proved from the contracts of the simulation.

use vstd::prelude::*;
use crate::game::{frame, scrolled_controls, staged, GameView};
use crate::geometry::Rect;
use crate::input::Input;
use crate::platform::{
    passed_all,
    picked_count,
    scrolled_all,
    total_gain,
    Collectible,
    PlatformView,
};
use crate::player::kept_on_screen;
use crate::respawn::{all_apart, brought_back, respawn_outcome};
use crate::world::{travel, ELAPSED_LIMIT, LEFT, SCROLL_SPEED, SPAWN_DELAY};

verus! {

/// A platform that a round of respawning has given a new place overlaps no
/// other platform horizontally.
pub proof fn lemma_respawned_platform_is_apart(
    before: Seq<PlatformView>,
    after: Seq<PlatformView>,
    i: int,
    j: int,
)
    requires
        respawn_outcome(before, after),
        0 <= i < after.len(),
        0 <= j < after.len(),
        i != j,
        after[i] != before[i],
    ensures
        !after[i].rect().overlaps_x(after[j].rect()),
        !after[j].rect().overlaps_x(after[i].rect()),
{
    assert(brought_back(before, after, i));
}

/// Platforms of which no two overlapped horizontally before a round of
/// respawning do not overlap after it.
pub proof fn lemma_respawn_keeps_apart(before: Seq<PlatformView>, after: Seq<PlatformView>)
    requires
        respawn_outcome(before, after),
        all_apart(before),
    ensures
        all_apart(after),
{
    assert forall|i: int, j: int|
        0 <= i < after.len() && 0 <= j < after.len() && i != j implies !(
    #[trigger] after[i].rect()).overlaps_x(#[trigger] after[j].rect()) by {
        if after[i] != before[i] {
            lemma_respawned_platform_is_apart(before, after, i, j);
        } else if after[j] != before[j] {
            lemma_respawned_platform_is_apart(before, after, j, i);
        } else {
            assert(!before[i].rect().overlaps_x(before[j].rect()));
        }
    }
}

/// A platform that a frame has brought back, one that was off on the left
/// and after the frame is further right than it was, overlaps no other
/// platform after the frame, whatever the scroll of that frame did.
pub proof fn lemma_frame_respawned_is_apart(
    old: GameView,
    input: Input,
    dt: u32,
    new: GameView,
    i: int,
    j: int,
)
    requires
        frame(old, input, dt, new),
        0 <= i < old.platforms.len(),
        0 <= j < old.platforms.len(),
        i != j,
        old.platforms[i].off_left(),
        new.platforms[i].x > old.platforms[i].x,
    ensures
        !new.platforms[i].rect().overlaps_x(new.platforms[j].rect()),
        !new.platforms[j].rect().overlaps_x(new.platforms[i].rect()),
{
    let walker = old.player.stepped(input, dt);
    let mid = choose|mid: Seq<PlatformView>| #[trigger] staged(old.platforms, walker, dt, mid, new);
    let passed = passed_all(old.platforms, walker.rect());
    assert(passed[i].x == old.platforms[i].x);
    assert(mid[i] == passed[i] || brought_back(passed, mid, i));
    if walker.right {
        assert(new.platforms[i] == mid[i].scrolled(dt));
        assert(new.platforms[j] == mid[j].scrolled(dt));
    }
    assert(brought_back(passed, mid, i));
    assert(!mid[i].rect().overlaps_x(mid[j].rect()));
}

/// Platforms of which no two overlap horizontally still do not after a
/// frame, as long as the scroll of that frame moves no platform to the end
/// of the number range.
pub proof fn lemma_frame_keeps_apart(old: GameView, input: Input, dt: u32, new: GameView)
    requires
        frame(old, input, dt, new),
        all_apart(old.platforms),
        forall|i: int|
            0 <= i < old.platforms.len() ==> (#[trigger] old.platforms[i]).x + travel(
                -SCROLL_SPEED,
                dt,
            ) >= i64::MIN,
    ensures
        all_apart(new.platforms),
{
    let walker = old.player.stepped(input, dt);
    let mid = choose|mid: Seq<PlatformView>| #[trigger] staged(old.platforms, walker, dt, mid, new);
    let passed = passed_all(old.platforms, walker.rect());
    assert forall|i: int, j: int|
        0 <= i < passed.len() && 0 <= j < passed.len() && i != j implies !(
    #[trigger] passed[i].rect()).overlaps_x(#[trigger] passed[j].rect()) by {
        assert(!old.platforms[i].rect().overlaps_x(old.platforms[j].rect()));
    }
    lemma_respawn_keeps_apart(passed, mid);
    if walker.right {
        let after = scrolled_all(mid, dt);
        assert forall|i: int, j: int|
            0 <= i < after.len() && 0 <= j < after.len() && i != j implies !(
        #[trigger] after[i].rect()).overlaps_x(#[trigger] after[j].rect()) by {
            assert(!mid[i].rect().overlaps_x(mid[j].rect()));
            assert(mid[i] == passed[i] || brought_back(passed, mid, i));
            assert(mid[j] == passed[j] || brought_back(passed, mid, j));
            assert(passed[i].x == old.platforms[i].x);
            assert(passed[j].x == old.platforms[j].x);
        }
    }
}

/// A collectible that is taken stays taken through a frame, unless its
/// platform had scrolled out of the world and was brought back with the
/// collectibles of its new type.
pub proof fn lemma_taken_stays_taken(
    old: GameView,
    input: Input,
    dt: u32,
    new: GameView,
    i: int,
    j: int,
)
    requires
        frame(old, input, dt, new),
        0 <= i < old.platforms.len(),
        0 <= j < old.platforms[i].fish.len(),
        old.platforms[i].fish[j].taken,
    ensures
        new.platforms.len() == old.platforms.len(),
        ({
            &&& new.platforms[i].fish.len() == old.platforms[i].fish.len()
            &&& new.platforms[i].fish[j].taken
        }) || ({
            &&& old.platforms[i].off_left()
            &&& new.platforms[i].fish == PlatformView::fresh(
                new.platforms[i].x,
                new.platforms[i].y,
                old.platforms[i].size,
                new.platforms[i].platform_type,
            ).fish
        }),
{
    let walker = old.player.stepped(input, dt);
    let mid = choose|mid: Seq<PlatformView>| #[trigger] staged(old.platforms, walker, dt, mid, new);
    let passed = passed_all(old.platforms, walker.rect());
    assert(mid[i] == passed[i] || brought_back(passed, mid, i));
    assert(passed[i].fish[j].taken);
    if walker.right {
        assert(new.platforms[i] == mid[i].scrolled(dt));
    }
}

/// The indices of the collectibles among `fish`, on a platform centred at
/// (`px`, `py`), that the player picks up.
pub open spec fn picked_set(fish: Seq<Collectible>, px: i64, py: i64, player: Rect) -> Set<int> {
    Set::new(|j: int| 0 <= j < fish.len() && fish[j].picked_by(px, py, player))
}

/// The number by which a platform raises the score is the number of its
/// collectibles that are untaken and intersect the player.
pub proof fn lemma_gain_counts_picked(fish: Seq<Collectible>, px: i64, py: i64, player: Rect)
    ensures
        picked_set(fish, px, py, player).finite(),
        picked_count(fish, px, py, player) == picked_set(fish, px, py, player).len(),
        picked_count(fish, px, py, player) <= fish.len(),
    decreases fish.len(),
{
    if fish.len() == 0 {
        assert(picked_set(fish, px, py, player) =~= Set::empty());
    } else {
        let rest = fish.drop_last();
        let last = fish.len() - 1;
        lemma_gain_counts_picked(rest, px, py, player);
        if fish.last().picked_by(px, py, player) {
            assert(picked_set(fish, px, py, player) =~= picked_set(rest, px, py, player).insert(
                last,
            ));
        } else {
            assert(picked_set(fish, px, py, player) =~= picked_set(rest, px, py, player));
        }
    }
}

/// A collectible that the player picks up is taken afterwards and is not
/// picked up again, wherever the player and the platform then are.
pub proof fn lemma_picked_only_once(
    p: PlatformView,
    player: Rect,
    j: int,
    px: i64,
    py: i64,
    later: Rect,
)
    requires
        0 <= j < p.fish.len(),
        p.fish[j].picked_by(p.x, p.y, player),
    ensures
        p.after_pass(player).fish[j].taken,
        !p.after_pass(player).fish[j].picked_by(px, py, later),
{
}

/// Where the player picks nothing up, the platforms stay as they are and
/// the score gains nothing.
pub proof fn lemma_nothing_picked(platforms: Seq<PlatformView>, player: Rect)
    requires
        forall|i: int, j: int|
            0 <= i < platforms.len() && 0 <= j < platforms[i].fish.len() ==> !(
            #[trigger] platforms[i].fish[j]).picked_by(platforms[i].x, platforms[i].y, player),
    ensures
        total_gain(platforms, player) == 0,
        passed_all(platforms, player) == platforms,
    decreases platforms.len(),
{
    if platforms.len() > 0 {
        let rest = platforms.drop_last();
        let p = platforms.last();
        assert forall|i: int, j: int|
            0 <= i < rest.len() && 0 <= j < rest[i].fish.len() implies !(
        #[trigger] rest[i].fish[j]).picked_by(rest[i].x, rest[i].y, player) by {
            assert(rest[i] == platforms[i]);
            assert(!platforms[i].fish[j].picked_by(platforms[i].x, platforms[i].y, player));
        }
        lemma_nothing_picked(rest, player);
        lemma_gain_counts_picked(p.fish, p.x, p.y, player);
        assert(picked_set(p.fish, p.x, p.y, player) =~= Set::empty()) by {
            assert forall|j: int| !picked_set(p.fish, p.x, p.y, player).contains(j) by {
                if 0 <= j < p.fish.len() {
                    assert(!platforms[platforms.len() - 1].fish[j].picked_by(p.x, p.y, player));
                }
            }
        }
    }
    assert forall|i: int| 0 <= i < platforms.len() implies #[trigger] passed_all(
        platforms,
        player,
    )[i] == platforms[i] by {
        let q = platforms[i];
        assert forall|j: int| 0 <= j < q.fish.len() implies #[trigger] q.after_pass(
            player,
        ).fish[j] == q.fish[j] by {
            assert(!platforms[i].fish[j].picked_by(q.x, q.y, player));
        }
        assert(q.after_pass(player).fish =~= q.fish);
    }
    assert(passed_all(platforms, player) =~= platforms);
}

/// The score never falls in a frame, and as long as the counter has room it
/// rises by exactly the number of collectibles that the player, moved by
/// the frame, picks up.
pub proof fn lemma_score_counts_pickups(old: GameView, input: Input, dt: u32, new: GameView)
    requires
        frame(old, input, dt, new),
    ensures
        new.score >= old.score,
        old.score + total_gain(old.platforms, old.player.stepped(input, dt).rect()) <= u32::MAX
            ==> new.score == old.score + total_gain(
            old.platforms,
            old.player.stepped(input, dt).rect(),
        ),
{
}

/// After a frame a player that is no wider than the screen stands between
/// the screen's left edge and the origin, whatever the keys.
pub proof fn lemma_player_stays_on_screen(old: GameView, input: Input, dt: u32, new: GameView)
    requires
        frame(old, input, dt, new),
        old.player.fits_screen(),
    ensures
        2 * LEFT + new.player.width <= 2 * new.player.x,
        new.player.x <= 0,
        new.player.width == old.player.width,
{
}

/// A frame of no duration moves nothing and changes neither a collectible
/// nor the score nor a timer, in a world at rest: the player has no speed,
/// stands where the clamp allows and touches no untaken collectible, no
/// platform and no enemy is waiting to be brought back, and no timer is due.
pub proof fn lemma_zero_time_frame_is_still(old: GameView, input: Input, new: GameView)
    requires
        frame(old, input, 0, new),
        old.player.vx == 0 && old.player.vy == 0,
        kept_on_screen(old.player.x, old.player.width) == old.player.x,
        forall|i: int, j: int|
            0 <= i < old.platforms.len() && 0 <= j < old.platforms[i].fish.len() ==> !(
            #[trigger] old.platforms[i].fish[j]).picked_by(
                old.platforms[i].x,
                old.platforms[i].y,
                old.player.rect(),
            ),
        forall|i: int| 0 <= i < old.platforms.len() ==> !(#[trigger] old.platforms[i]).off_left(),
        forall|i: int| 0 <= i < old.enemies.len() ==> !(#[trigger] old.enemies[i]).past_left(),
        old.spawn_time < SPAWN_DELAY,
        old.elapsed_time <= ELAPSED_LIMIT,
    ensures
        new.player.rect() == old.player.rect(),
        new.player.vx == 0 && new.player.vy == 0,
        new.player.distance == old.player.distance,
        new.platforms == old.platforms,
        new.enemies == old.enemies,
        new.controls == old.controls,
        new.score == old.score,
        new.elapsed_time == old.elapsed_time,
        new.spawn_time == old.spawn_time,
{
    let walker = old.player.stepped(input, 0);
    let mid = choose|mid: Seq<PlatformView>| #[trigger] staged(old.platforms, walker, 0, mid, new);
    assert(walker.rect() == old.player.rect());
    lemma_nothing_picked(old.platforms, walker.rect());
    assert forall|i: int| 0 <= i < mid.len() implies #[trigger] mid[i] == old.platforms[i] by {
        assert(mid[i] == old.platforms[i] || brought_back(old.platforms, mid, i));
    }
    assert(mid =~= old.platforms);
    assert(scrolled_all(mid, 0) =~= mid) by {
        assert forall|i: int| 0 <= i < mid.len() implies #[trigger] mid[i].scrolled(0)
            == mid[i] by {}
    }
    assert(scrolled_controls(old.controls, 0) =~= old.controls);
    assert(new.enemies =~= old.enemies) by {
        assert forall|i: int| 0 <= i < old.enemies.len() implies #[trigger] new.enemies[i]
            == old.enemies[i] by {
            assert(old.enemies[i].flown(0) == old.enemies[i]);
        }
    }
}

} // verus!
