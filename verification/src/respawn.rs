//! Bringing back the platforms that have scrolled out of the world.
//!
//! A platform that is off on the left is given a new place by rejection
//! sampling: places are drawn from a band right of the screen until one is
//! found at which the platform overlaps no other platform horizontally. The
//! search is bounded: a platform for which none of `RESPAWN_ATTEMPTS` places
//! is free stays where it is, out of sight, and is tried again in the next
//! frame. A platform is therefore never put where it overlaps another one,
//! and a platform that is free to go anywhere in the band always gets the
//! first place that is drawn for it.
//!
//! For each platform that is off on the left, the number that decides its
//! new type is drawn first, then `y` and `x` of each place that is tried.

use vstd::prelude::*;
use rand::rngs::ThreadRng;
use crate::geometry::{overlap_x, Rect};
use crate::platform::{views, Platform, PlatformType, PlatformView, Size};
use crate::random::draw_between;
use crate::world::{BOTTOM, RESPAWN_ATTEMPTS, RIGHT, SCREEN_WIDTH, TOP, UNIT};

verus! {

/// The band from which new places are drawn: horizontally from 100 units
/// right of the screen to a screen's width right of it, vertically from
/// 100 units above the floor to 200 units below the top.
pub const BAND_LEFT: i64 = RIGHT + 100 * UNIT;

pub const BAND_RIGHT: i64 = SCREEN_WIDTH + RIGHT;

pub const BAND_BOTTOM: i64 = BOTTOM + 100 * UNIT;

pub const BAND_TOP: i64 = TOP - 200 * UNIT;

pub open spec fn in_band(x: i64, y: i64) -> bool {
    BAND_LEFT <= x < BAND_RIGHT && BAND_BOTTOM <= y < BAND_TOP
}

/// The rectangle `candidate` overlaps none of the platforms horizontally,
/// the platform at index `skip` left aside.
pub open spec fn spot_free(platforms: Seq<PlatformView>, skip: int, candidate: Rect) -> bool {
    forall|j: int|
        0 <= j < platforms.len() && j != skip ==> !candidate.overlaps_x(
            #[trigger] platforms[j].rect(),
        )
}

/// No two platforms overlap horizontally.
pub open spec fn all_apart(platforms: Seq<PlatformView>) -> bool {
    forall|i: int, j: int|
        0 <= i < platforms.len() && 0 <= j < platforms.len() && i != j ==> !(
        #[trigger] platforms[i].rect()).overlaps_x(#[trigger] platforms[j].rect())
}

/// The type that a draw from `0..10` gives a platform: five in ten are fish
/// platforms, three in ten enemy platforms, two in ten plain.
pub open spec fn type_for_draw(draw: i64) -> PlatformType {
    if draw < 5 {
        PlatformType::Fish
    } else if draw < 8 {
        PlatformType::Enemy
    } else {
        PlatformType::Plain
    }
}

/// Platform `i` has been brought back: it was off on the left, and now is a
/// platform of the same size in its first state, at a place of the band
/// where it overlaps no other platform horizontally.
pub open spec fn brought_back(before: Seq<PlatformView>, after: Seq<PlatformView>, i: int)
    -> bool {
    &&& before[i].off_left()
    &&& in_band(after[i].x, after[i].y)
    &&& after[i] == PlatformView::fresh(
        after[i].x,
        after[i].y,
        before[i].size,
        after[i].platform_type,
    )
    &&& spot_free(after, i, after[i].rect())
}

/// What holds of the platforms after a round of respawning, whatever was
/// drawn: each is either as it was or has been brought back, and each that
/// was owed a new place has been brought back.
pub open spec fn respawn_outcome(before: Seq<PlatformView>, after: Seq<PlatformView>) -> bool {
    &&& after.len() == before.len()
    &&& forall|i: int|
        0 <= i < before.len() ==> #[trigger] after[i] == before[i] || brought_back(
            before,
            after,
            i,
        )
    &&& respawn_owed(before, after)
}

pub fn platform_type_for(draw: i64) -> (t: PlatformType)
    ensures
        t == type_for_draw(draw),
{
    if draw < 5 {
        PlatformType::Fish
    } else if draw < 8 {
        PlatformType::Enemy
    } else {
        PlatformType::Plain
    }
}

/// Whether `candidate` overlaps none of the platforms horizontally, the
/// platform at index `skip` left aside.
pub fn is_spot_free(platforms: &Vec<Platform>, skip: usize, candidate: Rect) -> (free: bool)
    ensures
        free == spot_free(views(platforms@), skip as int, candidate),
{
    let mut j: usize = 0;
    while j < platforms.len()
        invariant
            j <= platforms.len(),
            forall|k: int|
                0 <= k < j && k != skip ==> !candidate.overlaps_x(
                    #[trigger] views(platforms@)[k].rect(),
                ),
        decreases platforms.len() - j,
    {
        if j != skip && overlap_x(candidate, platforms[j].bounds()) {
            assert(candidate.overlaps_x(views(platforms@)[j as int].rect()));
            return false;
        }
        j = j + 1;
    }
    true
}

/// Gives platform `i` the place (`x`, `y`) and the type that `draw` stands
/// for, if the platform overlaps no other platform there; else leaves all
/// platforms as they are.
pub fn place_platform(
    platforms: &mut Vec<Platform>,
    i: usize,
    x: i64,
    y: i64,
    draw: i64,
) -> (placed: bool)
    requires
        i < old(platforms).len(),
    ensures
        final(platforms)@.len() == old(platforms)@.len(),
        placed == spot_free(
            views(old(platforms)@),
            i as int,
            (PlatformView { x, y, ..old(platforms)@[i as int]@ }).rect(),
        ),
        placed ==> views(final(platforms)@) == views(old(platforms)@).update(
            i as int,
            PlatformView::fresh(x, y, old(platforms)@[i as int].size, type_for_draw(draw)),
        ),
        !placed ==> final(platforms)@ == old(platforms)@,
{
    let size = platforms[i].size;
    let candidate = Rect { x, y, w: size.width(), h: size.height() };
    if is_spot_free(platforms, i, candidate) {
        platforms[i].respawn(x, y, platform_type_for(draw));
        assert(views(platforms@) =~= views(old(platforms)@).update(
            i as int,
            PlatformView::fresh(x, y, size, type_for_draw(draw)),
        ));
        true
    } else {
        false
    }
}

/// Draws the number for a new type and then places for platform `i`, until
/// a place is free or the attempts are used up.
fn try_respawn(platforms: &mut Vec<Platform>, i: usize, rng: &mut ThreadRng) -> (placed: bool)
    requires
        i < old(platforms).len(),
    ensures
        final(platforms)@.len() == old(platforms)@.len(),
        !placed ==> views(final(platforms)@) == views(old(platforms)@),
        placed ==> ({
            let v = views(final(platforms)@)[i as int];
            &&& views(final(platforms)@) == views(old(platforms)@).update(i as int, v)
            &&& in_band(v.x, v.y)
            &&& v == PlatformView::fresh(
                v.x,
                v.y,
                views(old(platforms)@)[i as int].size,
                v.platform_type,
            )
            &&& spot_free(views(old(platforms)@), i as int, v.rect())
        }),
        band_clear(views(old(platforms)@), i as int) ==> placed,
{
    let draw = draw_between(rng, 0, 10);
    let mut attempts: u32 = 0;
    while attempts < RESPAWN_ATTEMPTS
        invariant
            i < platforms.len(),
            platforms@ == old(platforms)@,
            attempts > 0 ==> !band_clear(views(old(platforms)@), i as int),
        decreases RESPAWN_ATTEMPTS - attempts,
    {
        let y = draw_between(rng, BAND_BOTTOM, BAND_TOP);
        let x = draw_between(rng, BAND_LEFT, BAND_RIGHT);
        if place_platform(platforms, i, x, y, draw) {
            return true;
        }
        proof {
            let seen = views(platforms@);
            assert(seen[i as int] == platforms@[i as int]@);
            assert(footprint(seen[i as int].size, x, y) == (PlatformView {
                x,
                y,
                ..platforms@[i as int]@
            }).rect());
            assert(in_band(x, y) && !spot_free(seen, i as int, footprint(seen[i as int].size, x, y)));
        }
        attempts = attempts + 1;
    }
    false
}

/// Brings back every platform that is off on the left and for which a free
/// place is found, in the order of the sequence. A place is found for
/// every platform that, when its turn comes, is free to go anywhere in the
/// band.
pub fn respawn_platforms(platforms: &mut Vec<Platform>, rng: &mut ThreadRng)
    ensures
        respawn_outcome(views(old(platforms)@), views(final(platforms)@)),
{
    let ghost before = views(platforms@);
    let mut i: usize = 0;
    while i < platforms.len()
        invariant
            i <= platforms.len(),
            before == views(old(platforms)@),
            platforms@.len() == before.len(),
            forall|k: int| i <= k < before.len() ==> #[trigger] views(platforms@)[k] == before[k],
            forall|k: int|
                0 <= k < i ==> #[trigger] views(platforms@)[k] == before[k] || brought_back(
                    before,
                    views(platforms@),
                    k,
                ),
            forall|k: int|
                0 <= k < i && before[k].off_left() && #[trigger] band_clear(
                    at_turn(before, views(platforms@), k),
                    k,
                ) ==> brought_back(before, views(platforms@), k),
        decreases platforms.len() - i,
    {
        let ghost cur = views(platforms@);
        assert(cur[i as int] == before[i as int]);
        assert(at_turn(before, cur, i as int) =~= cur);
        if platforms[i].is_off_left() {
            let placed = try_respawn(platforms, i, rng);
            proof {
                let now = views(platforms@);
                assert forall|k: int| 0 <= k <= i implies #[trigger] at_turn(before, now, k)
                    == at_turn(before, cur, k) by {
                    assert forall|j: int| 0 <= j < k implies now[j] == cur[j] by {}
                    assert(at_turn(before, now, k) =~= at_turn(before, cur, k));
                }
                if placed {
                    assert(brought_back(before, now, i as int)) by {
                        assert forall|j: int| 0 <= j < now.len() && j != i implies !now[i as int]
                            .rect().overlaps_x(#[trigger] now[j].rect()) by {
                            assert(now[j] == cur[j]);
                            assert(!now[i as int].rect().overlaps_x(cur[j].rect()));
                        }
                    }
                    assert forall|k: int| 0 <= k < i implies #[trigger] now[k] == before[k]
                        || brought_back(before, now, k) by {
                        assert(now[k] == cur[k]);
                        if cur[k] != before[k] {
                            assert(brought_back(before, cur, k));
                            assert forall|j: int| 0 <= j < now.len() && j != k implies !now[k]
                                .rect().overlaps_x(#[trigger] now[j].rect()) by {
                                if j == i {
                                    assert(!now[i as int].rect().overlaps_x(cur[k].rect()));
                                } else {
                                    assert(now[j] == cur[j]);
                                    assert(!cur[k].rect().overlaps_x(cur[j].rect()));
                                }
                            }
                        }
                    }
                }
                assert forall|k: int|
                    0 <= k <= i && before[k].off_left() && #[trigger] band_clear(
                        at_turn(before, now, k),
                        k,
                    ) implies brought_back(before, now, k) by {
                    assert(at_turn(before, now, k) == at_turn(before, cur, k));
                    if k < i {
                        assert(brought_back(before, cur, k));
                        assert(cur[k] != before[k]);
                        assert(now[k] == before[k] || brought_back(before, now, k));
                    }
                }
            }
        }
        i = i + 1;
    }
}

/// The rectangle that a platform of class `size` covers when it is centred
/// at (`x`, `y`).
pub open spec fn footprint(size: Size, x: i64, y: i64) -> Rect {
    Rect { x, y, w: size.width_of(), h: size.height_of() }
}

/// Platform `i` is free to go anywhere in the band: at no place of the band
/// would it overlap another of the platforms horizontally.
pub open spec fn band_clear(platforms: Seq<PlatformView>, i: int) -> bool {
    forall|x: i64, y: i64|
        in_band(x, y) ==> spot_free(platforms, i, #[trigger] footprint(platforms[i].size, x, y))
}

/// The platforms as they are when a round of respawning comes to platform
/// `i`: those before it as the round leaves them, the others as they were.
pub open spec fn at_turn(before: Seq<PlatformView>, after: Seq<PlatformView>, i: int) -> Seq<
    PlatformView,
> {
    Seq::new(
        before.len(),
        |j: int|
            if j < i {
                after[j]
            } else {
                before[j]
            },
    )
}

/// Every platform that is off on the left and, when its turn comes, free to
/// go anywhere in the band has been brought back: the first place that is
/// drawn for it is free, whichever it is.
pub open spec fn respawn_owed(before: Seq<PlatformView>, after: Seq<PlatformView>) -> bool {
    forall|i: int|
        0 <= i < before.len() && before[i].off_left() && #[trigger] band_clear(
            at_turn(before, after, i),
            i,
        ) ==> brought_back(before, after, i)
}

} // verus!
