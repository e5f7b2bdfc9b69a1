//! Greedy choice of a ghost's next direction.
//!
//! A ghost looks one tile ahead: from the tile it is about to enter it
//! weighs the four neighbours and heads for the one closest to its target.

use vstd::prelude::*;
use crate::grid::{Dir, GridLocation, fits};
use crate::layout::Layout;

verus! {

/// Position of a direction in the order in which candidates are weighed:
/// up, left, down, right. Of two equally good candidates the earlier wins.
pub open spec fn rank(d: Dir) -> int {
    match d {
        Dir::Up => 0,
        Dir::Left => 1,
        Dir::Down => 2,
        Dir::Right => 3,
    }
}

/// Whether a ghost standing on `source` may leave it in direction `d`:
/// the neighbour is no wall and is not the tile `avoid`.
pub open spec fn is_candidate(
    layout: Layout,
    source: GridLocation,
    avoid: Option<GridLocation>,
    d: Dir,
) -> bool {
    &&& !layout.spec_collides(source.spec_shift(d))
    &&& avoid != Some(source.spec_shift(d))
}

/// Squared distance to `target` of the neighbour of `source` in direction `d`.
pub open spec fn candidate_distance(source: GridLocation, target: GridLocation, d: Dir) -> int {
    source.spec_shift(d).spec_distance_squared(target)
}

/// Whether candidate `d` is at least as good as candidate `e`: strictly
/// closer to the target, or equally close and not later in the order.
pub open spec fn no_worse(source: GridLocation, target: GridLocation, d: Dir, e: Dir) -> bool {
    ||| candidate_distance(source, target, d) < candidate_distance(source, target, e)
    ||| (candidate_distance(source, target, d) == candidate_distance(source, target, e) && rank(d)
        <= rank(e))
}

/// Whether `d` is the best among the candidates whose rank is below `n`.
pub open spec fn is_closest_among(
    layout: Layout,
    source: GridLocation,
    target: GridLocation,
    avoid: Option<GridLocation>,
    n: int,
    d: Dir,
) -> bool {
    &&& rank(d) < n
    &&& is_candidate(layout, source, avoid, d)
    &&& forall|e: Dir|
        rank(e) < n && #[trigger] is_candidate(layout, source, avoid, e) ==> no_worse(
            source,
            target,
            d,
            e,
        )
}

/// Whether `d` is the direction that the greedy rule picks.
pub open spec fn is_closest(
    layout: Layout,
    source: GridLocation,
    target: GridLocation,
    avoid: Option<GridLocation>,
    d: Dir,
) -> bool {
    is_closest_among(layout, source, target, avoid, 4, d)
}

/// Whether no direction of rank below `n` is a candidate.
pub open spec fn none_among(
    layout: Layout,
    source: GridLocation,
    avoid: Option<GridLocation>,
    n: int,
) -> bool {
    forall|e: Dir| rank(e) < n ==> !#[trigger] is_candidate(layout, source, avoid, e)
}

/// Whether `best` is what the greedy rule holds after weighing the
/// directions of rank below `n`: the best candidate and its distance, or
/// nothing where there is no candidate.
pub open spec fn best_so_far(
    layout: Layout,
    source: GridLocation,
    target: GridLocation,
    avoid: Option<GridLocation>,
    n: int,
    best: Option<(Dir, u128)>,
) -> bool {
    match best {
        Some((d, dist)) => {
            &&& is_closest_among(layout, source, target, avoid, n, d)
            &&& dist == candidate_distance(source, target, d)
        },
        None => none_among(layout, source, avoid, n),
    }
}

/// Whether every neighbour of `source` has coordinates that fit every
/// platform's `isize`.
pub open spec fn neighbours_fit(source: GridLocation) -> bool {
    &&& fits(source.x - 1)
    &&& fits(source.x + 1)
    &&& fits(source.y - 1)
    &&& fits(source.y + 1)
}

/// Weighs direction `d` against the best candidate found among the
/// directions before it.
fn weigh(
    layout: &Layout,
    source: GridLocation,
    target: GridLocation,
    avoid: Option<GridLocation>,
    d: Dir,
    best: Option<(Dir, u128)>,
) -> (r: Option<(Dir, u128)>)
    requires
        neighbours_fit(source),
        target.portable(),
        best_so_far(*layout, source, target, avoid, rank(d), best),
    ensures
        best_so_far(*layout, source, target, avoid, rank(d) + 1, r),
{
    let loc = source.shift(d);
    let blocked = layout.collides(&loc);
    let turns_back = match avoid {
        Some(a) => a == loc,
        None => false,
    };
    let distance = loc.distance_squared(&target);
    let improves = match best {
        Some((_, best_distance)) => distance < best_distance,
        None => true,
    };
    if !blocked && !turns_back && improves {
        assert forall|e: Dir|
            rank(e) < rank(d) + 1 && #[trigger] is_candidate(
                *layout,
                source,
                avoid,
                e,
            ) implies no_worse(source, target, d, e) by {
            if rank(e) < rank(d) {
                let (b, _) = best.unwrap();
                assert(no_worse(source, target, b, e));
            } else {
                assert(e == d);
            }
        }
        Some((d, distance))
    } else {
        match best {
            Some((b, _)) => {
                assert forall|e: Dir|
                    rank(e) < rank(d) + 1 && #[trigger] is_candidate(
                        *layout,
                        source,
                        avoid,
                        e,
                    ) implies no_worse(source, target, b, e) by {
                    if rank(e) == rank(d) {
                        assert(e == d);
                    }
                }
            },
            None => {
                assert forall|e: Dir| rank(e) < rank(d) + 1 implies !#[trigger] is_candidate(
                    *layout,
                    source,
                    avoid,
                    e,
                ) by {
                    if rank(e) == rank(d) {
                        assert(e == d);
                    }
                }
            },
        }
        best
    }
}

/// The direction in which a ghost leaves `source` to come closest to
/// `target`. A neighbour that is a wall, or that is the tile `avoid`, is no
/// candidate. Of several candidates at the same distance the first in the
/// order up, left, down, right is taken. Without a candidate there is no
/// answer.
pub fn closest_dir_to_target(
    layout: &Layout,
    source: GridLocation,
    target: GridLocation,
    avoid: Option<GridLocation>,
) -> (r: Option<Dir>)
    requires
        neighbours_fit(source),
        target.portable(),
    ensures
        match r {
            Some(d) => is_closest(*layout, source, target, avoid, d),
            None => none_among(*layout, source, avoid, 4),
        },
{
    let best: Option<(Dir, u128)> = None;
    let best = weigh(layout, source, target, avoid, Dir::Up, best);
    let best = weigh(layout, source, target, avoid, Dir::Left, best);
    let best = weigh(layout, source, target, avoid, Dir::Down, best);
    let best = weigh(layout, source, target, avoid, Dir::Right, best);
    match best {
        Some((d, _)) => Some(d),
        None => None,
    }
}

/// The tile that a ghost on `loc` heading in direction `dir` enters next.
pub open spec fn tile_ahead(loc: GridLocation, dir: Dir) -> GridLocation {
    loc.spec_shift(dir)
}

/// Whether a ghost on `loc` can look ahead: the tiles within two steps of
/// it have coordinates that fit every platform's `isize`.
pub open spec fn can_look_ahead(loc: GridLocation) -> bool {
    &&& fits(loc.x - 2)
    &&& fits(loc.x + 2)
    &&& fits(loc.y - 2)
    &&& fits(loc.y + 2)
}

/// Whether a ghost that has arrived on `loc` heading in direction `dir`
/// commits itself to a direction: the tile ahead is no wall, and from
/// there a way leads on that is no wall and does not lead back to `loc`.
pub open spec fn commits(layout: Layout, dir: Dir, loc: GridLocation) -> bool {
    &&& !layout.spec_collides(tile_ahead(loc, dir))
    &&& !none_among(layout, tile_ahead(loc, dir), Some(loc), 4)
}

/// Whether `next` is the pending direction that a ghost steering for
/// `target` holds after it arrived on `loc` heading in direction `dir`
/// with `pending` in hand. Where it commits itself it takes the greedy
/// choice made from the tile ahead, where the tile it stands on is no
/// candidate. Facing a wall, or a dead end behind the tile ahead, it
/// commits itself to nothing and keeps `pending`.
pub open spec fn chooses(
    layout: Layout,
    dir: Dir,
    pending: Option<Dir>,
    loc: GridLocation,
    target: GridLocation,
    next: Option<Dir>,
) -> bool {
    if commits(layout, dir, loc) {
        match next {
            Some(d) => is_closest(layout, tile_ahead(loc, dir), target, Some(loc), d),
            None => false,
        }
    } else {
        next == pending
    }
}

/// The pending direction of a ghost that has just arrived on `loc`, heads
/// in direction `dir` and steers for `target`. The choice is made one tile
/// before it takes effect.
pub fn choose_next_dir(
    layout: &Layout,
    dir: Dir,
    pending: Option<Dir>,
    loc: GridLocation,
    target: GridLocation,
) -> (next: Option<Dir>)
    requires
        can_look_ahead(loc),
        target.portable(),
    ensures
        chooses(*layout, dir, pending, loc, target, next),
        !commits(*layout, dir, loc) ==> next == pending,
        commits(*layout, dir, loc) ==> next.is_some() && tile_ahead(loc, dir).spec_shift(
            next.unwrap(),
        ) != loc,
{
    let next_loc = loc.shift(dir);
    if layout.collides(&next_loc) {
        return pending;
    }
    match closest_dir_to_target(layout, next_loc, target, Some(loc)) {
        Some(d) => Some(d),
        None => pending,
    }
}

/// The candidate of least rank, if there is one.
pub open spec fn first_candidate(
    layout: Layout,
    source: GridLocation,
    avoid: Option<GridLocation>,
) -> Option<Dir> {
    if is_candidate(layout, source, avoid, Dir::Up) {
        Some(Dir::Up)
    } else if is_candidate(layout, source, avoid, Dir::Left) {
        Some(Dir::Left)
    } else if is_candidate(layout, source, avoid, Dir::Down) {
        Some(Dir::Down)
    } else if is_candidate(layout, source, avoid, Dir::Right) {
        Some(Dir::Right)
    } else {
        None
    }
}

/// The pending direction of a frightened ghost that has just arrived on
/// `loc` heading in direction `dir`, where `first_choice` is the direction
/// that chance proposed. Facing a wall it keeps `pending`. Else it takes
/// `first_choice` if that is a candidate from the tile ahead, else the
/// first candidate in the order up, left, down, right; without a candidate
/// it keeps `pending`.
pub open spec fn wanders(
    layout: Layout,
    dir: Dir,
    pending: Option<Dir>,
    loc: GridLocation,
    first_choice: Dir,
) -> Option<Dir> {
    if layout.spec_collides(tile_ahead(loc, dir)) {
        pending
    } else if is_candidate(layout, tile_ahead(loc, dir), Some(loc), first_choice) {
        Some(first_choice)
    } else {
        match first_candidate(layout, tile_ahead(loc, dir), Some(loc)) {
            Some(d) => Some(d),
            None => pending,
        }
    }
}

/// Whether a ghost standing on `source` may leave it in direction `d`.
fn may_leave(layout: &Layout, source: GridLocation, avoid: GridLocation, d: Dir) -> (r: bool)
    requires
        neighbours_fit(source),
    ensures
        r == is_candidate(*layout, source, Some(avoid), d),
{
    let loc = source.shift(d);
    !layout.collides(&loc) && !(loc == avoid)
}

/// The pending direction of a frightened ghost that has just arrived on
/// `loc`, given the direction `first_choice` that chance proposed.
pub fn frightened_dir(
    layout: &Layout,
    dir: Dir,
    pending: Option<Dir>,
    loc: GridLocation,
    first_choice: Dir,
) -> (next: Option<Dir>)
    requires
        can_look_ahead(loc),
    ensures
        next == wanders(*layout, dir, pending, loc, first_choice),
{
    let next_loc = loc.shift(dir);
    if layout.collides(&next_loc) {
        return pending;
    }
    if may_leave(layout, next_loc, loc, first_choice) {
        Some(first_choice)
    } else if may_leave(layout, next_loc, loc, Dir::Up) {
        Some(Dir::Up)
    } else if may_leave(layout, next_loc, loc, Dir::Left) {
        Some(Dir::Left)
    } else if may_leave(layout, next_loc, loc, Dir::Down) {
        Some(Dir::Down)
    } else if may_leave(layout, next_loc, loc, Dir::Right) {
        Some(Dir::Right)
    } else {
        pending
    }
}

/// Draws one of the four directions with `rand::seq::SliceRandom::choose`
/// on the thread's generator. Nothing is claimed of the outcome: each
/// direction can come back.
#[verifier::external_body]
fn random_dir() -> (d: Dir) {
    let all = [Dir::Up, Dir::Left, Dir::Down, Dir::Right];
    *rand::seq::SliceRandom::choose(&all[..], &mut rand::thread_rng()).unwrap()
}

/// The pending direction of a frightened ghost that has just arrived on
/// `loc`: chance proposes a direction, and the ghost wanders as
/// `frightened_dir` says.
pub fn frightened(layout: &Layout, dir: Dir, pending: Option<Dir>, loc: GridLocation) -> (next:
    Option<Dir>)
    requires
        can_look_ahead(loc),
    ensures
        exists|first_choice: Dir| next == wanders(*layout, dir, pending, loc, first_choice),
        layout.spec_collides(tile_ahead(loc, dir)) ==> next == pending,
        next != pending ==> exists|d: Dir|
            next == Some(d) && is_candidate(*layout, tile_ahead(loc, dir), Some(loc), d),
{
    let first_choice = random_dir();
    let next = frightened_dir(layout, dir, pending, loc, first_choice);
    assert(next == wanders(*layout, dir, pending, loc, first_choice));
    next
}

/// The greedy rule picks at most one direction.
pub proof fn lemma_closest_is_unique(
    layout: Layout,
    source: GridLocation,
    target: GridLocation,
    avoid: Option<GridLocation>,
    d: Dir,
    e: Dir,
)
    requires
        is_closest(layout, source, target, avoid, d),
        is_closest(layout, source, target, avoid, e),
    ensures
        d == e,
{
    assert(no_worse(source, target, d, e));
    assert(no_worse(source, target, e, d));
    assert(rank(d) == rank(e));
}

/// Of two candidates at the same distance from the target, the greedy rule
/// never picks the one that comes later in the order up, left, down, right.
pub proof fn lemma_tie_goes_to_earlier(
    layout: Layout,
    source: GridLocation,
    target: GridLocation,
    avoid: Option<GridLocation>,
    d: Dir,
    e: Dir,
)
    requires
        is_closest(layout, source, target, avoid, d),
        is_candidate(layout, source, avoid, e),
        candidate_distance(source, target, e) == candidate_distance(source, target, d),
    ensures
        rank(d) <= rank(e),
{
    assert(no_worse(source, target, d, e));
}

/// No candidate is closer to the target than the direction that the greedy
/// rule picks.
pub proof fn lemma_closest_is_minimal(
    layout: Layout,
    source: GridLocation,
    target: GridLocation,
    avoid: Option<GridLocation>,
    d: Dir,
    e: Dir,
)
    requires
        is_closest(layout, source, target, avoid, d),
        is_candidate(layout, source, avoid, e),
    ensures
        candidate_distance(source, target, d) <= candidate_distance(source, target, e),
{
    assert(no_worse(source, target, d, e));
}

/// A ghost that commits itself to a direction on arrival never turns
/// back: the tile that its new pending direction leads to, from the tile
/// ahead, is not the tile it stands on, and is no wall.
pub proof fn lemma_never_reverses(
    layout: Layout,
    dir: Dir,
    pending: Option<Dir>,
    loc: GridLocation,
    target: GridLocation,
    next: Dir,
)
    requires
        commits(layout, dir, loc),
        chooses(layout, dir, pending, loc, target, Some(next)),
    ensures
        tile_ahead(loc, dir).spec_shift(next) != loc,
        !layout.spec_collides(tile_ahead(loc, dir).spec_shift(next)),
{
}

/// A frightened ghost that takes a new pending direction never turns back
/// and never heads into a wall, whatever chance proposed.
pub proof fn lemma_wandering_never_reverses(
    layout: Layout,
    dir: Dir,
    pending: Option<Dir>,
    loc: GridLocation,
    first_choice: Dir,
    next: Dir,
)
    requires
        !layout.spec_collides(tile_ahead(loc, dir)),
        wanders(layout, dir, pending, loc, first_choice) == Some(next),
        pending != Some(next),
    ensures
        tile_ahead(loc, dir).spec_shift(next) != loc,
        !layout.spec_collides(tile_ahead(loc, dir).spec_shift(next)),
{
}

/// In the open the greedy step leads closer: where no neighbour of
/// `source` is a wall and no tile is avoided, the neighbour that the rule
/// picks is closer to the target than `source` is, unless `source` is the
/// target itself.
pub proof fn lemma_open_step_leads_closer(
    layout: Layout,
    source: GridLocation,
    target: GridLocation,
    d: Dir,
)
    requires
        neighbours_fit(source),
        forall|e: Dir| !layout.spec_collides(#[trigger] source.spec_shift(e)),
        source != target,
        is_closest(layout, source, target, None, d),
    ensures
        candidate_distance(source, target, d) < source.spec_distance_squared(target),
{
    let towards = if target.x > source.x {
        Dir::Right
    } else if target.x < source.x {
        Dir::Left
    } else if target.y > source.y {
        Dir::Up
    } else {
        Dir::Down
    };
    let dx = source.x - target.x;
    let dy = source.y - target.y;
    assert(is_candidate(layout, source, None, towards));
    assert(no_worse(source, target, d, towards));
    assert(candidate_distance(source, target, towards) < dx * dx + dy * dy) by {
        assert((dx - 1) * (dx - 1) == dx * dx - 2 * dx + 1) by (nonlinear_arith);
        assert((dx + 1) * (dx + 1) == dx * dx + 2 * dx + 1) by (nonlinear_arith);
        assert((dy - 1) * (dy - 1) == dy * dy - 2 * dy + 1) by (nonlinear_arith);
        assert((dy + 1) * (dy + 1) == dy * dy + 2 * dy + 1) by (nonlinear_arith);
    }
}

} // verus!
