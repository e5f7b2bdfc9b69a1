//! What one stage of a tick does to the ghosts, all of them at once.

use vstd::prelude::*;
use crate::ghost::{GhostAgent, GhostState, Personality, Snapshot};
use crate::grid::GridLocation;
use crate::layout::Layout;
use crate::mode::Mode;
use crate::movement::Actor;

verus! {

/// Whether every ghost is well formed.
pub open spec fn all_wf(ghosts: Seq<GhostAgent>) -> bool {
    forall|i: int| 0 <= i < ghosts.len() ==> (#[trigger] ghosts[i]).wf()
}

/// Whether `after` holds the ghosts of `before` once an energizer was
/// eaten: each ghost that takes part in the hunt is frightened.
pub open spec fn frightened_all(before: Seq<GhostAgent>, after: Seq<GhostAgent>) -> bool {
    &&& after.len() == before.len()
    &&& forall|i: int|
        0 <= i < before.len() ==> after[i] == (#[trigger] before[i]).spec_become_frightened()
}

/// Frightens every ghost that takes part in the hunt.
pub fn frighten_all(ghosts: &mut Vec<GhostAgent>)
    requires
        all_wf(old(ghosts)@),
    ensures
        frightened_all(old(ghosts)@, final(ghosts)@),
        all_wf(final(ghosts)@),
        all_roomy(old(ghosts)@) ==> all_roomy(final(ghosts)@),
        same_cast(old(ghosts)@, final(ghosts)@),
{
    let mut i: usize = 0;
    while i < ghosts.len()
        invariant
            i <= ghosts@.len(),
            ghosts@.len() == old(ghosts)@.len(),
            same_cast(old(ghosts)@, ghosts@),
            all_wf(old(ghosts)@),
            all_wf(ghosts@),
            all_roomy(old(ghosts)@) ==> all_roomy(ghosts@),
            forall|k: int|
                0 <= k < i ==> ghosts@[k] == (#[trigger] old(ghosts)@[k]).spec_become_frightened(),
            forall|k: int| i <= k < ghosts@.len() ==> ghosts@[k] == old(ghosts)@[k],
        decreases ghosts@.len() - i,
    {
        let mut ghost = ghosts[i];
        ghost.become_frightened();
        ghosts.set(i, ghost);
        i += 1;
    }
}

/// Whether `after` holds the ghosts of `before` once the frightened spell
/// ended: each frightened ghost hunts again.
pub open spec fn calmed_all(before: Seq<GhostAgent>, after: Seq<GhostAgent>) -> bool {
    &&& after.len() == before.len()
    &&& forall|i: int|
        0 <= i < before.len() ==> after[i] == (#[trigger] before[i]).spec_stop_frightened()
}

/// Ends the fright of every frightened ghost.
pub fn calm_all(ghosts: &mut Vec<GhostAgent>)
    requires
        all_wf(old(ghosts)@),
    ensures
        calmed_all(old(ghosts)@, final(ghosts)@),
        all_wf(final(ghosts)@),
        all_roomy(old(ghosts)@) ==> all_roomy(final(ghosts)@),
        same_cast(old(ghosts)@, final(ghosts)@),
{
    let mut i: usize = 0;
    while i < ghosts.len()
        invariant
            i <= ghosts@.len(),
            ghosts@.len() == old(ghosts)@.len(),
            same_cast(old(ghosts)@, ghosts@),
            all_wf(old(ghosts)@),
            all_wf(ghosts@),
            all_roomy(old(ghosts)@) ==> all_roomy(ghosts@),
            forall|k: int|
                0 <= k < i ==> ghosts@[k] == (#[trigger] old(ghosts)@[k]).spec_stop_frightened(),
            forall|k: int| i <= k < ghosts@.len() ==> ghosts@[k] == old(ghosts)@[k],
        decreases ghosts@.len() - i,
    {
        let mut ghost = ghosts[i];
        ghost.stop_frightened();
        ghosts.set(i, ghost);
        i += 1;
    }
}

/// The tile of the first Blinky among the first `n` ghosts, if there is
/// one.
pub open spec fn blinky_among(ghosts: Seq<GhostAgent>, n: int) -> Option<GridLocation>
    decreases n,
{
    if n <= 0 {
        None
    } else {
        match blinky_among(ghosts, n - 1) {
            Some(loc) => Some(loc),
            None => if ghosts[n - 1].personality == Personality::Blinky {
                Some(ghosts[n - 1].actor.location)
            } else {
                None
            },
        }
    }
}

/// Whether the ghosts find in one another what they aim by: where there
/// is an Inky there is a Blinky.
pub open spec fn sees_blinky(ghosts: Seq<GhostAgent>) -> bool {
    forall|i: int|
        0 <= i < ghosts.len() && (#[trigger] ghosts[i]).personality == Personality::Inky
            ==> blinky_among(ghosts, ghosts.len() as int).is_some()
}

/// Whether there is an Inky among the first `n` ghosts.
pub open spec fn inky_among(ghosts: Seq<GhostAgent>, n: int) -> bool {
    exists|i: int| 0 <= i < n && (#[trigger] ghosts[i]).personality == Personality::Inky
}

/// Whether the ghosts find in one another what they aim by.
pub fn check_sees_blinky(ghosts: &Vec<GhostAgent>) -> (r: bool)
    ensures
        r == sees_blinky(ghosts@),
{
    let mut blinky = false;
    let mut inky = false;
    let mut i: usize = 0;
    while i < ghosts.len()
        invariant
            i <= ghosts@.len(),
            blinky == blinky_among(ghosts@, i as int).is_some(),
            inky == inky_among(ghosts@, i as int),
        decreases ghosts@.len() - i,
    {
        if ghosts[i].personality == Personality::Blinky {
            blinky = true;
        }
        if ghosts[i].personality == Personality::Inky {
            inky = true;
        }
        i += 1;
    }
    !inky || blinky
}

/// Whether `a` and `b` hold the same ghosts by personality, one for one.
pub open spec fn same_cast(a: Seq<GhostAgent>, b: Seq<GhostAgent>) -> bool {
    &&& a.len() == b.len()
    &&& forall|i: int| 0 <= i < a.len() ==> (#[trigger] a[i]).personality == b[i].personality
}

/// Whether there is a Blinky among the first `n` ghosts depends on their
/// personalities alone.
pub proof fn lemma_cast_decides_blinky(a: Seq<GhostAgent>, b: Seq<GhostAgent>, n: int)
    requires
        n <= a.len(),
        n <= b.len(),
        forall|i: int| 0 <= i < n ==> (#[trigger] a[i]).personality == b[i].personality,
    ensures
        blinky_among(a, n).is_some() == blinky_among(b, n).is_some(),
    decreases n,
{
    if n > 0 {
        lemma_cast_decides_blinky(a, b, n - 1);
    }
}

/// Ghosts that see Blinky still do when each has been replaced by a ghost
/// of the same personality.
pub proof fn lemma_same_cast_sees_blinky(a: Seq<GhostAgent>, b: Seq<GhostAgent>)
    requires
        same_cast(a, b),
        sees_blinky(a),
    ensures
        sees_blinky(b),
{
    lemma_cast_decides_blinky(a, b, a.len() as int);
    assert forall|i: int|
        0 <= i < b.len() && (#[trigger] b[i]).personality
            == Personality::Inky implies blinky_among(b, b.len() as int).is_some() by {
        assert(a[i].personality == Personality::Inky);
    }
}

/// What the ghosts see of the world: the player's tile and direction, and
/// the tile of the first Blinky.
pub open spec fn spec_snapshot(player: Actor, ghosts: Seq<GhostAgent>) -> Snapshot {
    Snapshot {
        player: player.location,
        player_dir: player.dir,
        blinky: blinky_among(ghosts, ghosts.len() as int),
    }
}

/// Whether every ghost finds in `world` what it aims by.
pub open spec fn serves_all(world: Snapshot, ghosts: Seq<GhostAgent>) -> bool {
    forall|i: int| 0 <= i < ghosts.len() ==> world.serves((#[trigger] ghosts[i]).personality)
}

/// What the ghosts see of the world.
pub fn snapshot(player: &Actor, ghosts: &Vec<GhostAgent>) -> (r: Snapshot)
    requires
        player.wf(),
        all_wf(ghosts@),
    ensures
        r == spec_snapshot(*player, ghosts@),
        r.in_range(),
        sees_blinky(ghosts@) ==> serves_all(r, ghosts@),
{
    let mut blinky: Option<GridLocation> = None;
    let mut i: usize = 0;
    while i < ghosts.len()
        invariant
            i <= ghosts@.len(),
            all_wf(ghosts@),
            blinky == blinky_among(ghosts@, i as int),
            match blinky {
                Some(loc) => loc.in_range(),
                None => true,
            },
        decreases ghosts@.len() - i,
    {
        if blinky.is_none() && ghosts[i].personality == Personality::Blinky {
            blinky = Some(ghosts[i].actor.location);
        }
        i += 1;
    }
    Snapshot { player: player.location, player_dir: player.dir, blinky }
}

/// Whether `after` holds the ghosts of `before` once each has picked its
/// target for `mode`, all from the same view of the world.
pub open spec fn targets_selected(
    before: Seq<GhostAgent>,
    mode: Mode,
    world: Snapshot,
    after: Seq<GhostAgent>,
) -> bool {
    &&& after.len() == before.len()
    &&& forall|i: int|
        0 <= i < before.len() ==> after[i] == (#[trigger] before[i]).spec_select_target(mode, world)
}

/// Lets every ghost pick its target for `mode`.
pub fn select_targets(ghosts: &mut Vec<GhostAgent>, mode: Mode, world: &Snapshot)
    requires
        all_wf(old(ghosts)@),
        world.in_range(),
        mode == Mode::Chase ==> serves_all(*world, old(ghosts)@),
    ensures
        targets_selected(old(ghosts)@, mode, *world, final(ghosts)@),
        all_wf(final(ghosts)@),
        all_roomy(old(ghosts)@) ==> all_roomy(final(ghosts)@),
        same_cast(old(ghosts)@, final(ghosts)@),
{
    let mut i: usize = 0;
    while i < ghosts.len()
        invariant
            i <= ghosts@.len(),
            ghosts@.len() == old(ghosts)@.len(),
            same_cast(old(ghosts)@, ghosts@),
            world.in_range(),
            mode == Mode::Chase ==> serves_all(*world, old(ghosts)@),
            all_wf(old(ghosts)@),
            all_wf(ghosts@),
            all_roomy(old(ghosts)@) ==> all_roomy(ghosts@),
            forall|k: int|
                0 <= k < i ==> ghosts@[k] == (#[trigger] old(ghosts)@[k]).spec_select_target(
                    mode,
                    *world,
                ),
            forall|k: int| i <= k < ghosts@.len() ==> ghosts@[k] == old(ghosts)@[k],
        decreases ghosts@.len() - i,
    {
        let mut ghost = ghosts[i];
        ghost.select_target(mode, world);
        ghosts.set(i, ghost);
        i += 1;
    }
}

/// Whether `after` holds the ghosts of `before` once those that have just
/// arrived on a tile have chosen their pending direction; the others are
/// unchanged.
pub open spec fn directions_chosen(
    before: Seq<GhostAgent>,
    layout: Layout,
    after: Seq<GhostAgent>,
) -> bool {
    &&& after.len() == before.len()
    &&& forall|i: int|
        0 <= i < before.len() ==> if (#[trigger] before[i]).actor.arrived {
            before[i].chooses_direction(layout, after[i])
        } else {
            after[i] == before[i]
        }
}

/// Lets every ghost that has just arrived on a tile choose its pending
/// direction.
pub fn choose_directions(ghosts: &mut Vec<GhostAgent>, layout: &Layout)
    requires
        all_wf(old(ghosts)@),
    ensures
        directions_chosen(old(ghosts)@, *layout, final(ghosts)@),
        all_wf(final(ghosts)@),
        all_roomy(old(ghosts)@) ==> all_roomy(final(ghosts)@),
        same_cast(old(ghosts)@, final(ghosts)@),
{
    let mut i: usize = 0;
    while i < ghosts.len()
        invariant
            i <= ghosts@.len(),
            ghosts@.len() == old(ghosts)@.len(),
            same_cast(old(ghosts)@, ghosts@),
            all_wf(old(ghosts)@),
            all_wf(ghosts@),
            all_roomy(old(ghosts)@) ==> all_roomy(ghosts@),
            forall|k: int|
                0 <= k < i ==> if (#[trigger] old(ghosts)@[k]).actor.arrived {
                    old(ghosts)@[k].chooses_direction(*layout, ghosts@[k])
                } else {
                    ghosts@[k] == old(ghosts)@[k]
                },
            forall|k: int| i <= k < ghosts@.len() ==> ghosts@[k] == old(ghosts)@[k],
        decreases ghosts@.len() - i,
    {
        let mut ghost = ghosts[i];
        if ghost.actor.arrived {
            ghost.choose_direction(layout);
            ghosts.set(i, ghost);
        }
        i += 1;
    }
}

/// Whether every ghost is well formed and has room to move.
pub open spec fn all_roomy(ghosts: Seq<GhostAgent>) -> bool {
    forall|i: int| 0 <= i < ghosts.len() ==> {
        &&& (#[trigger] ghosts[i]).wf()
        &&& ghosts[i].actor.roomy()
    }
}

/// An actor after the motion of one tick of `delta` nanoseconds: it
/// glides on; once it rests on a tile it takes up its pending direction
/// and sets off again, walls permitting.
pub open spec fn actor_moved(actor: Actor, layout: Layout, delta: u64) -> Actor {
    actor.spec_move_to(delta).spec_change_to_next_dir(layout).spec_move_dir(layout)
}

/// A ghost after the motion of one tick of `delta` nanoseconds: it moves
/// as every actor does, and where it has just arrived on its start tile
/// its way home ends.
pub open spec fn ghost_moved(ghost: GhostAgent, layout: Layout, delta: u64) -> GhostAgent {
    let glided = GhostAgent { actor: ghost.actor.spec_move_to(delta), ..ghost };
    let settled = if glided.actor.arrived {
        glided.spec_finish_respawning()
    } else {
        glided
    };
    GhostAgent {
        actor: settled.actor.spec_change_to_next_dir(layout).spec_move_dir(layout),
        ..settled
    }
}

/// Moves an actor for one tick of `delta` nanoseconds.
pub fn move_actor(actor: &mut Actor, layout: &Layout, delta: u64)
    requires
        old(actor).roomy(),
    ensures
        *final(actor) == actor_moved(*old(actor), *layout, delta),
        final(actor).wf(),
{
    actor.move_to(delta);
    actor.change_to_next_dir(layout);
    actor.move_dir(layout);
}

/// Moves a ghost for one tick of `delta` nanoseconds.
pub fn move_ghost(ghost: &mut GhostAgent, layout: &Layout, delta: u64)
    requires
        old(ghost).wf(),
        old(ghost).actor.roomy(),
    ensures
        *final(ghost) == ghost_moved(*old(ghost), *layout, delta),
        final(ghost).wf(),
{
    let arrived = ghost.actor.move_to(delta);
    if arrived {
        ghost.finish_respawning_eaten_ghost();
    }
    ghost.actor.change_to_next_dir(layout);
    ghost.actor.move_dir(layout);
}

/// Whether `after` holds the ghosts of `before` after the motion of one
/// tick.
pub open spec fn moved_all(
    before: Seq<GhostAgent>,
    layout: Layout,
    delta: u64,
    after: Seq<GhostAgent>,
) -> bool {
    &&& after.len() == before.len()
    &&& forall|i: int|
        0 <= i < before.len() ==> after[i] == ghost_moved(#[trigger] before[i], layout, delta)
}

/// Moves every ghost for one tick of `delta` nanoseconds.
pub fn move_ghosts(ghosts: &mut Vec<GhostAgent>, layout: &Layout, delta: u64)
    requires
        all_roomy(old(ghosts)@),
    ensures
        moved_all(old(ghosts)@, *layout, delta, final(ghosts)@),
        all_wf(final(ghosts)@),
        same_cast(old(ghosts)@, final(ghosts)@),
{
    let mut i: usize = 0;
    while i < ghosts.len()
        invariant
            i <= ghosts@.len(),
            ghosts@.len() == old(ghosts)@.len(),
            same_cast(old(ghosts)@, ghosts@),
            all_roomy(old(ghosts)@),
            forall|k: int|
                0 <= k < i ==> ghosts@[k] == ghost_moved(
                    #[trigger] old(ghosts)@[k],
                    *layout,
                    delta,
                ),
            forall|k: int| 0 <= k < i ==> (#[trigger] ghosts@[k]).wf(),
            forall|k: int| i <= k < ghosts@.len() ==> ghosts@[k] == old(ghosts)@[k],
        decreases ghosts@.len() - i,
    {
        let mut ghost = ghosts[i];
        move_ghost(&mut ghost, layout, delta);
        ghosts.set(i, ghost);
        i += 1;
    }
}

/// A ghost brought into the band that the tunnel joins.
pub open spec fn ghost_wrapped(ghost: GhostAgent) -> GhostAgent {
    GhostAgent { actor: ghost.actor.spec_wrap_left_right(), ..ghost }
}

/// Whether `after` holds the ghosts of `before`, each brought into the
/// band that the tunnel joins.
pub open spec fn wrapped_all(before: Seq<GhostAgent>, after: Seq<GhostAgent>) -> bool {
    &&& after.len() == before.len()
    &&& forall|i: int| 0 <= i < before.len() ==> after[i] == ghost_wrapped(#[trigger] before[i])
}

/// Brings every ghost into the band that the tunnel joins.
pub fn wrap_all(ghosts: &mut Vec<GhostAgent>)
    requires
        all_wf(old(ghosts)@),
    ensures
        wrapped_all(old(ghosts)@, final(ghosts)@),
        all_wf(final(ghosts)@),
        forall|i: int| 0 <= i < final(ghosts)@.len() ==> (#[trigger] final(ghosts)@[i]).actor.in_band(),
        same_cast(old(ghosts)@, final(ghosts)@),
{
    let mut i: usize = 0;
    while i < ghosts.len()
        invariant
            i <= ghosts@.len(),
            ghosts@.len() == old(ghosts)@.len(),
            same_cast(old(ghosts)@, ghosts@),
            all_wf(old(ghosts)@),
            all_wf(ghosts@),
            forall|k: int| 0 <= k < i ==> (#[trigger] ghosts@[k]).actor.in_band(),
            forall|k: int| 0 <= k < i ==> ghosts@[k] == ghost_wrapped(#[trigger] old(ghosts)@[k]),
            forall|k: int| i <= k < ghosts@.len() ==> ghosts@[k] == old(ghosts)@[k],
        decreases ghosts@.len() - i,
    {
        let mut ghost = ghosts[i];
        ghost.actor.wrap_left_right();
        ghosts.set(i, ghost);
        i += 1;
    }
}

/// Whether the player, standing on `player`, catches `ghost`: the ghost
/// is frightened and on the same tile.
pub open spec fn is_caught(ghost: GhostAgent, player: GridLocation) -> bool {
    ghost.state == GhostState::Frightened && ghost.actor.location == player
}

/// How many of the first `n` ghosts the player, standing on `player`,
/// catches.
pub open spec fn caught_among(ghosts: Seq<GhostAgent>, player: GridLocation, n: int) -> int
    decreases n,
{
    if n <= 0 {
        0
    } else if is_caught(ghosts[n - 1], player) {
        caught_among(ghosts, player, n - 1) + 1
    } else {
        caught_among(ghosts, player, n - 1)
    }
}

/// Whether `after` holds the ghosts of `before` once the player, standing
/// on `player`, has eaten those it catches: they are on their way home,
/// the others are unchanged.
pub open spec fn captured(
    before: Seq<GhostAgent>,
    layout: Layout,
    player: GridLocation,
    after: Seq<GhostAgent>,
) -> bool {
    &&& after.len() == before.len()
    &&& forall|i: int|
        0 <= i < before.len() ==> if is_caught(#[trigger] before[i], player) {
            before[i].starts_respawning(layout, after[i])
        } else {
            after[i] == before[i]
        }
}

/// Sends home every ghost that the player, standing on `player`, catches,
/// and says how many there were.
pub fn capture_ghosts(ghosts: &mut Vec<GhostAgent>, layout: &Layout, player: GridLocation) -> (caught:
    usize)
    requires
        all_wf(old(ghosts)@),
    ensures
        captured(old(ghosts)@, *layout, player, final(ghosts)@),
        caught == caught_among(old(ghosts)@, player, old(ghosts)@.len() as int),
        all_wf(final(ghosts)@),
        all_roomy(old(ghosts)@) ==> all_roomy(final(ghosts)@),
        same_cast(old(ghosts)@, final(ghosts)@),
{
    let mut caught: usize = 0;
    let mut i: usize = 0;
    while i < ghosts.len()
        invariant
            i <= ghosts@.len(),
            ghosts@.len() == old(ghosts)@.len(),
            same_cast(old(ghosts)@, ghosts@),
            all_wf(old(ghosts)@),
            all_wf(ghosts@),
            all_roomy(old(ghosts)@) ==> all_roomy(ghosts@),
            caught == caught_among(old(ghosts)@, player, i as int),
            caught <= i,
            forall|k: int|
                0 <= k < i ==> if is_caught(#[trigger] old(ghosts)@[k], player) {
                    old(ghosts)@[k].starts_respawning(*layout, ghosts@[k])
                } else {
                    ghosts@[k] == old(ghosts)@[k]
                },
            forall|k: int| i <= k < ghosts@.len() ==> ghosts@[k] == old(ghosts)@[k],
        decreases ghosts@.len() - i,
    {
        let mut ghost = ghosts[i];
        if ghost.state == GhostState::Frightened && ghost.actor.location == player {
            ghost.start_respawning_eaten_ghost(layout);
            ghosts.set(i, ghost);
            caught += 1;
        }
        i += 1;
    }
    caught
}

/// A ghost put back on its start tile, as at the start of a life; what it
/// is doing stays.
pub open spec fn ghost_restarted(ghost: GhostAgent) -> GhostAgent {
    GhostAgent {
        actor: Actor::spec_moving_left(ghost.actor.start, ghost.actor.speed),
        ..ghost
    }
}

/// Whether `after` holds the ghosts of `before`, each put back on its
/// start tile.
pub open spec fn restarted_all(before: Seq<GhostAgent>, after: Seq<GhostAgent>) -> bool {
    &&& after.len() == before.len()
    &&& forall|i: int| 0 <= i < before.len() ==> after[i] == ghost_restarted(#[trigger] before[i])
}

/// Puts every ghost back on its start tile.
pub fn restart_all(ghosts: &mut Vec<GhostAgent>)
    requires
        all_wf(old(ghosts)@),
    ensures
        restarted_all(old(ghosts)@, final(ghosts)@),
        all_roomy(final(ghosts)@),
        same_cast(old(ghosts)@, final(ghosts)@),
{
    let mut i: usize = 0;
    while i < ghosts.len()
        invariant
            i <= ghosts@.len(),
            ghosts@.len() == old(ghosts)@.len(),
            same_cast(old(ghosts)@, ghosts@),
            all_wf(old(ghosts)@),
            forall|k: int| 0 <= k < i ==> ghosts@[k] == ghost_restarted(#[trigger] old(ghosts)@[k]),
            forall|k: int|
                0 <= k < i ==> (#[trigger] ghosts@[k]).wf() && ghosts@[k].actor.roomy(),
            forall|k: int| i <= k < ghosts@.len() ==> ghosts@[k] == old(ghosts)@[k],
        decreases ghosts@.len() - i,
    {
        let mut ghost = ghosts[i];
        ghost.actor.restart();
        ghosts.set(i, ghost);
        i += 1;
    }
}

/// A ghost's way home ends in the tick in which it arrives on its start
/// tile, and in no other: until then it stays on its way, and with the
/// arrival it hunts again at its usual speed.
pub proof fn lemma_way_home_ends_on_arrival(ghost: GhostAgent, layout: Layout, delta: u64)
    requires
        ghost.wf(),
        ghost.state == GhostState::Respawning,
    ensures
        ghost_moved(ghost, layout, delta).state == if ghost.actor.arrives_within(delta)
            && ghost.actor.motion.unwrap().destination == ghost.actor.start {
            GhostState::Normal
        } else {
            GhostState::Respawning
        },
        ghost_moved(ghost, layout, delta).state == GhostState::Normal ==> {
            &&& ghost_moved(ghost, layout, delta).actor.location == ghost.actor.start
            &&& ghost_moved(ghost, layout, delta).actor.speed == crate::ghost::NORMAL_SPEED
        },
{
}

} // verus!
