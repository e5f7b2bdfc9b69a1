//! What the player eats: dots, energizers, and frightened ghosts.

use vstd::prelude::*;
use crate::grid::GridLocation;

verus! {

/// The points that a dot is worth.
pub const DOT_POINTS: u32 = 10;

/// The points that an energizer is worth.
pub const ENERGIZER_POINTS: u32 = 50;

/// Something on a tile that the player can eat.
#[derive(Copy, Clone, Debug, PartialEq, Eq, Structural)]
pub struct Food {
    /// The tile that it lies on.
    pub location: GridLocation,
    /// What it is worth.
    pub points: u32,
    /// Whether it frightens the ghosts.
    pub energizer: bool,
}

/// The positions among the first `n` of `foods` of those that lie on the
/// tile `player`, in rising order.
pub open spec fn eaten(player: GridLocation, foods: Seq<Food>, n: int) -> Seq<usize>
    decreases n,
{
    if n <= 0 {
        Seq::empty()
    } else if foods[n - 1].location == player {
        eaten(player, foods, n - 1).push((n - 1) as usize)
    } else {
        eaten(player, foods, n - 1)
    }
}

/// The positions in `foods` of what the player, standing on `player`,
/// eats: all that lies on that tile.
pub fn eat(player: GridLocation, foods: &Vec<Food>) -> (r: Vec<usize>)
    ensures
        r@ == eaten(player, foods@, foods@.len() as int),
        forall|k: int| 0 <= k < r@.len() ==> r@[k] < foods@.len(),
{
    let mut out: Vec<usize> = Vec::new();
    let mut i: usize = 0;
    while i < foods.len()
        invariant
            i <= foods@.len(),
            out@ == eaten(player, foods@, i as int),
            forall|k: int| 0 <= k < out@.len() ==> out@[k] < foods@.len(),
        decreases foods@.len() - i,
    {
        if foods[i].location == player {
            out.push(i);
        }
        i += 1;
    }
    out
}

/// The points that the first `n` of the eaten foods are worth together.
pub open spec fn points_of(foods: Seq<Food>, eaten: Seq<usize>, n: int) -> int
    decreases n,
{
    if n <= 0 {
        0
    } else {
        points_of(foods, eaten, n - 1) + foods[eaten[n - 1] as int].points
    }
}

/// Whether one of the first `n` of the eaten foods is an energizer.
pub open spec fn any_energizer(foods: Seq<Food>, eaten: Seq<usize>, n: int) -> bool {
    exists|k: int| 0 <= k < n && (#[trigger] foods[eaten[k] as int]).energizer
}

/// `points` limited to what a score can hold.
pub open spec fn capped(points: int) -> int {
    if points > u32::MAX {
        u32::MAX as int
    } else {
        points
    }
}

/// The points that the eaten foods are worth together, no more than a
/// score can hold.
pub fn add_score(foods: &Vec<Food>, eaten: &Vec<usize>) -> (points: u32)
    requires
        forall|k: int| 0 <= k < eaten@.len() ==> eaten@[k] < foods@.len(),
    ensures
        points == capped(points_of(foods@, eaten@, eaten@.len() as int)),
{
    let mut sum: u32 = 0;
    let mut k: usize = 0;
    while k < eaten.len()
        invariant
            k <= eaten@.len(),
            forall|j: int| 0 <= j < eaten@.len() ==> eaten@[j] < foods@.len(),
            sum == capped(points_of(foods@, eaten@, k as int)),
            points_of(foods@, eaten@, k as int) >= 0,
        decreases eaten@.len() - k,
    {
        let points = foods[eaten[k]].points;
        sum = if points > u32::MAX - sum {
            u32::MAX
        } else {
            sum + points
        };
        k += 1;
    }
    sum
}

/// The first `n` of `foods` without those that lie on the tile `player`.
pub open spec fn left_over(player: GridLocation, foods: Seq<Food>, n: int) -> Seq<Food>
    decreases n,
{
    if n <= 0 {
        Seq::empty()
    } else if foods[n - 1].location == player {
        left_over(player, foods, n - 1)
    } else {
        left_over(player, foods, n - 1).push(foods[n - 1])
    }
}

/// Takes away what the player, standing on `player`, has eaten: the foods
/// on other tiles stay, in their order.
pub fn destroy(player: GridLocation, foods: &mut Vec<Food>)
    ensures
        final(foods)@ == left_over(player, old(foods)@, old(foods)@.len() as int),
{
    let mut kept: Vec<Food> = Vec::new();
    let mut i: usize = 0;
    while i < foods.len()
        invariant
            i <= foods@.len(),
            foods@ == old(foods)@,
            kept@ == left_over(player, foods@, i as int),
        decreases foods@.len() - i,
    {
        if !(foods[i].location == player) {
            kept.push(foods[i]);
        }
        i += 1;
    }
    *foods = kept;
}

/// Whether an energizer is among the eaten foods.
pub fn eat_energizer(foods: &Vec<Food>, eaten: &Vec<usize>) -> (r: bool)
    requires
        forall|k: int| 0 <= k < eaten@.len() ==> eaten@[k] < foods@.len(),
    ensures
        r == any_energizer(foods@, eaten@, eaten@.len() as int),
{
    let mut k: usize = 0;
    while k < eaten.len()
        invariant
            k <= eaten@.len(),
            forall|j: int| 0 <= j < eaten@.len() ==> eaten@[j] < foods@.len(),
            !any_energizer(foods@, eaten@, k as int),
        decreases eaten@.len() - k,
    {
        if foods[eaten[k]].energizer {
            return true;
        }
        k += 1;
    }
    false
}

} // verus!
