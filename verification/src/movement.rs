//! Motion between tiles: an actor commits to a direction on a tile, glides
//! to the neighbouring tile, and arrives.

use vstd::prelude::*;
use vstd::arithmetic::div_mod::lemma_fundamental_div_mod_converse;
use crate::grid::{Dir, GridLocation, COORD_LIMIT};
use crate::layout::Layout;

verus! {

/// The distance between the centres of two neighbouring tiles, in the unit
/// in which progress is counted: the way that an actor of speed 1 makes in
/// one nanosecond.
pub const TILE_UNITS: u64 = 8_000_000_000_000;

/// The speed that all speeds are derived from, in thousandths of a pixel
/// per second.
pub const BASE_SPEED: u32 = 88_000;

/// How many tiles beyond either side of the maze the tunnel reaches.
pub const WRAP_MARGIN_TILES: isize = 2;

/// After how many tiles the horizontal axis repeats: the width of the maze
/// and the margin on both sides.
pub const WRAP_PERIOD_TILES: isize = 32;

/// An actor's way from its tile to a neighbouring tile.
#[derive(Copy, Clone, Debug, PartialEq, Eq, Structural)]
pub struct MotionState {
    /// The tile that the actor is heading for.
    pub destination: GridLocation,
    /// How much of the way is done; the whole way is `TILE_UNITS`.
    pub progress: u64,
}

/// What moves on the grid: the player and the ghosts.
#[derive(Copy, Clone, Debug, PartialEq, Eq, Structural)]
pub struct Actor {
    /// The tile that the actor is on, or has last left.
    pub location: GridLocation,
    /// The direction that the actor is committed to.
    pub dir: Dir,
    /// The direction that the actor takes when it next can.
    pub next_dir: Option<Dir>,
    /// The way to the next tile, while the actor is between tiles.
    pub motion: Option<MotionState>,
    /// Speed in thousandths of a pixel per second.
    pub speed: u32,
    /// The tile on which the actor starts a life.
    pub start: GridLocation,
    /// Whether the actor has just come to a tile: it arrived there in its
    /// last move, or has been put there.
    pub arrived: bool,
}

/// `x` brought into the band that the tunnel joins: from the margin left
/// of the maze up to the margin right of it.
pub open spec fn wrapped(x: int) -> int {
    (x + WRAP_MARGIN_TILES * TILE_UNITS) % (WRAP_PERIOD_TILES * TILE_UNITS) - WRAP_MARGIN_TILES
        * TILE_UNITS
}

/// By how many tiles an actor at the horizontal position `x` is moved to
/// bring it into the band.
pub open spec fn wrap_shift(x: int) -> int {
    -WRAP_PERIOD_TILES * ((x + WRAP_MARGIN_TILES * TILE_UNITS) / (WRAP_PERIOD_TILES * TILE_UNITS))
}

/// Whether `a` and `b` are the same tile or neighbours in a row or a
/// column.
pub open spec fn within_one_step(a: GridLocation, b: GridLocation) -> bool {
    ||| (a.x == b.x && -1 <= b.y - a.y <= 1)
    ||| (a.y == b.y && -1 <= b.x - a.x <= 1)
}

impl Actor {
    /// The actor is on a tile within the coordinate limit, its start tile
    /// lies inside the limit, and a motion leads to a neighbouring tile and
    /// is not yet complete.
    pub open spec fn wf(self) -> bool {
        &&& self.location.in_range()
        &&& self.start.inside()
        &&& match self.motion {
            Some(m) => m.progress < TILE_UNITS && within_one_step(self.location, m.destination),
            None => true,
        }
    }

    /// The actor is well formed, and its tile lies inside the coordinate
    /// limit, so that it can arrive on any neighbouring tile.
    pub open spec fn roomy(self) -> bool {
        self.wf() && self.location.inside()
    }

    /// The actor's horizontal position, in progress units from the centre
    /// of column 0.
    pub open spec fn world_x(self) -> int {
        self.location.x * TILE_UNITS + match self.motion {
            Some(m) => (m.destination.x - self.location.x) * m.progress,
            None => 0,
        }
    }

    /// The actor's vertical position, in progress units from the centre of
    /// row 0.
    pub open spec fn world_y(self) -> int {
        self.location.y * TILE_UNITS + match self.motion {
            Some(m) => (m.destination.y - self.location.y) * m.progress,
            None => 0,
        }
    }

    /// Whether the actor is in the band that the tunnel joins: not left
    /// of the left margin, and left of the end of the right margin.
    pub open spec fn in_band(self) -> bool {
        -WRAP_MARGIN_TILES * TILE_UNITS <= self.world_x() < (WRAP_PERIOD_TILES - WRAP_MARGIN_TILES)
            * TILE_UNITS
    }

    /// The actor once its pending direction is taken up: a resting actor
    /// turns to its pending direction unless a wall is in the way.
    pub open spec fn spec_change_to_next_dir(self, layout: Layout) -> Actor {
        match (self.motion, self.next_dir) {
            (None, Some(next)) => if !layout.spec_collides(self.location.spec_shift(next)) {
                Actor { dir: next, ..self }
            } else {
                self
            },
            _ => self,
        }
    }

    /// The actor once it has set off: a resting actor starts for the
    /// neighbouring tile in its direction unless that is a wall.
    pub open spec fn spec_move_dir(self, layout: Layout) -> Actor {
        if self.motion.is_none() && !layout.spec_collides(self.location.spec_shift(self.dir)) {
            Actor {
                motion: Some(
                    MotionState { destination: self.location.spec_shift(self.dir), progress: 0 },
                ),
                ..self
            }
        } else {
            self
        }
    }

    /// Whether the actor completes its way within `delta` nanoseconds.
    pub open spec fn arrives_within(self, delta: u64) -> bool {
        match self.motion {
            Some(m) => m.progress + self.speed * delta >= TILE_UNITS,
            None => false,
        }
    }

    /// The actor after gliding for `delta` nanoseconds: its progress grows
    /// by speed times time, and when the way is done it is on the
    /// destination tile, at rest, and has just arrived.
    pub open spec fn spec_move_to(self, delta: u64) -> Actor {
        match self.motion {
            Some(m) => if self.arrives_within(delta) {
                Actor { location: m.destination, motion: None, arrived: true, ..self }
            } else {
                Actor {
                    motion: Some(
                        MotionState { progress: (m.progress + self.speed * delta) as u64, ..m },
                    ),
                    arrived: false,
                    ..self
                }
            },
            None => Actor { arrived: false, ..self },
        }
    }

    /// The actor brought into the band that the tunnel joins: its tile
    /// and its destination move by the same whole number of periods.
    pub open spec fn spec_wrap_left_right(self) -> Actor {
        let shift = wrap_shift(self.world_x());
        Actor {
            location: GridLocation { x: (self.location.x + shift) as isize, ..self.location },
            motion: match self.motion {
                Some(m) => Some(
                    MotionState {
                        destination: GridLocation {
                            x: (m.destination.x + shift) as isize,
                            ..m.destination
                        },
                        ..m
                    },
                ),
                None => None,
            },
            ..self
        }
    }

    /// An actor at the start of a life: on `location`, gliding to the left.
    pub open spec fn spec_moving_left(location: GridLocation, speed: u32) -> Actor {
        Actor {
            location,
            dir: Dir::Left,
            next_dir: None,
            motion: Some(
                MotionState { destination: location.spec_shift(Dir::Left), progress: 0 },
            ),
            speed,
            start: location,
            arrived: true,
        }
    }

    /// An actor at the start of a life: on `location`, gliding to the left.
    pub fn moving_left(location: GridLocation, speed: u32) -> (r: Actor)
        requires
            location.inside(),
        ensures
            r == Self::spec_moving_left(location, speed),
            r.roomy(),
    {
        Actor {
            location,
            dir: Dir::Left,
            next_dir: None,
            motion: Some(MotionState { destination: location.shift(Dir::Left), progress: 0 }),
            speed,
            start: location,
            arrived: true,
        }
    }

    /// Puts the actor back on its start tile, gliding to the left, as at
    /// the start of a life. Its speed stays.
    pub fn restart(&mut self)
        requires
            old(self).start.inside(),
        ensures
            *final(self) == Self::spec_moving_left(old(self).start, old(self).speed),
            final(self).roomy(),
    {
        *self = Actor::moving_left(self.start, self.speed);
    }

    /// Whether the actor is well formed.
    pub fn is_valid(&self) -> (r: bool)
        ensures
            r == self.wf(),
    {
        let l = self.location;
        if l.x < -500_000_000 || l.x > 500_000_000 || l.y < -500_000_000 || l.y > 500_000_000 {
            return false;
        }
        let s = self.start;
        if s.x <= -COORD_LIMIT || s.x >= COORD_LIMIT || s.y <= -COORD_LIMIT || s.y >= COORD_LIMIT {
            return false;
        }
        match self.motion {
            Some(m) => {
                let d = m.destination;
                if m.progress >= TILE_UNITS {
                    return false;
                }
                if d.x < -500_000_001 || d.x > 500_000_001 || d.y < -500_000_001 || d.y
                    > 500_000_001 {
                    return false;
                }
                (d.x == l.x && -1 <= d.y - l.y && d.y - l.y <= 1) || (d.y == l.y && -1 <= d.x - l.x
                    && d.x - l.x <= 1)
            },
            None => true,
        }
    }

    /// The actor's position, in progress units from the centre of the tile
    /// in column 0 and row 0: first to the right, then upwards.
    pub fn position(&self) -> (r: (i128, i128))
        requires
            self.wf(),
        ensures
            r.0 == self.world_x(),
            r.1 == self.world_y(),
    {
        let tile: i128 = TILE_UNITS as i128;
        let (dx, dy): (i128, i128) = match self.motion {
            Some(m) => {
                let step_x: i128 = (m.destination.x as i128) - (self.location.x as i128);
                let step_y: i128 = (m.destination.y as i128) - (self.location.y as i128);
                assert(-(m.progress as int) <= step_x * (m.progress as int) <= m.progress)
                    by (nonlinear_arith)
                    requires
                        -1 <= step_x <= 1,
                        0 <= m.progress,
                ;
                assert(-(m.progress as int) <= step_y * (m.progress as int) <= m.progress)
                    by (nonlinear_arith)
                    requires
                        -1 <= step_y <= 1,
                        0 <= m.progress,
                ;
                (step_x * (m.progress as i128), step_y * (m.progress as i128))
            },
            None => (0, 0),
        };
        assert(-500_000_000 * 8_000_000_000_000 <= (self.location.x as int) * (tile as int)
            <= 500_000_000 * 8_000_000_000_000) by (nonlinear_arith)
            requires
                -500_000_000 <= self.location.x <= 500_000_000,
                tile == 8_000_000_000_000,
        ;
        assert(-500_000_000 * 8_000_000_000_000 <= (self.location.y as int) * (tile as int)
            <= 500_000_000 * 8_000_000_000_000) by (nonlinear_arith)
            requires
                -500_000_000 <= self.location.y <= 500_000_000,
                tile == 8_000_000_000_000,
        ;
        ((self.location.x as i128) * tile + dx, (self.location.y as i128) * tile + dy)
    }

    /// Whether the actor is well formed and has room to move.
    pub fn is_roomy(&self) -> (r: bool)
        ensures
            r == self.roomy(),
    {
        let l = self.location;
        self.is_valid() && -COORD_LIMIT < l.x && l.x < COORD_LIMIT && -COORD_LIMIT < l.y && l.y
            < COORD_LIMIT
    }

    /// Takes up the pending direction, if the actor is at rest and no wall
    /// is in the way.
    pub fn change_to_next_dir(&mut self, layout: &Layout)
        requires
            old(self).wf(),
        ensures
            *final(self) == old(self).spec_change_to_next_dir(*layout),
            final(self).wf(),
    {
        if self.motion.is_some() {
            return ;
        }
        if let Some(next) = self.next_dir {
            if !layout.collides(&self.location.shift(next)) {
                self.dir = next;
            }
        }
    }

    /// Sets off for the neighbouring tile in the committed direction, if
    /// the actor is at rest and that tile is no wall.
    pub fn move_dir(&mut self, layout: &Layout)
        requires
            old(self).wf(),
        ensures
            *final(self) == old(self).spec_move_dir(*layout),
            final(self).wf(),
    {
        if self.motion.is_some() {
            return ;
        }
        let new_loc = self.location.shift(self.dir);
        if !layout.collides(&new_loc) {
            self.motion = Some(MotionState { destination: new_loc, progress: 0 });
        }
    }

    /// Glides for `delta` nanoseconds and says whether the actor arrived
    /// on its destination tile.
    pub fn move_to(&mut self, delta: u64) -> (arrived: bool)
        requires
            old(self).wf(),
        ensures
            *final(self) == old(self).spec_move_to(delta),
            arrived == old(self).arrives_within(delta),
            arrived == final(self).arrived,
            old(self).roomy() ==> final(self).wf(),
    {
        match self.motion {
            Some(m) => {
                assert(0 <= self.speed * delta <= 0xffff_ffff * 0xffff_ffff_ffff_ffff)
                    by (nonlinear_arith)
                    requires
                        0 <= self.speed <= 0xffff_ffff,
                        0 <= delta <= 0xffff_ffff_ffff_ffff,
                ;
                let step: u128 = (self.speed as u128) * (delta as u128);
                let total: u128 = (m.progress as u128) + step;
                if total >= TILE_UNITS as u128 {
                    self.location = m.destination;
                    self.motion = None;
                    self.arrived = true;
                    true
                } else {
                    self.motion = Some(
                        MotionState { destination: m.destination, progress: total as u64 },
                    );
                    self.arrived = false;
                    false
                }
            },
            None => {
                self.arrived = false;
                false
            },
        }
    }
}

/// The quotient of `a` by `b`, rounded down.
fn floor_div(a: i128, b: i128) -> (q: i128)
    requires
        0 < b <= 0x7fff_ffff_ffff_ffff,
        -0x7fff_ffff_ffff_ffff_ffff_ffff <= a <= 0x7fff_ffff_ffff_ffff_ffff_ffff,
    ensures
        q == a / b,
{
    if a >= 0 {
        ((a as u128) / (b as u128)) as i128
    } else {
        let n: u128 = (-(a + 1)) as u128;
        let qn: u128 = n / (b as u128);
        proof {
            let r = (n % (b as u128)) as int;
            assert(n == qn * b + r) by {
                vstd::arithmetic::div_mod::lemma_fundamental_div_mod(n as int, b as int);
                assert(qn * b == b * qn) by (nonlinear_arith);
            }
            assert(a == (-(qn as int) - 1) * b + (b - 1 - r)) by (nonlinear_arith)
                requires
                    a == -(n as int) - 1,
                    n == qn * b + r,
            ;
            lemma_fundamental_div_mod_converse(a as int, b as int, -(qn as int) - 1, b - 1 - r);
        }
        -(qn as i128) - 1
    }
}

impl Actor {
    /// Brings the actor into the band that the tunnel joins: whoever
    /// leaves it on one side comes back in on the other.
    pub fn wrap_left_right(&mut self)
        requires
            old(self).wf(),
        ensures
            *final(self) == old(self).spec_wrap_left_right(),
            final(self).world_x() == wrapped(old(self).world_x()),
            final(self).world_y() == old(self).world_y(),
            final(self).in_band(),
            final(self).wf(),
    {
        proof {
            lemma_wrapped_in_band(old(self).world_x());
        }
        let tile: i128 = TILE_UNITS as i128;
        let offset: i128 = match self.motion {
            Some(m) => {
                let step: i128 = (m.destination.x as i128) - (self.location.x as i128);
                assert(-(m.progress as int) <= step * (m.progress as int) <= m.progress)
                    by (nonlinear_arith)
                    requires
                        -1 <= step <= 1,
                        0 <= m.progress,
                ;
                step * (m.progress as i128)
            },
            None => 0,
        };
        assert(-2_147_483_648 * 8_000_000_000_000 <= (self.location.x as int) * (tile as int)
            <= 2_147_483_648 * 8_000_000_000_000) by (nonlinear_arith)
            requires
                -500_000_000 <= self.location.x <= 500_000_000,
                tile == 8_000_000_000_000,
        ;
        let x: i128 = (self.location.x as i128) * tile + offset;
        assert(x == self.world_x());
        let periods: i128 = floor_div(x + 2 * tile, 32 * tile);
        proof {
            let num = x + 2 * tile;
            let den = 32 * tile;
            vstd::arithmetic::div_mod::lemma_fundamental_div_mod(num as int, den as int);
            assert(-100_000_000 <= periods <= 100_000_000) by (nonlinear_arith)
                requires
                    periods == num / den,
                    num == den * (num / den) + num % den,
                    0 <= num % den < den,
                    den == 256_000_000_000_000,
                    -5_000_000_000_000_000_000_000 <= num <= 5_000_000_000_000_000_000_000,
            ;
            assert(num % den == num - periods * den) by (nonlinear_arith)
                requires
                    num == den * periods + num % den,
            ;
        }
        let shift: i128 = -32 * periods;
        assert(shift == wrap_shift(self.world_x()));
        let ghost before = *self;
        self.location.x = ((self.location.x as i128) + shift) as isize;
        match self.motion {
            Some(m) => {
                self.motion = Some(
                    MotionState {
                        destination: GridLocation {
                            x: ((m.destination.x as i128) + shift) as isize,
                            y: m.destination.y,
                        },
                        progress: m.progress,
                    },
                );
            },
            None => {},
        }
        proof {
            let s = shift as int;
            let t = TILE_UNITS as int;
            let p = periods as int;
            let moved = match before.motion {
                Some(m) => (m.destination.x - before.location.x) * m.progress,
                None => 0,
            };
            assert((before.location.x + s) * t + moved == before.world_x() - p * (32 * t))
                by (nonlinear_arith)
                requires
                    s == -32 * p,
                    before.world_x() == before.location.x * t + moved,
            ;
        }
    }
}

/// A wrapped position lies in the band: not left of the left margin, and
/// left of the end of the right margin.
pub proof fn lemma_wrapped_in_band(x: int)
    ensures
        -WRAP_MARGIN_TILES * TILE_UNITS <= wrapped(x) < (WRAP_PERIOD_TILES - WRAP_MARGIN_TILES)
            * TILE_UNITS,
        wrapped(x) == x + wrap_shift(x) * TILE_UNITS,
{
    let num = x + 16_000_000_000_000;
    let den = 256_000_000_000_000int;
    vstd::arithmetic::div_mod::lemma_fundamental_div_mod(num, den);
    assert(-32 * (num / den) * 8_000_000_000_000 == -(den * (num / den))) by (nonlinear_arith)
        requires
            den == 256_000_000_000_000,
    ;
}

/// A position in the band stays where it is.
pub proof fn lemma_wrapped_keeps_band(x: int)
    requires
        -WRAP_MARGIN_TILES * TILE_UNITS <= x < (WRAP_PERIOD_TILES - WRAP_MARGIN_TILES) * TILE_UNITS,
    ensures
        wrapped(x) == x,
        wrap_shift(x) == 0,
{
    let num = x + 16_000_000_000_000;
    let den = 256_000_000_000_000int;
    lemma_fundamental_div_mod_converse(num, den, 0, num);
}

/// Wrapping twice is wrapping once.
pub proof fn lemma_wrap_is_idempotent(x: int)
    ensures
        wrapped(wrapped(x)) == wrapped(x),
{
    lemma_wrapped_in_band(x);
    lemma_wrapped_keeps_band(wrapped(x));
}

/// What leaves the band on the left by less than a period comes back in a
/// period further right, and what leaves it on the right comes back in a
/// period further left.
pub proof fn lemma_wrap_crossing(x: int)
    ensures
        -(WRAP_MARGIN_TILES + WRAP_PERIOD_TILES) * TILE_UNITS <= x < -WRAP_MARGIN_TILES * TILE_UNITS
            ==> wrapped(x) == x + WRAP_PERIOD_TILES * TILE_UNITS,
        (WRAP_PERIOD_TILES - WRAP_MARGIN_TILES) * TILE_UNITS <= x < (2 * WRAP_PERIOD_TILES
            - WRAP_MARGIN_TILES) * TILE_UNITS ==> wrapped(x) == x - WRAP_PERIOD_TILES * TILE_UNITS,
{
    let num = x + 16_000_000_000_000;
    let den = 256_000_000_000_000int;
    if -272_000_000_000_000 <= x < -16_000_000_000_000 {
        lemma_fundamental_div_mod_converse(num, den, -1, num + den);
    }
    if 240_000_000_000_000 <= x < 496_000_000_000_000 {
        lemma_fundamental_div_mod_converse(num, den, 1, num - den);
    }
}

/// Wrapping moves an actor sideways only, by whole periods: its horizontal
/// position is wrapped, its row, its height and its progress stay, and
/// wrapping it once more changes nothing.
pub proof fn lemma_wrap_moves_sideways(a: Actor)
    requires
        a.wf(),
    ensures
        a.spec_wrap_left_right().wf(),
        a.spec_wrap_left_right().world_x() == wrapped(a.world_x()),
        a.spec_wrap_left_right().world_y() == a.world_y(),
        a.spec_wrap_left_right().location.y == a.location.y,
        a.spec_wrap_left_right().location.x == a.location.x + wrap_shift(a.world_x()),
        a.spec_wrap_left_right().spec_wrap_left_right() == a.spec_wrap_left_right(),
{
    let x = a.world_x();
    let t = TILE_UNITS as int;
    let moved = match a.motion {
        Some(m) => (m.destination.x - a.location.x) * m.progress,
        None => 0,
    };
    match a.motion {
        Some(m) => {
            let step = m.destination.x - a.location.x;
            assert(-(m.progress as int) <= step * (m.progress as int) <= m.progress)
                by (nonlinear_arith)
                requires
                    -1 <= step <= 1,
                    0 <= m.progress,
            ;
        },
        None => {},
    }
    assert(-500_000_000 * t <= a.location.x * t <= 500_000_000 * t) by (nonlinear_arith)
        requires
            -500_000_000 <= a.location.x <= 500_000_000,
            t > 0,
    ;
    lemma_wrapped_in_band(x);
    let num = x + 16_000_000_000_000;
    let den = 256_000_000_000_000int;
    let q = num / den;
    vstd::arithmetic::div_mod::lemma_fundamental_div_mod(num, den);
    assert(-100_000_000 <= q <= 100_000_000) by (nonlinear_arith)
        requires
            num == den * q + num % den,
            0 <= num % den < den,
            den == 256_000_000_000_000,
            -5_000_000_000_000_000_000_000 <= num <= 5_000_000_000_000_000_000_000,
    ;
    let s = wrap_shift(x);
    assert(s == -32 * q);
    let b = a.spec_wrap_left_right();
    assert(b.location.x == a.location.x + s);
    assert((a.location.x + s) * t + moved == x + s * t) by (nonlinear_arith)
        requires
            x == a.location.x * t + moved,
    ;
    assert(b.world_x() == wrapped(x));
    // The wrapped actor lies in the band, where its tile is within the
    // coordinate limit and wrapping is the identity.
    assert(-3 <= b.location.x <= 31) by (nonlinear_arith)
        requires
            b.world_x() == b.location.x * t + moved,
            -t <= moved <= t,
            -2 * t <= b.world_x() < 30 * t,
            t == 8_000_000_000_000,
    ;
    lemma_wrapped_keeps_band(b.world_x());
}

} // verus!
