//! Tile coordinates and the four cardinal directions.

use vstd::prelude::*;

verus! {

/// A cardinal direction on the tile grid.
#[derive(Copy, Clone, Debug, PartialEq, Eq, Structural, Hash)]
pub enum Dir {
    Left,
    Right,
    Down,
    Up,
}

/// The largest magnitude of a coordinate that the steering functions accept.
pub const COORD_LIMIT: isize = 500_000_000;

/// The address of one tile of the maze. Two addresses are equal, and hash
/// alike, when their coordinates are equal.
#[derive(Copy, Clone, Debug, PartialEq, Eq, Structural, Hash)]
pub struct GridLocation {
    pub x: isize,
    pub y: isize,
}

impl Default for GridLocation {
    /// The tile in column 0 and row 0.
    fn default() -> (r: GridLocation)
        ensures
            r == (GridLocation { x: 0, y: 0 }),
    {
        GridLocation { x: 0, y: 0 }
    }
}

/// Horizontal component of one step in direction `dir`.
pub open spec fn dir_dx(dir: Dir) -> int {
    match dir {
        Dir::Left => -1,
        Dir::Right => 1,
        Dir::Down => 0,
        Dir::Up => 0,
    }
}

/// Vertical component of one step in direction `dir`.
pub open spec fn dir_dy(dir: Dir) -> int {
    match dir {
        Dir::Left => 0,
        Dir::Right => 0,
        Dir::Down => -1,
        Dir::Up => 1,
    }
}

/// Whether `v` is a coordinate that every platform's `isize` can hold.
pub open spec fn fits(v: int) -> bool {
    -2_147_483_648 <= v <= 2_147_483_647
}

/// Squared Euclidean distance between the tiles `(ax, ay)` and `(bx, by)`.
pub open spec fn dist_sq(ax: int, ay: int, bx: int, by: int) -> int {
    (ax - bx) * (ax - bx) + (ay - by) * (ay - by)
}

impl Dir {
    /// The opposite direction.
    pub open spec fn spec_reverse(self) -> Dir {
        match self {
            Dir::Left => Dir::Right,
            Dir::Right => Dir::Left,
            Dir::Down => Dir::Up,
            Dir::Up => Dir::Down,
        }
    }

    /// The opposite direction.
    pub fn reverse(&self) -> (r: Dir)
        ensures
            r == self.spec_reverse(),
            dir_dx(r) == -dir_dx(*self),
            dir_dy(r) == -dir_dy(*self),
    {
        match self {
            Dir::Left => Dir::Right,
            Dir::Right => Dir::Left,
            Dir::Down => Dir::Up,
            Dir::Up => Dir::Down,
        }
    }
}

impl GridLocation {
    /// Whether both coordinates lie within `COORD_LIMIT` of the origin.
    pub open spec fn in_range(self) -> bool {
        &&& -COORD_LIMIT <= self.x <= COORD_LIMIT
        &&& -COORD_LIMIT <= self.y <= COORD_LIMIT
    }

    /// Whether both coordinates lie closer to the origin than
    /// `COORD_LIMIT`, so that every neighbour is within the limit.
    pub open spec fn inside(self) -> bool {
        &&& -COORD_LIMIT < self.x < COORD_LIMIT
        &&& -COORD_LIMIT < self.y < COORD_LIMIT
    }

    /// Whether the tile `amount` steps away in direction `dir` has
    /// coordinates that fit every platform's `isize`.
    pub open spec fn can_shift_by(self, dir: Dir, amount: int) -> bool {
        &&& fits(self.x + dir_dx(dir) * amount)
        &&& fits(self.y + dir_dy(dir) * amount)
    }

    /// The tile `amount` steps away in direction `dir`.
    pub open spec fn spec_shift_by(self, dir: Dir, amount: int) -> GridLocation {
        GridLocation {
            x: (self.x + dir_dx(dir) * amount) as isize,
            y: (self.y + dir_dy(dir) * amount) as isize,
        }
    }

    /// The neighbouring tile in direction `dir`.
    pub open spec fn spec_shift(self, dir: Dir) -> GridLocation {
        self.spec_shift_by(dir, 1)
    }

    /// Whether both coordinates fit every platform's `isize`.
    pub open spec fn portable(self) -> bool {
        fits(self.x as int) && fits(self.y as int)
    }

    /// Squared Euclidean distance to `other`, in tiles.
    pub open spec fn spec_distance_squared(self, other: GridLocation) -> int {
        dist_sq(self.x as int, self.y as int, other.x as int, other.y as int)
    }

    /// Squared Euclidean distance to `other`, in tiles.
    pub fn distance_squared(&self, other: &GridLocation) -> (d: u128)
        requires
            self.portable(),
            other.portable(),
        ensures
            d as int == self.spec_distance_squared(*other),
    {
        let dx: i128 = (self.x as i128) - (other.x as i128);
        let dy: i128 = (self.y as i128) - (other.y as i128);
        assert(0 <= dx * dx <= 0x1_0000_0000_0000_0000) by (nonlinear_arith)
            requires
                -0x1_0000_0000 <= dx <= 0x1_0000_0000,
        ;
        assert(0 <= dy * dy <= 0x1_0000_0000_0000_0000) by (nonlinear_arith)
            requires
                -0x1_0000_0000 <= dy <= 0x1_0000_0000,
        ;
        let sq: i128 = dx * dx + dy * dy;
        sq as u128
    }

    /// The neighbouring tile in direction `dir`.
    pub fn shift(&self, dir: Dir) -> (r: GridLocation)
        requires
            self.can_shift_by(dir, 1),
        ensures
            r == self.spec_shift(dir),
            r.x == self.x + dir_dx(dir),
            r.y == self.y + dir_dy(dir),
    {
        self.shift_by(dir, 1)
    }

    /// The tile `amount` steps away in direction `dir`; a negative `amount`
    /// steps backwards.
    pub fn shift_by(&self, dir: Dir, amount: isize) -> (r: GridLocation)
        requires
            fits(amount as int),
            self.can_shift_by(dir, amount as int),
        ensures
            r == self.spec_shift_by(dir, amount as int),
            r.x == self.x + dir_dx(dir) * amount,
            r.y == self.y + dir_dy(dir) * amount,
    {
        match dir {
            Dir::Left => GridLocation { x: self.x - amount, y: self.y },
            Dir::Right => GridLocation { x: self.x + amount, y: self.y },
            Dir::Down => GridLocation { x: self.x, y: self.y - amount },
            Dir::Up => GridLocation { x: self.x, y: self.y + amount },
        }
    }
}

} // verus!
