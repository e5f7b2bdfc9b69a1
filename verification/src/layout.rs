//! The static maze: a fixed rectangle of classified tiles.

use vstd::prelude::*;
use crate::grid::GridLocation;

verus! {

/// Number of tile columns of the maze.
pub const WIDTH_TILES: usize = 28;

/// Number of tile rows of the maze.
pub const HEIGHT_TILES: usize = 36;

/// Number of tiles of the maze.
pub const TILE_COUNT: usize = 1008;

/// Position, in an encoded level, of the four bytes that give the place
/// where the tile data starts.
pub const DATA_OFFSET_FIELD: usize = 10;

/// What a tile of the maze holds.
#[derive(Copy, Clone, Debug, PartialEq, Eq, Structural, Hash)]
pub enum Tile {
    Wall,
    Door,
    Dot,
    Energizer,
    PacMan,
    Blinky,
    Pinky,
    Inky,
    Clyde,
}

/// Why an encoded level was rejected.
#[derive(Copy, Clone, Debug, PartialEq, Eq, Structural)]
pub enum LayoutError {
    /// The input ends before the field that locates the tile data.
    TruncatedHeader,
    /// The input holds fewer tiles after the data offset than the maze has.
    TruncatedTiles,
}

/// `v` limited to the interval `[lo, hi]`.
pub open spec fn clamp(v: int, lo: int, hi: int) -> int {
    if v < lo {
        lo
    } else if v > hi {
        hi
    } else {
        v
    }
}

/// Row-major index of the tile that a query for `(x, y)` reads: coordinates
/// outside the maze are moved to the nearest column and row.
pub open spec fn tile_index(x: int, y: int) -> int {
    clamp(y, 0, HEIGHT_TILES as int - 1) * (WIDTH_TILES as int) + clamp(x, 0, WIDTH_TILES as int - 1)
}

/// The tile that one byte of an encoded level stands for.
pub open spec fn decode_tile(b: u8) -> Option<Tile> {
    if b == 1 {
        Some(Tile::Wall)
    } else if b == 2 {
        Some(Tile::Dot)
    } else if b == 4 {
        Some(Tile::Energizer)
    } else if b == 5 {
        Some(Tile::PacMan)
    } else if b == 6 {
        Some(Tile::Door)
    } else if b == 7 {
        Some(Tile::Blinky)
    } else if b == 8 {
        Some(Tile::Pinky)
    } else if b == 9 {
        Some(Tile::Inky)
    } else if b == 10 {
        Some(Tile::Clyde)
    } else {
        None
    }
}

/// The little-endian number that four bytes spell.
pub open spec fn le_u32(b0: u8, b1: u8, b2: u8, b3: u8) -> int {
    b0 as int + 256 * (b1 as int) + 65536 * (b2 as int) + 16777216 * (b3 as int)
}

/// Where the tile data of the encoded level `bytes` starts.
pub open spec fn data_offset(bytes: Seq<u8>) -> int
    recommends
        bytes.len() >= DATA_OFFSET_FIELD + 4,
{
    le_u32(
        bytes[DATA_OFFSET_FIELD as int],
        bytes[DATA_OFFSET_FIELD as int + 1],
        bytes[DATA_OFFSET_FIELD as int + 2],
        bytes[DATA_OFFSET_FIELD as int + 3],
    )
}

/// The tile that one byte of an encoded level stands for.
pub fn tile_from_byte(b: u8) -> (r: Option<Tile>)
    ensures
        r == decode_tile(b),
{
    if b == 1 {
        Some(Tile::Wall)
    } else if b == 2 {
        Some(Tile::Dot)
    } else if b == 4 {
        Some(Tile::Energizer)
    } else if b == 5 {
        Some(Tile::PacMan)
    } else if b == 6 {
        Some(Tile::Door)
    } else if b == 7 {
        Some(Tile::Blinky)
    } else if b == 8 {
        Some(Tile::Pinky)
    } else if b == 9 {
        Some(Tile::Inky)
    } else if b == 10 {
        Some(Tile::Clyde)
    } else {
        None
    }
}

/// The maze: `HEIGHT_TILES` rows of `WIDTH_TILES` tiles, row 0 at the bottom.
pub struct Layout {
    tiles: Vec<Option<Tile>>,
}

impl View for Layout {
    type V = Seq<Option<Tile>>;

    /// The tiles in row-major order.
    closed spec fn view(&self) -> Seq<Option<Tile>> {
        self.tiles@
    }
}

impl Layout {
    #[verifier::type_invariant]
    spec fn well_formed(self) -> bool {
        self.tiles@.len() == TILE_COUNT
    }

    /// The tile that a query for `(x, y)` answers with.
    pub open spec fn tile_at(self, x: int, y: int) -> Option<Tile> {
        self@[tile_index(x, y)]
    }

    /// The tile at `loc`, with off-maze coordinates clamped.
    pub open spec fn spec_get(self, loc: GridLocation) -> Option<Tile> {
        self.tile_at(loc.x as int, loc.y as int)
    }

    /// Whether the tile at `loc` is a wall.
    pub open spec fn spec_collides(self, loc: GridLocation) -> bool {
        self.spec_get(loc) == Some(Tile::Wall)
    }

    /// A maze without any tile set.
    pub fn new() -> (r: Layout)
        ensures
            r@.len() == TILE_COUNT,
            forall|i: int| 0 <= i < TILE_COUNT ==> r@[i].is_none(),
    {
        let mut tiles: Vec<Option<Tile>> = Vec::new();
        let mut i: usize = 0;
        while i < TILE_COUNT
            invariant
                i <= TILE_COUNT,
                tiles@.len() == i,
                forall|k: int| 0 <= k < i ==> tiles@[k].is_none(),
            decreases TILE_COUNT - i,
        {
            tiles.push(None);
            i += 1;
        }
        Layout { tiles }
    }

    /// The tiles that the encoded level `bytes` holds, if it is long enough.
    pub open spec fn spec_load(bytes: Seq<u8>) -> Result<Seq<Option<Tile>>, LayoutError> {
        if bytes.len() < DATA_OFFSET_FIELD + 4 {
            Err(LayoutError::TruncatedHeader)
        } else if data_offset(bytes) + TILE_COUNT > bytes.len() {
            Err(LayoutError::TruncatedTiles)
        } else {
            Ok(Seq::new(TILE_COUNT as nat, |i: int| decode_tile(bytes[data_offset(bytes) + i])))
        }
    }

    /// Decodes a level. Four little-endian bytes at `DATA_OFFSET_FIELD` give
    /// the place where the tile data starts; from there on each byte stands
    /// for one tile, row by row, starting with the bottom row.
    pub fn load(bytes: &[u8]) -> (r: Result<Layout, LayoutError>)
        ensures
            match (r, Self::spec_load(bytes@)) {
                (Ok(layout), Ok(tiles)) => layout@ == tiles,
                (Err(e), Err(expected)) => e == expected,
                _ => false,
            },
    {
        if bytes.len() < DATA_OFFSET_FIELD + 4 {
            return Err(LayoutError::TruncatedHeader);
        }
        let b0: u64 = bytes[DATA_OFFSET_FIELD] as u64;
        let b1: u64 = bytes[DATA_OFFSET_FIELD + 1] as u64;
        let b2: u64 = bytes[DATA_OFFSET_FIELD + 2] as u64;
        let b3: u64 = bytes[DATA_OFFSET_FIELD + 3] as u64;
        let offset: u64 = b0 + 256 * b1 + 65536 * b2 + 16777216 * b3;
        if offset + (TILE_COUNT as u64) > bytes.len() as u64 {
            return Err(LayoutError::TruncatedTiles);
        }
        let start: usize = offset as usize;
        let mut tiles: Vec<Option<Tile>> = Vec::new();
        let mut i: usize = 0;
        while i < TILE_COUNT
            invariant
                i <= TILE_COUNT,
                start + TILE_COUNT <= bytes@.len() <= usize::MAX,
                tiles@.len() == i,
                forall|k: int| 0 <= k < i ==> tiles@[k] == decode_tile(#[trigger] bytes@[start + k]),
            decreases TILE_COUNT - i,
        {
            tiles.push(tile_from_byte(bytes[start + i]));
            i += 1;
        }
        assert(tiles@ =~= Self::spec_load(bytes@).unwrap());
        Ok(Layout { tiles })
    }

    /// The tile at `loc`; a location outside the maze reads the nearest
    /// tile of the maze.
    pub fn get(&self, loc: &GridLocation) -> (r: Option<Tile>)
        ensures
            r == self.spec_get(*loc),
    {
        proof {
            use_type_invariant(self);
        }
        let col: usize = if loc.x < 0 {
            0
        } else if loc.x > 27 {
            27
        } else {
            loc.x as usize
        };
        let row: usize = if loc.y < 0 {
            0
        } else if loc.y > 35 {
            35
        } else {
            loc.y as usize
        };
        self.tiles[row * WIDTH_TILES + col]
    }

    /// Whether the tile at `loc` is a wall.
    pub fn collides(&self, loc: &GridLocation) -> (r: bool)
        ensures
            r == self.spec_collides(*loc),
    {
        match self.get(loc) {
            Some(Tile::Wall) => true,
            _ => false,
        }
    }

    /// The same maze with the tile at `loc` replaced. A location outside
    /// the maze changes nothing.
    pub fn with_tile(self, loc: &GridLocation, tile: Option<Tile>) -> (r: Layout)
        ensures
            r@ == if 0 <= loc.x < WIDTH_TILES && 0 <= loc.y < HEIGHT_TILES {
                self@.update(tile_index(loc.x as int, loc.y as int), tile)
            } else {
                self@
            },
    {
        proof {
            use_type_invariant(&self);
        }
        if loc.x < 0 || loc.x > 27 || loc.y < 0 || loc.y > 35 {
            return self;
        }
        let col: usize = loc.x as usize;
        let row: usize = loc.y as usize;
        let mut tiles = self.tiles;
        tiles.set(row * WIDTH_TILES + col, tile);
        Layout { tiles }
    }
}

} // verus!
