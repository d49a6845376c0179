//! The level: a fixed grid of tiles and a name.

use vstd::prelude::*;
use crate::tile::Tile;
use crate::tile::hit_result;

verus! {

/// Tiles in one row of the grid.
pub const LEVEL_WIDTH: usize = 16;

/// Rows of the grid.
pub const LEVEL_HEIGHT: usize = 22;

/// Tiles in the whole grid.
pub const LEVEL_TILES: usize = 352;

/// Empty rows above the grid.
pub const LEVEL_HEIGHT_PADDING_TOP: usize = 2;

/// Empty rows below the grid.
pub const LEVEL_HEIGHT_PADDING_BOTTOM: usize = 6;

/// Width of a tile in pixels.
pub const TILE_WIDTH: usize = 11;

/// Height of a tile in pixels.
pub const TILE_HEIGHT: usize = 6;

/// Gap between two tiles in pixels.
pub const TILE_GAP: usize = 1;

/// Longest name, in characters, of a level, a pack or an author.
pub const LEVEL_NAME_LEN: usize = 16;

/// The grid of a level, row by row.
pub type TileArray = [Tile; LEVEL_TILES];

/// What a level is: its grid and its name.
pub ghost struct LevelView {
    pub tiles: Seq<Tile>,
    pub name: Seq<char>,
}

/// A level: a grid of `LEVEL_TILES` tiles, row by row, and a name.
pub struct Level {
    tiles: TileArray,
    name: String,
}

impl Clone for Level {
    fn clone(&self) -> (r: Level)
        ensures
            r@ == self@,
    {
        Level { tiles: self.tiles, name: self.name.clone() }
    }
}

impl View for Level {
    type V = LevelView;

    closed spec fn view(&self) -> LevelView {
        LevelView { tiles: self.tiles@, name: self.name@ }
    }
}

/// The grid with the tile at `index` hit once; unchanged where `index` is
/// outside the grid.
pub open spec fn grid_after_hit(tiles: Seq<Tile>, index: int) -> Seq<Tile> {
    if 0 <= index < tiles.len() {
        tiles.update(index, hit_result(tiles[index]))
    } else {
        tiles
    }
}

/// The grid with a tile put at `index`; unchanged where `index` is outside
/// the grid.
pub open spec fn grid_with(tiles: Seq<Tile>, index: int, tile: Tile) -> Seq<Tile> {
    if 0 <= index < tiles.len() {
        tiles.update(index, tile)
    } else {
        tiles
    }
}

/// Whether a hit at `index` breaks a tile away: the index is in the grid and
/// the tile there is breakable and no uncracked stone.
pub open spec fn hit_breaks(tiles: Seq<Tile>, index: int) -> bool {
    0 <= index < tiles.len() && tiles[index].spec_breakable() && tiles[index] != Tile::Stone
}

/// Whether no tile of the grid is breakable.
pub open spec fn grid_complete(tiles: Seq<Tile>) -> bool {
    forall|i: int| 0 <= i < tiles.len() ==> !(#[trigger] tiles[i]).spec_breakable()
}

/// A level is complete exactly when every tile is `Air`, `Metal` or `Gold`;
/// one breakable tile makes it incomplete.
pub proof fn law_complete_iff_unbreakable(tiles: Seq<Tile>)
    ensures
        grid_complete(tiles) <==> forall|i: int|
            0 <= i < tiles.len() ==> (#[trigger] tiles[i] == Tile::Air || tiles[i] == Tile::Metal || tiles[i]
                == Tile::Gold),
        forall|i: int| 0 <= i < tiles.len() && (#[trigger] tiles[i]).spec_breakable() ==> !grid_complete(tiles),
{
    if grid_complete(tiles) {
        assert forall|i: int| 0 <= i < tiles.len() implies (#[trigger] tiles[i] == Tile::Air || tiles[i]
            == Tile::Metal || tiles[i] == Tile::Gold) by {
            assert(!tiles[i].spec_breakable());
        }
    }
}

/// A hit on `Metal`, `Gold` or `Air`, or outside the grid, leaves the grid
/// as it is and breaks nothing away.
pub proof fn law_hit_spares_unbreakable(tiles: Seq<Tile>, index: int)
    requires
        !(0 <= index < tiles.len()) || !tiles[index].spec_breakable(),
    ensures
        grid_after_hit(tiles, index) == tiles,
        !hit_breaks(tiles, index),
{
    assert(grid_after_hit(tiles, index) =~= tiles);
}

/// A tile that was broken away is not broken away again: the second hit
/// leaves the grid as the first one left it.
pub proof fn law_second_hit_breaks_nothing(tiles: Seq<Tile>, index: int)
    requires
        hit_breaks(tiles, index),
    ensures
        grid_after_hit(grid_after_hit(tiles, index), index) == grid_after_hit(tiles, index),
        !hit_breaks(grid_after_hit(tiles, index), index),
{
    assert(grid_after_hit(grid_after_hit(tiles, index), index) =~= grid_after_hit(tiles, index));
}

/// The grid of a fresh level: `Air` everywhere.
pub open spec fn blank_grid() -> Seq<Tile> {
    Seq::new(LEVEL_TILES as nat, |i: int| Tile::Air)
}

/// Pixels from one tile to the next in a row.
pub const TILE_STEP_X: u64 = 12;

/// Pixels from one row of tiles to the next.
pub const TILE_STEP_Y: u64 = 7;

/// Width of the view in pixels.
pub const VIEW_WIDTH: u64 = 192;

/// Height of the view in pixels: the grid with the empty rows above and
/// below it.
pub const VIEW_HEIGHT: u64 = 210;

/// A rectangle in whole pixels.
#[derive(Clone, Copy, PartialEq, Eq, Structural, Debug)]
pub struct PixelRect {
    pub x: u64,
    pub y: u64,
    pub w: u64,
    pub h: u64,
}

/// The column of the cell with this index.
pub open spec fn column_of(index: int) -> int {
    index % 16
}

/// The row of the cell with this index.
pub open spec fn row_of(index: int) -> int {
    index / 16
}

/// Compares two grids tile by tile.
pub fn grids_equal(a: &TileArray, b: &TileArray) -> (r: bool)
    ensures
        r == (a@ == b@),
{
    let mut i: usize = 0;
    while i < LEVEL_TILES
        invariant
            i <= LEVEL_TILES,
            forall|j: int| 0 <= j < i ==> a@[j] == b@[j],
        decreases LEVEL_TILES - i,
    {
        if a[i] != b[i] {
            return false;
        }
        i += 1;
    }
    assert(a@ =~= b@);
    true
}

impl Level {
    /// A level of `Air` with an empty name.
    pub fn new() -> (r: Level)
        ensures
            r@.tiles == blank_grid(),
            r@.name == Seq::<char>::empty(),
    {
        let r = Level { tiles: [Tile::Air; LEVEL_TILES], name: String::new() };
        assert(r.tiles@ =~= blank_grid());
        r
    }

    /// Where the tile with this index stands in the view, in pixels: tiles lie
    /// a gap apart, below the empty rows at the top.
    pub fn tile_pos(index: usize) -> (r: (u64, u64))
        ensures
            r.0 == column_of(index as int) * 12,
            r.1 == (row_of(index as int) + 2) * 7,
    {
        let i: u64 = index as u64;
        let x: u64 = i % 16;
        let y: u64 = i / 16 + 2;
        (x * TILE_STEP_X, y * TILE_STEP_Y)
    }

    /// The rectangle of the tile with this index.
    pub fn tile_rect(index: usize) -> (r: PixelRect)
        ensures
            r.x == column_of(index as int) * 12,
            r.y == (row_of(index as int) + 2) * 7,
            r.w == 11,
            r.h == 6,
    {
        let pos = Level::tile_pos(index);
        PixelRect { x: pos.0, y: pos.1, w: 11, h: 6 }
    }

    /// The size of the view in pixels.
    pub fn view_size() -> (r: (u64, u64))
        ensures
            r.0 == VIEW_WIDTH,
            r.1 == VIEW_HEIGHT,
    {
        (VIEW_WIDTH, VIEW_HEIGHT)
    }

    /// A level with this grid and this name.
    pub fn from_parts(tiles: TileArray, name: String) -> (r: Level)
        ensures
            r@ == (LevelView { tiles: tiles@, name: name@ }),
    {
        Level { tiles, name }
    }

    /// A level's grid has `LEVEL_TILES` tiles.
    pub broadcast proof fn lemma_grid_len(&self)
        ensures
            #[trigger] self@.tiles.len() == LEVEL_TILES,
    {
    }

    /// The grid.
    pub fn tiles(&self) -> (r: &TileArray)
        ensures
            r@ == self@.tiles,
            r@.len() == LEVEL_TILES,
    {
        &self.tiles
    }

    /// The grid, to be written to. The name stays as it is.
    pub fn tiles_mut(&mut self) -> (r: &mut TileArray)
        ensures
            r@ == old(self)@.tiles,
            final(self)@ == (LevelView { tiles: final(r)@, name: old(self)@.name }),
    {
        &mut self.tiles
    }

    /// The name.
    pub fn name(&self) -> (r: &String)
        ensures
            r@ == self@.name,
    {
        &self.name
    }

    /// The name, to be written to. The grid stays as it is.
    pub fn name_mut(&mut self) -> (r: &mut String)
        ensures
            r@ == old(self)@.name,
            final(self)@ == (LevelView { tiles: old(self)@.tiles, name: final(r)@ }),
    {
        &mut self.name
    }

    /// Puts a tile at `index`. An index outside the grid changes nothing.
    pub fn set_tile(&mut self, index: usize, tile: Tile)
        ensures
            final(self)@ == (LevelView { tiles: grid_with(old(self)@.tiles, index as int, tile), ..old(self)@ }),
    {
        if index < LEVEL_TILES {
            self.tiles[index] = tile;
        }
    }

    /// Hits the tile at `index` once and says whether that broke it away.
    /// An index outside the grid hits nothing.
    pub fn break_tile(&mut self, index: usize) -> (broken: bool)
        ensures
            final(self)@.tiles == grid_after_hit(old(self)@.tiles, index as int),
            final(self)@.name == old(self)@.name,
            broken == hit_breaks(old(self)@.tiles, index as int),
    {
        if index >= LEVEL_TILES {
            return false;
        }
        let mut t = self.tiles[index];
        let broken = t.hit();
        self.tiles[index] = t;
        assert(self.tiles@ =~= grid_after_hit(old(self)@.tiles, index as int));
        broken
    }

    /// Whether no breakable tile is left.
    pub fn complete(&self) -> (r: bool)
        ensures
            r == grid_complete(self@.tiles),
    {
        let mut i: usize = 0;
        while i < LEVEL_TILES
            invariant
                i <= LEVEL_TILES,
                forall|j: int| 0 <= j < i ==> !(#[trigger] self.tiles@[j]).spec_breakable(),
            decreases LEVEL_TILES - i,
        {
            if self.tiles[i].breakable() {
                return false;
            }
            i += 1;
        }
        true
    }
}

} // verus!
