//! Bullets: what a bullet met in a frame.

use vstd::prelude::*;
use crate::level::Level;
use crate::level::LEVEL_TILES;

verus! {

/// What a bullet met in a frame.
#[derive(Clone, Copy, PartialEq, Eq, Structural, Debug)]
pub enum BulletHitState {
    Tile(usize),
    Roof,
    Nothing,
}

/// What a bullet met: a tile comes before the roof.
pub open spec fn bullet_state(hit_tile: Option<usize>, above_roof: bool) -> BulletHitState {
    match hit_tile {
        Some(i) => BulletHitState::Tile(i),
        None => if above_roof {
            BulletHitState::Roof
        } else {
            BulletHitState::Nothing
        },
    }
}

/// Whether `index` names a breakable tile of the grid.
pub open spec fn stops_bullet(tiles: Seq<crate::tile::Tile>, index: usize) -> bool {
    index < tiles.len() && tiles[index as int].spec_breakable()
}

impl BulletHitState {
    /// What a bullet met in a frame, from the tile it struck, if any, and
    /// whether it left the play field at the top.
    pub fn of(hit_tile: Option<usize>, above_roof: bool) -> (r: BulletHitState)
        ensures
            r == bullet_state(hit_tile, above_roof),
    {
        match hit_tile {
            Some(i) => BulletHitState::Tile(i),
            None => if above_roof {
                BulletHitState::Roof
            } else {
                BulletHitState::Nothing
            },
        }
    }
}

/// The tile that stops a bullet: the first breakable one among the tiles
/// that the bullet overlaps, in the order given. Indices outside the grid
/// stop nothing.
pub fn first_breakable(level: &Level, overlapped: &Vec<usize>) -> (r: Option<usize>)
    ensures
        match r {
            Some(t) => exists|k: int|
                0 <= k < overlapped@.len() && overlapped@[k] == t && stops_bullet(
                    level@.tiles,
                    t,
                ) && forall|j: int| 0 <= j < k ==> !stops_bullet(level@.tiles, #[trigger] overlapped@[j]),
            None => forall|j: int|
                0 <= j < overlapped@.len() ==> !stops_bullet(level@.tiles, #[trigger] overlapped@[j]),
        },
{
    let tiles = level.tiles();
    let mut k: usize = 0;
    while k < overlapped.len()
        invariant
            k <= overlapped@.len(),
            tiles@ == level@.tiles,
            tiles@.len() == LEVEL_TILES,
            forall|j: int| 0 <= j < k ==> !stops_bullet(level@.tiles, #[trigger] overlapped@[j]),
        decreases overlapped@.len() - k,
    {
        let t = overlapped[k];
        if t < LEVEL_TILES && tiles[t].breakable() {
            return Some(t);
        }
        k += 1;
    }
    None
}

} // verus!
