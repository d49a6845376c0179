//! Tiles: the cells of a level grid.

use vstd::prelude::*;

verus! {

/// One cell of the level grid. `Air` is the empty cell.
#[derive(Clone, Copy, PartialEq, Eq, Structural, Debug)]
pub enum Tile {
    White,
    Red,
    Orange,
    Yellow,
    Green,
    Cyan,
    Blue,
    Purple,
    Pink,
    Brown,
    Black,
    Stone,
    StoneCracked,
    Metal,
    Gold,
    Air,
}

/// What one hit makes of a tile: stone cracks, cracked stone and the
/// coloured tiles vanish, and the unbreakable tiles stay as they are.
pub open spec fn hit_result(t: Tile) -> Tile {
    match t {
        Tile::Air | Tile::Metal | Tile::Gold => t,
        Tile::Stone => Tile::StoneCracked,
        _ => Tile::Air,
    }
}

/// The nibble that stands for a tile in a level-pack file.
pub open spec fn nibble_of(t: Tile) -> u8 {
    match t {
        Tile::White => 0u8,
        Tile::Red => 1u8,
        Tile::Orange => 2u8,
        Tile::Yellow => 3u8,
        Tile::Green => 4u8,
        Tile::Cyan => 5u8,
        Tile::Blue => 6u8,
        Tile::Purple => 7u8,
        Tile::Pink => 8u8,
        Tile::Brown => 9u8,
        Tile::Black => 10u8,
        Tile::Stone => 11u8,
        Tile::StoneCracked => 12u8,
        Tile::Metal => 13u8,
        Tile::Gold => 14u8,
        Tile::Air => 15u8,
    }
}

/// The tile that a nibble stands for. Total: a value above 15, which no
/// nibble can hold, reads as `Air`.
pub open spec fn tile_of(n: u8) -> Tile {
    match n {
        0u8 => Tile::White,
        1u8 => Tile::Red,
        2u8 => Tile::Orange,
        3u8 => Tile::Yellow,
        4u8 => Tile::Green,
        5u8 => Tile::Cyan,
        6u8 => Tile::Blue,
        7u8 => Tile::Purple,
        8u8 => Tile::Pink,
        9u8 => Tile::Brown,
        10u8 => Tile::Black,
        11u8 => Tile::Stone,
        12u8 => Tile::StoneCracked,
        13u8 => Tile::Metal,
        14u8 => Tile::Gold,
        _ => Tile::Air,
    }
}

impl Tile {
    /// Whether a hit changes the tile.
    pub open spec fn spec_breakable(&self) -> bool {
        !(*self == Tile::Air || *self == Tile::Metal || *self == Tile::Gold)
    }

    /// Whether a hit changes the tile: everything but `Air`, `Metal` and `Gold`.
    #[verifier::when_used_as_spec(spec_breakable)]
    pub fn breakable(&self) -> (r: bool)
        ensures
            r == self.spec_breakable(),
    {
        !matches!(*self, Tile::Air | Tile::Metal | Tile::Gold)
    }

    /// Hits the tile once and says whether the hit broke it away to `Air`.
    pub fn hit(&mut self) -> (broken: bool)
        ensures
            *final(self) == hit_result(*old(self)),
            broken == (old(self).spec_breakable() && *old(self) != Tile::Stone),
    {
        if !self.breakable() {
            return false;
        }
        *self = match *self {
            Tile::Stone => Tile::StoneCracked,
            _ => Tile::Air,
        };
        *self == Tile::Air
    }

    /// The nibble that stands for the tile in a level-pack file.
    pub fn to_nibble(&self) -> (n: u8)
        ensures
            n == nibble_of(*self),
            n < 16,
    {
        match *self {
            Tile::White => 0,
            Tile::Red => 1,
            Tile::Orange => 2,
            Tile::Yellow => 3,
            Tile::Green => 4,
            Tile::Cyan => 5,
            Tile::Blue => 6,
            Tile::Purple => 7,
            Tile::Pink => 8,
            Tile::Brown => 9,
            Tile::Black => 10,
            Tile::Stone => 11,
            Tile::StoneCracked => 12,
            Tile::Metal => 13,
            Tile::Gold => 14,
            Tile::Air => 15,
        }
    }

    /// The tile that a nibble stands for, or nothing for a value above 15.
    pub fn from_nibble(value: u8) -> (r: Option<Tile>)
        ensures
            value < 16 ==> r == Some(tile_of(value)),
            value >= 16 ==> r.is_none(),
    {
        match value {
            0 => Some(Tile::White),
            1 => Some(Tile::Red),
            2 => Some(Tile::Orange),
            3 => Some(Tile::Yellow),
            4 => Some(Tile::Green),
            5 => Some(Tile::Cyan),
            6 => Some(Tile::Blue),
            7 => Some(Tile::Purple),
            8 => Some(Tile::Pink),
            9 => Some(Tile::Brown),
            10 => Some(Tile::Black),
            11 => Some(Tile::Stone),
            12 => Some(Tile::StoneCracked),
            13 => Some(Tile::Metal),
            14 => Some(Tile::Gold),
            15 => Some(Tile::Air),
            _ => None,
        }
    }
}

impl vstd::std_specs::convert::TryFromSpecImpl<u8> for Tile {
    open spec fn obeys_try_from_spec() -> bool {
        true
    }

    open spec fn try_from_spec(value: u8) -> Result<Tile, ()> {
        if value < 16 {
            Ok(tile_of(value))
        } else {
            Err(())
        }
    }
}

impl TryFrom<u8> for Tile {
    type Error = ();

    /// The tile that a nibble stands for; an error for a value above 15.
    fn try_from(value: u8) -> (r: Result<Tile, ()>) {
        match Tile::from_nibble(value) {
            Some(t) => Ok(t),
            None => Err(()),
        }
    }
}

/// Every breakable tile breaks as the rules say: stone cracks, everything
/// else goes to `Air`, and a second hit on what is already `Air` changes
/// nothing.
pub proof fn law_hit_breakable(t: Tile)
    requires
        t.spec_breakable(),
    ensures
        t == Tile::Stone ==> hit_result(t) == Tile::StoneCracked,
        t != Tile::Stone ==> hit_result(t) == Tile::Air,
        t != Tile::Stone ==> hit_result(hit_result(t)) == hit_result(t),
        hit_result(hit_result(hit_result(t))) == Tile::Air,
{
}

/// A hit never changes `Metal`, `Gold` or `Air`.
pub proof fn law_hit_unbreakable(t: Tile)
    requires
        !t.spec_breakable(),
    ensures
        hit_result(t) == t,
        t == Tile::Metal || t == Tile::Gold || t == Tile::Air,
{
}

/// The nibble of a tile reads back as that tile.
pub proof fn law_nibble_round_trip(t: Tile)
    ensures
        nibble_of(t) < 16,
        tile_of(nibble_of(t)) == t,
{
}

} // verus!
