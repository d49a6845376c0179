//! Powerups: the kinds, and what becomes of one in a frame.

use vstd::prelude::*;
use crate::random::random_between;

verus! {

/// The kinds of powerup.
#[derive(Clone, Copy, PartialEq, Eq, Structural, Debug)]
pub enum PowerupKind {
    PaddleCarry,
    PaddleGun,
    PaddleGrow,
    Zap,
    BallsFive,
    BallsTrail,
    BallsSafe,
}

/// What became of a powerup in a frame.
#[derive(Clone, Copy, PartialEq, Eq, Structural, Debug)]
pub enum PowerupHitState {
    Nothing,
    Paddle,
    Floor,
}

/// The kind that a draw selects.
pub open spec fn kind_of_draw(draw: usize) -> PowerupKind {
    if draw == 0 {
        PowerupKind::PaddleGun
    } else if draw == 1 {
        PowerupKind::PaddleGrow
    } else if draw == 2 {
        PowerupKind::BallsFive
    } else if draw == 3 {
        PowerupKind::BallsTrail
    } else if draw == 4 {
        PowerupKind::BallsSafe
    } else {
        PowerupKind::PaddleCarry
    }
}

/// How many kinds a draw chooses among: the carry powerup is the sixth.
pub open spec fn kinds_drawn(spawn_carry: bool) -> usize {
    if spawn_carry {
        6
    } else {
        5
    }
}

/// Whether a powerup of this kind, still falling, keeps a game alive.
pub open spec fn stops_game_over(kind: PowerupKind) -> bool {
    kind == PowerupKind::PaddleGun || kind == PowerupKind::BallsFive
}

/// What became of a powerup: caught where it overlaps the paddle, else lost
/// where it fell below the floor.
pub open spec fn powerup_state(on_paddle: bool, below_floor: bool) -> PowerupHitState {
    if on_paddle {
        PowerupHitState::Paddle
    } else if below_floor {
        PowerupHitState::Floor
    } else {
        PowerupHitState::Nothing
    }
}

/// A powerup, by the tile that dropped it and its kind.
#[derive(Clone, Copy, PartialEq, Eq, Structural, Debug)]
pub struct Powerup {
    tile_index: usize,
    kind: PowerupKind,
}

impl Powerup {
    /// The tile that dropped the powerup.
    pub closed spec fn spec_tile_index(&self) -> usize {
        self.tile_index
    }

    /// The kind.
    pub closed spec fn spec_kind(&self) -> PowerupKind {
        self.kind
    }

    /// The powerup that a draw gives at a tile.
    pub fn from_draw(tile_index: usize, draw: usize) -> (r: Powerup)
        ensures
            r.spec_tile_index() == tile_index,
            r.spec_kind() == kind_of_draw(draw),
    {
        let kind = match draw {
            0 => PowerupKind::PaddleGun,
            1 => PowerupKind::PaddleGrow,
            2 => PowerupKind::BallsFive,
            3 => PowerupKind::BallsTrail,
            4 => PowerupKind::BallsSafe,
            _ => PowerupKind::PaddleCarry,
        };
        Powerup { tile_index, kind }
    }

    /// A powerup of a random kind at a tile; a carry powerup only where
    /// `spawn_carry` is set.
    pub fn new(tile_index: usize, spawn_carry: bool) -> (r: Powerup)
        ensures
            r.spec_tile_index() == tile_index,
            exists|draw: usize| draw < kinds_drawn(spawn_carry) && r.spec_kind() == kind_of_draw(draw),
    {
        let draw = random_between(0, if spawn_carry { 6 } else { 5 });
        Powerup::from_draw(tile_index, draw)
    }

    /// The tile that dropped the powerup.
    #[verifier::when_used_as_spec(spec_tile_index)]
    pub fn tile_index(&self) -> (r: usize)
        ensures
            r == self.spec_tile_index(),
    {
        self.tile_index
    }

    /// The kind.
    #[verifier::when_used_as_spec(spec_kind)]
    pub fn kind(&self) -> (r: PowerupKind)
        ensures
            r == self.spec_kind(),
    {
        self.kind
    }

    /// Whether this powerup, still falling, keeps a game alive.
    pub fn can_stop_game_over(&self) -> (r: bool)
        ensures
            r == stops_game_over(self.spec_kind()),
    {
        matches!(self.kind, PowerupKind::PaddleGun | PowerupKind::BallsFive)
    }

    /// What became of a powerup in a frame, from where it now is.
    pub fn hit_state(on_paddle: bool, below_floor: bool) -> (r: PowerupHitState)
        ensures
            r == powerup_state(on_paddle, below_floor),
    {
        if on_paddle {
            PowerupHitState::Paddle
        } else if below_floor {
            PowerupHitState::Floor
        } else {
            PowerupHitState::Nothing
        }
    }
}

} // verus!
