//! Balls: what a ball met in a frame, and which tiles lie around it.

use vstd::prelude::*;
use crate::level::LEVEL_WIDTH;
use crate::level::LEVEL_HEIGHT;
use crate::random::random_between;

verus! {

/// What a ball met in a frame.
#[derive(Clone, PartialEq, Eq, Debug)]
pub enum BallHitState {
    Nothing,
    Paddle,
    Floor,
    Tiles(Vec<usize>),
}

/// Whether a column and a row name a cell of the grid.
pub open spec fn in_grid(col: int, row: int) -> bool {
    0 <= col < LEVEL_WIDTH && 0 <= row < LEVEL_HEIGHT
}

/// `cells` with the index of the cell at column `col`, row `row` added, if
/// that cell is in the grid.
pub open spec fn with_cell(cells: Seq<usize>, col: int, row: int) -> Seq<usize> {
    if in_grid(col, row) {
        cells.push((row * LEVEL_WIDTH + col) as usize)
    } else {
        cells
    }
}

/// The cells of one column around a row, from the row above to the row below.
pub open spec fn with_column(cells: Seq<usize>, col: int, row: int) -> Seq<usize> {
    with_cell(with_cell(with_cell(cells, col, row - 1), col, row), col, row + 1)
}

/// The indices of the up to nine cells around a cell, that cell included:
/// column by column from the left, each from the top.
pub open spec fn cells_around(col: int, row: int) -> Seq<usize> {
    with_column(with_column(with_column(Seq::empty(), col - 1, row), col, row), col + 1, row)
}

/// The flattest angle, in thousandths of a degree, at which a ball leaves
/// the paddle to one side.
pub const ANGLE_MIN: i64 = 30_000;

/// The flattest angle at which a ball leaves the paddle to the other side.
pub const ANGLE_MAX: i64 = 150_000;

/// The angle of a ball that leaves the paddle straight up.
pub const ANGLE_UP: i64 = 90_000;

/// The distance of the paddle's edge from its centre, in the thousandths in
/// which a distance from the centre is given.
pub const EDGE: i64 = 1_000;

/// Thousandths of a degree by which a ball is turned for each thousandth
/// of the way from the paddle's centre to its edge: thirty degrees at the
/// edge.
pub const TURN: i64 = 30;

/// The slowest that a ball leaves the paddle, in thousandths of the speed
/// that a ball starts with.
pub const SPEED_MIN: u64 = 1_000;

/// The fastest that a ball leaves the paddle.
pub const SPEED_MAX: u64 = 1_300;

/// Bound, not reached, of the factor, in thousandths, by which a bounce
/// off the paddle speeds a ball up.
pub const JITTER_HIGH: usize = 1_050;

/// `v`, kept between `low` and `high`.
pub open spec fn kept_within(v: int, low: int, high: int) -> int {
    if v < low {
        low
    } else if v > high {
        high
    } else {
        v
    }
}

/// The side to which a ball moves: one to the right or straight down, minus
/// one to the left.
pub open spec fn side_of(moving_left: bool) -> int {
    if moving_left {
        -1
    } else {
        1
    }
}

/// The angle at which a ball leaves the paddle, in thousandths of a degree,
/// of a ball that came in at `angle` and struck the paddle `center_dist`
/// thousandths of the way from its centre to its edge. The ball is turned
/// in proportion to that distance, and the angle is kept between
/// `ANGLE_MIN` and `ANGLE_MAX`.
pub open spec fn deflected(angle: int, center_dist: int, moving_left: bool) -> int {
    kept_within(angle - TURN * kept_within(center_dist, -EDGE, EDGE as int) * side_of(moving_left), ANGLE_MIN as int, ANGLE_MAX as int)
}

/// The speed at which a ball leaves the paddle, in thousandths, of a ball
/// that came in at `speed`, sped up by `jitter` thousandths and kept between
/// `SPEED_MIN` and `SPEED_MAX`.
pub open spec fn sped_up(speed: int, jitter: int) -> int {
    kept_within(speed * jitter / 1000, SPEED_MIN as int, SPEED_MAX as int)
}

/// The angle at which a ball leaves the paddle.
pub fn bounce_angle(angle: i32, center_dist: i32, moving_left: bool) -> (r: i32)
    ensures
        r == deflected(angle as int, center_dist as int, moving_left),
{
    let dist: i64 = if center_dist < -1_000 {
        -1_000
    } else if center_dist > 1_000 {
        1_000
    } else {
        center_dist as i64
    };
    let turn: i64 = if moving_left {
        -(TURN * dist)
    } else {
        TURN * dist
    };
    assert(turn == TURN * dist * side_of(moving_left)) by (nonlinear_arith)
        requires
            turn == if moving_left {
                -(TURN * dist)
            } else {
                TURN * dist
            },
    ;
    let turned: i64 = angle as i64 - turn;
    if turned < ANGLE_MIN {
        ANGLE_MIN as i32
    } else if turned > ANGLE_MAX {
        ANGLE_MAX as i32
    } else {
        turned as i32
    }
}

/// The speed at which a ball leaves the paddle, sped up by `jitter`
/// thousandths.
pub fn bounce_speed_with(speed: u32, jitter: u32) -> (r: u32)
    ensures
        r == sped_up(speed as int, jitter as int),
{
    assert(speed as u64 * jitter as u64 <= 0xFFFF_FFFF * 0xFFFF_FFFF) by (nonlinear_arith)
        requires
            speed as u64 <= 0xFFFF_FFFF,
            jitter as u64 <= 0xFFFF_FFFF,
    ;
    let product: u64 = speed as u64 * jitter as u64;
    let scaled: u64 = product / 1000;
    if scaled < SPEED_MIN {
        SPEED_MIN as u32
    } else if scaled > SPEED_MAX {
        SPEED_MAX as u32
    } else {
        scaled as u32
    }
}

/// The speed at which a ball leaves the paddle, sped up at random by up to
/// a twentieth.
pub fn bounce_speed(speed: u32) -> (r: u32)
    ensures
        exists|jitter: int| 1000 <= jitter < JITTER_HIGH && r == sped_up(speed as int, jitter),
        SPEED_MIN <= r <= SPEED_MAX,
{
    let jitter = random_between(1_000, JITTER_HIGH);
    bounce_speed_with(speed, jitter as u32)
}

/// A ball that comes straight down on the centre of the paddle leaves it
/// straight up.
pub proof fn law_centre_hit_goes_straight_up(moving_left: bool)
    ensures
        deflected(ANGLE_UP as int, 0, moving_left) == ANGLE_UP,
{
}

/// A hit on the edge of the paddle turns the ball by thirty degrees, the
/// most that a hit turns it, and no hit turns it further.
pub proof fn law_edge_hit_turns_most(angle: int, center_dist: int, moving_left: bool)
    ensures
        deflected(angle, EDGE as int, moving_left) == kept_within(
            angle - 30_000 * side_of(moving_left),
            ANGLE_MIN as int,
            ANGLE_MAX as int,
        ),
        deflected(angle, -EDGE, moving_left) == kept_within(
            angle + 30_000 * side_of(moving_left),
            ANGLE_MIN as int,
            ANGLE_MAX as int,
        ),
        ANGLE_MIN <= angle <= ANGLE_MAX ==> -30_000 <= deflected(angle, center_dist, moving_left) - angle
            <= 30_000,
{
    let side = side_of(moving_left);
    let dist = kept_within(center_dist, -EDGE, EDGE as int);
    assert(-30_000 <= TURN * dist * side <= 30_000) by (nonlinear_arith)
        requires
            -1000 <= dist <= 1000,
            side == 1 || side == -1,
            TURN == 30,
    ;
    assert(TURN * 1000 * side == 30_000 * side) by (nonlinear_arith)
        requires
            TURN == 30,
    ;
    assert(TURN * (-1000) * side == -30_000 * side) by (nonlinear_arith)
        requires
            TURN == 30,
    ;
    assert(kept_within(EDGE as int, -EDGE, EDGE as int) == 1000);
    assert(kept_within(-EDGE, -EDGE, EDGE as int) == -1000);
}

/// Wherever and however often a ball strikes the paddle, it leaves between
/// `ANGLE_MIN` and `ANGLE_MAX`.
pub proof fn law_bounce_stays_in_range(
    angle: int,
    first_dist: int,
    first_left: bool,
    second_dist: int,
    second_left: bool,
)
    ensures
        ANGLE_MIN <= deflected(angle, first_dist, first_left) <= ANGLE_MAX,
        ANGLE_MIN <= deflected(deflected(angle, first_dist, first_left), second_dist, second_left) <= ANGLE_MAX,
{
}

/// What a ball met: tiles come before the floor, the floor before the paddle.
pub open spec fn ball_state(hit_tiles: Vec<usize>, below_floor: bool, hit_paddle: bool) -> BallHitState {
    if hit_tiles@.len() > 0 {
        BallHitState::Tiles(hit_tiles)
    } else if below_floor {
        BallHitState::Floor
    } else if hit_paddle {
        BallHitState::Paddle
    } else {
        BallHitState::Nothing
    }
}

fn push_cell(cells: &mut Vec<usize>, col: i64, row: i64)
    requires
        -0x1_0000_0000 <= col <= 0x1_0000_0000,
        -0x1_0000_0000 <= row <= 0x1_0000_0000,
    ensures
        final(cells)@ == with_cell(old(cells)@, col as int, row as int),
{
    if 0 <= col && col < 16 && 0 <= row && row < 22 {
        let index: i64 = row * 16 + col;
        cells.push(index as usize);
    }
}

fn push_column(cells: &mut Vec<usize>, col: i64, row: i64)
    requires
        -0x1_0000_0000 <= col <= 0x1_0000_0000,
        -0xffff_ffff <= row <= 0xffff_ffff,
    ensures
        final(cells)@ == with_column(old(cells)@, col as int, row as int),
{
    push_cell(cells, col, row - 1);
    push_cell(cells, col, row);
    push_cell(cells, col, row + 1);
}

/// The tiles that a ball in the cell at column `col`, row `row` is tested
/// against: the cells of the grid among the nine around it. The cell may lie
/// outside the grid.
pub fn neighbourhood(col: i32, row: i32) -> (cells: Vec<usize>)
    ensures
        cells@ == cells_around(col as int, row as int),
{
    let mut cells: Vec<usize> = Vec::with_capacity(9);
    let c: i64 = col as i64;
    let r: i64 = row as i64;
    push_column(&mut cells, c - 1, r);
    push_column(&mut cells, c, r);
    push_column(&mut cells, c + 1, r);
    cells
}

impl BallHitState {
    /// The tiles that the ball hit; none unless it hit tiles.
    pub open spec fn tiles(&self) -> Seq<usize> {
        match self {
            BallHitState::Tiles(t) => t@,
            _ => Seq::empty(),
        }
    }

    /// What a ball met in a frame, from the tiles it overlapped, whether it
    /// is below the floor, and whether it struck the paddle. Tiles come
    /// first, then the floor, then the paddle.
    pub fn of(hit_tiles: Vec<usize>, below_floor: bool, hit_paddle: bool) -> (r: BallHitState)
        ensures
            r == ball_state(hit_tiles, below_floor, hit_paddle),
    {
        if hit_tiles.len() > 0 {
            BallHitState::Tiles(hit_tiles)
        } else if below_floor {
            BallHitState::Floor
        } else if hit_paddle {
            BallHitState::Paddle
        } else {
            BallHitState::Nothing
        }
    }
}

} // verus!
