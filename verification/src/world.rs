//! The world: one level in play. It keeps the score, the lives, the cadence
//! of powerup drops, the stuck-ball timer and the batches of balls that wait
//! to be dispensed, and decides what each frame does to them.
//!
//! A frame runs in three steps. `begin_frame` runs the timers, the paddle and
//! the dispensers. `resolve_hits` takes what each ball and each bullet met,
//! hits each tile that was marked once, and drops powerups. `finish_frame` takes
//! what became of each powerup, applies the pickups and settles the loss of
//! the last ball. `update` runs the three in a row. Times are whole
//! milliseconds; positions and velocities are the caller's.
//!
//! Of the two ways to decide where a powerup drops, the world uses the
//! counter: it runs down with each tile broken away, drops a powerup at
//! zero, and is then set anew at random.

use vstd::prelude::*;
use crate::ball::BallHitState;
use crate::bullet::BulletHitState;
use crate::level::grid_after_hit;
use crate::level::grid_complete;
use crate::level::hit_breaks;
use crate::level::Level;
use crate::level::LevelView;
use crate::level::LEVEL_TILES;
use crate::paddle::fires;
use crate::paddle::paddle_after;
use crate::paddle::Paddle;
use crate::paddle::PaddleView;
use crate::paddle::GROW_TIME;
use crate::paddle::GUN_TIME;
use crate::paddle::MAX_CARRIES;
use crate::paddle::SAFE_TIME;
use crate::powerup::stops_game_over;
use crate::powerup::Powerup;
use crate::powerup::PowerupHitState;
use crate::powerup::PowerupKind;
use crate::random::random_between;

verus! {

/// Score for a tile broken away.
pub const BREAK_SCORE: usize = 10;

/// Score for a powerup caught.
pub const PICKUP_SCORE: usize = 15;

/// Time without a ball on the paddle after which the ball counts as stuck.
pub const STUCK_LIMIT: u64 = 30_000;

/// Time between two balls of one batch.
pub const DISPENSE_INTERVAL: u64 = 250;

/// Balls in the batch of a five-balls powerup.
pub const DISPENSE_AMOUNT: usize = 5;

/// Lives of a game that names none.
pub const DEFAULT_LIVES: usize = 2;

/// Least value that the drop counter is set anew to.
pub const CADENCE_LOW: usize = 2;

/// Bound, not reached, of the value that the drop counter is set anew to.
pub const CADENCE_HIGH: usize = 5;

/// The lives to start a world with.
#[derive(Clone, Copy, PartialEq, Eq, Structural, Debug)]
pub enum Lives {
    Default,
    Count(usize),
    Infinite,
}

/// How a frame ended.
#[derive(Clone, Copy, PartialEq, Eq, Structural, Debug)]
pub enum WorldUpdateReturn {
    BallStuck,
    GameOver,
    Nothing,
}

/// A powerup as a frame saw it: its kind and what became of it.
#[derive(Clone, Copy, PartialEq, Eq, Structural, Debug)]
pub struct PowerupEvent {
    pub kind: PowerupKind,
    pub state: PowerupHitState,
}

/// What the first step of a frame did.
pub struct FrameStart {
    /// The gun fired: two bullets leave the paddle.
    pub fired: bool,
    /// The carried ball went into play.
    pub released: bool,
    /// The batches, by their place before the step, that each let one ball
    /// into play.
    pub dispensed: Vec<usize>,
}

/// What the second step of a frame did.
pub struct HitsOutcome {
    /// The balls, by their place in the frame's list, that fell through the
    /// floor and leave play.
    pub remove_balls: Vec<usize>,
    /// The ball that the paddle caught and now carries.
    pub carried: Option<usize>,
    /// The bullets, by their place, that are spent.
    pub remove_bullets: Vec<usize>,
    /// The powerups that broken tiles dropped.
    pub spawned: Vec<Powerup>,
}

/// What the third step of a frame did.
pub struct FrameEnd {
    /// How the frame ended.
    pub result: WorldUpdateReturn,
    /// The powerups, by their place, that were caught or lost.
    pub remove_powerups: Vec<usize>,
    /// How many batches of `DISPENSE_AMOUNT` balls were added.
    pub new_batches: usize,
    /// Whether each ball in play leaves a trail of new balls.
    pub trail: bool,
    /// Whether a fresh ball was put on the paddle.
    pub carry_new: bool,
}

/// What a whole frame met.
pub struct Frame {
    /// The fire key is held.
    pub fire: bool,
    /// The carry key was let go.
    pub release: bool,
    /// The carry key is held.
    pub carry_key: bool,
    /// What each ball in play met.
    pub ball_hits: Vec<BallHitState>,
    /// What each bullet met.
    pub bullet_hits: Vec<BulletHitState>,
    /// What became of each powerup.
    pub powerups: Vec<PowerupEvent>,
}

/// What a whole frame did.
pub struct FrameOutcome {
    pub start: FrameStart,
    pub hits: HitsOutcome,
    pub end: FrameEnd,
}

/// What a world is.
pub ghost struct WorldView {
    pub level: LevelView,
    pub paddle: PaddleView,
    pub lives: Option<usize>,
    pub score: usize,
    pub dispensers: Seq<(u64, usize)>,
    pub stuck: u64,
    pub next_powerup: usize,
}

/// A world: the level, the paddle, the lives (`None` for no end of them), the
/// score, the batches of balls that wait (each with the time since its last
/// ball and the balls left), the stuck-ball timer and the drop counter.
pub struct World {
    level: Level,
    paddle: Paddle,
    lives: Option<usize>,
    score: usize,
    balls_to_dispense: Vec<(u64, usize)>,
    ball_stuck_timer: u64,
    next_powerup: usize,
}

impl View for World {
    type V = WorldView;

    closed spec fn view(&self) -> WorldView {
        WorldView {
            level: self.level@,
            paddle: self.paddle@,
            lives: self.lives,
            score: self.score,
            dispensers: self.balls_to_dispense@,
            stuck: self.ball_stuck_timer,
            next_powerup: self.next_powerup,
        }
    }
}

/// A score with a bonus added; it stops at the largest number.
pub open spec fn score_plus(score: usize, bonus: usize) -> usize {
    if score + bonus > usize::MAX {
        usize::MAX
    } else {
        (score + bonus) as usize
    }
}

/// A time with `delta` added; it stops at the largest number.
pub open spec fn time_plus(t: u64, delta: u64) -> u64 {
    if t + delta > u64::MAX {
        u64::MAX
    } else {
        (t + delta) as u64
    }
}

/// The lives that a world starts with.
pub open spec fn starting_lives(lives: Lives) -> Option<usize> {
    match lives {
        Lives::Default => Some(DEFAULT_LIVES),
        Lives::Count(l) => Some(l),
        Lives::Infinite => None,
    }
}

// ---------------------------------------------------------------- step one

/// Whether a batch lets a ball go after `delta` more milliseconds.
pub open spec fn batch_releases(b: (u64, usize), delta: u64) -> bool {
    time_plus(b.0, delta) >= DISPENSE_INTERVAL && b.1 > 0
}

/// A batch after `delta` more milliseconds.
pub open spec fn batch_after(b: (u64, usize), delta: u64) -> (u64, usize) {
    if time_plus(b.0, delta) >= DISPENSE_INTERVAL {
        (
            0u64,
            if b.1 > 0 {
                (b.1 - 1) as usize
            } else {
                0usize
            },
        )
    } else {
        (time_plus(b.0, delta), b.1)
    }
}

/// The batches after `delta` more milliseconds: each has run on, and those
/// with no ball left are gone.
pub open spec fn dispensers_after(d: Seq<(u64, usize)>, delta: u64) -> Seq<(u64, usize)>
    decreases d.len(),
{
    if d.len() == 0 {
        Seq::empty()
    } else {
        let rest = dispensers_after(d.drop_last(), delta);
        let b = batch_after(d.last(), delta);
        if b.1 == 0 {
            rest
        } else {
            rest.push(b)
        }
    }
}

/// The places of the batches that let a ball go after `delta` more
/// milliseconds, in rising order.
pub open spec fn released_from(d: Seq<(u64, usize)>, delta: u64) -> Seq<usize>
    decreases d.len(),
{
    if d.len() == 0 {
        Seq::empty()
    } else {
        let rest = released_from(d.drop_last(), delta);
        if batch_releases(d.last(), delta) {
            rest.push((d.len() - 1) as usize)
        } else {
            rest
        }
    }
}

/// The world after the first step of a frame: the stuck-ball timer runs
/// while no ball is carried and starts over while one is; the paddle and the
/// batches run on.
pub open spec fn after_frame_start(w: WorldView, delta: u64, fire: bool, release: bool) -> WorldView {
    WorldView {
        stuck: if w.paddle.carrying {
            0
        } else {
            time_plus(w.stuck, delta)
        },
        paddle: paddle_after(w.paddle, delta, fire, release),
        dispensers: dispensers_after(w.dispensers, delta),
        ..w
    }
}

// ---------------------------------------------------------------- step two

/// Whether a hit at `index` drops a powerup: it breaks a tile away while the
/// drop counter is at zero.
pub open spec fn break_spawns(w: WorldView, index: usize) -> bool {
    hit_breaks(w.level.tiles, index as int) && w.next_powerup == 0
}

/// The world after a hit at `index`, where `reroll` is the value that the
/// drop counter is set anew to if the hit drops a powerup. A hit that breaks
/// no tile away changes at most the tile (stone cracks). One that does adds
/// `BREAK_SCORE`; at counter zero it sets the counter anew, else it runs the
/// counter down and starts the stuck-ball timer over.
pub open spec fn after_break(w: WorldView, index: usize, reroll: usize) -> WorldView {
    let level = LevelView { tiles: grid_after_hit(w.level.tiles, index as int), ..w.level };
    if !hit_breaks(w.level.tiles, index as int) {
        WorldView { level, ..w }
    } else if w.next_powerup == 0 {
        WorldView { level, score: score_plus(w.score, BREAK_SCORE), next_powerup: reroll, ..w }
    } else {
        WorldView {
            level,
            score: score_plus(w.score, BREAK_SCORE),
            next_powerup: (w.next_powerup - 1) as usize,
            stuck: 0,
            ..w
        }
    }
}

/// The world after the hits at `hits`, one after the other; `rerolls[k]` is
/// the value that the drop counter is set anew to if hit `k` drops a powerup.
pub open spec fn after_breaks(w: WorldView, hits: Seq<usize>, rerolls: Seq<usize>) -> WorldView
    decreases hits.len(),
{
    if hits.len() == 0 {
        w
    } else {
        after_break(
            after_breaks(w, hits.drop_last(), rerolls),
            hits.last(),
            rerolls[hits.len() - 1],
        )
    }
}

/// The tiles, among `hits`, that drop a powerup, in the order of the hits.
pub open spec fn spawn_sites(w: WorldView, hits: Seq<usize>, rerolls: Seq<usize>) -> Seq<usize>
    decreases hits.len(),
{
    if hits.len() == 0 {
        Seq::empty()
    } else {
        let rest = spawn_sites(w, hits.drop_last(), rerolls);
        if break_spawns(after_breaks(w, hits.drop_last(), rerolls), hits.last()) {
            rest.push(hits.last())
        } else {
            rest
        }
    }
}

/// The places of the balls that fell through the floor, in rising order.
pub open spec fn floor_balls(hits: Seq<BallHitState>) -> Seq<usize>
    decreases hits.len(),
{
    if hits.len() == 0 {
        Seq::empty()
    } else {
        let rest = floor_balls(hits.drop_last());
        if hits.last() == BallHitState::Floor {
            rest.push((hits.len() - 1) as usize)
        } else {
            rest
        }
    }
}

/// The place of the first ball that struck the paddle.
pub open spec fn first_on_paddle(hits: Seq<BallHitState>) -> Option<usize>
    decreases hits.len(),
{
    if hits.len() == 0 {
        None
    } else {
        let rest = first_on_paddle(hits.drop_last());
        if rest.is_some() {
            rest
        } else if hits.last() == BallHitState::Paddle {
            Some((hits.len() - 1) as usize)
        } else {
            None
        }
    }
}

/// The tiles that the balls hit, ball by ball.
pub open spec fn ball_tiles(hits: Seq<BallHitState>) -> Seq<usize>
    decreases hits.len(),
{
    if hits.len() == 0 {
        Seq::empty()
    } else {
        ball_tiles(hits.drop_last()) + hits.last().tiles()
    }
}

/// The tiles that the bullets hit, bullet by bullet.
pub open spec fn bullet_tiles(hits: Seq<BulletHitState>) -> Seq<usize>
    decreases hits.len(),
{
    if hits.len() == 0 {
        Seq::empty()
    } else {
        let rest = bullet_tiles(hits.drop_last());
        match hits.last() {
            BulletHitState::Tile(t) => rest.push(t),
            _ => rest,
        }
    }
}

/// The places of the bullets that are spent, in rising order.
pub open spec fn spent_bullets(hits: Seq<BulletHitState>) -> Seq<usize>
    decreases hits.len(),
{
    if hits.len() == 0 {
        Seq::empty()
    } else {
        let rest = spent_bullets(hits.drop_last());
        if hits.last() != BulletHitState::Nothing {
            rest.push((hits.len() - 1) as usize)
        } else {
            rest
        }
    }
}

/// The tiles that the bodies of a frame marked: those of the balls, then
/// those of the bullets, a tile as often as it was marked.
pub open spec fn frame_marks(ball_hits: Seq<BallHitState>, bullet_hits: Seq<BulletHitState>) -> Seq<usize> {
    ball_tiles(ball_hits) + bullet_tiles(bullet_hits)
}

/// The marks with each tile kept at its first place only.
pub open spec fn kept_once(marks: Seq<usize>) -> Seq<usize>
    decreases marks.len(),
{
    if marks.len() == 0 {
        Seq::empty()
    } else {
        let rest = kept_once(marks.drop_last());
        if rest.contains(marks.last()) {
            rest
        } else {
            rest.push(marks.last())
        }
    }
}

/// The tiles hit in a frame: each tile that a ball or a bullet marked, once,
/// in the order in which the tiles were first marked. However many bodies
/// mark a tile in one frame, it is hit once.
pub open spec fn frame_tiles(ball_hits: Seq<BallHitState>, bullet_hits: Seq<BulletHitState>) -> Seq<usize> {
    kept_once(frame_marks(ball_hits, bullet_hits))
}

/// Whether the paddle catches the first ball that struck it.
pub open spec fn catches(w: WorldView, ball_hits: Seq<BallHitState>, carry_key: bool) -> bool {
    first_on_paddle(ball_hits).is_some() && w.paddle.carries != 0 && !w.paddle.carrying && carry_key
}

/// The world after the balls met the paddle: a ball on the paddle starts the
/// stuck-ball timer over, and a catch costs a spare ball.
pub open spec fn after_paddle_hits(w: WorldView, ball_hits: Seq<BallHitState>, carry_key: bool) -> WorldView {
    if first_on_paddle(ball_hits).is_none() {
        w
    } else if catches(w, ball_hits, carry_key) {
        WorldView {
            stuck: 0,
            paddle: PaddleView { carries: (w.paddle.carries - 1) as usize, carrying: true, ..w.paddle },
            ..w
        }
    } else {
        WorldView { stuck: 0, ..w }
    }
}

/// The world after the second step of a frame.
pub open spec fn after_hits(
    w: WorldView,
    ball_hits: Seq<BallHitState>,
    bullet_hits: Seq<BulletHitState>,
    carry_key: bool,
    rerolls: Seq<usize>,
) -> WorldView {
    after_breaks(after_paddle_hits(w, ball_hits, carry_key), frame_tiles(ball_hits, bullet_hits), rerolls)
}

/// Whether the values that the drop counter was set anew to are as many as
/// the hits and each in its range.
pub open spec fn rerolls_fit(hits: Seq<usize>, rerolls: Seq<usize>) -> bool {
    rerolls.len() == hits.len() && forall|k: int|
        0 <= k < rerolls.len() ==> CADENCE_LOW <= #[trigger] rerolls[k] < CADENCE_HIGH
}

/// Whether `spawned` holds one powerup for each of `sites`, in their order,
/// each of a kind that tiles drop.
pub open spec fn spawned_at(spawned: Seq<Powerup>, sites: Seq<usize>) -> bool {
    spawned.len() == sites.len() && forall|k: int|
        0 <= k < spawned.len() ==> (#[trigger] spawned[k]).spec_tile_index() == sites[k] && dropped_kind(
            spawned[k].spec_kind(),
        )
}

/// Whether tiles drop powerups of this kind: every kind but the zap.
pub open spec fn dropped_kind(kind: PowerupKind) -> bool {
    kind != PowerupKind::Zap
}

// -------------------------------------------------------------- step three

/// The paddle after it caught a powerup of a kind.
pub open spec fn paddle_with(p: PaddleView, kind: PowerupKind) -> PaddleView {
    match kind {
        PowerupKind::PaddleCarry => PaddleView {
            carries: if p.carries < MAX_CARRIES {
                (p.carries + 1) as usize
            } else {
                p.carries
            },
            ..p
        },
        PowerupKind::PaddleGrow => PaddleView { long: Some(GROW_TIME), ..p },
        PowerupKind::PaddleGun => PaddleView { gun: Some(GUN_TIME), ..p },
        PowerupKind::BallsSafe => PaddleView { balls_safe: Some(SAFE_TIME), ..p },
        _ => p,
    }
}

/// The world after one powerup of a frame: one that the paddle caught adds
/// `PICKUP_SCORE` and takes effect; a five-balls powerup adds a batch that
/// lets its first ball go at once.
pub open spec fn after_pickup(w: WorldView, e: PowerupEvent) -> WorldView {
    if e.state != PowerupHitState::Paddle {
        w
    } else {
        WorldView {
            score: score_plus(w.score, PICKUP_SCORE),
            paddle: paddle_with(w.paddle, e.kind),
            dispensers: if e.kind == PowerupKind::BallsFive {
                w.dispensers.push((DISPENSE_INTERVAL, DISPENSE_AMOUNT))
            } else {
                w.dispensers
            },
            ..w
        }
    }
}

/// The world after the powerups of a frame, one after the other.
pub open spec fn after_pickups(w: WorldView, events: Seq<PowerupEvent>) -> WorldView
    decreases events.len(),
{
    if events.len() == 0 {
        w
    } else {
        after_pickup(after_pickups(w, events.drop_last()), events.last())
    }
}

/// The places of the powerups that were caught or lost, in rising order.
pub open spec fn gone_powerups(events: Seq<PowerupEvent>) -> Seq<usize>
    decreases events.len(),
{
    if events.len() == 0 {
        Seq::empty()
    } else {
        let rest = gone_powerups(events.drop_last());
        if events.last().state != PowerupHitState::Nothing {
            rest.push((events.len() - 1) as usize)
        } else {
            rest
        }
    }
}

/// Whether a trail powerup was caught.
pub open spec fn trail_caught(events: Seq<PowerupEvent>) -> bool {
    exists|k: int|
        0 <= k < events.len() && (#[trigger] events[k]).state == PowerupHitState::Paddle && events[k].kind
            == PowerupKind::BallsTrail
}

/// Whether one of the frame's powerups keeps a game alive.
pub open spec fn saviour_among(events: Seq<PowerupEvent>) -> bool {
    exists|k: int| 0 <= k < events.len() && stops_game_over((#[trigger] events[k]).kind)
}

/// Whether the last ball is lost: none is in play, none is carried and no
/// batch waits.
pub open spec fn out_of_balls(w: WorldView, balls: usize) -> bool {
    balls == 0 && !w.paddle.carrying && w.dispensers.len() == 0
}

/// Whether the game is over: the last ball is lost with no life left and the
/// level unfinished, and neither a gun, nor a bullet in flight, nor a powerup
/// that keeps a game alive is there.
pub open spec fn game_over(w: WorldView, balls: usize, bullets: usize, saviour: bool) -> bool {
    out_of_balls(w, balls) && w.lives == Some(0usize) && !grid_complete(w.level.tiles)
        && w.paddle.gun.is_none() && bullets == 0 && !saviour
}

/// Whether the loss of the last ball puts a fresh ball on the paddle: always
/// where lives do not end, else where a life is left and the level is
/// unfinished.
pub open spec fn grants_ball(w: WorldView, balls: usize) -> bool {
    out_of_balls(w, balls) && match w.lives {
        Some(l) => l != 0 && !grid_complete(w.level.tiles),
        None => true,
    }
}

/// The world after the loss of the last ball was settled: a fresh ball costs
/// one life where lives end.
pub open spec fn after_ball_loss(w: WorldView, balls: usize) -> WorldView {
    if grants_ball(w, balls) {
        WorldView {
            lives: match w.lives {
                Some(l) => Some((l - 1) as usize),
                None => None,
            },
            paddle: PaddleView { carrying: true, ..w.paddle },
            ..w
        }
    } else {
        w
    }
}

/// Whether the frame reports a stuck ball: the game is not over, the timer
/// has reached `STUCK_LIMIT`, and a ball is in play.
pub open spec fn reports_stuck(w: WorldView, balls: usize, over: bool) -> bool {
    !over && w.stuck >= STUCK_LIMIT && balls > 0
}

/// How a frame ends.
pub open spec fn frame_result(over: bool, stuck: bool) -> WorldUpdateReturn {
    if over {
        WorldUpdateReturn::GameOver
    } else if stuck {
        WorldUpdateReturn::BallStuck
    } else {
        WorldUpdateReturn::Nothing
    }
}

/// Whether the third step of a frame ends the game.
pub open spec fn frame_over(w: WorldView, events: Seq<PowerupEvent>, balls: usize, bullets: usize) -> bool {
    game_over(after_pickups(w, events), balls, bullets, saviour_among(events))
}

/// The world after the third step of a frame: the pickups take effect, the
/// loss of the last ball is settled, and a report of a stuck ball starts the
/// timer over.
pub open spec fn after_frame_end(w: WorldView, events: Seq<PowerupEvent>, balls: usize, bullets: usize) -> WorldView {
    let picked = after_pickups(w, events);
    let settled = after_ball_loss(picked, balls);
    if reports_stuck(settled, balls, frame_over(w, events, balls, bullets)) {
        WorldView { stuck: 0, ..settled }
    } else {
        settled
    }
}

// ------------------------------------------------------------ whole frames

/// The balls in play once the paddle has caught one, of `balls` before.
pub open spec fn balls_left(balls: usize, carried: Option<usize>) -> usize {
    if carried.is_some() && balls > 0 {
        (balls - 1) as usize
    } else {
        balls
    }
}

/// The powerups of a frame as its third step sees them: those that were
/// there, then the ones just dropped, which nothing has become of yet.
pub open spec fn frame_events(powerups: Seq<PowerupEvent>, spawned: Seq<Powerup>) -> Seq<PowerupEvent> {
    powerups + Seq::new(
        spawned.len(),
        |k: int| PowerupEvent { kind: spawned[k].spec_kind(), state: PowerupHitState::Nothing },
    )
}

/// Whether `out` and `after` are what the first step of a frame gives.
pub open spec fn frame_start_ok(
    before: WorldView,
    after: WorldView,
    delta: u64,
    fire: bool,
    release: bool,
    out: FrameStart,
) -> bool {
    &&& after == after_frame_start(before, delta, fire, release)
    &&& out.fired == fires(before.paddle, delta, fire)
    &&& out.released == (release && before.paddle.carrying)
    &&& out.dispensed@ == released_from(before.dispensers, delta)
}

/// Whether `out` and `after` are what the second step of a frame gives, for
/// some values, each in its range, that the drop counter was set anew to.
pub open spec fn hits_ok(
    before: WorldView,
    after: WorldView,
    ball_hits: Seq<BallHitState>,
    bullet_hits: Seq<BulletHitState>,
    carry_key: bool,
    out: HitsOutcome,
) -> bool {
    &&& out.remove_balls@ == floor_balls(ball_hits)
    &&& out.carried == if catches(before, ball_hits, carry_key) {
        first_on_paddle(ball_hits)
    } else {
        None
    }
    &&& out.remove_bullets@ == spent_bullets(bullet_hits)
    &&& exists|rerolls: Seq<usize>|
        {
            &&& rerolls_fit(frame_tiles(ball_hits, bullet_hits), rerolls)
            &&& after == after_hits(before, ball_hits, bullet_hits, carry_key, rerolls)
            &&& #[trigger] spawned_at(
                out.spawned@,
                spawn_sites(
                    after_paddle_hits(before, ball_hits, carry_key),
                    frame_tiles(ball_hits, bullet_hits),
                    rerolls,
                ),
            )
        }
}

/// Whether `out` and `after` are what the third step of a frame gives.
pub open spec fn frame_end_ok(
    before: WorldView,
    after: WorldView,
    events: Seq<PowerupEvent>,
    balls: usize,
    bullets: usize,
    out: FrameEnd,
) -> bool {
    let picked = after_pickups(before, events);
    let over = frame_over(before, events, balls, bullets);
    &&& after == after_frame_end(before, events, balls, bullets)
    &&& out.result == frame_result(over, reports_stuck(after_ball_loss(picked, balls), balls, over))
    &&& out.remove_powerups@ == gone_powerups(events)
    &&& out.new_batches == picked.dispensers.len() - before.dispensers.len()
    &&& out.trail == trail_caught(events)
    &&& out.carry_new == grants_ball(picked, balls)
}

/// The world at the start of a level.
pub open spec fn fresh_world(
    level: LevelView,
    score: Option<usize>,
    lives: Lives,
    carries: Option<usize>,
    next_powerup: usize,
) -> WorldView {
    WorldView {
        level,
        paddle: crate::paddle::fresh_paddle(carries),
        lives: starting_lives(lives),
        score: match score {
            Some(s) => s,
            None => 0,
        },
        dispensers: Seq::empty(),
        stuck: 0,
        next_powerup,
    }
}

/// With the last ball lost, a life left and the level unfinished, exactly
/// one life goes, a fresh ball is on the paddle, and the game is not over.
pub proof fn law_ball_loss_costs_one_life(w: WorldView, lives: usize, bullets: usize, saviour: bool)
    requires
        out_of_balls(w, 0),
        w.lives == Some(lives),
        lives > 0,
        !grid_complete(w.level.tiles),
    ensures
        after_ball_loss(w, 0).lives == Some((lives - 1) as usize),
        after_ball_loss(w, 0).paddle.carrying,
        grants_ball(w, 0),
        !game_over(w, 0, bullets, saviour),
{
}

/// With the last ball lost, no life left, the level unfinished, and neither
/// a gun, nor a bullet, nor a powerup that keeps a game alive, the game is
/// over, and no ball is granted.
pub proof fn law_no_life_left_is_game_over(w: WorldView)
    requires
        out_of_balls(w, 0),
        w.lives == Some(0usize),
        !grid_complete(w.level.tiles),
        w.paddle.gun.is_none(),
    ensures
        game_over(w, 0, 0, false),
        !grants_ball(w, 0),
        after_ball_loss(w, 0) == w,
        frame_result(game_over(w, 0, 0, false), reports_stuck(w, 0, true)) == WorldUpdateReturn::GameOver,
{
}

/// Keeping each mark once keeps every tile that was marked, and none twice.
pub proof fn law_marks_kept_once(marks: Seq<usize>)
    ensures
        forall|t: usize| kept_once(marks).contains(t) <==> marks.contains(t),
        forall|i: int, j: int|
            0 <= i < j < kept_once(marks).len() ==> kept_once(marks)[i] != kept_once(marks)[j],
        kept_once(marks).len() <= marks.len(),
    decreases marks.len(),
{
    if marks.len() > 0 {
        let front = marks.drop_last();
        let last = marks.last();
        let rest = kept_once(front);
        let all = kept_once(marks);
        law_marks_kept_once(front);
        assert forall|t: usize| all.contains(t) <==> marks.contains(t) by {
            assert(rest.contains(t) <==> front.contains(t));
            if all.contains(t) {
                let i = choose|i: int| 0 <= i < all.len() && all[i] == t;
                if i < rest.len() {
                    assert(rest[i] == t);
                    assert(rest.contains(t));
                    assert(front.contains(t));
                    let j = choose|j: int| 0 <= j < front.len() && front[j] == t;
                    assert(marks[j] == t);
                } else {
                    assert(marks[marks.len() - 1] == t);
                }
                assert(marks.contains(t));
            }
            if marks.contains(t) {
                let j = choose|j: int| 0 <= j < marks.len() && marks[j] == t;
                if j < front.len() {
                    assert(front[j] == t);
                    assert(front.contains(t));
                    assert(rest.contains(t));
                    let i = choose|i: int| 0 <= i < rest.len() && rest[i] == t;
                    assert(all[i] == t);
                } else if rest.contains(last) {
                    let i = choose|i: int| 0 <= i < rest.len() && rest[i] == last;
                    assert(all[i] == t);
                } else {
                    assert(all[all.len() - 1] == t);
                }
                assert(all.contains(t));
            }
        }
        assert forall|i: int, j: int| 0 <= i < j < all.len() implies all[i] != all[j] by {
            if j == rest.len() {
                assert(rest[i] == all[i]);
            }
        }
    }
}

/// A tile that two bodies mark in one frame is hit as if one had marked it.
pub proof fn law_double_mark_hits_once(tile: usize)
    ensures
        kept_once(seq![tile, tile]) == seq![tile],
        kept_once(seq![tile]) == seq![tile],
{
    let two = seq![tile, tile];
    let one = seq![tile];
    assert(one.drop_last() =~= Seq::<usize>::empty());
    assert(kept_once(one.drop_last()) =~= Seq::<usize>::empty());
    assert(kept_once(one) =~= one);
    assert(two.drop_last() =~= one);
    assert(kept_once(one)[0] == tile);
    assert(kept_once(two) =~= one);
}

/// The hits of a frame depend on the values that the drop counter was set
/// anew to only as far as there are hits.
pub proof fn lemma_breaks_prefix(w: WorldView, hits: Seq<usize>, r1: Seq<usize>, r2: Seq<usize>)
    requires
        r1.len() >= hits.len(),
        r2.len() >= hits.len(),
        forall|k: int| 0 <= k < hits.len() ==> r1[k] == r2[k],
    ensures
        after_breaks(w, hits, r1) == after_breaks(w, hits, r2),
        spawn_sites(w, hits, r1) == spawn_sites(w, hits, r2),
    decreases hits.len(),
{
    if hits.len() > 0 {
        lemma_breaks_prefix(w, hits.drop_last(), r1, r2);
    }
}

/// Most balls that one trail powerup adds.
pub const TRAIL_LIMIT: usize = 20;

/// Balls that each ball in play leaves behind it under a trail powerup.
pub const TRAIL_PER_BALL: usize = 4;

/// How many balls a trail powerup adds with `balls` in play.
pub open spec fn trail_size(balls: usize) -> usize {
    if balls * TRAIL_PER_BALL >= TRAIL_LIMIT {
        TRAIL_LIMIT
    } else {
        (balls * TRAIL_PER_BALL) as usize
    }
}

/// How many balls a trail powerup adds with `balls` in play:
/// `TRAIL_PER_BALL` for each, and no more than `TRAIL_LIMIT` in all.
pub fn trail_amount(balls: usize) -> (r: usize)
    ensures
        r == trail_size(balls),
{
    if balls >= TRAIL_LIMIT / TRAIL_PER_BALL {
        TRAIL_LIMIT
    } else {
        balls * TRAIL_PER_BALL
    }
}

fn holds(tiles: &Vec<usize>, tile: usize) -> (r: bool)
    ensures
        r == tiles@.contains(tile),
{
    let mut i: usize = 0;
    while i < tiles.len()
        invariant
            i <= tiles@.len(),
            forall|j: int| 0 <= j < i ==> tiles@[j] != tile,
        decreases tiles@.len() - i,
    {
        if tiles[i] == tile {
            return true;
        }
        i += 1;
    }
    false
}

/// The marks with each tile kept at its first place only.
pub fn keep_once(marks: &Vec<usize>) -> (kept: Vec<usize>)
    ensures
        kept@ == kept_once(marks@),
{
    let mut kept: Vec<usize> = Vec::new();
    let mut i: usize = 0;
    while i < marks.len()
        invariant
            i <= marks@.len(),
            kept@ == kept_once(marks@.take(i as int)),
        decreases marks@.len() - i,
    {
        proof {
            assert(marks@.take(i + 1).drop_last() =~= marks@.take(i as int));
            assert(marks@.take(i + 1).last() == marks@[i as int]);
        }
        if !holds(&kept, marks[i]) {
            kept.push(marks[i]);
        }
        i += 1;
    }
    assert(marks@.take(i as int) =~= marks@);
    kept
}

fn add_score(score: usize, bonus: usize) -> (r: usize)
    ensures
        r == score_plus(score, bonus),
{
    if usize::MAX - score < bonus {
        usize::MAX
    } else {
        score + bonus
    }
}

fn add_time(t: u64, delta: u64) -> (r: u64)
    ensures
        r == time_plus(t, delta),
{
    if u64::MAX - t < delta {
        u64::MAX
    } else {
        t + delta
    }
}

impl World {
    /// A world at the start of a level, with the drop counter at
    /// `next_powerup`. No score means zero; no spare balls means none.
    pub fn with_cadence(
        level: Level,
        score: Option<usize>,
        lives: Lives,
        carries: Option<usize>,
        next_powerup: usize,
    ) -> (r: World)
        ensures
            r@ == fresh_world(level@, score, lives, carries, next_powerup),
    {
        let lives = match lives {
            Lives::Default => Some(DEFAULT_LIVES),
            Lives::Count(l) => Some(l),
            Lives::Infinite => None,
        };
        World {
            level,
            paddle: Paddle::new(carries),
            lives,
            score: match score {
                Some(s) => s,
                None => 0,
            },
            balls_to_dispense: Vec::with_capacity(5),
            ball_stuck_timer: 0,
            next_powerup,
        }
    }

    /// A world at the start of a level, with the drop counter set at random
    /// below `CADENCE_HIGH`.
    pub fn new(level: Level, score: Option<usize>, lives: Lives, carries: Option<usize>) -> (r: World)
        ensures
            exists|n: usize| n < CADENCE_HIGH && r@ == fresh_world(level@, score, lives, carries, n),
    {
        let n = random_between(0, CADENCE_HIGH);
        World::with_cadence(level, score, lives, carries, n)
    }

    /// Whether no breakable tile is left.
    pub fn level_complete(&self) -> (r: bool)
        ensures
            r == grid_complete(self@.level.tiles),
    {
        self.level.complete()
    }

    /// The level.
    pub fn level(&self) -> (r: &Level)
        ensures
            r@ == self@.level,
    {
        &self.level
    }

    /// The paddle.
    pub fn paddle(&self) -> (r: &Paddle)
        ensures
            r@ == self@.paddle,
    {
        &self.paddle
    }

    /// The score.
    pub fn score(&self) -> (r: usize)
        ensures
            r == self@.score,
    {
        self.score
    }

    /// The lives that are left.
    pub fn lives(&self) -> (r: Lives)
        ensures
            r == match self@.lives {
                Some(l) => Lives::Count(l),
                None => Lives::Infinite,
            },
    {
        match self.lives {
            Some(l) => Lives::Count(l),
            None => Lives::Infinite,
        }
    }

    /// The paddle's spare balls.
    pub fn carries(&self) -> (r: usize)
        ensures
            r == self@.paddle.carries,
    {
        self.paddle.carries()
    }

    /// Puts a fresh ball on the paddle.
    pub fn give_free_ball(&mut self)
        ensures
            final(self)@ == (WorldView {
                paddle: PaddleView { carrying: true, ..old(self)@.paddle },
                ..old(self)@
            }),
    {
        self.paddle.carry_new();
    }

    /// Adds a batch of `amount` balls that lets its first ball go at the
    /// next frame.
    pub fn dispense_angled_balls(&mut self, amount: usize)
        ensures
            final(self)@ == (WorldView {
                dispensers: old(self)@.dispensers.push((DISPENSE_INTERVAL, amount)),
                ..old(self)@
            }),
    {
        self.balls_to_dispense.push((DISPENSE_INTERVAL, amount));
    }

    /// Hits the tile at `index`, with `reroll` as the value that the drop
    /// counter is set anew to if the hit drops a powerup, and says whether it
    /// does.
    pub fn break_tile_with(&mut self, index: usize, reroll: usize) -> (spawn: bool)
        ensures
            final(self)@ == after_break(old(self)@, index, reroll),
            spawn == break_spawns(old(self)@, index),
    {
        if !self.level.break_tile(index) {
            return false;
        }
        self.score = add_score(self.score, BREAK_SCORE);
        if self.next_powerup == 0 {
            self.next_powerup = reroll;
            return true;
        }
        self.next_powerup -= 1;
        self.ball_stuck_timer = 0;
        false
    }

    /// Hits the tile at `index` and hands back the powerup that drops, if
    /// one does. The drop counter is then set anew at random, from
    /// `CADENCE_LOW` up to, not including, `CADENCE_HIGH`.
    pub fn break_tile(&mut self, index: usize) -> (r: Option<Powerup>)
        ensures
            exists|reroll: usize|
                CADENCE_LOW <= reroll < CADENCE_HIGH && final(self)@ == #[trigger] after_break(
                    old(self)@,
                    index,
                    reroll,
                ),
            r.is_some() == break_spawns(old(self)@, index),
            match r {
                Some(p) => p.spec_tile_index() == index && dropped_kind(p.spec_kind()),
                None => true,
            },
    {
        proof {
            self.level.lemma_grid_len();
        }
        let mut spawns = false;
        if index < LEVEL_TILES && self.next_powerup == 0 {
            let t = self.level.tiles()[index];
            spawns = t.breakable() && !matches!(t, crate::tile::Tile::Stone);
        }
        if spawns {
            let reroll = random_between(CADENCE_LOW, CADENCE_HIGH);
            self.break_tile_with(index, reroll);
            Some(Powerup::new(index, true))
        } else {
            self.break_tile_with(index, CADENCE_LOW);
            None
        }
    }

    /// The first step of a frame, `delta` milliseconds after the last. The
    /// stuck-ball timer runs while no ball is carried; the paddle runs its
    /// timers, fires if `fire` is held, and lets its ball go if `release` is
    /// set; each batch that is due lets one ball go.
    pub fn begin_frame(&mut self, delta: u64, fire: bool, release: bool) -> (out: FrameStart)
        ensures
            frame_start_ok(old(self)@, final(self)@, delta, fire, release, out),
    {
        if !self.paddle.carrying() {
            self.ball_stuck_timer = add_time(self.ball_stuck_timer, delta);
        } else {
            self.ball_stuck_timer = 0;
        }
        let step = self.paddle.update(delta, fire, release);
        let ghost batches = self.balls_to_dispense@;
        let mut kept: Vec<(u64, usize)> = Vec::new();
        let mut dispensed: Vec<usize> = Vec::new();
        let mut i: usize = 0;
        while i < self.balls_to_dispense.len()
            invariant
                i <= batches.len(),
                self.balls_to_dispense@ == batches,
                kept@ == dispensers_after(batches.take(i as int), delta),
                dispensed@ == released_from(batches.take(i as int), delta),
            decreases batches.len() - i,
        {
            let (t, n) = self.balls_to_dispense[i];
            proof {
                assert(batches.take(i + 1).drop_last() =~= batches.take(i as int));
                assert(batches.take(i + 1).last() == (t, n));
            }
            let ticked = add_time(t, delta);
            if ticked >= DISPENSE_INTERVAL {
                if n > 0 {
                    dispensed.push(i);
                    if n > 1 {
                        kept.push((0, n - 1));
                    }
                }
            } else if n > 0 {
                kept.push((ticked, n));
            }
            i += 1;
        }
        assert(batches.take(i as int) =~= batches);
        self.balls_to_dispense = kept;
        FrameStart { fired: step.fired, released: step.released, dispensed }
    }

    /// The second step of a frame: takes what each ball and each bullet met.
    /// Balls on the floor leave play; the first ball on the paddle is caught
    /// if the paddle can carry it and `carry_key` is held; bullets that met
    /// anything are spent; each tile that was marked, by however many balls
    /// and bullets, is hit once, in the order in which the tiles were first
    /// marked, the balls' marks before the bullets'.
    pub fn resolve_hits(
        &mut self,
        ball_hits: &Vec<BallHitState>,
        bullet_hits: &Vec<BulletHitState>,
        carry_key: bool,
    ) -> (out: HitsOutcome)
        ensures
            hits_ok(old(self)@, final(self)@, ball_hits@, bullet_hits@, carry_key, out),
    {
        let mut hit_tiles: Vec<usize> = Vec::new();
        let mut remove_balls: Vec<usize> = Vec::new();
        let mut on_paddle: Option<usize> = None;
        let mut i: usize = 0;
        while i < ball_hits.len()
            invariant
                i <= ball_hits@.len(),
                hit_tiles@ == ball_tiles(ball_hits@.take(i as int)),
                remove_balls@ == floor_balls(ball_hits@.take(i as int)),
                on_paddle == first_on_paddle(ball_hits@.take(i as int)),
            decreases ball_hits@.len() - i,
        {
            proof {
                assert(ball_hits@.take(i + 1).drop_last() =~= ball_hits@.take(i as int));
                assert(ball_hits@.take(i + 1).last() == ball_hits@[i as int]);
            }
            match &ball_hits[i] {
                BallHitState::Floor => {
                    remove_balls.push(i);
                },
                BallHitState::Paddle => {
                    if on_paddle.is_none() {
                        on_paddle = Some(i);
                    }
                },
                BallHitState::Tiles(tiles) => {
                    let ghost before = hit_tiles@;
                    let mut j: usize = 0;
                    while j < tiles.len()
                        invariant
                            j <= tiles@.len(),
                            hit_tiles@ == before + tiles@.take(j as int),
                        decreases tiles@.len() - j,
                    {
                        hit_tiles.push(tiles[j]);
                        assert(tiles@.take(j + 1) =~= tiles@.take(j as int).push(tiles@[j as int]));
                        assert(hit_tiles@ =~= before + tiles@.take(j + 1));
                        j += 1;
                    }
                    assert(tiles@.take(j as int) =~= tiles@);
                },
                BallHitState::Nothing => {},
            }
            assert(hit_tiles@ =~= ball_tiles(ball_hits@.take(i + 1)));
            i += 1;
        }
        assert(ball_hits@.take(i as int) =~= ball_hits@);

        let mut carried: Option<usize> = None;
        if on_paddle.is_some() {
            self.ball_stuck_timer = 0;
            if self.paddle.can_carry(carry_key) {
                self.paddle.carry();
                carried = on_paddle;
            }
        }
        assert(self@ == after_paddle_hits(old(self)@, ball_hits@, carry_key));

        let ghost ball_part = hit_tiles@;
        let mut remove_bullets: Vec<usize> = Vec::new();
        let mut b: usize = 0;
        while b < bullet_hits.len()
            invariant
                b <= bullet_hits@.len(),
                hit_tiles@ == ball_part + bullet_tiles(bullet_hits@.take(b as int)),
                remove_bullets@ == spent_bullets(bullet_hits@.take(b as int)),
            decreases bullet_hits@.len() - b,
        {
            proof {
                assert(bullet_hits@.take(b + 1).drop_last() =~= bullet_hits@.take(b as int));
                assert(bullet_hits@.take(b + 1).last() == bullet_hits@[b as int]);
            }
            match bullet_hits[b] {
                BulletHitState::Tile(t) => {
                    hit_tiles.push(t);
                    remove_bullets.push(b);
                },
                BulletHitState::Roof => {
                    remove_bullets.push(b);
                },
                BulletHitState::Nothing => {},
            }
            assert(hit_tiles@ =~= ball_part + bullet_tiles(bullet_hits@.take(b + 1)));
            b += 1;
        }
        assert(bullet_hits@.take(b as int) =~= bullet_hits@);

        let ghost marks = hit_tiles@;
        assert(marks == frame_marks(ball_hits@, bullet_hits@));
        let hit_tiles = keep_once(&hit_tiles);
        let ghost start = self@;
        let ghost hits = hit_tiles@;
        let ghost mut rerolls: Seq<usize> = Seq::empty();
        let mut spawned: Vec<Powerup> = Vec::new();
        let mut k: usize = 0;
        while k < hit_tiles.len()
            invariant
                k <= hits.len(),
                hit_tiles@ == hits,
                rerolls_fit(hits.take(k as int), rerolls),
                self@ == after_breaks(start, hits.take(k as int), rerolls),
                spawned_at(spawned@, spawn_sites(start, hits.take(k as int), rerolls)),
            decreases hits.len() - k,
        {
            let ghost before = self@;
            let ghost drawn = rerolls;
            let dropped = self.break_tile(hit_tiles[k]);
            proof {
                let reroll = choose|reroll: usize|
                    CADENCE_LOW <= reroll < CADENCE_HIGH && self@ == #[trigger] after_break(
                        before,
                        hits[k as int],
                        reroll,
                    );
                rerolls = drawn.push(reroll);
                assert(hits.take(k + 1).drop_last() =~= hits.take(k as int));
                assert(hits.take(k + 1).last() == hits[k as int]);
                lemma_breaks_prefix(start, hits.take(k as int), drawn, rerolls);
            }
            match dropped {
                Some(p) => {
                    spawned.push(p);
                },
                None => {},
            }
            k += 1;
        }
        assert(hits.take(k as int) =~= hits);
        assert(hits == frame_tiles(ball_hits@, bullet_hits@));
        let out = HitsOutcome { remove_balls, carried, remove_bullets, spawned };
        proof {
            assert(rerolls_fit(frame_tiles(ball_hits@, bullet_hits@), rerolls));
            assert(self@ == after_hits(old(self)@, ball_hits@, bullet_hits@, carry_key, rerolls));
            assert(spawned_at(
                out.spawned@,
                spawn_sites(
                    after_paddle_hits(old(self)@, ball_hits@, carry_key),
                    frame_tiles(ball_hits@, bullet_hits@),
                    rerolls,
                ),
            ));
        }
        out
    }
}

impl World {
    /// The third step of a frame: takes what became of each powerup, the
    /// balls in play and the bullets in flight. Each powerup that the paddle
    /// caught scores and takes effect. If the last ball is lost, a fresh one
    /// is put on the paddle, at the cost of a life where lives end, or the
    /// game is over. A ball in play with the stuck-ball timer at
    /// `STUCK_LIMIT` is reported once, and the timer starts over.
    pub fn finish_frame(&mut self, powerups: &Vec<PowerupEvent>, balls: usize, bullets: usize) -> (out: FrameEnd)
        ensures
            frame_end_ok(old(self)@, final(self)@, powerups@, balls, bullets, out),
    {
        let ghost events = powerups@;
        let mut remove_powerups: Vec<usize> = Vec::new();
        let mut new_batches: usize = 0;
        let mut trail = false;
        let mut saviour = false;
        let mut i: usize = 0;
        while i < powerups.len()
            invariant
                i <= events.len(),
                powerups@ == events,
                self@ == after_pickups(old(self)@, events.take(i as int)),
                remove_powerups@ == gone_powerups(events.take(i as int)),
                new_batches <= i,
                new_batches == self@.dispensers.len() - old(self)@.dispensers.len(),
                trail == trail_caught(events.take(i as int)),
                saviour == saviour_among(events.take(i as int)),
            decreases events.len() - i,
        {
            let e = powerups[i];
            proof {
                let shorter = events.take(i as int);
                let longer = events.take(i + 1);
                assert(longer.drop_last() =~= shorter);
                assert(longer.last() == e);
                assert(forall|k: int| 0 <= k < i ==> longer[k] == shorter[k]);
                assert(longer[i as int] == e);
                assert(trail_caught(longer) == (trail_caught(shorter) || (e.state
                    == PowerupHitState::Paddle && e.kind == PowerupKind::BallsTrail)));
                assert(saviour_among(longer) == (saviour_among(shorter) || stops_game_over(e.kind)));
            }
            if matches!(e.kind, PowerupKind::PaddleGun | PowerupKind::BallsFive) {
                saviour = true;
            }
            match e.state {
                PowerupHitState::Paddle => {
                    self.score = add_score(self.score, PICKUP_SCORE);
                    match e.kind {
                        PowerupKind::PaddleCarry => self.paddle.powerup_carry(),
                        PowerupKind::PaddleGrow => self.paddle.powerup_grow(),
                        PowerupKind::PaddleGun => self.paddle.powerup_gun(),
                        PowerupKind::BallsSafe => self.paddle.powerup_balls_safe(),
                        PowerupKind::BallsFive => {
                            self.balls_to_dispense.push((DISPENSE_INTERVAL, DISPENSE_AMOUNT));
                            new_batches += 1;
                        },
                        PowerupKind::BallsTrail => {
                            trail = true;
                        },
                        PowerupKind::Zap => {},
                    }
                    remove_powerups.push(i);
                },
                PowerupHitState::Floor => {
                    remove_powerups.push(i);
                },
                PowerupHitState::Nothing => {},
            }
            i += 1;
        }
        assert(events.take(i as int) =~= events);

        let mut over = false;
        let mut carry_new = false;
        if balls == 0 && !self.paddle.carrying() && self.balls_to_dispense.len() == 0 {
            match self.lives {
                Some(l) => {
                    if !self.level_complete() {
                        if l == 0 {
                            over = !self.paddle.has_gun_powerup() && bullets == 0 && !saviour;
                        } else {
                            self.lives = Some(l - 1);
                            self.paddle.carry_new();
                            carry_new = true;
                        }
                    }
                },
                None => {
                    self.paddle.carry_new();
                    carry_new = true;
                },
            }
        }
        let result = if over {
            WorldUpdateReturn::GameOver
        } else if self.ball_stuck_timer >= STUCK_LIMIT && balls > 0 {
            self.ball_stuck_timer = 0;
            WorldUpdateReturn::BallStuck
        } else {
            WorldUpdateReturn::Nothing
        };
        FrameEnd { result, remove_powerups, new_batches, trail, carry_new }
    }

    /// One whole frame, `delta` milliseconds after the last: the three steps
    /// in a row. The powerups dropped in the frame count among those that
    /// may keep the game alive.
    pub fn update(&mut self, delta: u64, frame: &Frame) -> (out: FrameOutcome)
        ensures
            frame_start_ok(
                old(self)@,
                after_frame_start(old(self)@, delta, frame.fire, frame.release),
                delta,
                frame.fire,
                frame.release,
                out.start,
            ),
            exists|mid: WorldView|
                {
                    &&& #[trigger] hits_ok(
                        after_frame_start(old(self)@, delta, frame.fire, frame.release),
                        mid,
                        frame.ball_hits@,
                        frame.bullet_hits@,
                        frame.carry_key,
                        out.hits,
                    )
                    &&& frame_end_ok(
                        mid,
                        final(self)@,
                        frame_events(frame.powerups@, out.hits.spawned@),
                        balls_left(frame.ball_hits@.len() as usize, out.hits.carried),
                        frame.bullet_hits@.len() as usize,
                        out.end,
                    )
                },
    {
        let start = self.begin_frame(delta, frame.fire, frame.release);
        let hits = self.resolve_hits(&frame.ball_hits, &frame.bullet_hits, frame.carry_key);
        let ghost mid = self@;
        let mut events: Vec<PowerupEvent> = Vec::new();
        let mut i: usize = 0;
        while i < frame.powerups.len()
            invariant
                i <= frame.powerups@.len(),
                events@ == frame.powerups@.take(i as int),
            decreases frame.powerups@.len() - i,
        {
            events.push(frame.powerups[i]);
            assert(events@ =~= frame.powerups@.take(i + 1));
            i += 1;
        }
        assert(frame.powerups@.take(i as int) =~= frame.powerups@);
        let mut k: usize = 0;
        while k < hits.spawned.len()
            invariant
                k <= hits.spawned@.len(),
                events@ == frame_events(frame.powerups@, hits.spawned@.take(k as int)),
            decreases hits.spawned@.len() - k,
        {
            events.push(PowerupEvent { kind: hits.spawned[k].kind(), state: PowerupHitState::Nothing });
            assert(events@ =~= frame_events(frame.powerups@, hits.spawned@.take(k + 1)));
            k += 1;
        }
        assert(hits.spawned@.take(k as int) =~= hits.spawned@);
        let balls = if hits.carried.is_some() && frame.ball_hits.len() > 0 {
            frame.ball_hits.len() - 1
        } else {
            frame.ball_hits.len()
        };
        let end = self.finish_frame(&events, balls, frame.bullet_hits.len());
        let out = FrameOutcome { start, hits, end };
        assert(hits_ok(
            after_frame_start(old(self)@, delta, frame.fire, frame.release),
            mid,
            frame.ball_hits@,
            frame.bullet_hits@,
            frame.carry_key,
            out.hits,
        ));
        out
    }
}

} // verus!
