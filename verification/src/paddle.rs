//! The paddle's discrete state: spare balls, the ball it carries and the
//! three powerup timers. Times are whole milliseconds.

use vstd::prelude::*;

verus! {

/// Width of the paddle without the grow powerup, in pixels.
pub const WIDTH_DEFAULT: u64 = 20;

/// Width of the paddle under the grow powerup, in pixels.
pub const WIDTH_LONG: u64 = 40;

/// How long the gun powerup lasts.
pub const GUN_TIME: u64 = 7_000;

/// How long the grow powerup lasts.
pub const GROW_TIME: u64 = 15_000;

/// How long the safety net lasts.
pub const SAFE_TIME: u64 = 7_000;

/// Least time between two shots of the gun.
pub const SHOT_INTERVAL: u64 = 300;

/// Most spare balls that carry powerups fill up to.
pub const MAX_CARRIES: usize = 3;

/// What a paddle is.
pub ghost struct PaddleView {
    pub carries: usize,
    pub carrying: bool,
    pub long: Option<u64>,
    pub gun: Option<u64>,
    pub balls_safe: Option<u64>,
    pub shot_cooldown: u64,
}

/// What one paddle update did.
#[derive(Clone, Copy, PartialEq, Eq, Structural, Debug)]
pub struct PaddleStep {
    /// The gun fired: two bullets leave the paddle.
    pub fired: bool,
    /// The carried ball was let go into play.
    pub released: bool,
}

/// The paddle: spare balls (`carries`), whether a ball rides on it, the time
/// left of each powerup, and the time until the gun may fire again.
pub struct Paddle {
    carries: usize,
    carrying: bool,
    long: Option<u64>,
    gun: Option<u64>,
    balls_safe: Option<u64>,
    shot_cooldown: u64,
}

/// A powerup timer after `delta` more milliseconds: it runs down and is
/// gone once nothing is left of it.
pub open spec fn timer_after(t: Option<u64>, delta: u64) -> Option<u64> {
    match t {
        Some(v) => if v <= delta {
            None
        } else {
            Some((v - delta) as u64)
        },
        None => None,
    }
}

/// The gun's cooldown after `delta` more milliseconds, before any shot.
pub open spec fn cooled(p: PaddleView, delta: u64) -> u64 {
    if p.shot_cooldown <= delta {
        0
    } else {
        (p.shot_cooldown - delta) as u64
    }
}

/// Whether the gun fires in an update: the fire key is held, the gun
/// powerup is still there after the timers ran, and the cooldown is over.
pub open spec fn fires(p: PaddleView, delta: u64, fire: bool) -> bool {
    fire && timer_after(p.gun, delta).is_some() && cooled(p, delta) == 0
}

/// The paddle after one update.
pub open spec fn paddle_after(p: PaddleView, delta: u64, fire: bool, release: bool) -> PaddleView {
    PaddleView {
        carries: p.carries,
        carrying: p.carrying && !release,
        long: timer_after(p.long, delta),
        gun: timer_after(p.gun, delta),
        balls_safe: timer_after(p.balls_safe, delta),
        shot_cooldown: if fires(p, delta, fire) {
            SHOT_INTERVAL
        } else {
            cooled(p, delta)
        },
    }
}

/// Whether the safety net is drawn: steadily while more than a second and a
/// half is left, blinking after that.
pub open spec fn safe_shown(t: Option<u64>) -> bool {
    match t {
        Some(v) => v % 250 <= 125 || v > 1500,
        None => false,
    }
}

/// The paddle at the start of a level: it carries a ball, has the given
/// spare balls (none by default) and no powerup, and the gun is ready.
pub open spec fn fresh_paddle(carries: Option<usize>) -> PaddleView {
    PaddleView {
        carries: match carries {
            Some(c) => c,
            None => 0,
        },
        carrying: true,
        long: None,
        gun: None,
        balls_safe: None,
        shot_cooldown: 0,
    }
}

/// Whether the gun is drawn on the paddle: steadily while more than two
/// seconds are left, blinking after that.
pub open spec fn gun_shown(t: Option<u64>) -> bool {
    match t {
        Some(v) => v > 2000 || v % 200 >= 100,
        None => false,
    }
}

fn run_timer(t: Option<u64>, delta: u64) -> (r: Option<u64>)
    ensures
        r == timer_after(t, delta),
{
    match t {
        Some(v) => if v <= delta {
            None
        } else {
            Some(v - delta)
        },
        None => None,
    }
}

impl View for Paddle {
    type V = PaddleView;

    closed spec fn view(&self) -> PaddleView {
        PaddleView {
            carries: self.carries,
            carrying: self.carrying,
            long: self.long,
            gun: self.gun,
            balls_safe: self.balls_safe,
            shot_cooldown: self.shot_cooldown,
        }
    }
}

impl Paddle {
    /// A paddle that carries a ball, with the given spare balls (none by
    /// default), no powerup and the gun ready.
    pub fn new(carries: Option<usize>) -> (r: Paddle)
        ensures
            r@ == fresh_paddle(carries),
    {
        Paddle {
            carries: match carries {
                Some(c) => c,
                None => 0,
            },
            carrying: true,
            long: None,
            gun: None,
            balls_safe: None,
            shot_cooldown: 0,
        }
    }

    /// Spare balls.
    pub fn carries(&self) -> (r: usize)
        ensures
            r == self@.carries,
    {
        self.carries
    }

    /// Whether a ball rides on the paddle.
    pub fn carrying(&self) -> (r: bool)
        ensures
            r == self@.carrying,
    {
        self.carrying
    }

    /// Whether the paddle may catch a ball: a spare is left, nothing rides on
    /// it, and the carry key is held.
    pub fn can_carry(&self, key_down: bool) -> (r: bool)
        ensures
            r == (self@.carries != 0 && !self@.carrying && key_down),
    {
        self.carries != 0 && !self.carrying && key_down
    }

    /// Catches a ball: it rides on the paddle, at the cost of one spare.
    pub fn carry(&mut self)
        ensures
            final(self)@ == (PaddleView {
                carries: if old(self)@.carries == 0 {
                    0
                } else {
                    (old(self)@.carries - 1) as usize
                },
                carrying: true,
                ..old(self)@
            }),
    {
        self.carries = self.carries.saturating_sub(1);
        self.carrying = true;
    }

    /// Puts a fresh ball on the paddle, at no cost.
    pub fn carry_new(&mut self)
        ensures
            final(self)@ == (PaddleView { carrying: true, ..old(self)@ }),
    {
        self.carrying = true;
    }

    /// Starts the gun powerup anew.
    pub fn powerup_gun(&mut self)
        ensures
            final(self)@ == (PaddleView { gun: Some(GUN_TIME), ..old(self)@ }),
    {
        self.gun = Some(GUN_TIME);
    }

    /// Starts the grow powerup anew.
    pub fn powerup_grow(&mut self)
        ensures
            final(self)@ == (PaddleView { long: Some(GROW_TIME), ..old(self)@ }),
    {
        self.long = Some(GROW_TIME);
    }

    /// Starts the safety net anew.
    pub fn powerup_balls_safe(&mut self)
        ensures
            final(self)@ == (PaddleView { balls_safe: Some(SAFE_TIME), ..old(self)@ }),
    {
        self.balls_safe = Some(SAFE_TIME);
    }

    /// Adds a spare ball, unless `MAX_CARRIES` or more are there.
    pub fn powerup_carry(&mut self)
        ensures
            final(self)@ == (PaddleView {
                carries: if old(self)@.carries < MAX_CARRIES {
                    (old(self)@.carries + 1) as usize
                } else {
                    old(self)@.carries
                },
                ..old(self)@
            }),
    {
        if self.carries < MAX_CARRIES {
            self.carries += 1
        }
    }

    /// Whether the gun powerup is running.
    pub fn has_gun_powerup(&self) -> (r: bool)
        ensures
            r == self@.gun.is_some(),
    {
        self.gun.is_some()
    }

    /// Whether the safety net is up.
    pub fn balls_safe(&self) -> (r: bool)
        ensures
            r == self@.balls_safe.is_some(),
    {
        self.balls_safe.is_some()
    }

    /// Whether the safety net is drawn in this frame.
    pub fn balls_safe_display(&self) -> (r: bool)
        ensures
            r == safe_shown(self@.balls_safe),
    {
        match self.balls_safe {
            Some(v) => v % 250 <= 125 || v > 1500,
            None => false,
        }
    }

    /// Whether the gun is drawn on the paddle in this frame.
    pub fn gun_display(&self) -> (r: bool)
        ensures
            r == gun_shown(self@.gun),
    {
        match self.gun {
            Some(v) => v > 2000 || v % 200 >= 100,
            None => false,
        }
    }

    /// The width that the paddle grows or shrinks towards.
    pub fn width(&self) -> (r: u64)
        ensures
            r == if self@.long.is_some() {
                WIDTH_LONG
            } else {
                WIDTH_DEFAULT
            },
    {
        if self.long.is_some() {
            WIDTH_LONG
        } else {
            WIDTH_DEFAULT
        }
    }

    /// One update, `delta` milliseconds after the last: runs the powerup
    /// timers down, fires the gun if `fire` is held and it may fire, and lets
    /// the carried ball go if `release` is set.
    pub fn update(&mut self, delta: u64, fire: bool, release: bool) -> (step: PaddleStep)
        ensures
            final(self)@ == paddle_after(old(self)@, delta, fire, release),
            step.fired == fires(old(self)@, delta, fire),
            step.released == (release && old(self)@.carrying),
    {
        self.gun = run_timer(self.gun, delta);
        self.long = run_timer(self.long, delta);
        self.balls_safe = run_timer(self.balls_safe, delta);
        self.shot_cooldown = if self.shot_cooldown <= delta {
            0
        } else {
            self.shot_cooldown - delta
        };
        let fired = fire && self.gun.is_some() && self.shot_cooldown == 0;
        if fired {
            self.shot_cooldown = SHOT_INTERVAL;
        }
        let released = release && self.carrying;
        if release {
            self.carrying = false;
        }
        PaddleStep { fired, released }
    }
}

} // verus!
