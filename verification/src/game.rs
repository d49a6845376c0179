//! A game: a pack played level by level. It holds the world of the level in
//! play and the countdowns between levels, after a stuck ball and after the
//! last life. Times are whole milliseconds.

use vstd::prelude::*;
use crate::editor::SceneChange;
use crate::format::PackView;
use crate::gui::Pointer;
use crate::level::grid_complete;
use crate::level_pack::level_views;
use crate::level_pack::LevelPack;
use crate::menus::clicked;
use crate::menus::pause_menu_after;
use crate::menus::PauseMenu;
use crate::menus::PauseMenuView;
use crate::menus::BUTTON_EXIT;
use crate::paddle::PaddleView;
use crate::world::fresh_world;
use crate::world::time_plus;
use crate::world::Lives;
use crate::world::World;
use crate::world::WorldUpdateReturn;
use crate::world::WorldView;
use crate::world::CADENCE_HIGH;

verus! {

/// How long the pause between two levels and the notice of a stuck ball last.
pub const NOTICE_TIME: u64 = 3_000;

/// How long the notice of a lost game lasts.
pub const GAME_OVER_TIME: u64 = 6_000;

/// What a countdown waits for.
#[derive(Clone, Copy, PartialEq, Eq, Structural, Debug)]
pub enum TimerKind {
    NextLevel,
    BallStuck,
    GameOver,
}

/// A countdown: the time left and what it waits for.
#[derive(Clone, Copy, PartialEq, Eq, Structural, Debug)]
pub struct Timer {
    pub left: u64,
    pub kind: TimerKind,
}

/// What the menu step of a frame found.
#[derive(Clone, Copy, PartialEq, Eq, Structural, Debug)]
pub enum GameGate {
    /// The exit button was clicked: back to the main menu.
    Exit,
    /// The game is paused: the world stands still.
    Paused,
    /// The game runs: the world takes its frame.
    Running,
}

/// What a game is.
pub ghost struct GameView {
    pub pack: PackView,
    pub current_level: usize,
    pub world: WorldView,
    pub pause_menu: PauseMenuView,
    pub timer: Option<Timer>,
    pub pack_complete: bool,
    pub pack_time: u64,
}

/// A game.
pub struct Game {
    level_pack: LevelPack,
    current_level: usize,
    world: World,
    pause_menu: PauseMenu,
    timer: Option<Timer>,
    pack_complete: bool,
    pack_time: u64,
}

impl View for Game {
    type V = GameView;

    closed spec fn view(&self) -> GameView {
        GameView {
            pack: self.level_pack@,
            current_level: self.current_level,
            world: self.world@,
            pause_menu: self.pause_menu@,
            timer: self.timer,
            pack_complete: self.pack_complete,
            pack_time: self.pack_time,
        }
    }
}

/// Whether a countdown waits for this.
pub open spec fn waits_for(timer: Option<Timer>, kind: TimerKind) -> bool {
    match timer {
        Some(t) => t.kind == kind,
        None => false,
    }
}

/// Whether a countdown for this has run out.
pub open spec fn ran_out(timer: Option<Timer>, kind: TimerKind) -> bool {
    timer == Some(Timer { left: 0, kind })
}

/// A countdown after `delta` more milliseconds; it stops at zero.
pub open spec fn timer_ticked(timer: Option<Timer>, delta: u64) -> Option<Timer> {
    match timer {
        Some(t) => Some(
            Timer {
                left: if t.left <= delta {
                    0
                } else {
                    (t.left - delta) as u64
                },
                ..t
            },
        ),
        None => None,
    }
}

/// The game after the stuck-ball part of a frame: a stuck ball starts a
/// countdown unless one runs, and when that countdown has run out a fresh
/// ball is put on the paddle.
pub open spec fn after_stuck(g: GameView, delta: u64, r: WorldUpdateReturn) -> GameView {
    let ticked = timer_ticked(g.timer, delta);
    let timer = if r == WorldUpdateReturn::BallStuck && ticked.is_none() {
        Some(Timer { left: NOTICE_TIME, kind: TimerKind::BallStuck })
    } else {
        ticked
    };
    if ran_out(timer, TimerKind::BallStuck) {
        GameView {
            timer: None,
            world: WorldView { paddle: PaddleView { carrying: true, ..g.world.paddle }, ..g.world },
            ..g
        }
    } else {
        GameView { timer, ..g }
    }
}

/// The game after the level part of a frame: a finished level starts the
/// countdown to the next.
pub open spec fn after_level_check(g: GameView) -> GameView {
    if grid_complete(g.world.level.tiles) && !waits_for(g.timer, TimerKind::NextLevel) {
        GameView { timer: Some(Timer { left: NOTICE_TIME, kind: TimerKind::NextLevel }), ..g }
    } else {
        g
    }
}

/// Whether the frame moves on from the level in play.
pub open spec fn moves_on(g: GameView, delta: u64, r: WorldUpdateReturn) -> bool {
    ran_out(after_level_check(after_stuck(g, delta, r)).timer, TimerKind::NextLevel)
}

/// The level that follows the one in play, or the number of levels where
/// none does.
pub open spec fn level_after(g: GameView) -> usize {
    if g.current_level < g.pack.levels.len() {
        (g.current_level + 1) as usize
    } else {
        g.current_level
    }
}

/// The lives of a world, as the next one takes them over.
pub open spec fn lives_left(w: WorldView) -> Lives {
    match w.lives {
        Some(l) => Lives::Count(l),
        None => Lives::Infinite,
    }
}

/// The game after the countdown to the next level ran out: the next level
/// is in play, with the score, the lives and the spare balls of the last and
/// the drop counter at `cadence`; after the last level the pack is complete.
pub open spec fn after_moving_on(g: GameView, cadence: usize) -> GameView {
    let next = level_after(g);
    if next < g.pack.levels.len() {
        GameView {
            current_level: next,
            world: fresh_world(
                g.pack.levels[next as int],
                Some(g.world.score),
                lives_left(g.world),
                Some(g.world.paddle.carries),
                cadence,
            ),
            timer: None,
            ..g
        }
    } else {
        GameView { current_level: next, pack_complete: true, ..g }
    }
}

/// Whether the frame ends the pack: it moves on and no level follows.
pub open spec fn ends_pack(g: GameView, delta: u64, r: WorldUpdateReturn) -> bool {
    moves_on(g, delta, r) && level_after(g) >= g.pack.levels.len()
}

/// The game after the game-over part of a frame: a lost game starts its
/// countdown unless that or the one to the next level runs.
pub open spec fn after_game_over(g: GameView, r: WorldUpdateReturn) -> GameView {
    if r == WorldUpdateReturn::GameOver && !waits_for(g.timer, TimerKind::GameOver) && !waits_for(
        g.timer,
        TimerKind::NextLevel,
    ) {
        GameView { timer: Some(Timer { left: GAME_OVER_TIME, kind: TimerKind::GameOver }), ..g }
    } else {
        g
    }
}

/// The game after the clock part of a frame: the time played runs except
/// between levels and after the pack.
pub open spec fn after_clock(g: GameView, delta: u64) -> GameView {
    if waits_for(g.timer, TimerKind::NextLevel) || g.pack_complete {
        g
    } else {
        GameView { pack_time: time_plus(g.pack_time, delta), ..g }
    }
}

/// The game before its last two parts.
pub open spec fn game_midway(g: GameView, delta: u64, r: WorldUpdateReturn, cadence: usize) -> GameView {
    let checked = after_level_check(after_stuck(g, delta, r));
    if ran_out(checked.timer, TimerKind::NextLevel) {
        after_moving_on(checked, cadence)
    } else {
        checked
    }
}

/// Whether the frame leaves for the main menu: the pack is complete and the
/// space key went down, or the countdown of a lost game has run out.
pub open spec fn game_leaves(g: GameView, delta: u64, r: WorldUpdateReturn, space: bool, cadence: usize) -> bool {
    (g.pack_complete && space) || (!ends_pack(g, delta, r) && ran_out(
        after_game_over(game_midway(g, delta, r, cadence), r).timer,
        TimerKind::GameOver,
    ))
}

/// The game after the world took its frame and handed back `r`, where
/// `cadence` is the drop counter of a world that is started.
pub open spec fn game_after(g: GameView, delta: u64, r: WorldUpdateReturn, space: bool, cadence: usize) -> GameView {
    if g.pack_complete && space {
        g
    } else if ends_pack(g, delta, r) {
        game_midway(g, delta, r, cadence)
    } else {
        let over = after_game_over(game_midway(g, delta, r, cadence), r);
        if ran_out(over.timer, TimerKind::GameOver) {
            over
        } else {
            after_clock(over, delta)
        }
    }
}

/// The game after the menu step of a frame: the pause menu is updated, and
/// the pause key turns the pause on or off.
pub open spec fn game_after_menu(g: GameView, over: Seq<bool>, p: Pointer, pause_key: bool) -> GameView {
    let menu = pause_menu_after(g.pause_menu, over, p);
    GameView {
        pause_menu: PauseMenuView {
            paused: if pause_key {
                !menu.paused
            } else {
                menu.paused
            },
            ..menu
        },
        ..g
    }
}

/// What the menu step of a frame finds.
pub open spec fn gate_of(g: GameView) -> GameGate {
    if clicked(g.pause_menu.gui, BUTTON_EXIT) {
        GameGate::Exit
    } else if g.pause_menu.paused {
        GameGate::Paused
    } else {
        GameGate::Running
    }
}

/// A time played, as the minutes, seconds and milliseconds that are shown
/// for it: the minutes stop at 99.
pub open spec fn clock_of(time: u64) -> (u64, u64, u64) {
    (
        if time / 60_000 > 99 {
            99u64
        } else {
            (time / 60_000) as u64
        },
        (time / 1_000 % 60) as u64,
        (time % 1_000) as u64,
    )
}

impl Game {
    /// The time played, as the minutes, seconds and milliseconds that are
    /// shown for it.
    pub fn clock(&self) -> (r: (u64, u64, u64))
        ensures
            r == clock_of(self@.pack_time),
            r.0 <= 99 && r.1 <= 59 && r.2 <= 999,
    {
        let minutes = self.pack_time / 60_000;
        (
            if minutes > 99 {
                99
            } else {
                minutes
            },
            self.pack_time / 1_000 % 60,
            self.pack_time % 1_000,
        )
    }

    /// Whether the cursor is on a level or just behind the last.
    pub open spec fn wf(&self) -> bool {
        self@.current_level <= self@.pack.levels.len()
    }

    /// A game on the first level of a pack, with the default lives.
    pub fn new(level_pack: LevelPack) -> (r: Game)
        ensures
            r.wf(),
            exists|cadence: usize|
                cadence < CADENCE_HIGH && r@.world == #[trigger] fresh_world(
                    level_pack@.levels[0],
                    None,
                    Lives::Default,
                    None,
                    cadence,
                ),
            r@.pack == level_pack@,
            r@.current_level == 0,
            r@.timer.is_none(),
            !r@.pack_complete,
            r@.pack_time == 0,
            !r@.pause_menu.paused,
    {
        let levels = level_pack.levels();
        assert(level_views(levels@)[0] == levels@[0]@);
        let world = World::new(levels[0].clone(), None, Lives::Default, None);
        Game {
            level_pack,
            current_level: 0,
            world,
            pause_menu: PauseMenu::new(),
            timer: None,
            pack_complete: false,
            pack_time: 0,
        }
    }

    /// The world of the level in play.
    pub fn world(&self) -> (r: &World)
        ensures
            r@ == self@.world,
    {
        &self.world
    }

    /// The world of the level in play, to take its frame. The rest of the
    /// game stays as it is.
    pub fn world_mut(&mut self) -> (r: &mut World)
        ensures
            r@ == old(self)@.world,
            final(self)@ == (GameView { world: final(r)@, ..old(self)@ }),
    {
        &mut self.world
    }

    /// The pack.
    pub fn level_pack(&self) -> (r: &LevelPack)
        ensures
            r@ == self@.pack,
    {
        &self.level_pack
    }

    /// The pause menu.
    pub fn pause_menu(&self) -> (r: &PauseMenu)
        ensures
            r@ == self@.pause_menu,
    {
        &self.pause_menu
    }

    /// The countdown that runs, if one does.
    pub fn timer(&self) -> (r: Option<Timer>)
        ensures
            r == self@.timer,
    {
        self.timer
    }

    /// Whether the last level of the pack is finished.
    pub fn pack_complete(&self) -> (r: bool)
        ensures
            r == self@.pack_complete,
    {
        self.pack_complete
    }

    /// The time played.
    pub fn pack_time(&self) -> (r: u64)
        ensures
            r == self@.pack_time,
    {
        self.pack_time
    }

    /// The place of the level in play.
    pub fn current_level(&self) -> (r: usize)
        ensures
            r == self@.current_level,
    {
        self.current_level
    }

    /// The menu step of a frame: updates the pause menu, turns the pause on
    /// or off if the pause key went down, and says how the frame goes on.
    pub fn update_menu(&mut self, over: &Vec<bool>, pointer: Pointer, pause_key: bool) -> (gate: GameGate)
        ensures
            final(self)@ == game_after_menu(old(self)@, over@, pointer, pause_key),
            gate == gate_of(final(self)@),
            final(self).wf() == old(self).wf(),
    {
        self.pause_menu.update(over, pointer);
        if pause_key {
            let paused = self.pause_menu.paused();
            self.pause_menu.set_paused(!paused);
        }
        if self.pause_menu.button_exit() {
            GameGate::Exit
        } else if self.pause_menu.paused() {
            GameGate::Paused
        } else {
            GameGate::Running
        }
    }

    /// The step of a frame that follows the world's: runs the countdowns,
    /// `delta` milliseconds after the last frame, given what the world
    /// handed back and whether the space key went down. Hands back the main
    /// menu where the game leaves for it.
    pub fn update(&mut self, delta: u64, world_return: WorldUpdateReturn, space: bool) -> (change: Option<
        SceneChange,
    >)
        requires
            old(self).wf(),
        ensures
            final(self).wf(),
            exists|cadence: usize|
                cadence < CADENCE_HIGH && final(self)@ == #[trigger] game_after(
                    old(self)@,
                    delta,
                    world_return,
                    space,
                    cadence,
                ) && change == if game_leaves(old(self)@, delta, world_return, space, cadence) {
                    Some(SceneChange::MainMenu)
                } else {
                    None
                },
    {
        let ghost cadence: usize = 0;
        if self.pack_complete && space {
            assert(self@ == game_after(old(self)@, delta, world_return, space, cadence));
            return Some(SceneChange::MainMenu);
        }
        self.timer = match self.timer {
            Some(t) => Some(
                Timer {
                    left: if t.left <= delta {
                        0
                    } else {
                        t.left - delta
                    },
                    kind: t.kind,
                },
            ),
            None => None,
        };
        if world_return == WorldUpdateReturn::BallStuck && self.timer.is_none() {
            self.timer = Some(Timer { left: NOTICE_TIME, kind: TimerKind::BallStuck });
        }
        if self.timer == Some(Timer { left: 0, kind: TimerKind::BallStuck }) {
            self.timer = None;
            self.world.give_free_ball();
        }
        assert(self@ == after_stuck(old(self)@, delta, world_return));
        let next_waits = match self.timer {
            Some(t) => t.kind == TimerKind::NextLevel,
            None => false,
        };
        if self.world.level_complete() && !next_waits {
            self.timer = Some(Timer { left: NOTICE_TIME, kind: TimerKind::NextLevel });
        }
        let ghost checked = self@;
        assert(checked == after_level_check(after_stuck(old(self)@, delta, world_return)));
        if self.timer == Some(Timer { left: 0, kind: TimerKind::NextLevel }) {
            let count = self.level_pack.levels().len();
            assert(count == self@.pack.levels.len());
            if self.current_level < count {
                self.current_level += 1;
            }
            if self.current_level < count {
                let levels = self.level_pack.levels();
                assert(level_views(levels@)[self.current_level as int] == levels@[self.current_level as int]@);
                let next = levels[self.current_level].clone();
                let world = World::new(
                    next,
                    Some(self.world.score()),
                    self.world.lives(),
                    Some(self.world.carries()),
                );
                proof {
                    cadence = choose|n: usize|
                        n < CADENCE_HIGH && world@ == fresh_world(
                            checked.pack.levels[level_after(checked) as int],
                            Some(checked.world.score),
                            lives_left(checked.world),
                            Some(checked.world.paddle.carries),
                            n,
                        );
                }
                self.world = world;
                self.timer = None;
                assert(self@ == after_moving_on(checked, cadence));
            } else {
                self.pack_complete = true;
                assert(self@ == after_moving_on(checked, cadence));
                assert(self@ == game_after(old(self)@, delta, world_return, space, cadence));
                return None;
            }
        }
        assert(self@ == game_midway(old(self)@, delta, world_return, cadence));
        let over_waits = match self.timer {
            Some(t) => t.kind == TimerKind::GameOver || t.kind == TimerKind::NextLevel,
            None => false,
        };
        if world_return == WorldUpdateReturn::GameOver && !over_waits {
            self.timer = Some(Timer { left: GAME_OVER_TIME, kind: TimerKind::GameOver });
        }
        if self.timer == Some(Timer { left: 0, kind: TimerKind::GameOver }) {
            assert(self@ == game_after(old(self)@, delta, world_return, space, cadence));
            return Some(SceneChange::MainMenu);
        }
        let between = match self.timer {
            Some(t) => t.kind == TimerKind::NextLevel,
            None => false,
        };
        if !(between || self.pack_complete) {
            self.pack_time = if u64::MAX - self.pack_time < delta {
                u64::MAX
            } else {
                self.pack_time + delta
            };
        }
        assert(self@ == game_after(old(self)@, delta, world_return, space, cadence));
        None
    }
}

} // verus!
