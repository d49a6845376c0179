//! The undo/redo history of a level's grid.
//!
//! An edit gesture is recorded in two steps: `save_previous_state` notes the
//! grid as it is before the gesture, `push_current_state` commits that note
//! as one undo entry. The history holds at most `HISTORY_LIMIT` grids.

use std::collections::VecDeque;
use vstd::prelude::*;
use crate::level::Level;
use crate::level::TileArray;
use crate::level::grids_equal;
use crate::tile::Tile;

verus! {

/// Most grids that the undo and the redo stack hold together.
pub const HISTORY_LIMIT: usize = 50;

/// What a history is: the grid noted before the gesture in progress, the
/// undo entries, most recent first, and the redo entries, most recent last.
pub ghost struct TimewarpView {
    pub previous: Seq<Tile>,
    pub undo: Seq<Seq<Tile>>,
    pub redo: Seq<Seq<Tile>>,
}

/// The undo/redo history of one level.
pub struct Timewarp {
    previous_state: TileArray,
    undo_states: VecDeque<TileArray>,
    redo_states: Vec<TileArray>,
}

/// The grids of a stack.
pub open spec fn grids_of(stack: Seq<TileArray>) -> Seq<Seq<Tile>> {
    Seq::new(stack.len(), |i: int| stack[i]@)
}

/// Whether a history is within its limit.
pub open spec fn history_fits(t: TimewarpView) -> bool {
    t.undo.len() + t.redo.len() <= HISTORY_LIMIT
}

/// The undo entries that stay when one more is committed: all of them, or,
/// at the limit, all but the oldest.
pub open spec fn room_made(undo: Seq<Seq<Tile>>) -> Seq<Seq<Tile>> {
    if undo.len() >= HISTORY_LIMIT {
        undo.take(HISTORY_LIMIT - 1)
    } else {
        undo
    }
}

/// The history after `save_previous_state` on a level with this grid.
pub open spec fn saved(t: TimewarpView, grid: Seq<Tile>) -> TimewarpView {
    TimewarpView { previous: grid, ..t }
}

/// The history after `push_current_state`: the noted grid is the most recent
/// undo entry, and nothing is left to redo.
pub open spec fn pushed(t: TimewarpView) -> TimewarpView {
    TimewarpView { undo: seq![t.previous] + room_made(t.undo), redo: Seq::empty(), ..t }
}

/// The history after `undo` on a level with this grid.
pub open spec fn undone(t: TimewarpView, grid: Seq<Tile>) -> TimewarpView {
    if t.undo.len() == 0 {
        t
    } else {
        TimewarpView { undo: t.undo.drop_first(), redo: t.redo.push(grid), ..t }
    }
}

/// The grid of a level after `undo`, of a level with this grid before.
pub open spec fn undone_grid(t: TimewarpView, grid: Seq<Tile>) -> Seq<Tile> {
    if t.undo.len() == 0 {
        grid
    } else {
        t.undo[0]
    }
}

/// The history after `redo` on a level with this grid.
pub open spec fn redone(t: TimewarpView, grid: Seq<Tile>) -> TimewarpView {
    if t.redo.len() == 0 {
        t
    } else {
        TimewarpView { undo: seq![grid] + t.undo, redo: t.redo.drop_last(), ..t }
    }
}

/// The grid of a level after `redo`, of a level with this grid before.
pub open spec fn redone_grid(t: TimewarpView, grid: Seq<Tile>) -> Seq<Tile> {
    if t.redo.len() == 0 {
        grid
    } else {
        t.redo.last()
    }
}

/// The history after `count` calls of `save_previous_state` on a level with
/// this grid.
pub open spec fn saved_times(t: TimewarpView, grid: Seq<Tile>, count: nat) -> TimewarpView
    decreases count,
{
    if count == 0 {
        t
    } else {
        saved(saved_times(t, grid, (count - 1) as nat), grid)
    }
}

impl View for Timewarp {
    type V = TimewarpView;

    closed spec fn view(&self) -> TimewarpView {
        TimewarpView {
            previous: self.previous_state@,
            undo: grids_of(self.undo_states@),
            redo: grids_of(self.redo_states@),
        }
    }
}

impl Timewarp {
    /// Whether the history is within its limit.
    pub open spec fn wf(&self) -> bool {
        history_fits(self@)
    }

    /// An empty history for a level: its grid is the one noted.
    pub fn new(level: &Level) -> (r: Timewarp)
        ensures
            r.wf(),
            r@ == (TimewarpView { previous: level@.tiles, undo: Seq::empty(), redo: Seq::empty() }),
    {
        let r = Timewarp {
            previous_state: *level.tiles(),
            undo_states: VecDeque::with_capacity(HISTORY_LIMIT),
            redo_states: Vec::with_capacity(HISTORY_LIMIT),
        };
        assert(r@.undo =~= Seq::empty());
        assert(r@.redo =~= Seq::empty());
        r
    }

    /// The grid that was noted before the gesture in progress.
    pub fn previous_state(&self) -> (r: &TileArray)
        ensures
            r@ == self@.previous,
    {
        &self.previous_state
    }

    /// Whether there is anything to undo.
    pub fn can_undo(&self) -> (r: bool)
        ensures
            r == (self@.undo.len() > 0),
    {
        self.undo_states.len() != 0
    }

    /// Whether there is anything to redo.
    pub fn can_redo(&self) -> (r: bool)
        ensures
            r == (self@.redo.len() > 0),
    {
        self.redo_states.len() != 0
    }

    /// Takes the level back by one undo entry; the grid it had can then be
    /// redone. With nothing to undo, nothing changes.
    pub fn undo(&mut self, level: &mut Level)
        requires
            old(self).wf(),
        ensures
            final(self).wf(),
            final(self)@ == undone(old(self)@, old(level)@.tiles),
            final(level)@.tiles == undone_grid(old(self)@, old(level)@.tiles),
            final(level)@.name == old(level)@.name,
    {
        match self.undo_states.pop_front() {
            Some(undo_state) => {
                self.redo_states.push(*level.tiles());
                *level.tiles_mut() = undo_state;
                assert(self@.undo =~= old(self)@.undo.drop_first());
                assert(self@.redo =~= old(self)@.redo.push(old(level)@.tiles));
            },
            None => {},
        }
    }

    /// Takes the level forward by one redo entry; the grid it had can then
    /// be undone. With nothing to redo, nothing changes.
    pub fn redo(&mut self, level: &mut Level)
        requires
            old(self).wf(),
        ensures
            final(self).wf(),
            final(self)@ == redone(old(self)@, old(level)@.tiles),
            final(level)@.tiles == redone_grid(old(self)@, old(level)@.tiles),
            final(level)@.name == old(level)@.name,
    {
        match self.redo_states.pop() {
            Some(redo_state) => {
                self.undo_states.push_front(*level.tiles());
                *level.tiles_mut() = redo_state;
                assert(self@.undo =~= seq![old(level)@.tiles] + old(self)@.undo);
                assert(self@.redo =~= old(self)@.redo.drop_last());
            },
            None => {},
        }
    }

    /// Notes the level's grid as the one before the gesture in progress. A
    /// grid that is noted already is not noted again.
    pub fn save_previous_state(&mut self, level: &Level)
        ensures
            final(self)@ == saved(old(self)@, level@.tiles),
            final(self).wf() == old(self).wf(),
    {
        if grids_equal(&self.previous_state, level.tiles()) {
            return;
        }
        self.previous_state = *level.tiles();
    }

    /// Commits the noted grid as the most recent undo entry and drops what
    /// could be redone. At the limit the oldest undo entry goes.
    pub fn push_current_state(&mut self)
        ensures
            final(self).wf(),
            final(self)@ == pushed(old(self)@),
    {
        if self.undo_states.len() >= HISTORY_LIMIT {
            self.undo_states.truncate(HISTORY_LIMIT - 1);
        }
        self.undo_states.push_front(self.previous_state);
        self.redo_states.clear();
        assert(self@.undo =~= seq![old(self)@.previous] + room_made(old(self)@.undo));
        assert(self@.redo =~= Seq::empty());
    }
}

/// Two gestures, each committed, then two undos: from a grid `a`, a gesture
/// to `b` and one to `c`, the first undo gives back `b` and the second `a`.
pub proof fn law_two_undos_restore(t: TimewarpView, a: Seq<Tile>, b: Seq<Tile>, c: Seq<Tile>)
    ensures
        ({
            let first = pushed(saved(t, a));
            let second = pushed(saved(first, b));
            &&& undone_grid(second, c) == b
            &&& undone_grid(undone(second, c), b) == a
            &&& undone(second, c).redo == seq![c]
        }),
{
    let first = pushed(saved(t, a));
    let second = pushed(saved(first, b));
    assert(second.undo[0] == b);
    assert(room_made(first.undo)[0] == a);
    assert(second.undo.drop_first() =~= room_made(first.undo));
    assert(undone(second, c).redo =~= seq![c]);
}

/// After an undo, a committed edit leaves nothing to redo.
pub proof fn law_commit_clears_redo(t: TimewarpView, grid: Seq<Tile>, edited: Seq<Tile>)
    ensures
        pushed(saved(undone(t, grid), edited)).redo.len() == 0,
{
}

/// However often a grid is noted, one commit makes one undo entry: the
/// history is the one that a single note and a commit give.
pub proof fn law_repeated_saves_push_once(t: TimewarpView, grid: Seq<Tile>, count: nat)
    requires
        count >= 1,
    ensures
        pushed(saved_times(t, grid, count)) == pushed(saved(t, grid)),
        pushed(saved_times(t, grid, count)).undo.len() <= t.undo.len() + 1,
        pushed(saved_times(t, grid, count)).undo[0] == grid,
{
    lemma_saved_times(t, grid, count);
}

/// Noting a grid once or more leaves the history as noting it once does.
pub proof fn lemma_saved_times(t: TimewarpView, grid: Seq<Tile>, count: nat)
    requires
        count >= 1,
    ensures
        saved_times(t, grid, count) == saved(t, grid),
    decreases count,
{
    if count > 1 {
        lemma_saved_times(t, grid, (count - 1) as nat);
    } else {
        assert(saved_times(t, grid, 0) == t);
    }
}

/// An undo and then a redo give the level its grid back, and the history its
/// undo entries.
pub proof fn law_redo_reverts_undo(t: TimewarpView, grid: Seq<Tile>)
    requires
        t.undo.len() > 0,
    ensures
        redone_grid(undone(t, grid), undone_grid(t, grid)) == grid,
        redone(undone(t, grid), undone_grid(t, grid)).undo == t.undo,
        redone(undone(t, grid), undone_grid(t, grid)).redo == t.redo,
{
    let after = redone(undone(t, grid), undone_grid(t, grid));
    assert(after.undo =~= t.undo);
    assert(after.redo =~= t.redo);
}

/// Every step keeps a history within its limit.
pub proof fn law_history_stays_bounded(t: TimewarpView, grid: Seq<Tile>)
    requires
        history_fits(t),
    ensures
        history_fits(saved(t, grid)),
        history_fits(pushed(t)),
        history_fits(undone(t, grid)),
        history_fits(redone(t, grid)),
{
}

} // verus!
