//! A pack of levels, as the editor holds it: each level with an undo/redo
//! history of its own, and a cursor on the level that is being edited.

use vstd::prelude::*;
use vstd::string::StringExecFns;
use crate::format::decoded_pack;
use crate::format::law_pack_round_trip;
use crate::format::lemma_levels_bytes;
use crate::format::pack_accepted;
use crate::format::pack_bytes;
use crate::format::pack_storable;
use crate::format::HEADER_BYTES;
use crate::format::LEVEL_BYTES;
use crate::level::LEVEL_TILES;
use crate::text::valid_name;
use crate::format::levels_bytes;
use crate::format::write_name;
use crate::format::write_tiles;
use crate::format::PackView;
use crate::format::MAX_LEVELS;
use crate::level::blank_grid;
use crate::level::grids_equal;
use crate::level::Level;
use crate::level::LevelView;
use crate::level_pack::LevelPack;
use crate::level_pack::level_views;
use crate::timewarp::history_fits;
use crate::timewarp::pushed;
use crate::timewarp::redone;
use crate::timewarp::redone_grid;
use crate::timewarp::saved;
use crate::timewarp::undone;
use crate::timewarp::undone_grid;
use crate::timewarp::Timewarp;
use crate::timewarp::TimewarpView;

verus! {

broadcast use crate::level::Level::lemma_grid_len;

/// What a level in the editor is: the level and its history.
pub ghost struct EditorLevelView {
    pub level: LevelView,
    pub timewarp: TimewarpView,
}

/// What a pack in the editor is.
pub ghost struct EditorPackView {
    pub levels: Seq<EditorLevelView>,
    pub current: usize,
    pub name: Seq<char>,
    pub author: Seq<char>,
}

/// A level in the editor: the level and its history.
pub struct EditorLevel {
    level: Level,
    timewarp: Timewarp,
}

/// A pack in the editor.
pub struct EditorLevelPack {
    levels: Vec<EditorLevel>,
    current: usize,
    name: String,
    author: String,
}

/// The history of a level that was not edited yet.
pub open spec fn fresh_history(level: LevelView) -> TimewarpView {
    TimewarpView { previous: level.tiles, undo: Seq::empty(), redo: Seq::empty() }
}

/// A level taken into the editor: nothing to undo or redo.
pub open spec fn taken_in(level: LevelView) -> EditorLevelView {
    EditorLevelView { level, timewarp: fresh_history(level) }
}

/// A blank level in the editor.
pub open spec fn blank_editor_level() -> EditorLevelView {
    taken_in(LevelView { tiles: blank_grid(), name: Seq::empty() })
}

/// A new pack in the editor: one blank level under the cursor, and empty
/// names.
pub open spec fn fresh_pack() -> EditorPackView {
    EditorPackView { levels: seq![blank_editor_level()], current: 0, name: Seq::empty(), author: Seq::empty() }
}

/// A pack taken into the editor: every level with a fresh history and the
/// cursor on the first; a pack without a level gets a blank one.
pub open spec fn pack_taken_in(pack: PackView) -> EditorPackView {
    EditorPackView {
        levels: if pack.levels.len() > 0 {
            Seq::new(pack.levels.len(), |i: int| taken_in(pack.levels[i]))
        } else {
            seq![blank_editor_level()]
        },
        current: 0,
        name: pack.name,
        author: pack.author,
    }
}

/// A level in the editor after an undo.
pub open spec fn level_undone(e: EditorLevelView) -> EditorLevelView {
    EditorLevelView {
        level: LevelView { tiles: undone_grid(e.timewarp, e.level.tiles), ..e.level },
        timewarp: undone(e.timewarp, e.level.tiles),
    }
}

/// A level in the editor after a redo.
pub open spec fn level_redone(e: EditorLevelView) -> EditorLevelView {
    EditorLevelView {
        level: LevelView { tiles: redone_grid(e.timewarp, e.level.tiles), ..e.level },
        timewarp: redone(e.timewarp, e.level.tiles),
    }
}

/// A level in the editor after its grid was noted.
pub open spec fn level_saved(e: EditorLevelView) -> EditorLevelView {
    EditorLevelView { timewarp: saved(e.timewarp, e.level.tiles), ..e }
}

/// Whether a gesture on a level changed nothing: the grid is the one that
/// was noted before it.
pub open spec fn unchanged(e: EditorLevelView) -> bool {
    e.level.tiles == e.timewarp.previous
}

/// A level in the editor after a gesture ended: the noted grid is committed
/// as one undo entry, unless the gesture changed nothing; then the history
/// stays as it is.
pub open spec fn level_pushed(e: EditorLevelView) -> EditorLevelView {
    if unchanged(e) {
        e
    } else {
        EditorLevelView { timewarp: pushed(e.timewarp), ..e }
    }
}

/// A level in the editor after its grid was committed as one undo entry,
/// before a change that is about to be made to it.
pub open spec fn level_committed(e: EditorLevelView) -> EditorLevelView {
    EditorLevelView { timewarp: pushed(saved(e.timewarp, e.level.tiles)), ..e }
}

/// A gesture that changes nothing leaves no history entry: after the grid
/// was noted, ending the gesture at once leaves the level and its history
/// as they were, with as much to undo and to redo as before.
pub proof fn law_idle_gesture_commits_nothing(e: EditorLevelView)
    ensures
        level_pushed(level_saved(e)) == level_saved(e),
        level_pushed(level_saved(e)).timewarp.undo == e.timewarp.undo,
        level_pushed(level_saved(e)).timewarp.redo == e.timewarp.redo,
{
}

/// A gesture that changed the grid leaves one history entry, the grid
/// before it, and nothing to redo; an undo then gives that grid back.
pub proof fn law_gesture_commits_once(e: EditorLevelView, after: Seq<crate::tile::Tile>)
    requires
        after != e.level.tiles,
    ensures
        ({
            let edited = EditorLevelView { level: LevelView { tiles: after, ..e.level }, ..level_saved(e) };
            &&& level_pushed(edited).timewarp.undo[0] == e.level.tiles
            &&& level_pushed(edited).timewarp.undo.len() <= e.timewarp.undo.len() + 1
            &&& level_pushed(edited).timewarp.redo.len() == 0
            &&& level_undone(level_pushed(edited)).level.tiles == e.level.tiles
        }),
{
}

/// The levels of a pack in the editor, without their histories.
pub open spec fn plain_levels(levels: Seq<EditorLevelView>) -> Seq<LevelView> {
    Seq::new(levels.len(), |i: int| levels[i].level)
}

/// The pack that the editor writes to a file.
pub open spec fn plain_pack(p: EditorPackView) -> PackView {
    PackView { name: p.name, author: p.author, levels: plain_levels(p.levels) }
}

/// The pack with the level under the cursor replaced.
pub open spec fn with_current(p: EditorPackView, e: EditorLevelView) -> EditorPackView {
    EditorPackView { levels: p.levels.update(p.current as int, e), ..p }
}

/// The pack after `add_level`: a blank level behind the one under the
/// cursor, and the cursor on it, unless the pack is full.
pub open spec fn level_added(p: EditorPackView) -> EditorPackView {
    if p.levels.len() < MAX_LEVELS {
        EditorPackView {
            levels: p.levels.insert(p.current + 1, blank_editor_level()),
            current: (p.current + 1) as usize,
            ..p
        }
    } else {
        p
    }
}

/// The pack after `shift_next`: the level under the cursor has changed
/// places with the next one, and the cursor has gone with it.
pub open spec fn shifted_next(p: EditorPackView) -> EditorPackView {
    if p.current + 1 < p.levels.len() {
        EditorPackView {
            levels: p.levels.update(p.current as int, p.levels[p.current + 1]).update(
                p.current + 1,
                p.levels[p.current as int],
            ),
            current: (p.current + 1) as usize,
            ..p
        }
    } else {
        p
    }
}

/// The pack after `shift_prev`: the level under the cursor has changed
/// places with the one before, and the cursor has gone with it.
pub open spec fn shifted_prev(p: EditorPackView) -> EditorPackView {
    if p.current != 0 {
        EditorPackView {
            levels: p.levels.update(p.current as int, p.levels[p.current - 1]).update(
                p.current - 1,
                p.levels[p.current as int],
            ),
            current: (p.current - 1) as usize,
            ..p
        }
    } else {
        p
    }
}

/// The pack after `delete_level`: the level under the cursor is gone and
/// the cursor stays in the pack; the last level of a pack gives way to a
/// blank one.
pub open spec fn level_deleted(p: EditorPackView) -> EditorPackView {
    if p.levels.len() == 1 {
        EditorPackView { levels: seq![blank_editor_level()], ..p }
    } else {
        EditorPackView {
            levels: p.levels.remove(p.current as int),
            current: if p.current + 1 >= p.levels.len() {
                (p.levels.len() - 2) as usize
            } else {
                p.current
            },
            ..p
        }
    }
}

/// The pack with the cursor on the next level, if there is one.
pub open spec fn moved_next(p: EditorPackView) -> EditorPackView {
    if p.current + 1 < p.levels.len() {
        EditorPackView { current: (p.current + 1) as usize, ..p }
    } else {
        p
    }
}

/// The pack with the cursor on the level before, if there is one.
pub open spec fn moved_prev(p: EditorPackView) -> EditorPackView {
    if p.current != 0 {
        EditorPackView { current: (p.current - 1) as usize, ..p }
    } else {
        p
    }
}

/// The level under the cursor.
pub open spec fn current_level(p: EditorPackView) -> EditorLevelView {
    p.levels[p.current as int]
}

/// A level in the editor with a tile put at `index`.
pub open spec fn level_painted(e: EditorLevelView, index: int, tile: crate::tile::Tile) -> EditorLevelView {
    EditorLevelView { level: LevelView { tiles: crate::level::grid_with(e.level.tiles, index, tile), ..e.level }, ..e }
}

/// A level in the editor that was cleared: its grid before is committed as
/// one undo entry, and a blank level with an empty name stands in its place.
pub open spec fn level_cleared(e: EditorLevelView) -> EditorLevelView {
    EditorLevelView {
        level: LevelView { tiles: blank_grid(), name: Seq::empty() },
        timewarp: pushed(saved(e.timewarp, e.level.tiles)),
    }
}

/// The names that the editor lets one type into.
#[derive(Clone, Copy, PartialEq, Eq, Structural, Debug)]
pub enum NameField {
    /// The name of the level under the cursor.
    Level,
    /// The name of the pack.
    Pack,
    /// The author of the pack.
    Author,
}

/// The pack after a character was typed into one of its names.
pub open spec fn pack_typed(p: EditorPackView, field: NameField, c: char) -> EditorPackView {
    match field {
        NameField::Level => with_current(
            p,
            EditorLevelView {
                level: LevelView {
                    name: crate::text::after_key(current_level(p).level.name, c),
                    ..current_level(p).level
                },
                ..current_level(p)
            },
        ),
        NameField::Pack => EditorPackView { name: crate::text::after_key(p.name, c), ..p },
        NameField::Author => EditorPackView { author: crate::text::after_key(p.author, c), ..p },
    }
}

/// Shifting the level under the cursor to the next place and back leaves the
/// pack as it was, and so does shifting it back and forth.
pub proof fn law_shifts_cancel(p: EditorPackView)
    requires
        pack_in_order(p),
    ensures
        p.current + 1 < p.levels.len() ==> shifted_prev(shifted_next(p)) == p,
        p.current != 0 ==> shifted_next(shifted_prev(p)) == p,
{
    if p.current + 1 < p.levels.len() {
        assert(shifted_prev(shifted_next(p)).levels =~= p.levels);
    }
    if p.current != 0 {
        assert(shifted_next(shifted_prev(p)).levels =~= p.levels);
    }
}

/// Adding, deleting, moving and shifting keep a pack in order: it never has
/// no level and never more than `MAX_LEVELS`, and the cursor stays on a
/// level.
pub proof fn law_sequencing_keeps_order(p: EditorPackView)
    requires
        pack_in_order(p),
    ensures
        pack_in_order(level_added(p)),
        pack_in_order(level_deleted(p)),
        pack_in_order(moved_next(p)),
        pack_in_order(moved_prev(p)),
        pack_in_order(shifted_next(p)),
        pack_in_order(shifted_prev(p)),
        level_added(p).levels.len() == if p.levels.len() < MAX_LEVELS {
            p.levels.len() + 1
        } else {
            p.levels.len()
        },
        level_deleted(p).levels.len() == if p.levels.len() == 1 {
            1
        } else {
            p.levels.len() - 1
        },
{
    assert(history_fits(blank_editor_level().timewarp));
}

/// Whether a pack in the editor is in order: it has from one to
/// `MAX_LEVELS` levels, the cursor is on one, and every history is within
/// its limit.
pub open spec fn pack_in_order(p: EditorPackView) -> bool {
    &&& 1 <= p.levels.len() <= MAX_LEVELS
    &&& p.current < p.levels.len()
    &&& forall|i: int| 0 <= i < p.levels.len() ==> history_fits((#[trigger] p.levels[i]).timewarp)
}

/// Whether every level of a pack has a whole grid of `LEVEL_TILES` tiles.
pub open spec fn grids_whole(p: EditorPackView) -> bool {
    forall|i: int| 0 <= i < p.levels.len() ==> (#[trigger] p.levels[i]).level.tiles.len() == LEVEL_TILES
}

/// Whether every name of a pack, its own, its author's and those of its
/// levels, is one that a file gives back as it is.
pub open spec fn names_valid(p: EditorPackView) -> bool {
    &&& valid_name(p.name)
    &&& valid_name(p.author)
    &&& forall|i: int| 0 <= i < p.levels.len() ==> valid_name((#[trigger] p.levels[i]).level.name)
}

/// A pack in order, with whole grids and valid names, can be written and
/// read back: its file is a pack, and read back it is the same pack, the
/// same names and the same grids.
pub proof fn law_editor_pack_round_trip(p: EditorPackView)
    requires
        pack_in_order(p),
        grids_whole(p),
        names_valid(p),
    ensures
        pack_storable(plain_pack(p)),
        pack_accepted(pack_bytes(plain_pack(p))),
        decoded_pack(pack_bytes(plain_pack(p))) == plain_pack(p),
        pack_bytes(plain_pack(p)).len() == HEADER_BYTES + p.levels.len() * LEVEL_BYTES,
{
    let plain = plain_pack(p);
    assert forall|k: int| 0 <= k < plain.levels.len() implies valid_name((#[trigger] plain.levels[k]).name)
        && plain.levels[k].tiles.len() == LEVEL_TILES by {
        assert(plain.levels[k] == p.levels[k].level);
    }
    law_pack_round_trip(plain);
}

/// With whole grids, the file of a pack has its two name fields and
/// `LEVEL_BYTES` bytes for each level, whatever the names are.
pub proof fn law_file_length(p: EditorPackView)
    requires
        grids_whole(p),
    ensures
        pack_bytes(plain_pack(p)).len() == HEADER_BYTES + p.levels.len() * LEVEL_BYTES,
{
    let plain = plain_pack(p);
    if plain.levels.len() > 0 {
        assert forall|j: int| 0 <= j < plain.levels.len() implies (#[trigger] plain.levels[j]).tiles.len()
            == LEVEL_TILES by {
            assert(plain.levels[j] == p.levels[j].level);
        }
        lemma_levels_bytes(plain.levels, 0);
    } else {
        assert(levels_bytes(plain.levels) =~= Seq::<u8>::empty());
    }
}

/// A pack that was taken into the editor is, without its histories, the
/// pack that was taken in; so it is written as the same bytes.
pub proof fn law_taken_in_pack_is_plain(pack: PackView)
    requires
        pack.levels.len() > 0,
    ensures
        plain_pack(pack_taken_in(pack)) == pack,
        pack_bytes(plain_pack(pack_taken_in(pack))) == pack_bytes(pack),
{
    assert(plain_pack(pack_taken_in(pack)).levels =~= pack.levels);
}

impl View for EditorLevel {
    type V = EditorLevelView;

    closed spec fn view(&self) -> EditorLevelView {
        EditorLevelView { level: self.level@, timewarp: self.timewarp@ }
    }
}

impl EditorLevel {
    /// Whether the history is within its limit.
    pub open spec fn wf(&self) -> bool {
        history_fits(self@.timewarp)
    }

    /// A blank level with nothing to undo or redo.
    pub fn new() -> (r: EditorLevel)
        ensures
            r.wf(),
            r@ == blank_editor_level(),
    {
        let level = Level::new();
        EditorLevel { timewarp: Timewarp::new(&level), level }
    }

    /// A level taken into the editor, with nothing to undo or redo.
    pub fn from_level(level: Level) -> (r: EditorLevel)
        ensures
            r.wf(),
            r@ == taken_in(level@),
    {
        EditorLevel { timewarp: Timewarp::new(&level), level }
    }

    /// Takes the level back by one undo entry.
    pub fn undo(&mut self)
        requires
            old(self).wf(),
        ensures
            final(self).wf(),
            final(self)@ == level_undone(old(self)@),
    {
        self.timewarp.undo(&mut self.level)
    }

    /// Takes the level forward by one redo entry.
    pub fn redo(&mut self)
        requires
            old(self).wf(),
        ensures
            final(self).wf(),
            final(self)@ == level_redone(old(self)@),
    {
        self.timewarp.redo(&mut self.level)
    }

    /// Notes the grid as the one before the gesture in progress.
    pub fn save_previous_state(&mut self)
        requires
            old(self).wf(),
        ensures
            final(self).wf(),
            final(self)@ == level_saved(old(self)@),
    {
        self.timewarp.save_previous_state(&self.level)
    }

    /// Ends a gesture: commits the noted grid as one undo entry, unless the
    /// grid is still the noted one.
    pub fn push_current_state(&mut self)
        requires
            old(self).wf(),
        ensures
            final(self).wf(),
            final(self)@ == level_pushed(old(self)@),
    {
        if !grids_equal(self.level.tiles(), self.timewarp.previous_state()) {
            self.timewarp.push_current_state()
        }
    }

    /// Commits the grid as it is as one undo entry, before a change that is
    /// about to be made to it.
    pub fn commit(&mut self)
        ensures
            final(self).wf(),
            final(self)@ == level_committed(old(self)@),
    {
        self.timewarp.save_previous_state(&self.level);
        self.timewarp.push_current_state()
    }
}

impl vstd::std_specs::convert::FromSpecImpl<Level> for EditorLevel {
    open spec fn obeys_from_spec() -> bool {
        false
    }

    open spec fn from_spec(level: Level) -> EditorLevel {
        arbitrary()
    }
}

impl From<Level> for EditorLevel {
    /// A level taken into the editor, with nothing to undo or redo.
    fn from(level: Level) -> (r: EditorLevel)
        ensures
            r.wf(),
            r@ == taken_in(level@),
    {
        EditorLevel::from_level(level)
    }
}

/// The levels of a list in the editor, each as what it is.
pub open spec fn editor_views(levels: Seq<EditorLevel>) -> Seq<EditorLevelView> {
    Seq::new(levels.len(), |i: int| levels[i]@)
}

impl View for EditorLevelPack {
    type V = EditorPackView;

    closed spec fn view(&self) -> EditorPackView {
        EditorPackView {
            levels: editor_views(self.levels@),
            current: self.current,
            name: self.name@,
            author: self.author@,
        }
    }
}

impl EditorLevelPack {
    /// Whether the pack is in order, every grid whole.
    pub open spec fn wf(&self) -> bool {
        pack_in_order(self@) && grids_whole(self@)
    }

    /// Every level of a pack has a whole grid.
    pub proof fn lemma_grids_whole(&self)
        ensures
            grids_whole(self@),
    {
        assert forall|i: int| 0 <= i < self@.levels.len() implies (#[trigger] self@.levels[i]).level.tiles.len()
            == LEVEL_TILES by {
            self.levels@[i].level.lemma_grid_len();
        }
    }

    /// A pack of one blank level, with empty names.
    pub fn new() -> (r: EditorLevelPack)
        ensures
            r.wf(),
            r@ == fresh_pack(),
    {
        let mut levels: Vec<EditorLevel> = Vec::new();
        levels.push(EditorLevel::new());
        let r = EditorLevelPack { levels, current: 0, name: String::new(), author: String::new() };
        assert(r@.levels =~= seq![blank_editor_level()]);
        r
    }

    /// The place of the level under the cursor.
    pub fn current(&self) -> (r: usize)
        ensures
            r == self@.current,
    {
        self.current
    }

    /// How many levels the pack has.
    pub fn level_count(&self) -> (r: usize)
        ensures
            r == self@.levels.len(),
    {
        self.levels.len()
    }

    /// The level under the cursor.
    pub fn level(&self) -> (r: &Level)
        requires
            self.wf(),
        ensures
            r@ == self@.levels[self@.current as int].level,
    {
        &self.levels[self.current].level
    }

    /// The level under the cursor, to be written to. Its history and the
    /// other levels stay as they are.
    pub fn level_mut(&mut self) -> (r: &mut Level)
        requires
            old(self).wf(),
        ensures
            r@ == old(self)@.levels[old(self)@.current as int].level,
            final(self)@.current == old(self)@.current,
            final(self)@.name == old(self)@.name,
            final(self)@.author == old(self)@.author,
            final(self)@.levels.len() == old(self)@.levels.len(),
            forall|i: int|
                0 <= i < old(self)@.levels.len() && i != old(self)@.current ==> #[trigger] final(self)@.levels[i]
                    == old(self)@.levels[i],
            final(self)@.levels[old(self)@.current as int] == (EditorLevelView {
                level: final(r)@,
                ..old(self)@.levels[old(self)@.current as int]
            }),
    {
        &mut self.levels[self.current].level
    }

    /// Puts a tile at `index` of the level under the cursor. An index
    /// outside the grid changes nothing.
    pub fn set_tile(&mut self, index: usize, tile: crate::tile::Tile)
        requires
            old(self).wf(),
        ensures
            final(self).wf(),
            final(self)@ == with_current(old(self)@, level_painted(current_level(old(self)@), index as int, tile)),
    {
        assert(self.levels@[self.current as int]@ == self@.levels[self.current as int]);
        self.levels[self.current].level.set_tile(index, tile);
        assert(self@.levels =~= old(self)@.levels.update(
            old(self)@.current as int,
            level_painted(current_level(old(self)@), index as int, tile),
        ));
    }

    /// Clears the level under the cursor, as one gesture that can be undone:
    /// its grid is committed to its history, and a blank level takes its
    /// place.
    pub fn clear_level(&mut self)
        requires
            old(self).wf(),
        ensures
            final(self).wf(),
            final(self)@ == with_current(old(self)@, level_cleared(current_level(old(self)@))),
    {
        assert(self.levels@[self.current as int]@ == self@.levels[self.current as int]);
        self.levels[self.current].commit();
        self.levels[self.current].level = Level::new();
        assert(self@.levels =~= old(self)@.levels.update(
            old(self)@.current as int,
            level_cleared(current_level(old(self)@)),
        ));
    }

    /// Types a character into one of the pack's names and says whether the
    /// character ends the editing.
    pub fn type_into(&mut self, field: NameField, c: char) -> (done: bool)
        requires
            old(self).wf(),
        ensures
            final(self).wf(),
            final(self)@ == pack_typed(old(self)@, field, c),
            done == (crate::text::upper(c) == crate::text::RETURN),
    {
        match field {
            NameField::Level => {
                assert(self.levels@[self.current as int]@ == self@.levels[self.current as int]);
                let done = crate::text::type_char(self.levels[self.current].level.name_mut(), c);
                assert(self@.levels =~= pack_typed(old(self)@, field, c).levels);
                done
            },
            NameField::Pack => crate::text::type_char(&mut self.name, c),
            NameField::Author => crate::text::type_char(&mut self.author, c),
        }
    }

    /// The history of the level under the cursor.
    pub fn timewarp(&self) -> (r: &Timewarp)
        requires
            self.wf(),
        ensures
            r@ == self@.levels[self@.current as int].timewarp,
    {
        &self.levels[self.current].timewarp
    }

    /// The pack's name.
    pub fn name(&self) -> (r: &String)
        ensures
            r@ == self@.name,
    {
        &self.name
    }

    /// The pack's author.
    pub fn author(&self) -> (r: &String)
        ensures
            r@ == self@.author,
    {
        &self.author
    }

    /// The pack's name, to be written to.
    pub fn name_mut(&mut self) -> (r: &mut String)
        ensures
            r@ == old(self)@.name,
            final(self)@ == (EditorPackView { name: final(r)@, ..old(self)@ }),
    {
        &mut self.name
    }

    /// The pack's author, to be written to.
    pub fn author_mut(&mut self) -> (r: &mut String)
        ensures
            r@ == old(self)@.author,
            final(self)@ == (EditorPackView { author: final(r)@, ..old(self)@ }),
    {
        &mut self.author
    }

    /// Undoes one gesture on the level under the cursor.
    pub fn timewarp_undo(&mut self)
        requires
            old(self).wf(),
        ensures
            final(self).wf(),
            final(self)@ == with_current(old(self)@, level_undone(old(self)@.levels[old(self)@.current as int])),
    {
        assert(self.levels@[self.current as int]@ == self@.levels[self.current as int]);
        self.levels[self.current].undo();
        assert(self@.levels =~= old(self)@.levels.update(
            old(self)@.current as int,
            level_undone(old(self)@.levels[old(self)@.current as int]),
        ));
    }

    /// Redoes one gesture on the level under the cursor.
    pub fn timewarp_redo(&mut self)
        requires
            old(self).wf(),
        ensures
            final(self).wf(),
            final(self)@ == with_current(old(self)@, level_redone(old(self)@.levels[old(self)@.current as int])),
    {
        assert(self.levels@[self.current as int]@ == self@.levels[self.current as int]);
        self.levels[self.current].redo();
        assert(self@.levels =~= old(self)@.levels.update(
            old(self)@.current as int,
            level_redone(old(self)@.levels[old(self)@.current as int]),
        ));
    }

    /// Notes the grid of the level under the cursor as the one before the
    /// gesture in progress.
    pub fn timewarp_save_previous_state(&mut self)
        requires
            old(self).wf(),
        ensures
            final(self).wf(),
            final(self)@ == with_current(old(self)@, level_saved(old(self)@.levels[old(self)@.current as int])),
    {
        assert(self.levels@[self.current as int]@ == self@.levels[self.current as int]);
        self.levels[self.current].save_previous_state();
        assert(self@.levels =~= old(self)@.levels.update(
            old(self)@.current as int,
            level_saved(old(self)@.levels[old(self)@.current as int]),
        ));
    }

    /// Ends a gesture on the level under the cursor: commits the noted grid
    /// as one undo entry, unless the grid is still the noted one.
    pub fn timewarp_push_current_state(&mut self)
        requires
            old(self).wf(),
        ensures
            final(self).wf(),
            final(self)@ == with_current(old(self)@, level_pushed(old(self)@.levels[old(self)@.current as int])),
    {
        assert(self.levels@[self.current as int]@ == self@.levels[self.current as int]);
        self.levels[self.current].push_current_state();
        assert(self@.levels =~= old(self)@.levels.update(
            old(self)@.current as int,
            level_pushed(old(self)@.levels[old(self)@.current as int]),
        ));
    }

    /// Whether a level can be added: the pack has fewer than `MAX_LEVELS`.
    pub fn can_add(&self) -> (r: bool)
        ensures
            r == (self@.levels.len() < MAX_LEVELS),
    {
        self.levels.len() < MAX_LEVELS
    }

    /// Whether a level follows the one under the cursor.
    pub fn can_next(&self) -> (r: bool)
        ensures
            r == (self@.current + 1 < self@.levels.len()),
    {
        self.levels.len() > 0 && self.current < self.levels.len() - 1
    }

    /// Whether a level comes before the one under the cursor.
    pub fn can_prev(&self) -> (r: bool)
        ensures
            r == (self@.current != 0),
    {
        self.current != 0
    }

    /// Whether the level under the cursor can change places with the next.
    pub fn can_shift_next(&self) -> (r: bool)
        ensures
            r == (self@.current + 1 < self@.levels.len()),
    {
        self.levels.len() > 0 && self.current < self.levels.len() - 1
    }

    /// Whether the level under the cursor can change places with the one
    /// before.
    pub fn can_shift_prev(&self) -> (r: bool)
        ensures
            r == (self@.current != 0),
    {
        self.current != 0
    }

    /// Adds a blank level behind the one under the cursor and moves the
    /// cursor to it. A full pack stays as it is.
    pub fn add_level(&mut self)
        requires
            old(self).wf(),
        ensures
            final(self).wf(),
            final(self)@ == level_added(old(self)@),
    {
        if !self.can_add() {
            return;
        }
        self.current += 1;
        self.levels.insert(self.current, EditorLevel::new());
        assert(self@.levels =~= old(self)@.levels.insert(old(self)@.current + 1, blank_editor_level()));
    }

    /// Moves the cursor to the next level, if there is one.
    pub fn next(&mut self)
        requires
            old(self).wf(),
        ensures
            final(self).wf(),
            final(self)@ == moved_next(old(self)@),
    {
        let count = self.levels.len();
        if self.current < count - 1 {
            self.current += 1
        }
    }

    /// Moves the cursor to the level before, if there is one.
    pub fn prev(&mut self)
        requires
            old(self).wf(),
        ensures
            final(self).wf(),
            final(self)@ == moved_prev(old(self)@),
    {
        if self.can_prev() {
            self.current -= 1
        }
    }

    /// Lets the level under the cursor change places with the next one; the
    /// cursor goes with it.
    pub fn shift_next(&mut self)
        requires
            old(self).wf(),
        ensures
            final(self).wf(),
            final(self)@ == shifted_next(old(self)@),
    {
        if self.can_shift_next() {
            let moved = self.levels.remove(self.current);
            self.levels.insert(self.current + 1, moved);
            self.current += 1;
            assert(self@.levels =~= shifted_next(old(self)@).levels);
        }
    }

    /// Lets the level under the cursor change places with the one before;
    /// the cursor goes with it.
    pub fn shift_prev(&mut self)
        requires
            old(self).wf(),
        ensures
            final(self).wf(),
            final(self)@ == shifted_prev(old(self)@),
    {
        if self.can_shift_prev() {
            let moved = self.levels.remove(self.current);
            self.levels.insert(self.current - 1, moved);
            self.current -= 1;
            assert(self@.levels =~= shifted_prev(old(self)@).levels);
        }
    }

    /// Deletes the level under the cursor. The last level of a pack gives
    /// way to a blank one.
    pub fn delete_level(&mut self)
        requires
            old(self).wf(),
        ensures
            final(self).wf(),
            final(self)@ == level_deleted(old(self)@),
    {
        if self.levels.len() == 1 {
            self.levels.clear();
            self.levels.push(EditorLevel::new());
            assert(self@.levels =~= seq![blank_editor_level()]);
            return;
        }
        self.levels.remove(self.current);
        if self.current > self.levels.len() - 1 {
            self.current = self.levels.len() - 1;
        }
        assert(self@.levels =~= old(self)@.levels.remove(old(self)@.current as int));
    }

    /// The name of the file that the pack is saved to: the pack's name and
    /// `.brk`.
    pub fn file_name(&self) -> (r: String)
        ensures
            r@ == self@.name + ".brk"@,
    {
        self.name.clone().concat(".brk")
    }

    /// The bytes of the file that holds the pack: the names and the grids,
    /// without the histories.
    pub fn encode_to_file(&self) -> (data: Vec<u8>)
        ensures
            data@ == pack_bytes(plain_pack(self@)),
            data@.len() == HEADER_BYTES + self@.levels.len() * LEVEL_BYTES,
            self.wf() && names_valid(self@) ==> pack_accepted(data@) && decoded_pack(data@) == plain_pack(self@),
    {
        proof {
            self.lemma_grids_whole();
            law_file_length(self@);
            if self.wf() && names_valid(self@) {
                law_editor_pack_round_trip(self@);
            }
        }
        let mut data: Vec<u8> = Vec::new();
        write_name(&mut data, &self.name);
        write_name(&mut data, &self.author);
        let ghost header = data@;
        let ghost levels = plain_levels(self@.levels);
        let mut i: usize = 0;
        while i < self.levels.len()
            invariant
                i <= self.levels@.len(),
                levels == plain_levels(self@.levels),
                data@ == header + levels_bytes(levels.take(i as int)),
            decreases self.levels@.len() - i,
        {
            let ghost before = data@;
            write_name(&mut data, self.levels[i].level.name());
            write_tiles(&mut data, self.levels[i].level.tiles());
            proof {
                assert(levels.take(i + 1).drop_last() =~= levels.take(i as int));
                assert(levels.take(i + 1).last() == self.levels@[i as int]@.level);
                assert(data@ =~= header + levels_bytes(levels.take(i + 1)));
            }
            i += 1;
        }
        assert(levels.take(i as int) =~= levels);
        data
    }

    /// Takes a pack into the editor: every level with a fresh history, the
    /// cursor on the first. A pack without a level gets a blank one.
    pub fn from_level_pack(pack: &LevelPack) -> (r: EditorLevelPack)
        ensures
            r.wf(),
            r@ == pack_taken_in(pack@),
    {
        let source = pack.levels();
        let mut levels: Vec<EditorLevel> = Vec::new();
        let mut i: usize = 0;
        while i < source.len()
            invariant
                i <= source@.len(),
                level_views(source@) == pack@.levels,
                levels@.len() == i,
                forall|j: int| 0 <= j < i ==> (#[trigger] levels@[j])@ == taken_in(pack@.levels[j]),
            decreases source@.len() - i,
        {
            assert(level_views(source@)[i as int] == source@[i as int]@);
            levels.push(EditorLevel::from_level(source[i].clone()));
            i += 1;
        }
        assert(level_views(source@).len() == source@.len());
        if levels.len() == 0 {
            levels.push(EditorLevel::new());
        }
        let r = EditorLevelPack { levels, current: 0, name: pack.name().clone(), author: pack.author().clone() };
        proof {
            if pack@.levels.len() > 0 {
                assert(r@.levels =~= Seq::new(pack@.levels.len(), |i: int| taken_in(pack@.levels[i])));
            } else {
                assert(r@.levels =~= seq![blank_editor_level()]);
            }
        }
        r
    }
}

impl vstd::std_specs::convert::FromSpecImpl<LevelPack> for EditorLevelPack {
    open spec fn obeys_from_spec() -> bool {
        false
    }

    open spec fn from_spec(pack: LevelPack) -> EditorLevelPack {
        arbitrary()
    }
}

impl From<LevelPack> for EditorLevelPack {
    /// Takes a pack into the editor: every level with a fresh history, the
    /// cursor on the first.
    fn from(pack: LevelPack) -> (r: EditorLevelPack)
        ensures
            r.wf(),
            r@ == pack_taken_in(pack@),
    {
        EditorLevelPack::from_level_pack(&pack)
    }
}

} // verus!
