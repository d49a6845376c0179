//! The editor's decisions: what the buttons and the pointer do to the pack
//! that is being edited. A gesture, from the pointer going down to its
//! coming up or leaving the grid, makes one undo entry; one that changed
//! nothing makes none.

use vstd::prelude::*;
use crate::editor_gui::editor_gui_after;
use crate::editor_gui::pack_after_gui;
use crate::editor_gui::tile_picked;
use crate::editor_gui::EditorGui;
use crate::editor_gui::EditorGuiInput;
use crate::editor_gui::TILE_BUTTONS;
use crate::editor_level_pack::current_level;
use crate::editor_level_pack::fresh_pack;
use crate::editor_level_pack::grids_whole;
use crate::editor_level_pack::pack_taken_in;
use crate::editor_level_pack::level_added;
use crate::editor_level_pack::level_cleared;
use crate::editor_level_pack::level_deleted;
use crate::editor_level_pack::level_painted;
use crate::editor_level_pack::level_pushed;
use crate::editor_level_pack::level_redone;
use crate::editor_level_pack::level_saved;
use crate::editor_level_pack::level_undone;
use crate::editor_level_pack::moved_next;
use crate::editor_level_pack::moved_prev;
use crate::editor_level_pack::pack_in_order;
use crate::editor_level_pack::shifted_next;
use crate::editor_level_pack::shifted_prev;
use crate::editor_level_pack::with_current;
use crate::editor_level_pack::EditorLevelPack;
use crate::editor_level_pack::EditorPackView;
use crate::level::blank_grid;
use crate::level::grids_equal;
use crate::level::TileArray;
use crate::level::LEVEL_TILES;
use crate::level_pack::LevelPack;
use crate::tile::Tile;

verus! {

/// What the pointer does to the tiles it moves over.
#[derive(Clone, Copy, PartialEq, Eq, Structural, Debug)]
pub enum ClickAction {
    Nothing,
    Draw,
    Erase,
}

/// The scene to change to.
#[derive(Clone, Copy, PartialEq, Eq, Structural, Debug)]
pub enum SceneChange {
    MainMenu,
    Game,
    Editor { new: bool },
}

/// The buttons of the editor that were clicked in a frame.
#[derive(Clone, Copy, PartialEq, Eq, Structural, Debug)]
pub struct EditorButtons {
    pub clear: bool,
    pub exit: bool,
    pub save: bool,
    pub undo: bool,
    pub redo: bool,
    pub level_add: bool,
    pub level_next: bool,
    pub level_prev: bool,
    pub level_shift_next: bool,
    pub level_shift_prev: bool,
    pub level_delete: bool,
}

/// What the pointer does in a frame of the editor.
#[derive(Clone, Copy, PartialEq, Eq, Structural, Debug)]
pub struct EditorPointer {
    /// The pointer is over the grid and no popup is open.
    pub in_area: bool,
    /// The tile under the pointer.
    pub hovered: Option<usize>,
    pub left_pressed: bool,
    pub left_released: bool,
    pub right_pressed: bool,
    pub right_released: bool,
}

/// What a frame of the editor asks of its caller.
#[derive(Clone, Copy, PartialEq, Eq, Structural, Debug)]
pub struct EditorOutcome {
    /// The scene to change to, if any.
    pub change: Option<SceneChange>,
    /// Whether the pack is to be saved.
    pub save: bool,
}

/// What an editor is.
pub ghost struct EditorView {
    pub pack: EditorPackView,
    pub draw_type: Tile,
    pub click_action: ClickAction,
}

/// The editor: the pack, the tile that is drawn with, and the gesture in
/// progress.
pub struct Editor {
    draw_type: Tile,
    click_action: ClickAction,
    level_pack: EditorLevelPack,
}

/// The pack with the level under the cursor cleared, unless it is blank.
pub open spec fn pack_cleared(p: EditorPackView) -> EditorPackView {
    if current_level(p).level.tiles == blank_grid() {
        p
    } else {
        with_current(p, level_cleared(current_level(p)))
    }
}

/// `then` where `cond` holds, else `p`.
pub open spec fn when(cond: bool, then: EditorPackView, p: EditorPackView) -> EditorPackView {
    if cond {
        then
    } else {
        p
    }
}

/// The pack after the buttons that edit the level, in their order: clear,
/// undo, redo.
pub open spec fn pack_after_edit_buttons(p: EditorPackView, b: EditorButtons) -> EditorPackView {
    let p1 = when(b.clear, pack_cleared(p), p);
    let p2 = when(b.undo, with_current(p1, level_undone(current_level(p1))), p1);
    when(b.redo, with_current(p2, level_redone(current_level(p2))), p2)
}

/// The pack after the buttons that order the levels, in their order: add,
/// next, previous, shift next, shift previous, delete.
pub open spec fn pack_after_level_buttons(p: EditorPackView, b: EditorButtons) -> EditorPackView {
    let p4 = when(b.level_add, level_added(p), p);
    let p5 = when(b.level_next, moved_next(p4), p4);
    let p6 = when(b.level_prev, moved_prev(p5), p5);
    let p7 = when(b.level_shift_next, shifted_next(p6), p6);
    let p8 = when(b.level_shift_prev, shifted_prev(p7), p7);
    when(b.level_delete, level_deleted(p8), p8)
}

/// The pack after the buttons of a frame, in their order: clear, undo,
/// redo, add, next, previous, shift next, shift previous, delete.
pub open spec fn pack_after_buttons(p: EditorPackView, b: EditorButtons) -> EditorPackView {
    pack_after_level_buttons(pack_after_edit_buttons(p, b), b)
}

/// The editor after one button of the pointer: going down it starts a
/// gesture and notes the grid; coming up it ends the gesture of its kind and
/// commits the note, unless the grid is still the noted one.
pub open spec fn after_mouse_button(e: EditorView, pressed: bool, released: bool, action: ClickAction) -> EditorView {
    let e1 = if pressed {
        EditorView { click_action: action, pack: with_current(e.pack, level_saved(current_level(e.pack))), ..e }
    } else {
        e
    };
    if released && e1.click_action == action {
        EditorView {
            click_action: ClickAction::Nothing,
            pack: with_current(e1.pack, level_pushed(current_level(e1.pack))),
            ..e1
        }
    } else {
        e1
    }
}

/// The tile that a gesture puts down.
pub open spec fn brush(e: EditorView) -> Option<Tile> {
    match e.click_action {
        ClickAction::Draw => Some(e.draw_type),
        ClickAction::Erase => Some(Tile::Air),
        ClickAction::Nothing => None,
    }
}

/// The editor after the gesture in progress touched the tile under the
/// pointer. A place outside the grid is not touched.
pub open spec fn after_paint(e: EditorView, hovered: Option<usize>) -> EditorView {
    match (hovered, brush(e)) {
        (Some(i), Some(t)) => EditorView {
            pack: with_current(e.pack, level_painted(current_level(e.pack), i as int, t)),
            ..e
        },
        _ => e,
    }
}

/// The editor after the pointer of a frame. Over the grid, the left button
/// draws and the right one erases. Off the grid, a gesture in progress ends
/// and is committed, unless it changed nothing.
pub open spec fn after_pointer(e: EditorView, p: EditorPointer) -> EditorView {
    if p.in_area {
        after_paint(
            after_mouse_button(
                after_mouse_button(e, p.left_pressed, p.left_released, ClickAction::Draw),
                p.right_pressed,
                p.right_released,
                ClickAction::Erase,
            ),
            p.hovered,
        )
    } else if e.click_action != ClickAction::Nothing {
        EditorView {
            click_action: ClickAction::Nothing,
            pack: with_current(e.pack, level_pushed(current_level(e.pack))),
            ..e
        }
    } else {
        e
    }
}

/// The editor after a frame. An exit leaves everything behind the clear
/// button undone.
pub open spec fn after_frame(e: EditorView, b: EditorButtons, p: EditorPointer) -> EditorView {
    if b.exit {
        EditorView { pack: when(b.clear, pack_cleared(e.pack), e.pack), ..e }
    } else {
        after_pointer(EditorView { pack: pack_after_buttons(e.pack, b), ..e }, p)
    }
}

/// Each of the editor's steps keeps the pack in order.
pub proof fn law_editing_keeps_order(p: EditorPackView)
    requires
        pack_in_order(p),
    ensures
        pack_in_order(pack_cleared(p)),
        pack_in_order(with_current(p, level_undone(current_level(p)))),
        pack_in_order(with_current(p, level_redone(current_level(p)))),
        pack_in_order(with_current(p, level_saved(current_level(p)))),
        pack_in_order(with_current(p, level_pushed(current_level(p)))),
{
    assert(crate::timewarp::history_fits(current_level(p).timewarp));
}

impl View for Editor {
    type V = EditorView;

    closed spec fn view(&self) -> EditorView {
        EditorView { pack: self.level_pack@, draw_type: self.draw_type, click_action: self.click_action }
    }
}

impl Editor {
    /// Whether the pack is in order, every grid whole.
    pub open spec fn wf(&self) -> bool {
        pack_in_order(self@.pack) && grids_whole(self@.pack)
    }

    /// An editor on a pack, drawing red tiles, with no gesture in progress.
    pub fn with_pack(level_pack: EditorLevelPack) -> (r: Editor)
        requires
            level_pack.wf(),
        ensures
            r.wf(),
            r@ == (EditorView { pack: level_pack@, draw_type: Tile::Red, click_action: ClickAction::Nothing }),
    {
        Editor { draw_type: Tile::Red, click_action: ClickAction::Nothing, level_pack }
    }

    /// An editor on a new pack of one blank level.
    pub fn new() -> (r: Editor)
        ensures
            r.wf(),
            r@ == (EditorView { pack: fresh_pack(), draw_type: Tile::Red, click_action: ClickAction::Nothing }),
    {
        Editor::with_pack(EditorLevelPack::new())
    }

    /// An editor on a pack that a game plays.
    pub fn from_level_pack(level_pack: &LevelPack) -> (r: Editor)
        ensures
            r.wf(),
            r@ == (EditorView {
                pack: pack_taken_in(level_pack@),
                draw_type: Tile::Red,
                click_action: ClickAction::Nothing,
            }),
    {
        Editor::with_pack(EditorLevelPack::from_level_pack(level_pack))
    }

    /// The pack.
    pub fn level_pack(&self) -> (r: &EditorLevelPack)
        ensures
            r@ == self@.pack,
    {
        &self.level_pack
    }

    /// The tile that is drawn with.
    pub fn draw_type(&self) -> (r: Tile)
        ensures
            r == self@.draw_type,
    {
        self.draw_type
    }

    /// Picks the tile that is drawn with.
    pub fn set_draw_type(&mut self, tile: Tile)
        ensures
            final(self)@ == (EditorView { draw_type: tile, ..old(self)@ }),
    {
        self.draw_type = tile;
    }

    /// The gesture in progress.
    pub fn click_action(&self) -> (r: ClickAction)
        ensures
            r == self@.click_action,
    {
        self.click_action
    }

    /// One update of the editor's interface, which may type into the names
    /// of the pack and pick the tile that is drawn with.
    pub fn update_gui(&mut self, gui: &mut EditorGui, over: &Vec<bool>, input: EditorGuiInput)
        requires
            old(self).wf(),
        ensures
            final(self).wf(),
            final(gui)@ == editor_gui_after(old(gui)@, over@, input),
            final(self)@ == (EditorView {
                pack: pack_after_gui(old(self)@.pack, old(gui)@, over@, input),
                draw_type: tile_picked(final(gui)@.gui, old(self)@.draw_type, TILE_BUTTONS as int),
                ..old(self)@
            }),
    {
        gui.update(over, input, &mut self.level_pack, &mut self.draw_type);
    }

    fn press_edit_buttons(&mut self, b: EditorButtons)
        requires
            old(self).wf(),
        ensures
            final(self).wf(),
            final(self)@ == (EditorView { pack: pack_after_edit_buttons(old(self)@.pack, b), ..old(self)@ }),
    {
        if b.clear {
            self.clear();
        }
        if b.undo {
            self.level_pack.timewarp_undo();
        }
        if b.redo {
            self.level_pack.timewarp_redo();
        }
    }

    fn press_level_buttons(&mut self, b: EditorButtons)
        requires
            old(self).wf(),
        ensures
            final(self).wf(),
            final(self)@ == (EditorView { pack: pack_after_level_buttons(old(self)@.pack, b), ..old(self)@ }),
    {
        if b.level_add {
            self.level_pack.add_level();
        }
        if b.level_next {
            self.level_pack.next();
        }
        if b.level_prev {
            self.level_pack.prev();
        }
        if b.level_shift_next {
            self.level_pack.shift_next();
        }
        if b.level_shift_prev {
            self.level_pack.shift_prev();
        }
        if b.level_delete {
            self.level_pack.delete_level();
        }
    }

    /// Applies the buttons that were clicked, in their order.
    pub fn press_buttons(&mut self, b: EditorButtons)
        requires
            old(self).wf(),
        ensures
            final(self).wf(),
            final(self)@ == (EditorView { pack: pack_after_buttons(old(self)@.pack, b), ..old(self)@ }),
    {
        self.press_edit_buttons(b);
        self.press_level_buttons(b);
    }

    /// Clears the level under the cursor, unless it is blank.
    pub fn clear(&mut self)
        requires
            old(self).wf(),
        ensures
            final(self).wf(),
            final(self)@ == (EditorView { pack: pack_cleared(old(self)@.pack), ..old(self)@ }),
    {
        let blank: TileArray = [Tile::Air; LEVEL_TILES];
        assert(blank@ =~= blank_grid());
        if !grids_equal(self.level_pack.level().tiles(), &blank) {
            self.level_pack.clear_level();
        }
    }

    fn mouse_button(&mut self, pressed: bool, released: bool, action: ClickAction)
        requires
            old(self).wf(),
        ensures
            final(self).wf(),
            final(self)@ == after_mouse_button(old(self)@, pressed, released, action),
    {
        if pressed {
            self.click_action = action;
            self.level_pack.timewarp_save_previous_state();
        }
        if released && self.click_action == action {
            self.click_action = ClickAction::Nothing;
            self.level_pack.timewarp_push_current_state();
        }
    }

    /// Applies the pointer of a frame.
    pub fn move_pointer(&mut self, p: EditorPointer)
        requires
            old(self).wf(),
        ensures
            final(self).wf(),
            final(self)@ == after_pointer(old(self)@, p),
    {
        if p.in_area {
            self.mouse_button(p.left_pressed, p.left_released, ClickAction::Draw);
            self.mouse_button(p.right_pressed, p.right_released, ClickAction::Erase);
            let tile = match self.click_action {
                ClickAction::Draw => Some(self.draw_type),
                ClickAction::Erase => Some(Tile::Air),
                ClickAction::Nothing => None,
            };
            match (p.hovered, tile) {
                (Some(i), Some(t)) => {
                    self.level_pack.set_tile(i, t);
                },
                _ => {},
            }
        } else if self.click_action != ClickAction::Nothing {
            self.click_action = ClickAction::Nothing;
            self.level_pack.timewarp_push_current_state();
        }
    }

    /// One frame of the editor: the buttons, then the pointer. An exit asks
    /// for the main menu at once; a save is handed on to the caller.
    pub fn update(&mut self, b: EditorButtons, p: EditorPointer) -> (out: EditorOutcome)
        requires
            old(self).wf(),
        ensures
            final(self).wf(),
            final(self)@ == after_frame(old(self)@, b, p),
            out.change == if b.exit {
                Some(SceneChange::MainMenu)
            } else {
                None
            },
            out.save == (b.save && !b.exit),
    {
        if b.exit {
            if b.clear {
                self.clear();
            }
            return EditorOutcome { change: Some(SceneChange::MainMenu), save: false };
        }
        self.press_buttons(b);
        self.move_pointer(p);
        EditorOutcome { change: None, save: b.save }
    }
}

} // verus!
