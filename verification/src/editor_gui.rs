//! The editor's interface: its buttons, the popup that asks before a pack
//! is left, saved or a level deleted, and the name fields.
//!
//! While a popup is open only its own buttons are visited. A click on yes
//! confirms what the popup asks; yes and no close it, but for the exit,
//! which leaves the editor with the popup still up.

use vstd::prelude::*;
use crate::editor_level_pack::pack_typed;
use crate::editor_level_pack::EditorLevelPack;
use crate::editor_level_pack::EditorPackView;
use crate::editor_level_pack::NameField;
use crate::gui::button_put;
use crate::gui::button_taken;
use crate::gui::gui_after;
use crate::gui::place_of;
use crate::gui::Gui;
use crate::gui::GuiView;
use crate::gui::Id;
use crate::gui::Pointer;
use crate::menus::clicked;
use crate::text::upper;
use crate::text::RETURN;
use crate::tile::tile_of;
use crate::tile::Tile;

verus! {

/// Tile buttons: ids from zero up to, not including, this.
pub const TILE_BUTTONS: Id = 16;

/// The name field of the level.
pub const FIELD_LEVEL_NAME: Id = 100;

/// The button that leaves the editor.
pub const BUTTON_EXIT: Id = 101;

/// The button that saves the pack.
pub const BUTTON_SAVE: Id = 102;

/// The button that clears the level.
pub const BUTTON_CLEAR: Id = 103;

/// The button that undoes a gesture.
pub const BUTTON_UNDO: Id = 104;

/// The button that redoes a gesture.
pub const BUTTON_REDO: Id = 105;

/// The help button.
pub const BUTTON_HELP: Id = 106;

/// The button that adds a level.
pub const BUTTON_LEVEL_ADD: Id = 200;

/// The button that goes to the next level.
pub const BUTTON_LEVEL_NEXT: Id = 201;

/// The button that goes to the level before.
pub const BUTTON_LEVEL_PREV: Id = 202;

/// The button that shifts the level to the next place.
pub const BUTTON_SHIFT_NEXT: Id = 203;

/// The button that shifts the level to the place before.
pub const BUTTON_SHIFT_PREV: Id = 204;

/// The button that deletes the level.
pub const BUTTON_DELETE: Id = 205;

/// The yes button of a popup.
pub const BUTTON_YES: Id = 300;

/// The no button of a popup.
pub const BUTTON_NO: Id = 301;

/// The name field of the pack, in the save popup.
pub const FIELD_PACK_NAME: Id = 302;

/// The author field of the pack, in the save popup.
pub const FIELD_PACK_AUTHOR: Id = 303;

/// What a popup asks, or what was confirmed.
#[derive(Clone, Copy, PartialEq, Eq, Structural, Debug)]
pub enum Confirmation {
    Nothing,
    LevelDelete,
    Exit,
    Save,
}

/// What the editor's interface is given in a frame.
#[derive(Clone, Copy, PartialEq, Eq, Structural, Debug)]
pub struct EditorGuiInput {
    /// What the pointer's button does.
    pub pointer: Pointer,
    /// A button of the pointer, left or right, went down.
    pub mouse_clicked: bool,
    /// The pointer is where the level's name field lies.
    pub over_level_name: bool,
    /// The pointer is where the pack's name field lies.
    pub over_pack_name: bool,
    /// The pointer is where the pack's author field lies.
    pub over_pack_author: bool,
    /// The character that was typed, if one was.
    pub typed: Option<char>,
    /// The tab key went down.
    pub tab: bool,
}

/// What the editor's interface is.
pub ghost struct EditorGuiView {
    pub gui: GuiView,
    pub confirmation: Confirmation,
    pub popup: Confirmation,
    pub active_field: Option<Id>,
}

/// The editor's interface.
pub struct EditorGui {
    gui: Gui,
    confirmation: Confirmation,
    confirmation_popup: Confirmation,
    active_text_field: Option<Id>,
}

impl View for EditorGui {
    type V = EditorGuiView;

    closed spec fn view(&self) -> EditorGuiView {
        EditorGuiView {
            gui: self.gui@,
            confirmation: self.confirmation,
            popup: self.confirmation_popup,
            active_field: self.active_text_field,
        }
    }
}

/// The ids of the editor's own buttons, in the order of an update: the tile
/// buttons, the level's name field, then the rest.
pub open spec fn editor_ids() -> Seq<Id> {
    seq![
        0u64, 1u64, 2u64, 3u64, 4u64, 5u64, 6u64, 7u64, 8u64, 9u64, 10u64, 11u64, 12u64, 13u64, 14u64, 15u64,
        FIELD_LEVEL_NAME, BUTTON_EXIT, BUTTON_SAVE, BUTTON_CLEAR, BUTTON_UNDO, BUTTON_REDO, BUTTON_HELP,
        BUTTON_LEVEL_ADD, BUTTON_LEVEL_NEXT, BUTTON_LEVEL_PREV, BUTTON_SHIFT_NEXT, BUTTON_SHIFT_PREV,
        BUTTON_DELETE,
    ]
}

/// The buttons that are visited while a popup is open.
pub open spec fn popup_ids() -> Seq<Id> {
    seq![BUTTON_YES, BUTTON_NO, FIELD_PACK_NAME, FIELD_PACK_AUTHOR]
}

/// The buttons that an update visits: all without a popup.
pub open spec fn visited(popup: Confirmation) -> Option<Seq<Id>> {
    if popup == Confirmation::Nothing {
        None
    } else {
        Some(popup_ids())
    }
}

/// The popup that the clicked button opens: exit comes before save, save
/// before delete; without a click the popup stays.
pub open spec fn popup_chosen(g: GuiView, popup: Confirmation) -> Confirmation {
    if clicked(g, BUTTON_EXIT) {
        Confirmation::Exit
    } else if clicked(g, BUTTON_SAVE) {
        Confirmation::Save
    } else if clicked(g, BUTTON_DELETE) {
        Confirmation::LevelDelete
    } else {
        popup
    }
}

/// The interface after a popup was opened: yes and no are there, and for a
/// save the two fields of the pack, the pack's name being edited.
pub open spec fn popup_opened(v: EditorGuiView) -> EditorGuiView {
    let two = button_put(button_put(v.gui.buttons, BUTTON_YES), BUTTON_NO);
    if v.popup == Confirmation::Save {
        EditorGuiView {
            gui: GuiView { buttons: button_put(button_put(two, FIELD_PACK_NAME), FIELD_PACK_AUTHOR), ..v.gui },
            active_field: Some(FIELD_PACK_NAME),
            ..v
        }
    } else {
        EditorGuiView { gui: GuiView { buttons: two, ..v.gui }, ..v }
    }
}

/// Whether the popup closes: on yes, but for the exit, and on no.
pub open spec fn popup_closes(v: EditorGuiView) -> bool {
    v.popup != Confirmation::Nothing && ((clicked(v.gui, BUTTON_YES) && v.popup != Confirmation::Exit)
        || clicked(v.gui, BUTTON_NO))
}

/// The interface after the popup's buttons were looked at: yes confirms what
/// the popup asks, and a popup that closes takes its buttons with it.
pub open spec fn popup_answered(v: EditorGuiView) -> EditorGuiView {
    let confirmation = if v.popup != Confirmation::Nothing && clicked(v.gui, BUTTON_YES) {
        v.popup
    } else {
        Confirmation::Nothing
    };
    if popup_closes(v) {
        EditorGuiView {
            gui: GuiView {
                buttons: button_taken(
                    button_taken(button_taken(button_taken(v.gui.buttons, BUTTON_YES), BUTTON_NO), FIELD_PACK_NAME),
                    FIELD_PACK_AUTHOR,
                ),
                ..v.gui
            },
            confirmation,
            popup: Confirmation::Nothing,
            ..v
        }
    } else {
        EditorGuiView { confirmation, ..v }
    }
}

/// The field that is edited after a click on a field: a click on the one
/// that is edited ends the editing, a click on another moves it there.
pub open spec fn field_toggled(g: GuiView, active: Option<Id>, id: Id) -> Option<Id> {
    if clicked(g, id) {
        if active == Some(id) {
            None
        } else {
            Some(id)
        }
    } else {
        active
    }
}

/// Whether a field is there with the pointer over it.
pub open spec fn field_hovered(g: GuiView, id: Id, over: bool) -> bool {
    place_of(g.buttons, id).is_some() && over
}

/// Whether the pointer is over any field.
pub open spec fn any_field_hovered(g: GuiView, i: EditorGuiInput) -> bool {
    field_hovered(g, FIELD_LEVEL_NAME, i.over_level_name) || field_hovered(g, FIELD_PACK_NAME, i.over_pack_name)
        || field_hovered(g, FIELD_PACK_AUTHOR, i.over_pack_author)
}

/// The field that is edited after the clicks of a frame: clicks on the
/// fields toggle, and a click off every field ends the editing.
pub open spec fn field_after_clicks(v: EditorGuiView, i: EditorGuiInput) -> Option<Id> {
    let toggled = field_toggled(
        v.gui,
        field_toggled(v.gui, field_toggled(v.gui, v.active_field, FIELD_LEVEL_NAME), FIELD_PACK_NAME),
        FIELD_PACK_AUTHOR,
    );
    if !any_field_hovered(v.gui, i) && i.mouse_clicked {
        None
    } else {
        toggled
    }
}

/// The name that a field edits.
pub open spec fn name_of_field(id: Id) -> NameField {
    if id == FIELD_LEVEL_NAME {
        NameField::Level
    } else if id == FIELD_PACK_NAME {
        NameField::Pack
    } else {
        NameField::Author
    }
}

/// The character that reaches a name: the one typed, while a field is
/// edited whose button is there.
pub open spec fn key_for(g: GuiView, active: Option<Id>, typed: Option<char>) -> Option<(NameField, char)> {
    match (active, typed) {
        (Some(id), Some(c)) => if place_of(g.buttons, id).is_some() {
            Some((name_of_field(id), c))
        } else {
            None
        },
        _ => None,
    }
}

/// The field that is edited after the keys of a frame: return ends the
/// editing, and tab goes from one field of the pack to the other.
pub open spec fn field_after_keys(g: GuiView, active: Option<Id>, i: EditorGuiInput) -> Option<Id> {
    match active {
        Some(id) => if i.tab && id == FIELD_PACK_NAME {
            Some(FIELD_PACK_AUTHOR)
        } else if i.tab && id == FIELD_PACK_AUTHOR {
            Some(FIELD_PACK_NAME)
        } else {
            match key_for(g, active, i.typed) {
                Some((_, c)) => if upper(c) == RETURN {
                    None
                } else {
                    active
                },
                None => active,
            }
        },
        None => None,
    }
}

/// The tile that is drawn with after the first `n` tile buttons were looked
/// at: a click on a tile button picks its tile.
pub open spec fn tile_picked(g: GuiView, draw_type: Tile, n: int) -> Tile
    decreases n,
{
    if n <= 0 {
        draw_type
    } else if clicked(g, (n - 1) as Id) {
        tile_of((n - 1) as u8)
    } else {
        tile_picked(g, draw_type, n - 1)
    }
}

/// The interface before the fields are looked at: the buttons are updated,
/// a click opens a popup, and the popup's buttons are answered.
pub open spec fn popups_after(v: EditorGuiView, over: Seq<bool>, i: EditorGuiInput) -> EditorGuiView {
    let gui = gui_after(v.gui, over, i.pointer, visited(v.popup));
    let chosen = EditorGuiView { gui, popup: popup_chosen(gui, v.popup), ..v };
    let opened = if chosen.popup != Confirmation::Nothing && v.popup == Confirmation::Nothing {
        popup_opened(chosen)
    } else {
        chosen
    };
    popup_answered(opened)
}

/// The interface after an update.
pub open spec fn editor_gui_after(v: EditorGuiView, over: Seq<bool>, i: EditorGuiInput) -> EditorGuiView {
    let popups = popups_after(v, over, i);
    let active = field_after_clicks(popups, i);
    EditorGuiView { active_field: field_after_keys(popups.gui, active, i), ..popups }
}

/// The pack after an update of the interface: a typed character reaches the
/// name that is edited.
pub open spec fn pack_after_gui(p: EditorPackView, v: EditorGuiView, over: Seq<bool>, i: EditorGuiInput) -> EditorPackView {
    let popups = popups_after(v, over, i);
    match key_for(popups.gui, field_after_clicks(popups, i), i.typed) {
        Some((field, c)) => pack_typed(p, field, c),
        None => p,
    }
}

impl EditorGui {
    /// The interface with the editor's own buttons, no popup, and no field
    /// being edited.
    pub fn new() -> (r: EditorGui)
        ensures
            r@.confirmation == Confirmation::Nothing,
            r@.popup == Confirmation::Nothing,
            r@.active_field.is_none(),
            r@.gui.focus.hot.is_none(),
            r@.gui.focus.active.is_none(),
            r@.gui.buttons == crate::menus::idle_buttons(editor_ids()),
    {
        let ids: Vec<Id> = vec![
            0, 1, 2, 3, 4, 5, 6, 7, 8, 9, 10, 11, 12, 13, 14, 15,
            FIELD_LEVEL_NAME, BUTTON_EXIT, BUTTON_SAVE, BUTTON_CLEAR, BUTTON_UNDO, BUTTON_REDO, BUTTON_HELP,
            BUTTON_LEVEL_ADD, BUTTON_LEVEL_NEXT, BUTTON_LEVEL_PREV, BUTTON_SHIFT_NEXT, BUTTON_SHIFT_PREV,
            BUTTON_DELETE,
        ];
        assert(ids@ =~= editor_ids());
        let gui = Gui::new(&ids);
        EditorGui {
            gui,
            confirmation: Confirmation::Nothing,
            confirmation_popup: Confirmation::Nothing,
            active_text_field: None,
        }
    }

    /// The buttons.
    pub fn gui(&self) -> (r: &Gui)
        ensures
            r@ == self@.gui,
    {
        &self.gui
    }

    /// The field that is being edited.
    pub fn active_text_field(&self) -> (r: Option<Id>)
        ensures
            r == self@.active_field,
    {
        self.active_text_field
    }

    /// What the popup asks.
    pub fn confirmation_popup(&self) -> (r: Confirmation)
        ensures
            r == self@.popup,
    {
        self.confirmation_popup
    }

    /// Whether a popup is open.
    pub fn popup_open(&self) -> (r: bool)
        ensures
            r == (self@.popup != Confirmation::Nothing),
    {
        self.confirmation_popup != Confirmation::Nothing
    }

    /// Whether the exit was confirmed.
    pub fn button_exit(&self) -> (r: bool)
        ensures
            r == (self@.confirmation == Confirmation::Exit),
    {
        self.confirmation == Confirmation::Exit
    }

    /// Whether the save was confirmed.
    pub fn button_save(&self) -> (r: bool)
        ensures
            r == (self@.confirmation == Confirmation::Save),
    {
        self.confirmation == Confirmation::Save
    }

    /// Whether the deletion of the level was confirmed.
    pub fn button_level_delete(&self) -> (r: bool)
        ensures
            r == (self@.confirmation == Confirmation::LevelDelete),
    {
        self.confirmation == Confirmation::LevelDelete
    }

    /// Whether clear was clicked.
    pub fn button_clear(&self) -> (r: bool)
        ensures
            r == clicked(self@.gui, BUTTON_CLEAR),
    {
        self.gui.released(BUTTON_CLEAR)
    }

    /// Whether undo was clicked.
    pub fn button_undo(&self) -> (r: bool)
        ensures
            r == clicked(self@.gui, BUTTON_UNDO),
    {
        self.gui.released(BUTTON_UNDO)
    }

    /// Whether redo was clicked.
    pub fn button_redo(&self) -> (r: bool)
        ensures
            r == clicked(self@.gui, BUTTON_REDO),
    {
        self.gui.released(BUTTON_REDO)
    }

    /// Whether help was clicked.
    pub fn button_help(&self) -> (r: bool)
        ensures
            r == clicked(self@.gui, BUTTON_HELP),
    {
        self.gui.released(BUTTON_HELP)
    }

    /// Whether add level was clicked.
    pub fn button_level_add(&self) -> (r: bool)
        ensures
            r == clicked(self@.gui, BUTTON_LEVEL_ADD),
    {
        self.gui.released(BUTTON_LEVEL_ADD)
    }

    /// Whether next level was clicked.
    pub fn button_level_next(&self) -> (r: bool)
        ensures
            r == clicked(self@.gui, BUTTON_LEVEL_NEXT),
    {
        self.gui.released(BUTTON_LEVEL_NEXT)
    }

    /// Whether previous level was clicked.
    pub fn button_level_prev(&self) -> (r: bool)
        ensures
            r == clicked(self@.gui, BUTTON_LEVEL_PREV),
    {
        self.gui.released(BUTTON_LEVEL_PREV)
    }

    /// Whether shift next was clicked.
    pub fn button_level_shift_next(&self) -> (r: bool)
        ensures
            r == clicked(self@.gui, BUTTON_SHIFT_NEXT),
    {
        self.gui.released(BUTTON_SHIFT_NEXT)
    }

    /// Whether shift previous was clicked.
    pub fn button_level_shift_prev(&self) -> (r: bool)
        ensures
            r == clicked(self@.gui, BUTTON_SHIFT_PREV),
    {
        self.gui.released(BUTTON_SHIFT_PREV)
    }

    /// Ends the editing of the level's name.
    pub fn stop_editing_name(&mut self)
        ensures
            final(self)@ == (EditorGuiView {
                active_field: if old(self)@.active_field == Some(FIELD_LEVEL_NAME) {
                    None
                } else {
                    old(self)@.active_field
                },
                ..old(self)@
            }),
    {
        if self.active_text_field == Some(FIELD_LEVEL_NAME) {
            self.active_text_field = None;
        }
    }

    fn toggle_field(&mut self, id: Id)
        ensures
            final(self)@ == (EditorGuiView {
                active_field: field_toggled(old(self)@.gui, old(self)@.active_field, id),
                ..old(self)@
            }),
    {
        if self.gui.released(id) {
            self.active_text_field = if self.active_text_field == Some(id) {
                None
            } else {
                Some(id)
            };
        }
    }

    fn pick_tile(&self, draw_type: Tile) -> (r: Tile)
        ensures
            r == tile_picked(self@.gui, draw_type, TILE_BUTTONS as int),
    {
        let mut picked = draw_type;
        let mut id: Id = 0;
        while id < TILE_BUTTONS
            invariant
                id <= TILE_BUTTONS,
                picked == tile_picked(self@.gui, draw_type, id as int),
            decreases TILE_BUTTONS - id,
        {
            if self.gui.released(id) {
                picked = match Tile::from_nibble(id as u8) {
                    Some(t) => t,
                    None => Tile::Air,
                };
            }
            id += 1;
        }
        picked
    }

    fn run_popups(&mut self, over: &Vec<bool>, input: EditorGuiInput)
        ensures
            final(self)@ == popups_after(old(self)@, over@, input),
    {
        self.confirmation = Confirmation::Nothing;
        let was = self.confirmation_popup;
        if was == Confirmation::Nothing {
            self.gui.update(over, input.pointer, None);
        } else {
            let only: Vec<Id> = vec![BUTTON_YES, BUTTON_NO, FIELD_PACK_NAME, FIELD_PACK_AUTHOR];
            assert(only@ =~= popup_ids());
            self.gui.update(over, input.pointer, Some(&only));
        }
        if self.gui.released(BUTTON_EXIT) {
            self.confirmation_popup = Confirmation::Exit;
        } else if self.gui.released(BUTTON_SAVE) {
            self.confirmation_popup = Confirmation::Save;
        } else if self.gui.released(BUTTON_DELETE) {
            self.confirmation_popup = Confirmation::LevelDelete;
        }
        if self.confirmation_popup != Confirmation::Nothing && was == Confirmation::Nothing {
            self.gui.insert(BUTTON_YES);
            self.gui.insert(BUTTON_NO);
            if self.confirmation_popup == Confirmation::Save {
                self.gui.insert(FIELD_PACK_NAME);
                self.gui.insert(FIELD_PACK_AUTHOR);
                self.active_text_field = Some(FIELD_PACK_NAME);
            }
        }
        if self.confirmation_popup != Confirmation::Nothing {
            let yes = self.gui.released(BUTTON_YES);
            let no = self.gui.released(BUTTON_NO);
            if yes {
                self.confirmation = self.confirmation_popup;
            }
            if (yes && self.confirmation_popup != Confirmation::Exit) || no {
                self.gui.remove(BUTTON_YES);
                self.gui.remove(BUTTON_NO);
                self.gui.remove(FIELD_PACK_NAME);
                self.gui.remove(FIELD_PACK_AUTHOR);
                self.confirmation_popup = Confirmation::Nothing;
            }
        }
    }

    /// One update: `over[i]` says whether the pointer is over button `i`. A
    /// typed character goes to the name that is being edited, and a click
    /// on a tile button picks the tile that is drawn with.
    pub fn update(
        &mut self,
        over: &Vec<bool>,
        input: EditorGuiInput,
        level_pack: &mut EditorLevelPack,
        draw_type: &mut Tile,
    )
        requires
            old(level_pack).wf(),
        ensures
            final(level_pack).wf(),
            final(self)@ == editor_gui_after(old(self)@, over@, input),
            final(level_pack)@ == pack_after_gui(old(level_pack)@, old(self)@, over@, input),
            *final(draw_type) == tile_picked(final(self)@.gui, *old(draw_type), TILE_BUTTONS as int),
    {
        self.run_popups(over, input);
        let ghost popups = self@;
        let hovering = (self.gui.find(FIELD_LEVEL_NAME).is_some() && input.over_level_name) || (self.gui.find(
            FIELD_PACK_NAME,
        ).is_some() && input.over_pack_name) || (self.gui.find(FIELD_PACK_AUTHOR).is_some()
            && input.over_pack_author);
        self.toggle_field(FIELD_LEVEL_NAME);
        self.toggle_field(FIELD_PACK_NAME);
        self.toggle_field(FIELD_PACK_AUTHOR);
        if !hovering && input.mouse_clicked {
            self.active_text_field = None;
        }
        assert(self.active_text_field == field_after_clicks(popups, input));
        match self.active_text_field {
            Some(id) => {
                let mut done = false;
                match input.typed {
                    Some(c) => {
                        if self.gui.find(id).is_some() {
                            let field = if id == FIELD_LEVEL_NAME {
                                NameField::Level
                            } else if id == FIELD_PACK_NAME {
                                NameField::Pack
                            } else {
                                NameField::Author
                            };
                            done = level_pack.type_into(field, c);
                        }
                    },
                    None => {},
                }
                if done {
                    self.active_text_field = None;
                }
                if input.tab {
                    if id == FIELD_PACK_NAME {
                        self.active_text_field = Some(FIELD_PACK_AUTHOR);
                    }
                    if id == FIELD_PACK_AUTHOR {
                        self.active_text_field = Some(FIELD_PACK_NAME);
                    }
                }
            },
            None => {},
        }
        *draw_type = self.pick_tile(*draw_type);
    }
}

} // verus!
