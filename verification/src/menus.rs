//! The pause menu and the main menu: which buttons they visit and what a
//! click on each does.

use vstd::prelude::*;
use crate::editor::SceneChange;
use crate::gui::gui_after;
use crate::gui::place_of;
use crate::gui::Button;
use crate::gui::ButtonState;
use crate::gui::Focus;
use crate::gui::Gui;
use crate::gui::GuiView;
use crate::gui::Id;
use crate::gui::Pointer;

verus! {

/// The button that resumes a paused game.
pub const BUTTON_RESUME: Id = 0;

/// The button that leaves a paused game.
pub const BUTTON_EXIT: Id = 1;

/// The button that starts a game.
pub const BUTTON_PLAY: Id = 0;

/// The button that edits the pack that is loaded.
pub const BUTTON_EDIT: Id = 1;

/// The button that edits a new pack.
pub const BUTTON_EDIT_NEW: Id = 2;

/// The button that opens the info tab.
pub const BUTTON_INFO: Id = 3;

/// The button that closes the info tab.
pub const BUTTON_BACK: Id = 4;

/// Whether the button with this id shows a release.
pub open spec fn clicked(g: GuiView, id: Id) -> bool {
    match place_of(g.buttons, id) {
        Some(i) => g.buttons[i].state == ButtonState::Released,
        None => false,
    }
}

/// Idle buttons with these ids.
pub open spec fn idle_buttons(ids: Seq<Id>) -> Seq<Button> {
    Seq::new(ids.len(), |i: int| Button { id: ids[i], state: ButtonState::Idle })
}

/// What a pause menu is.
pub ghost struct PauseMenuView {
    pub gui: GuiView,
    pub paused: bool,
}

/// The pause menu: a resume and an exit button, shown while paused.
pub struct PauseMenu {
    gui: Gui,
    paused: bool,
}

impl View for PauseMenu {
    type V = PauseMenuView;

    closed spec fn view(&self) -> PauseMenuView {
        PauseMenuView { gui: self.gui@, paused: self.paused }
    }
}

/// The pause menu after an update: untouched while the game runs; else the
/// buttons are updated, and a click on resume ends the pause.
pub open spec fn pause_menu_after(m: PauseMenuView, over: Seq<bool>, p: Pointer) -> PauseMenuView {
    if !m.paused {
        m
    } else {
        let gui = gui_after(m.gui, over, p, None);
        PauseMenuView { gui, paused: !clicked(gui, BUTTON_RESUME) }
    }
}

impl PauseMenu {
    /// A pause menu of a running game.
    pub fn new() -> (r: PauseMenu)
        ensures
            r@.paused == false,
            r@.gui.focus == (Focus { hot: None, active: None }),
            r@.gui.buttons == idle_buttons(seq![BUTTON_RESUME, BUTTON_EXIT]),
    {
        let ids: Vec<Id> = vec![BUTTON_RESUME, BUTTON_EXIT];
        let gui = Gui::new(&ids);
        assert(ids@ =~= seq![BUTTON_RESUME, BUTTON_EXIT]);
        PauseMenu { gui, paused: false }
    }

    /// Whether the game is paused.
    pub fn paused(&self) -> (r: bool)
        ensures
            r == self@.paused,
    {
        self.paused
    }

    /// Whether the game is paused, to be written to.
    pub fn paused_mut(&mut self) -> (r: &mut bool)
        ensures
            *r == old(self)@.paused,
            final(self)@ == (PauseMenuView { paused: *final(r), ..old(self)@ }),
    {
        &mut self.paused
    }

    /// Pauses the game or lets it run.
    pub fn set_paused(&mut self, paused: bool)
        ensures
            final(self)@ == (PauseMenuView { paused, ..old(self)@ }),
    {
        self.paused = paused;
    }

    /// Whether the exit button was clicked.
    pub fn button_exit(&self) -> (r: bool)
        ensures
            r == clicked(self@.gui, BUTTON_EXIT),
    {
        self.gui.released(BUTTON_EXIT)
    }

    /// The buttons.
    pub fn gui(&self) -> (r: &Gui)
        ensures
            r@ == self@.gui,
    {
        &self.gui
    }

    /// One update: `over[i]` says whether the pointer is over button `i`.
    pub fn update(&mut self, over: &Vec<bool>, pointer: Pointer)
        ensures
            final(self)@ == pause_menu_after(old(self)@, over@, pointer),
    {
        if !self.paused {
            return;
        }
        self.gui.update(over, pointer, None);
        if self.gui.released(BUTTON_RESUME) {
            self.paused = false;
        }
    }
}

/// What a main menu is.
pub ghost struct MainMenuView {
    pub gui: GuiView,
    pub on_info_tab: bool,
}

/// The main menu: play, edit, edit new and info; on the info tab, back.
pub struct MainMenu {
    gui: Gui,
    on_info_tab: bool,
}

impl View for MainMenu {
    type V = MainMenuView;

    closed spec fn view(&self) -> MainMenuView {
        MainMenuView { gui: self.gui@, on_info_tab: self.on_info_tab }
    }
}

/// The buttons that the main menu visits.
pub open spec fn menu_ids(on_info_tab: bool) -> Seq<Id> {
    if on_info_tab {
        seq![BUTTON_BACK]
    } else {
        seq![BUTTON_PLAY, BUTTON_EDIT, BUTTON_EDIT_NEW, BUTTON_INFO]
    }
}

/// The scene that the clicked button asks for: play comes before edit, edit
/// before edit new.
pub open spec fn menu_choice(g: GuiView) -> Option<SceneChange> {
    if clicked(g, BUTTON_PLAY) {
        Some(SceneChange::Game)
    } else if clicked(g, BUTTON_EDIT) {
        Some(SceneChange::Editor { new: false })
    } else if clicked(g, BUTTON_EDIT_NEW) {
        Some(SceneChange::Editor { new: true })
    } else {
        None
    }
}

/// The main menu after an update: the buttons of the tab that is open are
/// updated; unless a scene was chosen, info opens the info tab and back
/// closes it.
pub open spec fn main_menu_after(m: MainMenuView, over: Seq<bool>, p: Pointer) -> MainMenuView {
    let gui = gui_after(m.gui, over, p, Some(menu_ids(m.on_info_tab)));
    MainMenuView {
        gui,
        on_info_tab: if menu_choice(gui).is_some() {
            m.on_info_tab
        } else if clicked(gui, BUTTON_BACK) {
            false
        } else if clicked(gui, BUTTON_INFO) {
            true
        } else {
            m.on_info_tab
        },
    }
}

impl MainMenu {
    /// A main menu on its first tab.
    pub fn new() -> (r: MainMenu)
        ensures
            r@.on_info_tab == false,
            r@.gui.focus == (Focus { hot: None, active: None }),
            r@.gui.buttons == idle_buttons(
                seq![BUTTON_PLAY, BUTTON_EDIT, BUTTON_EDIT_NEW, BUTTON_INFO, BUTTON_BACK],
            ),
    {
        let ids: Vec<Id> = vec![BUTTON_PLAY, BUTTON_EDIT, BUTTON_EDIT_NEW, BUTTON_INFO, BUTTON_BACK];
        let gui = Gui::new(&ids);
        assert(ids@ =~= seq![BUTTON_PLAY, BUTTON_EDIT, BUTTON_EDIT_NEW, BUTTON_INFO, BUTTON_BACK]);
        MainMenu { gui, on_info_tab: false }
    }

    /// Whether the info tab is open.
    pub fn on_info_tab(&self) -> (r: bool)
        ensures
            r == self@.on_info_tab,
    {
        self.on_info_tab
    }

    /// The buttons.
    pub fn gui(&self) -> (r: &Gui)
        ensures
            r@ == self@.gui,
    {
        &self.gui
    }

    /// One update: `over[i]` says whether the pointer is over button `i`.
    /// Hands back the scene that a click asks for.
    pub fn update(&mut self, over: &Vec<bool>, pointer: Pointer) -> (change: Option<SceneChange>)
        ensures
            final(self)@ == main_menu_after(old(self)@, over@, pointer),
            change == menu_choice(final(self)@.gui),
    {
        let ids: Vec<Id> = if self.on_info_tab {
            vec![BUTTON_BACK]
        } else {
            vec![BUTTON_PLAY, BUTTON_EDIT, BUTTON_EDIT_NEW, BUTTON_INFO]
        };
        assert(ids@ =~= menu_ids(self.on_info_tab));
        self.gui.update(over, pointer, Some(&ids));
        if self.gui.released(BUTTON_PLAY) {
            return Some(SceneChange::Game);
        }
        if self.gui.released(BUTTON_EDIT) {
            return Some(SceneChange::Editor { new: false });
        }
        if self.gui.released(BUTTON_EDIT_NEW) {
            return Some(SceneChange::Editor { new: true });
        }
        if self.gui.released(BUTTON_INFO) {
            self.on_info_tab = true;
        }
        if self.gui.released(BUTTON_BACK) {
            self.on_info_tab = false;
        }
        None
    }
}

} // verus!
