use breakout::editor::SceneChange;
use breakout::editor_gui::Confirmation;
use breakout::editor_gui::EditorGui;
use breakout::editor_gui::EditorGuiInput;
use breakout::editor_level_pack::EditorLevelPack;
use breakout::gui::Button;
use breakout::gui::ButtonState;
use breakout::gui::Gui;
use breakout::gui::Pointer;
use breakout::menus::MainMenu;
use breakout::menus::PauseMenu;
use breakout::tile::Tile;

const IDLE: Pointer = Pointer { pressed: false, released: false };
const DOWN: Pointer = Pointer { pressed: true, released: false };
const UP: Pointer = Pointer { pressed: false, released: true };

fn over(len: usize, place: usize) -> Vec<bool> {
    let mut flags = vec![false; len];
    flags[place] = true;
    flags
}

fn click(gui: &mut Gui, len: usize, place: usize) {
    gui.update(&over(len, place), DOWN, None);
    gui.update(&over(len, place), UP, None);
}

fn state_of(gui: &Gui, id: u64) -> ButtonState {
    gui.button(id).unwrap().state
}

#[test]
fn the_first_button_under_the_pointer_is_hot() {
    let mut gui = Gui::new(&vec![7, 8, 9]);
    gui.update(&vec![false, true, true], IDLE, None);
    assert_eq!(state_of(&gui, 7), ButtonState::Idle);
    assert_eq!(state_of(&gui, 8), ButtonState::Hovered);
    assert_eq!(state_of(&gui, 9), ButtonState::Idle);
    assert!(gui.button(8).unwrap().hovered());
    assert!(gui.button(9).unwrap().idle());
    gui.update(&vec![false, false, false], IDLE, None);
    assert_eq!(state_of(&gui, 8), ButtonState::Idle);
    gui.update(&vec![], UP, None);
    assert_eq!(state_of(&gui, 7), ButtonState::Idle);
}

#[test]
fn press_and_release_on_one_button_is_a_click() {
    let mut gui = Gui::new(&vec![7, 8, 9]);
    gui.update(&over(3, 1), DOWN, None);
    assert_eq!(state_of(&gui, 8), ButtonState::Hovered);
    assert!(!gui.released(8));
    gui.update(&over(3, 1), IDLE, None);
    gui.update(&over(3, 1), UP, None);
    assert_eq!(state_of(&gui, 8), ButtonState::Released);
    assert!(gui.released(8));
    assert!(gui.button(8).unwrap().released());
    assert!(!gui.released(7));
    assert!(!gui.released(1234));
    gui.update(&over(3, 1), IDLE, None);
    assert!(!gui.released(8));
}

#[test]
fn dragging_off_a_button_is_no_click() {
    let mut gui = Gui::new(&vec![7, 8, 9]);
    gui.update(&over(3, 1), DOWN, None);
    gui.update(&over(3, 2), UP, None);
    assert_eq!(state_of(&gui, 8), ButtonState::Idle);
    assert_eq!(state_of(&gui, 9), ButtonState::Hovered);
    gui.update(&over(3, 1), UP, None);
    assert!(gui.released(8));
}

#[test]
fn a_restriction_narrows_the_buttons() {
    let mut gui = Gui::new(&vec![7, 8, 9]);
    let only = vec![9];
    gui.update(&vec![true, true, true], DOWN, Some(&only));
    assert_eq!(state_of(&gui, 7), ButtonState::Idle);
    assert_eq!(state_of(&gui, 9), ButtonState::Hovered);
    gui.update(&vec![true, true, true], UP, Some(&only));
    assert!(gui.released(9));
    assert!(!gui.released(7));
    gui.update(&over(3, 0), DOWN, None);
    gui.update(&over(3, 0), UP, Some(&only));
    assert!(!gui.released(7));
    gui.update(&over(3, 0), UP, None);
    assert!(!gui.released(7));
}

#[test]
fn buttons_are_put_in_and_taken_out() {
    let mut gui = Gui::new(&vec![7, 8]);
    assert_eq!(gui.find(8), Some(1));
    assert_eq!(gui.find(9), None);
    assert!(gui.button(9).is_none());
    gui.insert(9);
    assert_eq!(gui.find(9), Some(2));
    gui.insert(7);
    assert_eq!(gui.find(7), Some(0));
    assert_eq!(gui.find(9), Some(2));
    gui.remove(7);
    assert_eq!(gui.find(7), None);
    assert_eq!(gui.find(8), Some(0));
    gui.remove(100);
    assert_eq!(gui.find(9), Some(1));
    assert_eq!(*gui.button(9).unwrap(), Button { id: 9, state: ButtonState::Idle });
}

#[test]
fn pause_menu_resumes_and_exits() {
    let mut menu = PauseMenu::new();
    assert!(!menu.paused());
    menu.update(&over(2, 1), DOWN);
    menu.update(&over(2, 1), UP);
    assert!(!menu.button_exit());
    *menu.paused_mut() = true;
    assert!(menu.paused());
    menu.update(&over(2, 1), DOWN);
    menu.update(&over(2, 1), UP);
    assert!(menu.button_exit());
    assert!(menu.paused());
    menu.update(&over(2, 0), DOWN);
    menu.update(&over(2, 0), UP);
    assert!(!menu.paused());
    assert!(!menu.button_exit());
    menu.set_paused(true);
    assert!(menu.paused());
    assert_eq!(menu.gui().find(1), Some(1));
}

#[test]
fn main_menu_chooses_scenes_and_tabs() {
    let mut menu = MainMenu::new();
    assert!(!menu.on_info_tab());
    assert_eq!(menu.update(&over(5, 0), DOWN), None);
    assert_eq!(menu.update(&over(5, 0), UP), Some(SceneChange::Game));
    menu.update(&over(5, 1), DOWN);
    assert_eq!(menu.update(&over(5, 1), UP), Some(SceneChange::Editor { new: false }));
    menu.update(&over(5, 2), DOWN);
    assert_eq!(menu.update(&over(5, 2), UP), Some(SceneChange::Editor { new: true }));
    menu.update(&vec![false, false, false, true, true], DOWN);
    assert_eq!(menu.update(&vec![false, false, false, true, true], UP), None);
    assert!(menu.on_info_tab());
    assert_eq!(menu.update(&over(5, 0), DOWN), None);
    assert_eq!(menu.update(&over(5, 0), UP), None);
    menu.update(&vec![false, false, false, true, true], DOWN);
    assert_eq!(menu.update(&vec![false, false, false, true, true], UP), None);
    assert!(!menu.on_info_tab());
    assert!(menu.gui().button(4).is_some());
}

fn gui_input(pointer: Pointer) -> EditorGuiInput {
    EditorGuiInput {
        pointer,
        mouse_clicked: pointer.pressed,
        over_level_name: false,
        over_pack_name: false,
        over_pack_author: false,
        typed: None,
        tab: false,
    }
}

fn click_id(gui: &mut EditorGui, pack: &mut EditorLevelPack, tile: &mut Tile, id: u64) {
    let place = gui.gui().find(id).unwrap();
    let mut flags = vec![false; 40];
    flags[place] = true;
    let mut down = gui_input(DOWN);
    let mut up = gui_input(UP);
    if id == 100 {
        down.over_level_name = true;
        up.over_level_name = true;
    }
    if id == 302 {
        down.over_pack_name = true;
        up.over_pack_name = true;
    }
    if id == 303 {
        down.over_pack_author = true;
        up.over_pack_author = true;
    }
    gui.update(&flags, down, pack, tile);
    gui.update(&flags, up, pack, tile);
}

fn idle_frame(gui: &mut EditorGui, pack: &mut EditorLevelPack, tile: &mut Tile, input: EditorGuiInput) {
    gui.update(&vec![], input, pack, tile);
}

#[test]
fn tile_buttons_pick_the_tile() {
    let mut gui = EditorGui::new();
    let mut pack = EditorLevelPack::new();
    let mut tile = Tile::Red;
    click_id(&mut gui, &mut pack, &mut tile, 11);
    assert_eq!(tile, Tile::Stone);
    click_id(&mut gui, &mut pack, &mut tile, 15);
    assert_eq!(tile, Tile::Air);
    click_id(&mut gui, &mut pack, &mut tile, 0);
    assert_eq!(tile, Tile::White);
    click_id(&mut gui, &mut pack, &mut tile, 104);
    assert_eq!(tile, Tile::White);
}

#[test]
fn plain_buttons_report_their_click_for_one_frame() {
    let mut gui = EditorGui::new();
    let mut pack = EditorLevelPack::new();
    let mut tile = Tile::Red;
    click_id(&mut gui, &mut pack, &mut tile, 103);
    assert!(gui.button_clear());
    assert!(!gui.button_undo());
    click_id(&mut gui, &mut pack, &mut tile, 104);
    assert!(gui.button_undo());
    assert!(!gui.button_clear());
    click_id(&mut gui, &mut pack, &mut tile, 105);
    assert!(gui.button_redo());
    click_id(&mut gui, &mut pack, &mut tile, 106);
    assert!(gui.button_help());
    click_id(&mut gui, &mut pack, &mut tile, 200);
    assert!(gui.button_level_add());
    click_id(&mut gui, &mut pack, &mut tile, 201);
    assert!(gui.button_level_next());
    click_id(&mut gui, &mut pack, &mut tile, 202);
    assert!(gui.button_level_prev());
    click_id(&mut gui, &mut pack, &mut tile, 203);
    assert!(gui.button_level_shift_next());
    click_id(&mut gui, &mut pack, &mut tile, 204);
    assert!(gui.button_level_shift_prev());
    idle_frame(&mut gui, &mut pack, &mut tile, gui_input(IDLE));
    assert!(!gui.button_level_shift_prev());
}

#[test]
fn delete_asks_before_it_deletes() {
    let mut gui = EditorGui::new();
    let mut pack = EditorLevelPack::new();
    let mut tile = Tile::Red;
    click_id(&mut gui, &mut pack, &mut tile, 205);
    assert!(gui.popup_open());
    assert_eq!(gui.confirmation_popup(), Confirmation::LevelDelete);
    assert!(!gui.button_level_delete());
    assert!(gui.gui().find(300).is_some());
    assert!(gui.gui().find(302).is_none());
    click_id(&mut gui, &mut pack, &mut tile, 103);
    assert!(!gui.button_clear());
    click_id(&mut gui, &mut pack, &mut tile, 301);
    assert!(!gui.popup_open());
    assert!(!gui.button_level_delete());
    assert!(gui.gui().find(300).is_none());
    click_id(&mut gui, &mut pack, &mut tile, 205);
    click_id(&mut gui, &mut pack, &mut tile, 300);
    assert!(gui.button_level_delete());
    assert!(!gui.popup_open());
    idle_frame(&mut gui, &mut pack, &mut tile, gui_input(IDLE));
    assert!(!gui.button_level_delete());
}

#[test]
fn exit_keeps_its_popup_up() {
    let mut gui = EditorGui::new();
    let mut pack = EditorLevelPack::new();
    let mut tile = Tile::Red;
    click_id(&mut gui, &mut pack, &mut tile, 101);
    assert_eq!(gui.confirmation_popup(), Confirmation::Exit);
    assert!(!gui.button_exit());
    click_id(&mut gui, &mut pack, &mut tile, 300);
    assert!(gui.button_exit());
    assert!(gui.popup_open());
}

#[test]
fn save_popup_edits_the_names_of_the_pack() {
    let mut gui = EditorGui::new();
    let mut pack = EditorLevelPack::new();
    let mut tile = Tile::Red;
    click_id(&mut gui, &mut pack, &mut tile, 102);
    assert_eq!(gui.confirmation_popup(), Confirmation::Save);
    assert_eq!(gui.active_text_field(), Some(302));
    assert!(gui.gui().find(303).is_some());
    let mut input = gui_input(IDLE);
    input.typed = Some('o');
    idle_frame(&mut gui, &mut pack, &mut tile, input);
    input.typed = Some('k');
    idle_frame(&mut gui, &mut pack, &mut tile, input);
    assert_eq!(pack.name().as_str(), "OK");
    let mut tab = gui_input(IDLE);
    tab.tab = true;
    idle_frame(&mut gui, &mut pack, &mut tile, tab);
    assert_eq!(gui.active_text_field(), Some(303));
    input.typed = Some('m');
    idle_frame(&mut gui, &mut pack, &mut tile, input);
    input.typed = Some('e');
    idle_frame(&mut gui, &mut pack, &mut tile, input);
    input.typed = Some('\u{8}');
    idle_frame(&mut gui, &mut pack, &mut tile, input);
    assert_eq!(pack.author().as_str(), "M");
    idle_frame(&mut gui, &mut pack, &mut tile, tab);
    assert_eq!(gui.active_text_field(), Some(302));
    input.typed = Some('\r');
    idle_frame(&mut gui, &mut pack, &mut tile, input);
    assert_eq!(gui.active_text_field(), None);
    input.typed = Some('z');
    idle_frame(&mut gui, &mut pack, &mut tile, input);
    assert_eq!(pack.name().as_str(), "OK");
    click_id(&mut gui, &mut pack, &mut tile, 303);
    assert_eq!(gui.active_text_field(), Some(303));
    click_id(&mut gui, &mut pack, &mut tile, 300);
    assert!(gui.button_save());
    assert!(!gui.popup_open());
    assert!(gui.gui().find(302).is_none());
    assert_eq!(pack.level().name().as_str(), "");
}

#[test]
fn the_level_name_field_toggles() {
    let mut gui = EditorGui::new();
    let mut pack = EditorLevelPack::new();
    let mut tile = Tile::Red;
    click_id(&mut gui, &mut pack, &mut tile, 100);
    assert_eq!(gui.active_text_field(), Some(100));
    let mut input = gui_input(IDLE);
    input.typed = Some('a');
    idle_frame(&mut gui, &mut pack, &mut tile, input);
    assert_eq!(pack.level().name().as_str(), "A");
    click_id(&mut gui, &mut pack, &mut tile, 100);
    assert_eq!(gui.active_text_field(), None);
    click_id(&mut gui, &mut pack, &mut tile, 100);
    gui.stop_editing_name();
    assert_eq!(gui.active_text_field(), None);
    click_id(&mut gui, &mut pack, &mut tile, 100);
    idle_frame(&mut gui, &mut pack, &mut tile, gui_input(DOWN));
    assert_eq!(gui.active_text_field(), None);
}
