use breakout::editor::ClickAction;
use breakout::editor::Editor;
use breakout::editor::EditorButtons;
use breakout::editor::EditorPointer;
use breakout::editor::SceneChange;
use breakout::editor_level_pack::EditorLevelPack;
use breakout::game::Game;
use breakout::game::GameGate;
use breakout::game::Timer;
use breakout::game::TimerKind;
use breakout::gui::Pointer;
use breakout::level_pack::LevelPack;
use breakout::tile::Tile;
use breakout::world::Lives;
use breakout::world::WorldUpdateReturn;

const NO_BUTTONS: EditorButtons = EditorButtons {
    clear: false,
    exit: false,
    save: false,
    undo: false,
    redo: false,
    level_add: false,
    level_next: false,
    level_prev: false,
    level_shift_next: false,
    level_shift_prev: false,
    level_delete: false,
};

fn pointer(in_area: bool, hovered: Option<usize>) -> EditorPointer {
    EditorPointer {
        in_area,
        hovered,
        left_pressed: false,
        left_released: false,
        right_pressed: false,
        right_released: false,
    }
}

fn two_level_pack() -> LevelPack {
    let mut pack = EditorLevelPack::new();
    pack.name_mut().push_str("TWO");
    pack.set_tile(0, Tile::Red);
    pack.add_level();
    pack.set_tile(1, Tile::Blue);
    LevelPack::load_from_file(pack.encode_to_file()).unwrap()
}

#[test]
fn a_drag_draws_tiles_as_one_gesture() {
    let mut editor = Editor::new();
    assert_eq!(editor.draw_type(), Tile::Red);
    assert_eq!(editor.click_action(), ClickAction::Nothing);
    let mut down = pointer(true, Some(5));
    down.left_pressed = true;
    editor.update(NO_BUTTONS, down);
    assert_eq!(editor.click_action(), ClickAction::Draw);
    editor.update(NO_BUTTONS, pointer(true, Some(6)));
    editor.update(NO_BUTTONS, pointer(true, None));
    editor.update(NO_BUTTONS, pointer(true, Some(9999)));
    let mut up = pointer(true, Some(7));
    up.left_released = true;
    editor.update(NO_BUTTONS, up);
    assert_eq!(editor.click_action(), ClickAction::Nothing);
    let tiles = editor.level_pack().level().tiles();
    assert_eq!(tiles[5], Tile::Red);
    assert_eq!(tiles[6], Tile::Red);
    assert_eq!(tiles[7], Tile::Air);
    editor.update(NO_BUTTONS, pointer(true, Some(8)));
    assert_eq!(editor.level_pack().level().tiles()[8], Tile::Air);
    let mut undo = NO_BUTTONS;
    undo.undo = true;
    editor.update(undo, pointer(false, None));
    assert!(editor.level_pack().level().complete());
    assert!(!editor.level_pack().timewarp().can_undo());
    let mut redo = NO_BUTTONS;
    redo.redo = true;
    editor.update(redo, pointer(false, None));
    assert_eq!(editor.level_pack().level().tiles()[6], Tile::Red);
}

#[test]
fn the_right_button_erases() {
    let mut editor = Editor::new();
    editor.set_draw_type(Tile::Gold);
    let mut down = pointer(true, Some(3));
    down.left_pressed = true;
    down.left_released = true;
    editor.update(NO_BUTTONS, down);
    assert_eq!(editor.level_pack().level().tiles()[3], Tile::Air);
    let mut draw = pointer(true, Some(3));
    draw.left_pressed = true;
    editor.update(NO_BUTTONS, draw);
    assert_eq!(editor.level_pack().level().tiles()[3], Tile::Gold);
    let mut erase = pointer(true, Some(3));
    erase.right_pressed = true;
    editor.update(NO_BUTTONS, erase);
    assert_eq!(editor.click_action(), ClickAction::Erase);
    assert_eq!(editor.level_pack().level().tiles()[3], Tile::Air);
    let mut wrong_button = pointer(true, Some(4));
    wrong_button.left_released = true;
    editor.update(NO_BUTTONS, wrong_button);
    assert_eq!(editor.click_action(), ClickAction::Erase);
}

#[test]
fn leaving_the_grid_ends_the_gesture() {
    let mut editor = Editor::new();
    let mut down = pointer(true, Some(5));
    down.left_pressed = true;
    editor.update(NO_BUTTONS, down);
    editor.update(NO_BUTTONS, pointer(false, Some(6)));
    assert_eq!(editor.click_action(), ClickAction::Nothing);
    assert_eq!(editor.level_pack().level().tiles()[6], Tile::Air);
    assert!(editor.level_pack().timewarp().can_undo());
    editor.update(NO_BUTTONS, pointer(false, None));
    let mut undo = NO_BUTTONS;
    undo.undo = true;
    editor.update(undo, pointer(false, None));
    assert!(!editor.level_pack().timewarp().can_undo());
}

#[test]
fn editor_buttons_work_on_the_pack() {
    let mut editor = Editor::new();
    let mut add = NO_BUTTONS;
    add.level_add = true;
    editor.update(add, pointer(false, None));
    editor.update(add, pointer(false, None));
    assert_eq!(editor.level_pack().level_count(), 3);
    assert_eq!(editor.level_pack().current(), 2);
    let mut prev = NO_BUTTONS;
    prev.level_prev = true;
    editor.update(prev, pointer(false, None));
    assert_eq!(editor.level_pack().current(), 1);
    let mut shift = NO_BUTTONS;
    shift.level_shift_prev = true;
    editor.update(shift, pointer(false, None));
    assert_eq!(editor.level_pack().current(), 0);
    let mut next = NO_BUTTONS;
    next.level_next = true;
    next.level_shift_next = true;
    editor.update(next, pointer(false, None));
    assert_eq!(editor.level_pack().current(), 2);
    let mut delete = NO_BUTTONS;
    delete.level_delete = true;
    editor.update(delete, pointer(false, None));
    assert_eq!(editor.level_pack().level_count(), 2);
    assert_eq!(editor.level_pack().current(), 1);
}

#[test]
fn clear_blanks_the_level_once() {
    let mut editor = Editor::new();
    let mut clear = NO_BUTTONS;
    clear.clear = true;
    editor.update(clear, pointer(false, None));
    assert!(!editor.level_pack().timewarp().can_undo());
    let mut down = pointer(true, Some(2));
    down.left_pressed = true;
    down.left_released = true;
    editor.update(NO_BUTTONS, down);
    let mut drawn = pointer(true, Some(2));
    drawn.left_pressed = true;
    editor.update(NO_BUTTONS, drawn);
    editor.update(clear, pointer(false, None));
    assert_eq!(editor.level_pack().level().tiles()[2], Tile::Air);
    let mut undo = NO_BUTTONS;
    undo.undo = true;
    editor.update(undo, pointer(false, None));
    assert_eq!(editor.level_pack().level().tiles()[2], Tile::Red);
}

#[test]
fn exit_and_save_are_handed_on() {
    let mut editor = Editor::from_level_pack(&two_level_pack());
    assert_eq!(editor.level_pack().name().as_str(), "TWO");
    assert_eq!(editor.level_pack().level_count(), 2);
    let mut save = NO_BUTTONS;
    save.save = true;
    let out = editor.update(save, pointer(false, None));
    assert!(out.save);
    assert_eq!(out.change, None);
    let mut exit = NO_BUTTONS;
    exit.exit = true;
    exit.level_add = true;
    let out = editor.update(exit, pointer(false, None));
    assert_eq!(out.change, Some(SceneChange::MainMenu));
    assert!(!out.save);
    assert_eq!(editor.level_pack().level_count(), 2);
}

#[test]
fn a_game_starts_on_the_first_level() {
    let game = Game::new(two_level_pack());
    assert_eq!(game.current_level(), 0);
    assert_eq!(game.world().lives(), Lives::Count(2));
    assert_eq!(game.world().level().tiles()[0], Tile::Red);
    assert_eq!(game.timer(), None);
    assert!(!game.pack_complete());
    assert_eq!(game.pack_time(), 0);
    assert_eq!(game.level_pack().name().as_str(), "TWO");
    assert!(!game.pause_menu().paused());
}

#[test]
fn the_pause_key_stops_the_game() {
    let idle = Pointer { pressed: false, released: false };
    let mut game = Game::new(two_level_pack());
    assert_eq!(game.update_menu(&vec![], idle, false), GameGate::Running);
    assert_eq!(game.update_menu(&vec![], idle, true), GameGate::Paused);
    assert_eq!(game.update_menu(&vec![], idle, false), GameGate::Paused);
    game.update_menu(&vec![false, true], Pointer { pressed: true, released: false }, false);
    let gate = game.update_menu(&vec![false, true], Pointer { pressed: false, released: true }, false);
    assert_eq!(gate, GameGate::Exit);
    game.update_menu(&vec![true, false], Pointer { pressed: true, released: false }, false);
    let gate = game.update_menu(&vec![true, false], Pointer { pressed: false, released: true }, false);
    assert_eq!(gate, GameGate::Running);
    assert_eq!(game.update_menu(&vec![], idle, true), GameGate::Paused);
    assert_eq!(game.update_menu(&vec![], idle, true), GameGate::Running);
}

#[test]
fn the_clock_runs_while_a_level_is_played() {
    let mut game = Game::new(two_level_pack());
    assert_eq!(game.update(16, WorldUpdateReturn::Nothing, false), None);
    assert_eq!(game.update(16, WorldUpdateReturn::Nothing, true), None);
    assert_eq!(game.pack_time(), 32);
    assert_eq!(game.timer(), None);
}

#[test]
fn a_stuck_ball_gets_a_fresh_one_after_the_notice() {
    let mut game = Game::new(two_level_pack());
    game.world_mut().begin_frame(16, false, true);
    assert!(!game.world().paddle().carrying());
    game.update(16, WorldUpdateReturn::BallStuck, false);
    assert_eq!(game.timer(), Some(Timer { left: 3_000, kind: TimerKind::BallStuck }));
    game.update(2_999, WorldUpdateReturn::BallStuck, false);
    assert_eq!(game.timer(), Some(Timer { left: 1, kind: TimerKind::BallStuck }));
    assert!(!game.world().paddle().carrying());
    game.update(5, WorldUpdateReturn::Nothing, false);
    assert_eq!(game.timer(), None);
    assert!(game.world().paddle().carrying());
}

#[test]
fn finished_levels_lead_through_the_pack() {
    let mut game = Game::new(two_level_pack());
    game.world_mut().break_tile_with(0, 2);
    assert!(game.world().level_complete());
    assert_eq!(game.update(16, WorldUpdateReturn::Nothing, false), None);
    assert_eq!(game.timer(), Some(Timer { left: 3_000, kind: TimerKind::NextLevel }));
    assert_eq!(game.update(16, WorldUpdateReturn::GameOver, false), None);
    assert_eq!(game.timer(), Some(Timer { left: 2_984, kind: TimerKind::NextLevel }));
    assert_eq!(game.pack_time(), 0);
    assert_eq!(game.update(3_000, WorldUpdateReturn::Nothing, false), None);
    assert_eq!(game.current_level(), 1);
    assert_eq!(game.timer(), None);
    assert_eq!(game.world().score(), 10);
    assert_eq!(game.world().lives(), Lives::Count(2));
    assert_eq!(game.world().level().tiles()[1], Tile::Blue);
    assert_eq!(game.pack_time(), 3_000);
    game.world_mut().break_tile_with(1, 2);
    game.update(1, WorldUpdateReturn::Nothing, false);
    assert_eq!(game.update(3_000, WorldUpdateReturn::Nothing, true), None);
    assert!(game.pack_complete());
    assert_eq!(game.current_level(), 2);
    assert_eq!(game.update(16, WorldUpdateReturn::Nothing, false), None);
    assert_eq!(game.current_level(), 2);
    assert_eq!(game.pack_time(), 3_000);
    assert_eq!(game.update(16, WorldUpdateReturn::Nothing, true), Some(SceneChange::MainMenu));
}

#[test]
fn a_lost_game_leaves_after_its_notice() {
    let mut game = Game::new(two_level_pack());
    assert_eq!(game.update(16, WorldUpdateReturn::GameOver, false), None);
    assert_eq!(game.timer(), Some(Timer { left: 6_000, kind: TimerKind::GameOver }));
    assert_eq!(game.update(5_999, WorldUpdateReturn::GameOver, false), None);
    assert_eq!(game.timer(), Some(Timer { left: 1, kind: TimerKind::GameOver }));
    assert_eq!(game.update(1, WorldUpdateReturn::GameOver, false), Some(SceneChange::MainMenu));
}

#[test]
fn the_clock_shows_minutes_seconds_and_milliseconds() {
    let mut game = Game::new(two_level_pack());
    assert_eq!(game.clock(), (0, 0, 0));
    game.update(61_234, WorldUpdateReturn::Nothing, false);
    assert_eq!(game.clock(), (1, 1, 234));
    game.update(99 * 60_000, WorldUpdateReturn::Nothing, false);
    assert_eq!(game.clock(), (99, 1, 234));
    game.update(u64::MAX, WorldUpdateReturn::Nothing, false);
    assert_eq!(game.pack_time(), u64::MAX);
    assert_eq!(game.clock().0, 99);
}

#[test]
fn a_click_that_changes_nothing_leaves_nothing_to_undo() {
    let mut editor = Editor::new();
    let mut click = pointer(true, Some(4));
    click.left_pressed = true;
    click.left_released = true;
    editor.update(NO_BUTTONS, click);
    assert!(!editor.level_pack().timewarp().can_undo());
    let mut erase = pointer(true, Some(4));
    erase.right_pressed = true;
    editor.update(NO_BUTTONS, erase);
    let mut up = pointer(true, Some(4));
    up.right_released = true;
    editor.update(NO_BUTTONS, up);
    assert!(!editor.level_pack().timewarp().can_undo());
    let mut draw = pointer(true, Some(4));
    draw.left_pressed = true;
    editor.update(NO_BUTTONS, draw);
    editor.update(NO_BUTTONS, pointer(false, None));
    assert!(editor.level_pack().timewarp().can_undo());
    let mut again = pointer(true, Some(4));
    again.left_pressed = true;
    editor.update(NO_BUTTONS, again);
    editor.update(NO_BUTTONS, pointer(false, None));
    let mut undo = NO_BUTTONS;
    undo.undo = true;
    editor.update(undo, pointer(false, None));
    assert!(!editor.level_pack().timewarp().can_undo());
    assert!(editor.level_pack().level().complete());
}
