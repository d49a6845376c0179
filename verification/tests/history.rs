use breakout::editor_level_pack::EditorLevel;
use breakout::editor_level_pack::EditorLevelPack;
use breakout::editor_level_pack::NameField;
use breakout::level::grids_equal;
use breakout::level::Level;
use breakout::level::TileArray;
use breakout::level::LEVEL_TILES;
use breakout::level_pack::LevelPack;
use breakout::tile::Tile;
use breakout::timewarp::Timewarp;
use breakout::timewarp::HISTORY_LIMIT;

fn grid_with(tiles: &[(usize, Tile)]) -> TileArray {
    let mut grid = [Tile::Air; LEVEL_TILES];
    for (i, t) in tiles {
        grid[*i] = *t;
    }
    grid
}

fn gesture(timewarp: &mut Timewarp, level: &mut Level, index: usize, tile: Tile) {
    timewarp.save_previous_state(level);
    level.set_tile(index, tile);
    timewarp.push_current_state();
}

#[test]
fn new_history_has_nothing_to_undo_or_redo() {
    let mut level = Level::new();
    level.set_tile(1, Tile::Red);
    let mut timewarp = Timewarp::new(&level);
    assert!(!timewarp.can_undo());
    assert!(!timewarp.can_redo());
    timewarp.undo(&mut level);
    timewarp.redo(&mut level);
    assert!(grids_equal(level.tiles(), &grid_with(&[(1, Tile::Red)])));
    assert!(!timewarp.can_undo());
    assert!(!timewarp.can_redo());
}

#[test]
fn two_undos_give_the_first_grid_back() {
    let a = grid_with(&[]);
    let b = grid_with(&[(0, Tile::Red)]);
    let c = grid_with(&[(0, Tile::Red), (1, Tile::Blue)]);
    let mut level = Level::new();
    let mut timewarp = Timewarp::new(&level);
    gesture(&mut timewarp, &mut level, 0, Tile::Red);
    assert!(grids_equal(level.tiles(), &b));
    gesture(&mut timewarp, &mut level, 1, Tile::Blue);
    assert!(grids_equal(level.tiles(), &c));
    timewarp.undo(&mut level);
    assert!(grids_equal(level.tiles(), &b));
    timewarp.undo(&mut level);
    assert!(grids_equal(level.tiles(), &a));
    assert!(!timewarp.can_undo());
    assert!(timewarp.can_redo());
    timewarp.redo(&mut level);
    assert!(grids_equal(level.tiles(), &b));
    timewarp.redo(&mut level);
    assert!(grids_equal(level.tiles(), &c));
    assert!(!timewarp.can_redo());
}

#[test]
fn a_committed_edit_after_an_undo_clears_redo() {
    let mut level = Level::new();
    let mut timewarp = Timewarp::new(&level);
    gesture(&mut timewarp, &mut level, 0, Tile::Red);
    gesture(&mut timewarp, &mut level, 1, Tile::Blue);
    timewarp.undo(&mut level);
    assert!(timewarp.can_redo());
    gesture(&mut timewarp, &mut level, 2, Tile::Gold);
    assert!(!timewarp.can_redo());
    timewarp.redo(&mut level);
    assert!(grids_equal(level.tiles(), &grid_with(&[(0, Tile::Red), (2, Tile::Gold)])));
    timewarp.undo(&mut level);
    assert!(grids_equal(level.tiles(), &grid_with(&[(0, Tile::Red)])));
}

#[test]
fn repeated_saves_make_one_undo_entry() {
    let mut level = Level::new();
    level.set_tile(8, Tile::Green);
    let mut timewarp = Timewarp::new(&Level::new());
    for _ in 0..10 {
        timewarp.save_previous_state(&level);
    }
    timewarp.push_current_state();
    level.set_tile(8, Tile::Air);
    timewarp.undo(&mut level);
    assert!(grids_equal(level.tiles(), &grid_with(&[(8, Tile::Green)])));
    assert!(!timewarp.can_undo());
}

#[test]
fn a_drag_over_many_tiles_is_one_undo_entry() {
    let mut level = Level::new();
    let mut timewarp = Timewarp::new(&level);
    timewarp.save_previous_state(&level);
    for i in 0..20 {
        level.set_tile(i, Tile::Orange);
    }
    timewarp.push_current_state();
    timewarp.undo(&mut level);
    assert!(level.complete());
    assert!(grids_equal(level.tiles(), &grid_with(&[])));
    assert!(!timewarp.can_undo());
}

#[test]
fn the_oldest_entry_goes_when_the_history_is_full() {
    let mut level = Level::new();
    let mut timewarp = Timewarp::new(&level);
    for i in 0..HISTORY_LIMIT + 5 {
        gesture(&mut timewarp, &mut level, i, Tile::Red);
    }
    let mut undos = 0;
    while timewarp.can_undo() {
        timewarp.undo(&mut level);
        undos += 1;
    }
    assert_eq!(undos, HISTORY_LIMIT);
    let mut oldest = [Tile::Air; LEVEL_TILES];
    for tile in oldest.iter_mut().take(5) {
        *tile = Tile::Red;
    }
    assert!(grids_equal(level.tiles(), &oldest));
    let mut redos = 0;
    while timewarp.can_redo() {
        timewarp.redo(&mut level);
        redos += 1;
    }
    assert_eq!(redos, HISTORY_LIMIT);
}

#[test]
fn undo_keeps_the_name() {
    let mut level = Level::new();
    level.name_mut().push_str("KEEP");
    let mut timewarp = Timewarp::new(&level);
    gesture(&mut timewarp, &mut level, 0, Tile::Red);
    timewarp.undo(&mut level);
    assert_eq!(level.name().as_str(), "KEEP");
}

#[test]
fn editor_level_wraps_level_and_history() {
    let mut level = EditorLevel::new();
    level.save_previous_state();
    level.push_current_state();
    level.undo();
    level.redo();
    level.undo();
    let mut source = Level::new();
    source.set_tile(0, Tile::Red);
    let mut taken = EditorLevel::from_level(source);
    taken.undo();
    taken.redo();
}

#[test]
fn new_pack_has_one_blank_level() {
    let pack = EditorLevelPack::new();
    assert_eq!(pack.level_count(), 1);
    assert_eq!(pack.current(), 0);
    assert_eq!(pack.name().as_str(), "");
    assert_eq!(pack.author().as_str(), "");
    assert!(pack.level().complete());
    assert!(!pack.can_next());
    assert!(!pack.can_prev());
    assert!(!pack.can_shift_next());
    assert!(!pack.can_shift_prev());
    assert!(pack.can_add());
    assert!(!pack.timewarp().can_undo());
}

#[test]
fn levels_are_added_behind_the_cursor() {
    let mut pack = EditorLevelPack::new();
    pack.level_mut().name_mut().push_str("A");
    pack.add_level();
    assert_eq!(pack.current(), 1);
    pack.level_mut().name_mut().push_str("C");
    pack.prev();
    assert_eq!(pack.current(), 0);
    pack.prev();
    assert_eq!(pack.current(), 0);
    pack.add_level();
    pack.level_mut().name_mut().push_str("B");
    assert_eq!(pack.level_count(), 3);
    assert_eq!(pack.current(), 1);
    pack.next();
    assert_eq!(pack.level().name().as_str(), "C");
    pack.next();
    assert_eq!(pack.current(), 2);
    pack.prev();
    assert_eq!(pack.level().name().as_str(), "B");
    pack.prev();
    assert_eq!(pack.level().name().as_str(), "A");
}

#[test]
fn a_pack_holds_at_most_ninety_nine_levels() {
    let mut pack = EditorLevelPack::new();
    for _ in 0..120 {
        pack.add_level();
    }
    assert_eq!(pack.level_count(), 99);
    assert_eq!(pack.current(), 98);
    assert!(!pack.can_add());
}

#[test]
fn shifting_moves_the_level_and_the_cursor() {
    let mut pack = EditorLevelPack::new();
    pack.level_mut().name_mut().push_str("A");
    pack.add_level();
    pack.level_mut().name_mut().push_str("B");
    pack.add_level();
    pack.level_mut().name_mut().push_str("C");
    pack.shift_next();
    assert_eq!(pack.current(), 2);
    pack.shift_prev();
    assert_eq!(pack.current(), 1);
    assert_eq!(pack.level().name().as_str(), "C");
    pack.shift_prev();
    assert_eq!(pack.current(), 0);
    assert_eq!(pack.level().name().as_str(), "C");
    pack.shift_prev();
    assert_eq!(pack.current(), 0);
    pack.next();
    assert_eq!(pack.level().name().as_str(), "A");
    pack.shift_next();
    assert_eq!(pack.current(), 2);
    assert_eq!(pack.level().name().as_str(), "A");
    pack.prev();
    assert_eq!(pack.level().name().as_str(), "B");
}

#[test]
fn deleting_keeps_the_cursor_in_the_pack() {
    let mut pack = EditorLevelPack::new();
    pack.level_mut().name_mut().push_str("A");
    pack.add_level();
    pack.level_mut().name_mut().push_str("B");
    pack.add_level();
    pack.level_mut().name_mut().push_str("C");
    pack.delete_level();
    assert_eq!(pack.level_count(), 2);
    assert_eq!(pack.current(), 1);
    assert_eq!(pack.level().name().as_str(), "B");
    pack.prev();
    pack.delete_level();
    assert_eq!(pack.current(), 0);
    assert_eq!(pack.level().name().as_str(), "B");
    pack.level_mut().set_tile(0, Tile::Red);
    pack.delete_level();
    assert_eq!(pack.level_count(), 1);
    assert_eq!(pack.current(), 0);
    assert_eq!(pack.level().name().as_str(), "");
    assert!(pack.level().complete());
}

#[test]
fn each_level_has_a_history_of_its_own() {
    let mut pack = EditorLevelPack::new();
    pack.timewarp_save_previous_state();
    pack.set_tile(0, Tile::Red);
    pack.timewarp_push_current_state();
    pack.add_level();
    assert!(!pack.timewarp().can_undo());
    pack.timewarp_undo();
    assert!(pack.level().complete());
    pack.prev();
    assert!(pack.timewarp().can_undo());
    pack.timewarp_undo();
    assert!(pack.level().complete());
    assert!(pack.timewarp().can_redo());
    pack.timewarp_redo();
    assert_eq!(pack.level().tiles()[0], Tile::Red);
    pack.next();
    assert!(!pack.timewarp().can_redo());
}

#[test]
fn clearing_a_level_can_be_undone() {
    let mut pack = EditorLevelPack::new();
    pack.set_tile(4, Tile::Gold);
    pack.level_mut().name_mut().push_str("GOLD");
    pack.clear_level();
    assert!(pack.level().complete());
    assert_eq!(pack.level().tiles()[4], Tile::Air);
    assert_eq!(pack.level().name().as_str(), "");
    pack.timewarp_undo();
    assert_eq!(pack.level().tiles()[4], Tile::Gold);
}

#[test]
fn names_are_typed_into_the_pack() {
    let mut pack = EditorLevelPack::new();
    assert!(!pack.type_into(NameField::Pack, 'p'));
    assert!(!pack.type_into(NameField::Author, 'a'));
    assert!(!pack.type_into(NameField::Level, 'l'));
    assert!(pack.type_into(NameField::Level, '\r'));
    assert_eq!(pack.name().as_str(), "P");
    assert_eq!(pack.author().as_str(), "A");
    assert_eq!(pack.level().name().as_str(), "L");
    pack.name_mut().push_str("ACK");
    pack.author_mut().push_str("NON");
    assert_eq!(pack.file_name().as_str(), "PACK.brk");
    assert_eq!(pack.author().as_str(), "ANON");
}

#[test]
fn a_loaded_pack_is_taken_into_the_editor() {
    let mut pack = EditorLevelPack::new();
    pack.name_mut().push_str("SPACE");
    pack.author_mut().push_str("FOX");
    pack.set_tile(3, Tile::Cyan);
    pack.add_level();
    pack.level_mut().name_mut().push_str("TWO");
    let loaded = LevelPack::load_from_file(pack.encode_to_file()).unwrap();
    let copy = loaded.clone();
    assert_eq!(copy.levels().len(), 2);
    let editor = EditorLevelPack::from_level_pack(&loaded);
    assert_eq!(editor.current(), 0);
    assert_eq!(editor.level_count(), 2);
    assert_eq!(editor.name().as_str(), "SPACE");
    assert_eq!(editor.author().as_str(), "FOX");
    assert_eq!(editor.level().tiles()[3], Tile::Cyan);
    assert!(!editor.timewarp().can_undo());
    assert_eq!(editor.encode_to_file(), pack.encode_to_file());
}

#[test]
fn packs_and_levels_convert_into_the_editor() {
    let mut pack = EditorLevelPack::new();
    pack.name_mut().push_str("FROM");
    pack.set_tile(9, Tile::Brown);
    let loaded = LevelPack::load_from_file(pack.encode_to_file()).unwrap();
    let first = loaded.levels()[0].clone();
    let editor = EditorLevelPack::from(loaded);
    assert_eq!(editor.name().as_str(), "FROM");
    assert_eq!(editor.level().tiles()[9], Tile::Brown);
    let mut level: EditorLevel = first.into();
    level.undo();
    level.redo();
}

#[test]
fn a_gesture_that_changes_nothing_leaves_no_entry() {
    let mut pack = EditorLevelPack::new();
    pack.timewarp_save_previous_state();
    pack.timewarp_push_current_state();
    assert!(!pack.timewarp().can_undo());
    pack.timewarp_save_previous_state();
    pack.set_tile(0, Tile::Air);
    pack.timewarp_push_current_state();
    assert!(!pack.timewarp().can_undo());
    pack.timewarp_save_previous_state();
    pack.set_tile(0, Tile::Red);
    pack.timewarp_push_current_state();
    assert!(pack.timewarp().can_undo());
    pack.timewarp_undo();
    assert!(pack.timewarp().can_redo());
    pack.timewarp_save_previous_state();
    pack.timewarp_push_current_state();
    assert!(pack.timewarp().can_redo());
    assert!(!pack.timewarp().can_undo());
    pack.timewarp_redo();
    assert_eq!(pack.level().tiles()[0], Tile::Red);

    let mut level = EditorLevel::new();
    level.save_previous_state();
    level.push_current_state();
    level.commit();
    level.undo();
    level.undo();
}

#[test]
fn a_reloaded_pack_is_written_as_the_same_bytes() {
    for name in ["", "A", "ABCDEFGHIJKLMNOP"] {
        let mut pack = EditorLevelPack::new();
        pack.name_mut().push_str(name);
        pack.author_mut().push_str(name);
        pack.level_mut().name_mut().push_str(name);
        pack.set_tile(351, Tile::Stone);
        pack.add_level();
        pack.set_tile(0, Tile::White);
        let data = pack.encode_to_file();
        assert_eq!(data.len(), 32 + 2 * 192);
        let loaded = LevelPack::load_from_file(data.clone()).unwrap();
        assert_eq!(loaded.name().as_str(), name);
        assert_eq!(loaded.author().as_str(), name);
        assert_eq!(loaded.levels().len(), 2);
        assert_eq!(loaded.levels()[0].name().as_str(), name);
        assert_eq!(loaded.levels()[1].name().as_str(), "");
        assert_eq!(loaded.levels()[0].tiles()[351], Tile::Stone);
        assert_eq!(loaded.levels()[1].tiles()[0], Tile::White);
        assert_eq!(EditorLevelPack::from(loaded).encode_to_file(), data);
    }
}
