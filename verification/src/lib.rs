//! Simulation core and level-editing model of a brick-breaking game.
//!
//! The crate holds the discrete rules of the game: the tile grid and how
//! tiles break, the per-frame bookkeeping of the world (score, lives,
//! powerup cadence, terminal conditions), the undo/redo history of the level
//! editor, the sequencing of levels in a pack, the binary level-pack format
//! and the hot/active model of the immediate-mode buttons.

pub mod tile;
pub mod level;
pub mod random;
pub mod paddle;
pub mod powerup;
pub mod ball;
pub mod bullet;
pub mod world;
pub mod timewarp;
pub mod text;
pub mod format;
pub mod level_pack;
pub mod editor_level_pack;
pub mod gui;
pub mod editor;
pub mod menus;
pub mod game;
pub mod editor_gui;
