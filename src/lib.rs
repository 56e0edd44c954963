//! A stack-based scene manager for a small interactive application, with the
//! key binding and input-state layer that feeds it logical events.
pub mod input;
pub mod level;
pub mod menu;
pub mod scene;
pub mod title;
pub mod useript;
pub mod world;
pub mod stack;
pub mod game;
