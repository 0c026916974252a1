//! The decision logic of a small inline terminal text editor: cursor motion
//! with a jump history, selections, viewport scrolling, key-chord input,
//! keybindings per editor mode, prompt editing and configuration parsing.

pub mod cursor;
pub mod keys;
pub mod commands;
pub mod modes;
pub mod document;
pub mod terminal;
pub mod config;
pub mod status;
pub mod text;
pub mod search;
pub mod autocomplete;
pub mod editor;
pub mod viewport;
pub mod execute;
pub mod highlight;
pub mod render;
pub mod simple;
pub mod basic;
pub mod editor_config;
pub mod clipboard;
pub mod save;
pub mod cycle;
