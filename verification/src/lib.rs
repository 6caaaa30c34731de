//! Keyboard-driven selection of on-screen interface elements.

pub mod canvas;
pub mod click;
pub mod collector;
pub mod config;
pub mod draw;
pub mod element;
pub mod font;
pub mod grid;
pub mod hints;
pub mod hyprland;
pub mod mode;
pub mod role;
pub mod scroll;
pub mod selection;
pub mod snapshot;
pub mod text;
pub mod walk;
