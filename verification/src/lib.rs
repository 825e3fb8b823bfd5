//! Core of the Space Engineers calculator: grid directions, block modes, game data, and the
//! state of the calculator application.
pub mod data;
pub mod entries;
pub mod grid;
pub mod text;
pub mod ui;
pub mod xml;
