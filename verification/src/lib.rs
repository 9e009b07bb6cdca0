//! Terminal Tetris rules engine with guideline mechanics: 7-bag randomizer,
//! SRS rotation and wall kicks, hold, lock delay, T-spin detection, combo and
//! back-to-back scoring, plus the settings, menu and layout logic around it.

pub mod piece;
pub mod board;
pub mod bag;
pub mod settings;
pub mod theme;
pub mod game;
pub mod text;
pub mod menu;
pub mod layout;
pub mod config;
pub mod hiscore;
pub mod view;
pub mod controls;
