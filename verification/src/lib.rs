//! The interaction core of a quick-launch command overlay.

pub mod animations;
pub mod config;
pub mod data;
pub mod ratio;
pub mod startup;
pub mod system;
pub mod text;
pub mod ui;
