//! Keyboard-driven clicking: key presses on a target window become synthetic
//! pointer presses at configured positions of that window.

pub mod keys;
pub mod config;
pub mod translate;
pub mod inject;
pub mod locate;
pub mod event_loop;
