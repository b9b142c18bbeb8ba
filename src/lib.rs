//! Sprite animation and facing state of a 2D character, driven by keyboard
//! input inside a game loop.
pub mod animation;
pub mod controller;
pub mod frame;
pub mod laws;
