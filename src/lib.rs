//! A retained-mode widget toolkit for a small fixed-resolution screen.
//!
//! Widgets form an owned tree. Containers lay out their children from their
//! own region, route key events to the focused child, and move focus between
//! children in response to directional keys. Rendering produces a list of
//! primitive drawing commands that a display back end executes.

pub mod geometry;
pub mod calculator;
pub mod theme;
pub mod widget;
pub mod rectangles;
pub mod layout;
pub mod buttons;
pub mod text;
pub mod text_box;
pub mod storage;
pub mod grid;
pub mod laws;
pub mod one_of;
pub mod imgui;
