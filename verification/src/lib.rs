//! The verified core of a framebuffer command shell: a fixed-size character
//! grid with cursor, scroll and backspace semantics, the keyboard-to-character
//! mapping, the per-keystroke decisions of the interactive loop, and the
//! rasterizer that paints the grid into a full pixel frame.

use vstd::prelude::*;

pub mod grid;
pub mod keymap;
pub mod render;
pub mod term;

verus! {

/// Width of the pixel surface.
pub const WIDTH: usize = 1600;
/// Height of the pixel surface.
pub const HEIGHT: usize = 896;
/// Number of character columns in the grid: the surface width over the
/// 16-pixel cell width.
pub const COLS: usize = 100;
/// Number of character rows in the grid: the surface height over the
/// 16-pixel cell height.
pub const ROWS: usize = 56;
/// Total number of character cells in the grid.
pub const CAP: usize = COLS * ROWS;

/// The glyph written into the cell just past the last written character,
/// serving as the visible text caret.
pub const CURSOR_GLYPH: char = '_';

} // verus!
