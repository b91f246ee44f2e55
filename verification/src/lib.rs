//! A text-mode display driver.
//!
//! - [`glyph`] encodes colours, glyphs and the sixteen-bit cells of the
//!   display.
//! - [`screen`] is the mathematical model of the screen writer: the grid, the
//!   cursor on the bottom line, and what each write does to them.
//! - [`writer`] is the writer itself, proved against that model.
//! - [`window`] proves what the display shows after a run of output: the
//!   last lines of the stream of glyphs.
//! - [`shared`] puts one writer behind a spin lock for the whole program,
//!   with a way for fault reports that never waits.

pub mod glyph;
pub mod screen;
pub mod writer;
pub mod window;
pub mod shared;
