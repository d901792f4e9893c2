//! A rendering backend that draws a text-grid user interface onto a
//! pixel-addressable display: it computes how many character cells fit
//! on a pixel surface for a chosen monospace font, maps abstract
//! terminal colors and style modifiers to concrete pixel colors and
//! font variants, rasterizes changed cells as positioned glyph draw
//! operations, and hands composed frames to the device at a single
//! flush point.

pub mod backend;
pub mod cell;
pub mod color;
pub mod error;
pub mod font;
pub mod framebuffer;
pub mod layout;
pub mod prelude;
pub mod sim;
pub mod surface;
