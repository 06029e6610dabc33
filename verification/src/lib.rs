//! A glyph codec and a display matrix for a monochrome 64 x 128 dot-matrix
//! display.
//!
//! The crate has two leaf components, joined only by the shared shape of an
//! ordered sequence of row bit-patterns:
//!
//! * [`glyph`]: packs each supported character's pixel grid into a fixed-width
//!   integer and decodes it back into per-row pixel data.
//! * [`matrix`]: a fixed 64-row by 128-column boolean pixel grid with
//!   row/column/bit access, whole-frame boolean algebra, and row and column
//!   rotation, stored as two parallel banks of 64-bit row halves.

pub mod glyph;
pub mod matrix;
pub mod text;
