//! Generic storage for raster and volumetric image data.
//!
//! [`element`] defines what a single sample of an image is: a fixed number
//! of numeric channels, readable both by name and as a flat sequence.
//! [`storage`] holds a dense grid of such samples and offers bounds-checked
//! access by position and traversal in row-major order. [`shape`] defines
//! shapes, positions and the row-major numbering of positions. [`grid`]
//! states what the storage relies on from the `ndarray` crate.

pub mod element;
pub mod grid;
pub mod shape;
pub mod storage;
