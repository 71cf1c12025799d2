//! Frames handed to drawing code, one per window and displayed image.

pub mod raw;
