//! A rectangle value: origin and size in whole pixels.

use vstd::prelude::*;

verus! {

/// An axis-aligned rectangle given by its origin and its size.
#[derive(Clone, Copy, Debug, PartialEq, Eq, Structural)]
pub struct Rect {
    pub x: i32,
    pub y: i32,
    pub w: u32,
    pub h: u32,
}

} // verus!
