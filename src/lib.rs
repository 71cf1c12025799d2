//! A per-window frame handle: exclusive, frame-scoped access to a window's presentable surface
//! image and to the command encoder whose commands are submitted for that image.

use vstd::prelude::*;

pub mod frame;
pub mod geom;
pub mod gpu;
pub mod window;

verus! {

} // verus!
