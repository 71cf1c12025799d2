//! Identifiers of windows.

use vstd::prelude::*;

verus! {

/// The identifier of a window, unique among the windows of an application.
#[derive(Clone, Copy, Debug, PartialEq, Eq, Structural, Hash)]
pub struct Id(pub u64);

} // verus!
