//! Events handed to a window's handler.

use vstd::prelude::*;

verus! {

/// Something that happened to a window.
#[non_exhaustive]
#[derive(Debug, Clone, Copy, PartialEq, Eq, Structural)]
pub enum Event {
    /// The window has just been created.
    Created,
}

} // verus!
