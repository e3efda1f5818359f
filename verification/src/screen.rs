//! Monitor and screen information: a stub collaborator on this backend.

use crate::geometry::Rect;
use vstd::prelude::*;

verus! {

/// One monitor known to the system.
#[derive(Clone, Copy, Debug)]
pub struct Monitor {
    /// Whether this is the primary monitor.
    pub primary: bool,
    /// The monitor's rectangle in the virtual screen.
    pub rect: Rect,
}

/// Screen enumeration is not implemented on this backend.
pub fn get_monitors() -> (r: Vec<Monitor>)
    ensures
        r@.len() == 0,
{
    Vec::new()
}

} // verus!
