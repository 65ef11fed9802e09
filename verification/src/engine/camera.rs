//! Cameras.

use vstd::prelude::*;

verus! {

/// Camera implementation that does nothing: its view and projection are the
/// identity.
pub struct NullCamera {}

impl NullCamera {
    /// An object with no fields.
    pub fn new() -> (r: NullCamera)
        ensures
            r == (NullCamera {}),
    {
        NullCamera {}
    }
}

} // verus!
