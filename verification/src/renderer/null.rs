//! A renderer that does nothing.

use vstd::prelude::*;

verus! {

/// Renderer that does nothing; its aspect ratio is always one.
pub struct NullRenderer;

impl NullRenderer {
    /// A new instance; it has no fields.
    pub fn new() -> (r: NullRenderer)
        ensures
            r == NullRenderer,
    {
        NullRenderer
    }
}

} // verus!
