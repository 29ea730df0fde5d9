//! A one-shot script of rendering work: a closure over the device
//! context, boxed up by the caller and run once.

use vstd::prelude::*;

use crate::GraphicsObjects;

verus! {

/// Wraps a run-once script so it can be stored and handed around before
/// being executed against the device context.
pub struct RenderScript<F: FnOnce(&GraphicsObjects)> {
    script: F,
}

impl<F: FnOnce(&GraphicsObjects)> RenderScript<F> {
    /// The stored script.
    pub closed spec fn script(&self) -> F {
        self.script
    }

    pub fn new(script: F) -> (r: Self)
        ensures
            r.script() == script,
    {
        Self { script }
    }

    /// Runs the script once, consuming it; the script's own
    /// postcondition holds afterwards.
    pub fn run(self, graphics_objects: &GraphicsObjects)
        requires
            call_requires(self.script(), (graphics_objects,)),
        ensures
            call_ensures(self.script(), (graphics_objects,), ()),
    {
        (self.script)(graphics_objects)
    }
}

} // verus!
