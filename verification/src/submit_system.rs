//! The frame-bracketing contract: a submit system acquires whatever is
//! needed to target a frame, publishes the immutable per-frame snapshot
//! and a command recorder, and later consumes the recorder and its own
//! carried state to submit and present.

use std::sync::Arc;
use vstd::prelude::*;

use crate::renderpass::HaltPolicy;

verus! {

/// Brackets one frame. `setup` may signal a halt when the target is
/// temporarily unusable (zero-sized or stale output); the pipeline then
/// skips the frame. `submit` finalizes recording and dispatches it,
/// consuming the carried state `setup` produced.
pub trait SubmitSystem {
    /// The externally-supplied graphics context (the engine passes
    /// [`crate::GraphicsObjects`] here).
    type Context;
    type SharedType;
    type SetupType;
    type CmdBufType;

    fn setup(
        &mut self,
        graphics_objects: Arc<Self::Context>,
    ) -> Result<(Arc<Self::SharedType>, Self::SetupType, Self::CmdBufType), HaltPolicy>;

    fn submit(
        &mut self,
        graphics_objects: Arc<Self::Context>,
        cmd_buffer: Self::CmdBufType,
        setup_data: Self::SetupType,
        shared_data: Arc<Self::SharedType>,
    );
}

} // verus!
