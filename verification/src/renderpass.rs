//! The three-phase render-pass protocol and its continuation adapter.
//!
//! A stage exposes `preprocess` (setup; may halt), `build_commands` (the
//! only phase that appends to the shared command recorder; may halt) and
//! `postprocess` (bookkeeping; cannot fail). The adapter
//! [`DynamicRenderPass`] erases a stage's intermediate data behind a
//! three-valued tag so an ordered list of stages can be driven uniformly,
//! and its contracts make an out-of-order phase call unsatisfiable instead
//! of a runtime fault.

use std::sync::Arc;
use vstd::prelude::*;

verus! {

/// The command recorder threaded by exclusive reference through every
/// build phase. Trusted shell: the recorder itself is a device object the
/// library only carries; it is opaque to the contracts, which instead
/// track who may append to it and when. The device layer reaches the
/// underlying builder through `inner`.
#[verifier::external_body]
pub struct CmdBuffer {
    pub inner: vulkano::command_buffer::AutoCommandBufferBuilder<
        vulkano::command_buffer::PrimaryAutoCommandBuffer<
            Arc<vulkano::command_buffer::allocator::StandardCommandBufferAllocator>,
        >,
        Arc<vulkano::command_buffer::allocator::StandardCommandBufferAllocator>,
    >,
}

/// The two-valued abort signal crossing stage and pipeline boundaries:
/// abort this frame, or abort and propagate.
#[derive(Clone, Copy, Debug, PartialEq, Eq, Structural)]
pub enum HaltPolicy {
    HaltThis,
    HaltAll,
}

/// Where a stage stands inside the current frame: the abstract view of
/// the adapter's tag state.
pub enum StagePhase {
    Idle,
    Preprocessed,
    Postprocessed,
}

/// One unit of rendering work, with stage-specific intermediate types.
/// `preprocess` must not record device commands; `build_commands` is the
/// only phase allowed to append to the recorder; `postprocess` cannot
/// fail.
pub trait RenderPass {
    /// The externally-supplied graphics context every phase reads (the
    /// engine passes [`crate::GraphicsObjects`] here).
    type Context;
    type SharedData;
    type PreProcessed;
    type Output;
    type CmdBufType;

    fn preprocess(
        &mut self,
        graphics_objects: Arc<Self::Context>,
        shared: Arc<Self::SharedData>,
    ) -> Result<Self::PreProcessed, HaltPolicy>;

    fn build_commands(
        &mut self,
        graphics_objects: Arc<Self::Context>,
        shared: Arc<Self::SharedData>,
        cmd_buffer: &mut Self::CmdBufType,
        preprocessed: Self::PreProcessed,
    ) -> Result<Self::Output, HaltPolicy>;

    fn postprocess(
        &mut self,
        graphics_objects: Arc<Self::Context>,
        shared: Arc<Self::SharedData>,
        output: Self::Output,
    );
}

/// The type-erased stage interface the frame pipeline drives. Its
/// contracts enforce the phase order within one frame: `build_commands`
/// demands a preprocessed stage, `postprocess` a built one, so a caller
/// that skips or reorders a phase does not verify.
pub trait RenderPassCont {
    /// The externally-supplied graphics context every phase reads.
    type Context;
    type SharedData;
    type CmdBufType;

    spec fn phase(&self) -> StagePhase;

    fn preprocess(
        &mut self,
        graphics_objects: Arc<Self::Context>,
        shared: Arc<Self::SharedData>,
    ) -> (r: Result<(), HaltPolicy>)
        ensures
            r is Ok ==> final(self).phase() == StagePhase::Preprocessed,
            r is Err ==> final(self).phase() == StagePhase::Idle,
    ;

    fn build_commands(
        &mut self,
        graphics_objects: Arc<Self::Context>,
        shared: Arc<Self::SharedData>,
        cmd_buffer: &mut Self::CmdBufType,
    ) -> (r: Result<(), HaltPolicy>)
        requires
            old(self).phase() == StagePhase::Preprocessed,
        ensures
            r is Ok ==> final(self).phase() == StagePhase::Postprocessed,
            r is Err ==> final(self).phase() == StagePhase::Idle,
    ;

    fn postprocess(
        &mut self,
        graphics_objects: Arc<Self::Context>,
        shared: Arc<Self::SharedData>,
    )
        requires
            old(self).phase() == StagePhase::Postprocessed,
        ensures
            final(self).phase() == StagePhase::Idle,
    ;
}

/// A boxed stage is driven exactly as the stage itself: the pipeline
/// stores its stages boxed without losing their contracts.
impl<RP: RenderPassCont + ?Sized> RenderPassCont for Box<RP> {
    type Context = RP::Context;
    type SharedData = RP::SharedData;
    type CmdBufType = RP::CmdBufType;

    closed spec fn phase(&self) -> StagePhase {
        (**self).phase()
    }

    fn preprocess(
        &mut self,
        graphics_objects: Arc<Self::Context>,
        shared: Arc<Self::SharedData>,
    ) -> (r: Result<(), HaltPolicy>) {
        (**self).preprocess(graphics_objects, shared)
    }

    fn build_commands(
        &mut self,
        graphics_objects: Arc<Self::Context>,
        shared: Arc<Self::SharedData>,
        cmd_buffer: &mut Self::CmdBufType,
    ) -> (r: Result<(), HaltPolicy>) {
        (**self).build_commands(graphics_objects, shared, cmd_buffer)
    }

    fn postprocess(
        &mut self,
        graphics_objects: Arc<Self::Context>,
        shared: Arc<Self::SharedData>,
    ) {
        (**self).postprocess(graphics_objects, shared)
    }
}

/// The three-valued tag carrying a stage's intermediate result between
/// phases. Forward-only within one frame.
enum RenderPassType<PreT, PostT> {
    Idle,
    Preprocessed(PreT),
    Postprocessed(PostT),
}

/// The continuation adapter: wraps a concrete stage and holds its
/// intermediate data behind the tag, so differently-typed stages present
/// one interface.
pub struct DynamicRenderPass<T: RenderPass> {
    data: RenderPassType<T::PreProcessed, T::Output>,
    inner: T,
}

impl<T: RenderPass> DynamicRenderPass<T> {
    /// Wraps a stage; the new adapter holds no intermediate data yet.
    pub fn from_renderpass(renderpass: T) -> (r: Box<Self>)
        ensures
            r.phase() == StagePhase::Idle,
    {
        Box::new(Self {
            data: RenderPassType::Idle,
            inner: renderpass,
        })
    }
}

impl<T: RenderPass> RenderPassCont for DynamicRenderPass<T> {
    type Context = T::Context;
    type SharedData = T::SharedData;
    type CmdBufType = T::CmdBufType;

    closed spec fn phase(&self) -> StagePhase {
        match self.data {
            RenderPassType::Idle => StagePhase::Idle,
            RenderPassType::Preprocessed(_) => StagePhase::Preprocessed,
            RenderPassType::Postprocessed(_) => StagePhase::Postprocessed,
        }
    }

    fn preprocess(
        &mut self,
        graphics_objects: Arc<Self::Context>,
        shared: Arc<Self::SharedData>,
    ) -> (r: Result<(), HaltPolicy>) {
        match self.inner.preprocess(graphics_objects, shared) {
            Ok(data) => {
                self.data = RenderPassType::Preprocessed(data);
                Ok(())
            }
            Err(halt) => {
                self.data = RenderPassType::Idle;
                Err(halt)
            }
        }
    }

    fn build_commands(
        &mut self,
        graphics_objects: Arc<Self::Context>,
        shared: Arc<Self::SharedData>,
        cmd_buffer: &mut Self::CmdBufType,
    ) -> (r: Result<(), HaltPolicy>) {
        let mut taken = RenderPassType::Idle;
        core::mem::swap(&mut taken, &mut self.data);
        let data = match taken {
            RenderPassType::Preprocessed(data) => data,
            RenderPassType::Idle => {
                proof {
                    assert(false);
                }
                return Err(HaltPolicy::HaltThis);
            }
            RenderPassType::Postprocessed(_) => {
                proof {
                    assert(false);
                }
                return Err(HaltPolicy::HaltThis);
            }
        };
        match self.inner.build_commands(graphics_objects, shared, cmd_buffer, data) {
            Ok(output) => {
                self.data = RenderPassType::Postprocessed(output);
                Ok(())
            }
            Err(halt) => Err(halt),
        }
    }

    fn postprocess(
        &mut self,
        graphics_objects: Arc<Self::Context>,
        shared: Arc<Self::SharedData>,
    ) {
        let mut taken = RenderPassType::Idle;
        core::mem::swap(&mut taken, &mut self.data);
        match taken {
            RenderPassType::Postprocessed(output) => {
                self.inner.postprocess(graphics_objects, shared, output);
            }
            RenderPassType::Idle => {
                proof {
                    assert(false);
                }
            }
            RenderPassType::Preprocessed(_) => {
                proof {
                    assert(false);
                }
            }
        }
    }
}

} // verus!
