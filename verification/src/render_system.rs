//! The frame pipeline: the state machine that sequences submit-system
//! setup, every stage's preprocess, every stage's command build, every
//! stage's postprocess, and finally submission — short-circuiting to a
//! skipped frame on any halt.
//!
//! Phases run as full sweeps in declared stage order: all of one phase
//! completes before the next phase begins, so stage `N`'s preprocess may
//! assume stage `N-1` already preprocessed. The contract of
//! [`DefaultRenderSystem::run_frame`] pins the sweep discipline down over
//! the stages' phase tags and reports exactly where a frame halted.

use std::sync::Arc;
use vstd::prelude::*;

use crate::gpu::share;
use crate::renderpass::{RenderPassCont, StagePhase};
use crate::submit_system::SubmitSystem;

verus! {

/// How one frame ended: completed and submitted, or halted at a precise
/// point, in which case every later phase of that frame was skipped.
#[derive(Clone, Copy, Debug, PartialEq, Eq, Structural)]
pub enum FrameReport {
    /// The submit system declined the frame; no stage phase ran.
    SetupHalted,
    /// The stage at this index halted during preprocess; no command was
    /// built, nothing was submitted.
    PreprocessHalted(usize),
    /// The stage at this index halted during command build; the partial
    /// recording was discarded, nothing was submitted.
    BuildHalted(usize),
    /// All phases ran and the frame was handed to the submit system.
    Completed,
}

/// A runnable frame job: what the dispatcher executes to completion.
pub trait RenderSystem {
    /// The externally-supplied graphics context (the engine passes
    /// [`crate::GraphicsObjects`] here).
    type Context;

    fn run(&mut self, graphics_objects: Arc<Self::Context>);
}

/// A boxed job runs as the job itself: the dispatcher can hold its frame
/// jobs boxed (and type-erased).
impl<RS: RenderSystem + ?Sized> RenderSystem for Box<RS> {
    type Context = RS::Context;

    fn run(&mut self, graphics_objects: Arc<Self::Context>) {
        (**self).run(graphics_objects)
    }
}

/// The default frame pipeline: one submit system bracketing an ordered
/// list of stages.
pub struct DefaultRenderSystem<SST: SubmitSystem, RP: RenderPassCont<
    Context = SST::Context,
    SharedData = SST::SharedType,
    CmdBufType = SST::CmdBufType,
>> {
    submit_system: SST,
    render_passes: Vec<RP>,
}

impl<
    SST: SubmitSystem,
    RP: RenderPassCont<
        Context = SST::Context,
        SharedData = SST::SharedType,
        CmdBufType = SST::CmdBufType,
    >,
> DefaultRenderSystem<SST, RP> {
    /// Number of stages in declared order.
    pub closed spec fn stage_count(&self) -> int {
        self.render_passes@.len() as int
    }

    /// The phase tag of the stage at an index.
    pub closed spec fn stage_phase(&self, i: int) -> StagePhase {
        self.render_passes@[i].phase()
    }

    pub fn new(submit_system: SST, render_passes: Vec<RP>) -> (r: Self)
        ensures
            r.stage_count() == render_passes@.len(),
            forall|i: int|
                0 <= i < render_passes@.len() ==> #[trigger] r.stage_phase(i)
                    == render_passes@[i].phase(),
    {
        Self { submit_system, render_passes }
    }

    /// Runs one frame to completion or to its first halt:
    /// setup, then a full preprocess sweep, a full build sweep, a full
    /// postprocess sweep, then submission. The report says how far the
    /// frame got, and the stages' phase tags witness the sweep
    /// discipline: a stage is only ever built after every stage
    /// preprocessed, and a halt leaves every stage after it untouched in
    /// that sweep.
    #[verifier::loop_isolation(false)]
    pub fn run_frame(&mut self, graphics_objects: Arc<SST::Context>) -> (r: FrameReport)
        ensures
            final(self).stage_count() == old(self).stage_count(),
            r == FrameReport::Completed ==> forall|i: int|
                0 <= i < old(self).stage_count() ==> final(self).stage_phase(i)
                    == StagePhase::Idle,
            r == FrameReport::SetupHalted ==> forall|i: int|
                0 <= i < old(self).stage_count() ==> final(self).stage_phase(i) == old(
                    self,
                ).stage_phase(i),
            r matches FrameReport::PreprocessHalted(k) ==> {
                &&& k < old(self).stage_count()
                &&& forall|i: int|
                    0 <= i < k ==> final(self).stage_phase(i) == StagePhase::Preprocessed
                &&& final(self).stage_phase(k as int) == StagePhase::Idle
                &&& forall|i: int|
                    k < i < old(self).stage_count() ==> final(self).stage_phase(i) == old(
                        self,
                    ).stage_phase(i)
            },
            r matches FrameReport::BuildHalted(k) ==> {
                &&& k < old(self).stage_count()
                &&& forall|i: int|
                    0 <= i < k ==> final(self).stage_phase(i) == StagePhase::Postprocessed
                &&& final(self).stage_phase(k as int) == StagePhase::Idle
                &&& forall|i: int|
                    k < i < old(self).stage_count() ==> final(self).stage_phase(i)
                        == StagePhase::Preprocessed
            },
    {
        let ghost n = self.render_passes@.len() as int;

        let (shared, setup_data, mut cmd_buf) = match self.submit_system.setup(
            share(&graphics_objects),
        ) {
            Ok(val) => val,
            Err(_) => {
                return FrameReport::SetupHalted;
            }
        };

        let mut i: usize = 0;
        while i < self.render_passes.len()
            invariant
                i <= n,
                self.render_passes@.len() == n,
                forall|j: int|
                    0 <= j < i ==> self.render_passes@[j].phase() == StagePhase::Preprocessed,
                forall|j: int|
                    i <= j < n ==> self.render_passes@[j].phase() == old(
                        self,
                    ).render_passes@[j].phase(),
            decreases n - i,
        {
            let outcome = self.render_passes[i].preprocess(
                share(&graphics_objects),
                share(&shared),
            );
            match outcome {
                Ok(()) => {}
                Err(_) => {
                    return FrameReport::PreprocessHalted(i);
                }
            }
            i = i + 1;
        }

        let mut i: usize = 0;
        while i < self.render_passes.len()
            invariant
                i <= n,
                self.render_passes@.len() == n,
                forall|j: int|
                    0 <= j < i ==> self.render_passes@[j].phase() == StagePhase::Postprocessed,
                forall|j: int|
                    i <= j < n ==> self.render_passes@[j].phase() == StagePhase::Preprocessed,
            decreases n - i,
        {
            let outcome = self.render_passes[i].build_commands(
                share(&graphics_objects),
                share(&shared),
                &mut cmd_buf,
            );
            match outcome {
                Ok(()) => {}
                Err(_) => {
                    return FrameReport::BuildHalted(i);
                }
            }
            i = i + 1;
        }

        let mut i: usize = 0;
        while i < self.render_passes.len()
            invariant
                i <= n,
                self.render_passes@.len() == n,
                forall|j: int| 0 <= j < i ==> self.render_passes@[j].phase() == StagePhase::Idle,
                forall|j: int|
                    i <= j < n ==> self.render_passes@[j].phase() == StagePhase::Postprocessed,
            decreases n - i,
        {
            self.render_passes[i].postprocess(share(&graphics_objects), share(&shared));
            i = i + 1;
        }

        self.submit_system.submit(share(&graphics_objects), cmd_buf, setup_data, shared);
        FrameReport::Completed
    }
}

impl<
    SST: SubmitSystem,
    RP: RenderPassCont<
        Context = SST::Context,
        SharedData = SST::SharedType,
        CmdBufType = SST::CmdBufType,
    >,
> RenderSystem for DefaultRenderSystem<SST, RP> {
    type Context = SST::Context;

    fn run(&mut self, graphics_objects: Arc<SST::Context>) {
        let _ = self.run_frame(graphics_objects);
    }
}

} // verus!
