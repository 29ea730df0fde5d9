//! The windowing-surface collaborator, as the submit system reads and
//! writes it: a mutable record of the presentable surface's bookkeeping —
//! frames in flight, one completion-fence slot per in-flight image, the
//! "needs recreation" flag, the last-presented image index.
//!
//! The surface's device half (swapchain, images, window handle) lives
//! with the device layer; this record holds the plain state every
//! per-frame decision is made from, so those decisions — skip a
//! zero-sized frame, recreate a stale swapchain before acquiring, halt
//! and flag on an out-of-date acquire — are verified for every outcome
//! the device can report.

use vstd::prelude::*;

use crate::renderpass::HaltPolicy;

verus! {

/// What acquiring the next presentable image reported: the image (with
/// vulkano's suboptimal hint), or that the surface is out of date and
/// must be recreated before any further use.
#[derive(Clone, Copy, Debug, PartialEq, Eq, Structural)]
pub enum AcquireOutcome {
    OutOfDate,
    Acquired { image_index: usize, suboptimal: bool },
}

/// What a frame's setup must do before it can acquire an image.
#[derive(Clone, Copy, Debug, PartialEq, Eq, Structural)]
pub enum AcquirePlan {
    /// The surface is marked stale: recreate the swapchain at the
    /// window's current size, then acquire.
    RecreateThenAcquire,
    /// The surface is usable as it stands: acquire directly.
    AcquireNow,
}

/// The immutable per-frame snapshot the submit system publishes: created
/// once per frame, read by every stage, never mutated after creation.
#[derive(Clone, Copy, Debug)]
pub struct SharedInfo {
    pub num_frames_in_flight: usize,
    pub image_index: usize,
    pub image_extent: [u32; 2],
}

/// The surface's plain bookkeeping record.
pub struct WindowSurface {
    /// The next setup must recreate the swapchain before acquiring.
    pub recreate_swapchain: bool,
    /// How many presentable images (frames in flight) currently exist.
    pub num_frames_in_flight: usize,
    /// The image index the previous frame presented to.
    pub previous_frame_index: usize,
    /// One completion-fence slot per in-flight image: whether a fence
    /// from an earlier submission is still parked there.
    pub fence_slots: Vec<bool>,
}

impl WindowSurface {
    /// Bookkeeping invariant: one fence slot per in-flight image, and the
    /// previous-frame index addresses a slot whenever any exist.
    pub open spec fn wf(&self) -> bool {
        &&& self.fence_slots@.len() == self.num_frames_in_flight
        &&& self.num_frames_in_flight >= 1 ==> self.previous_frame_index
            < self.num_frames_in_flight
        &&& self.num_frames_in_flight == 0 ==> self.previous_frame_index == 0
    }

    /// A fresh surface record: marked for recreation (the first frame
    /// always builds the swapchain state), no images yet, no pending
    /// fences.
    pub fn new() -> (s: Self)
        ensures
            s.wf(),
            s.recreate_swapchain,
            s.num_frames_in_flight == 0,
            s.previous_frame_index == 0,
    {
        WindowSurface {
            recreate_swapchain: true,
            num_frames_in_flight: 0,
            previous_frame_index: 0,
            fence_slots: Vec::new(),
        }
    }

    /// Decides what this frame's setup does, from the window's current
    /// output size: a zero-sized output (for instance a minimized window)
    /// halts the whole frame — recoverable, the frame is silently skipped
    /// — and otherwise the stale-surface flag decides whether a
    /// recreation precedes the acquire.
    pub fn plan_setup(&self, window_extent: [u32; 2]) -> (r: Result<AcquirePlan, HaltPolicy>)
        ensures
            r is Err <==> (window_extent@[0] == 0 || window_extent@[1] == 0),
            r is Err ==> r == Result::<AcquirePlan, HaltPolicy>::Err(HaltPolicy::HaltAll),
            r is Ok ==> r->Ok_0 == (if self.recreate_swapchain {
                AcquirePlan::RecreateThenAcquire
            } else {
                AcquirePlan::AcquireNow
            }),
    {
        if window_extent[0] == 0 || window_extent[1] == 0 {
            Err(HaltPolicy::HaltAll)
        } else if self.recreate_swapchain {
            Ok(AcquirePlan::RecreateThenAcquire)
        } else {
            Ok(AcquirePlan::AcquireNow)
        }
    }

    /// Records that the swapchain was recreated with the given number of
    /// presentable images: the stale flag is cleared, fence slots for
    /// surviving images keep their pending fences, new images start with
    /// an empty slot, and the previous-frame index is kept only if it
    /// still addresses an image.
    pub fn record_recreated(&mut self, image_count: usize)
        requires
            old(self).wf(),
            image_count >= 1,
        ensures
            final(self).wf(),
            !final(self).recreate_swapchain,
            final(self).num_frames_in_flight == image_count,
            final(self).previous_frame_index == (if old(self).previous_frame_index < image_count {
                old(self).previous_frame_index as int
            } else {
                0int
            }),
            final(self).fence_slots@.len() == image_count,
            forall|i: int|
                0 <= i < image_count ==> final(self).fence_slots@[i] == (if i < old(
                    self,
                ).fence_slots@.len() {
                    old(self).fence_slots@[i]
                } else {
                    false
                }),
    {
        let mut slots: Vec<bool> = Vec::new();
        let mut i: usize = 0;
        while i < image_count
            invariant
                i <= image_count,
                slots@.len() == i,
                forall|k: int|
                    0 <= k < i ==> slots@[k] == (if k < old(self).fence_slots@.len() {
                        old(self).fence_slots@[k]
                    } else {
                        false
                    }),
                *self == *old(self),
            decreases image_count - i,
        {
            if i < self.fence_slots.len() {
                let pending = self.fence_slots[i];
                slots.push(pending);
            } else {
                slots.push(false);
            }
            i = i + 1;
        }
        self.fence_slots = slots;
        self.num_frames_in_flight = image_count;
        if self.previous_frame_index >= image_count {
            self.previous_frame_index = 0;
        }
        self.recreate_swapchain = false;
    }

    /// Folds the acquire's outcome into the record and produces the
    /// frame's snapshot. An out-of-date surface halts the whole frame and
    /// marks the surface for recreation, so the next frame's setup
    /// recreates it; a successful acquire yields the snapshot, and
    /// vulkano's suboptimal hint marks the surface for recreation without
    /// halting.
    pub fn apply_acquire(&mut self, window_extent: [u32; 2], outcome: AcquireOutcome) -> (r: Result<
        SharedInfo,
        HaltPolicy,
    >)
        requires
            old(self).wf(),
            !old(self).recreate_swapchain,
            outcome matches AcquireOutcome::Acquired { image_index, .. } ==> image_index < old(
                self,
            ).num_frames_in_flight,
        ensures
            final(self).wf(),
            final(self).num_frames_in_flight == old(self).num_frames_in_flight,
            final(self).previous_frame_index == old(self).previous_frame_index,
            final(self).fence_slots == old(self).fence_slots,
            outcome == AcquireOutcome::OutOfDate ==> {
                &&& r == Result::<SharedInfo, HaltPolicy>::Err(HaltPolicy::HaltAll)
                &&& final(self).recreate_swapchain
            },
            outcome matches AcquireOutcome::Acquired { image_index, suboptimal } ==> {
                &&& r == Result::<SharedInfo, HaltPolicy>::Ok(
                    SharedInfo {
                        num_frames_in_flight: old(self).num_frames_in_flight,
                        image_index,
                        image_extent: window_extent,
                    },
                )
                &&& final(self).recreate_swapchain == suboptimal
            },
    {
        match outcome {
            AcquireOutcome::OutOfDate => {
                self.recreate_swapchain = true;
                Err(HaltPolicy::HaltAll)
            }
            AcquireOutcome::Acquired { image_index, suboptimal } => {
                if suboptimal {
                    self.recreate_swapchain = true;
                }
                Ok(
                    SharedInfo {
                        num_frames_in_flight: self.num_frames_in_flight,
                        image_index,
                        image_extent: window_extent,
                    },
                )
            }
        }
    }

    /// Records the end of a frame's submission: the presented image's
    /// fence slot now holds a fence exactly when the flush produced one
    /// (an out-of-date or failed flush is absorbed here and leaves the
    /// slot empty — treated as "no prior frame to wait on"), and this
    /// image becomes the previous frame.
    pub fn record_submission(&mut self, image_index: usize, fence_stored: bool)
        requires
            old(self).wf(),
            image_index < old(self).num_frames_in_flight,
        ensures
            final(self).wf(),
            final(self).recreate_swapchain == old(self).recreate_swapchain,
            final(self).num_frames_in_flight == old(self).num_frames_in_flight,
            final(self).previous_frame_index == image_index,
            final(self).fence_slots@ == old(self).fence_slots@.update(
                image_index as int,
                fence_stored,
            ),
    {
        self.fence_slots.set(image_index, fence_stored);
        self.previous_frame_index = image_index;
    }

    /// Whether an earlier submission's fence is still parked in the given
    /// image's slot (the submit path joins it before executing, and the
    /// setup path asks it to clean up finished work).
    pub fn fence_pending(&self, image_index: usize) -> (r: bool)
        requires
            image_index < self.fence_slots@.len(),
        ensures
            r == self.fence_slots@[image_index as int],
    {
        self.fence_slots[image_index]
    }
}

} // verus!
