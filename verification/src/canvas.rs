//! The multi-buffered offscreen canvas: a rotating set of render targets,
//! rebuilt on demand to an exact size, plus the render-pass controller
//! that brackets one frame's recording against the current target.
//!
//! The bookkeeping that the contracts pin down — how many image sets and
//! framebuffers exist, which one is current, what size they were built at
//! — lives in [`CanvasState`]; the device resources themselves are opaque
//! handles created through the trusted calls at the bottom of this file.

use std::sync::Arc;
use vstd::prelude::*;
use vulkano::render_pass::RenderPass as RenderPassObject;

use crate::gpu::share;
use crate::renderpass::CmdBuffer;

verus! {

/// A render-target (re)build failed in the device or its allocators.
/// By design this is fatal: it signals resource exhaustion outside
/// normal control flow, and callers are expected to terminate.
#[derive(Clone, Copy, Debug, PartialEq, Eq, Structural)]
pub enum CanvasError {
    ImageCreationFailed,
    FramebufferCreationFailed,
}

/// The device refused a recorded command; fatal for the offending frame's
/// recording.
#[derive(Clone, Copy, Debug, PartialEq, Eq, Structural)]
pub enum RecordError {
    CommandRejected,
}

/// The canvas's plain bookkeeping: frame-in-flight count, rotation index
/// and built size, plus the ghost history that carries the rotation law.
/// Before the first successful build the count is zero and the size reads
/// `[0, 0]`; afterwards the rotation index always stays below the count,
/// and — rotation being cyclic — always equals the number of
/// pass-controller requests since the last rebuild, offset by the stable
/// index that rebuild started from, modulo the count.
pub struct CanvasState {
    pub num_frames_in_flight: usize,
    pub current_set: usize,
    pub extent: [u32; 2],
    /// Ghost: pass-controller requests since the last rebuild.
    pub rotations: Ghost<nat>,
    /// Ghost: the rotation index the last rebuild left behind.
    pub start_index: Ghost<nat>,
}

impl CanvasState {
    /// The first build has happened: at least one target set exists.
    pub open spec fn is_built(&self) -> bool {
        self.num_frames_in_flight >= 1
    }

    /// Bookkeeping invariant. A built canvas's rotation index addresses
    /// an existing set and obeys the cyclic-rotation law: after `k`
    /// requests from the stable starting index `s`, the current index is
    /// `(s + k) mod N`. An unbuilt canvas reports count zero and size
    /// `[0, 0]`.
    pub open spec fn wf(&self) -> bool {
        if self.num_frames_in_flight >= 1 {
            &&& self.current_set < self.num_frames_in_flight
            &&& self.start_index@ < self.num_frames_in_flight as nat
            &&& self.current_set as nat == (self.start_index@ + self.rotations@) % (
            self.num_frames_in_flight as nat)
        } else {
            self.current_set == 0 && self.extent@[0] == 0 && self.extent@[1] == 0
        }
    }

    /// A canvas that has never been built.
    pub fn new() -> (s: Self)
        ensures
            s.wf(),
            !s.is_built(),
            s.num_frames_in_flight == 0,
            s.current_set == 0,
            s.extent@[0] == 0,
            s.extent@[1] == 0,
    {
        CanvasState {
            num_frames_in_flight: 0,
            current_set: 0,
            extent: [0, 0],
            rotations: Ghost(0),
            start_index: Ghost(0),
        }
    }

    /// Records a rebuild to exactly the given size with the given number
    /// of frames in flight. The rotation index is kept where it was when
    /// it still addresses a set, and wrapped into range otherwise; either
    /// way it becomes the stable starting index of a fresh rotation
    /// cycle.
    pub fn rebuild(&mut self, exact_extent: [u32; 3], num_frames_in_flight: usize)
        requires
            num_frames_in_flight >= 1,
        ensures
            final(self).wf(),
            final(self).is_built(),
            final(self).num_frames_in_flight == num_frames_in_flight,
            final(self).extent@[0] == exact_extent@[0],
            final(self).extent@[1] == exact_extent@[1],
            final(self).current_set == old(self).current_set % num_frames_in_flight,
            final(self).rotations@ == 0,
            final(self).start_index@ == final(self).current_set as nat,
    {
        self.num_frames_in_flight = num_frames_in_flight;
        self.current_set = self.current_set % num_frames_in_flight;
        self.extent = [exact_extent[0], exact_extent[1]];
        proof {
            self.rotations@ = 0;
            self.start_index@ = self.current_set as nat;
            vstd::arithmetic::div_mod::lemma_small_mod(
                self.current_set as nat,
                self.num_frames_in_flight as nat,
            );
        }
    }

    /// Advances the rotation by one: exactly once per frame, at the
    /// moment a pass controller is requested. The cyclic-rotation law is
    /// preserved with one more request on the books.
    pub fn advance(&mut self)
        requires
            old(self).wf(),
            old(self).is_built(),
        ensures
            final(self).wf(),
            final(self).num_frames_in_flight == old(self).num_frames_in_flight,
            final(self).extent == old(self).extent,
            final(self).current_set as int == (old(self).current_set + 1) % (old(
                self,
            ).num_frames_in_flight as int),
            final(self).rotations@ == old(self).rotations@ + 1,
            final(self).start_index == old(self).start_index,
    {
        let next: usize = self.current_set + 1;
        self.current_set = next % self.num_frames_in_flight;
        proof {
            self.rotations@ = self.rotations@ + 1;
            lemma_rotation_step(
                self.start_index@ + (self.rotations@ - 1) as nat,
                self.num_frames_in_flight as nat,
            );
        }
    }
}

/// One step of the cyclic-rotation law: advancing the reduced index by
/// one, modulo `n`, lands where one more unreduced step would.
proof fn lemma_rotation_step(a: nat, n: nat)
    requires
        n >= 1,
    ensures
        (a % n + 1) % n == (a + 1) % n,
{
    vstd::arithmetic::div_mod::lemma_add_mod_noop(a as int, 1int, n as int);
    if n == 1 {
        vstd::arithmetic::div_mod::lemma_mod_self_0(1int);
    } else {
        vstd::arithmetic::div_mod::lemma_small_mod(1nat, n);
    }
}

/// Rotation is cyclic: on every well-formed, built canvas, the current
/// rotation index equals the number of pass-controller requests since the
/// last rebuild, offset by the stable index that rebuild started from,
/// modulo the frame-in-flight count.
pub proof fn lemma_rotation_cyclic(canvas: &Canvas)
    requires
        canvas.wf(),
        canvas.is_built(),
    ensures
        canvas.current() == ((canvas.start_index() + canvas.rotations()) % (
        canvas.frames() as nat)) as int,
{
}

/// The canvas's guts: the render-target template (a render pass and one
/// image description per attachment) and the current generation of image
/// sets and framebuffers. The index/collection bookkeeping here is meant
/// to sit behind a short mutual-exclusion lock, never held across a
/// device submission; the caller that shares a canvas across threads
/// supplies that lock.
pub struct CanvasInner {
    renderpass: Arc<RenderPassObject>,
    image_create_infos: Vec<vulkano::image::ImageCreateInfo>,
    state: CanvasState,
    image_sets: Vec<Vec<Arc<vulkano::image::view::ImageView>>>,
    framebuffers: Vec<Arc<vulkano::render_pass::Framebuffer>>,
}

/// The multi-buffered offscreen render-target manager.
pub struct Canvas {
    inner: CanvasInner,
}

impl CanvasInner {
    /// Frame-in-flight count (zero before the first build).
    pub closed spec fn frames(&self) -> int {
        self.state.num_frames_in_flight as int
    }

    /// Current rotation index.
    pub closed spec fn current(&self) -> int {
        self.state.current_set as int
    }

    /// Pass-controller requests since the last rebuild.
    pub closed spec fn rotations(&self) -> nat {
        self.state.rotations@
    }

    /// The rotation index the last rebuild left behind.
    pub closed spec fn start_index(&self) -> nat {
        self.state.start_index@
    }

    /// The size the targets were last built at (`[0, 0]` before the
    /// first build).
    pub closed spec fn size(&self) -> (u32, u32) {
        (self.state.extent@[0], self.state.extent@[1])
    }

    /// Number of framebuffer objects currently held.
    pub closed spec fn target_count(&self) -> int {
        self.framebuffers@.len() as int
    }

    /// Number of attachments in the render-target template.
    pub closed spec fn attachment_count(&self) -> int {
        self.image_create_infos@.len() as int
    }

    /// The framebuffer at a rotation index.
    pub closed spec fn framebuffer_at(&self, i: int) -> Arc<vulkano::render_pass::Framebuffer> {
        self.framebuffers@[i]
    }

    /// The image views at a rotation index.
    pub closed spec fn views_at(&self, i: int) -> Seq<Arc<vulkano::image::view::ImageView>> {
        self.image_sets@[i]@
    }

    /// Well-formed: one image set and one framebuffer per frame in
    /// flight, each set holding one view per template attachment, and the
    /// bookkeeping invariant.
    pub closed spec fn wf(&self) -> bool {
        &&& self.state.wf()
        &&& self.image_sets@.len() == self.frames()
        &&& self.framebuffers@.len() == self.frames()
        &&& forall|i: int|
            0 <= i < self.frames() ==> (#[trigger] self.image_sets@[i])@.len()
                == self.attachment_count()
    }
}

impl Canvas {
    /// Frame-in-flight count (zero before the first build).
    pub closed spec fn frames(&self) -> int {
        self.inner.frames()
    }

    /// Current rotation index.
    pub closed spec fn current(&self) -> int {
        self.inner.current()
    }

    /// Pass-controller requests since the last rebuild.
    pub closed spec fn rotations(&self) -> nat {
        self.inner.rotations()
    }

    /// The rotation index the last rebuild left behind.
    pub closed spec fn start_index(&self) -> nat {
        self.inner.start_index()
    }

    /// The size the targets were last built at (`[0, 0]` before the
    /// first build).
    pub closed spec fn size(&self) -> (u32, u32) {
        self.inner.size()
    }

    /// Whether the first build has happened.
    pub open spec fn is_built(&self) -> bool {
        self.frames() >= 1
    }

    /// Number of framebuffer objects currently held.
    pub closed spec fn target_count(&self) -> int {
        self.inner.target_count()
    }

    /// Number of attachments in the render-target template.
    pub closed spec fn attachment_count(&self) -> int {
        self.inner.attachment_count()
    }

    /// The framebuffer at a rotation index.
    pub closed spec fn framebuffer_at(&self, i: int) -> Arc<vulkano::render_pass::Framebuffer> {
        self.inner.framebuffer_at(i)
    }

    /// The image views at a rotation index.
    pub closed spec fn views_at(&self, i: int) -> Seq<Arc<vulkano::image::view::ImageView>> {
        self.inner.views_at(i)
    }

    /// Well-formed: see [`CanvasInner::wf`].
    pub closed spec fn wf(&self) -> bool {
        self.inner.wf()
    }

    /// An empty canvas holding only its template: no image sets, no
    /// framebuffers, size `[0, 0]`.
    pub fn empty(
        renderpass: Arc<RenderPassObject>,
        image_create_infos: Vec<vulkano::image::ImageCreateInfo>,
    ) -> (r: Self)
        ensures
            r.wf(),
            !r.is_built(),
            r.frames() == 0,
            r.current() == 0,
            r.size() == (0u32, 0u32),
            r.target_count() == 0,
            r.attachment_count() == image_create_infos@.len(),
    {
        Canvas {
            inner: CanvasInner {
                renderpass,
                image_create_infos,
                state: CanvasState::new(),
                image_sets: Vec::new(),
                framebuffers: Vec::new(),
            },
        }
    }

    /// Returns `[0, 0]` if never built, else the built size.
    pub fn extent(&self) -> (e: [u32; 2])
        ensures
            (e@[0], e@[1]) == self.size(),
    {
        [self.inner.state.extent[0], self.inner.state.extent[1]]
    }

    /// The image views at the current rotation index. Calling this before
    /// the first successful build is a contract violation; callers check
    /// `extent()` first.
    pub fn current_image_set(&self) -> (r: Vec<Arc<vulkano::image::view::ImageView>>)
        requires
            self.wf(),
            self.is_built(),
        ensures
            r@ == self.views_at(self.current()),
    {
        share_views(&self.inner.image_sets[self.inner.state.current_set])
    }

    /// Destroys and recreates all image sets and framebuffers at
    /// precisely the given size; see
    /// [`CanvasInner::recreate_buffers_exact`].
    pub fn recreate_buffers_exact(
        &mut self,
        exact_extent: [u32; 3],
        num_frames_in_flight: usize,
        allocator: &Arc<vulkano::memory::allocator::StandardMemoryAllocator>,
    ) -> (r: Result<(), CanvasError>)
        requires
            old(self).wf(),
            num_frames_in_flight >= 1,
        ensures
            r is Ok ==> {
                &&& final(self).wf()
                &&& final(self).is_built()
                &&& final(self).frames() == num_frames_in_flight
                &&& final(self).size() == (exact_extent@[0], exact_extent@[1])
                &&& final(self).target_count() == num_frames_in_flight
                &&& final(self).current() == old(self).current() % (num_frames_in_flight as int)
                &&& final(self).rotations() == 0
                &&& final(self).start_index() == final(self).current() as nat
                &&& final(self).attachment_count() == old(self).attachment_count()
            },
            r is Err ==> *final(self) == *old(self),
    {
        self.inner.recreate_buffers_exact(exact_extent, num_frames_in_flight, allocator)
    }

    /// The resize policy, as callers apply it: rebuilds the targets —
    /// exactly, never best-fit — precisely when the requested size
    /// differs from the built one (a fresh canvas reads `[0, 0]`, so a
    /// first nonzero request always builds). Returns whether a rebuild
    /// happened.
    pub fn ensure_extent_exact(
        &mut self,
        target_extent: [u32; 2],
        num_frames_in_flight: usize,
        allocator: &Arc<vulkano::memory::allocator::StandardMemoryAllocator>,
    ) -> (r: Result<bool, CanvasError>)
        requires
            old(self).wf(),
            num_frames_in_flight >= 1,
        ensures
            r is Ok ==> final(self).wf() && final(self).size() == (
                target_extent@[0],
                target_extent@[1],
            ),
            old(self).size() == (target_extent@[0], target_extent@[1])
                ==> r == Result::<bool, CanvasError>::Ok(false),
            r == Result::<bool, CanvasError>::Ok(false) ==> *final(self) == *old(self) && old(
                self,
            ).size() == (target_extent@[0], target_extent@[1]),
            r == Result::<bool, CanvasError>::Ok(true) ==> {
                &&& old(self).size() != (target_extent@[0], target_extent@[1])
                &&& final(self).is_built()
                &&& final(self).frames() == num_frames_in_flight
                &&& final(self).target_count() == num_frames_in_flight
                &&& final(self).current() == old(self).current() % (num_frames_in_flight as int)
                &&& final(self).attachment_count() == old(self).attachment_count()
            },
            r is Err ==> *final(self) == *old(self),
    {
        let built = self.extent();
        if built[0] == target_extent[0] && built[1] == target_extent[1] {
            Ok(false)
        } else {
            match self.recreate_buffers_exact(
                [target_extent[0], target_extent[1], 1],
                num_frames_in_flight,
                allocator,
            ) {
                Ok(()) => Ok(true),
                Err(e) => Err(e),
            }
        }
    }

    /// Advances the rotation by one — exactly once per frame — and
    /// returns a controller bound to the new current index. Calling this
    /// before the first successful build is a contract violation.
    pub fn pass_controller(&mut self) -> (r: RenderPassController)
        requires
            old(self).wf(),
            old(self).is_built(),
        ensures
            final(self).wf(),
            final(self).frames() == old(self).frames(),
            final(self).size() == old(self).size(),
            final(self).target_count() == old(self).target_count(),
            final(self).current() == (old(self).current() + 1) % old(self).frames(),
            final(self).rotations() == old(self).rotations() + 1,
            final(self).start_index() == old(self).start_index(),
            r.subpass() is None,
            r.target() == final(self).framebuffer_at(final(self).current()),
            r.views() == final(self).views_at(final(self).current()),
    {
        self.inner.state.advance();
        let idx: usize = self.inner.state.current_set;
        let image_views = share_views(&self.inner.image_sets[idx]);
        RenderPassController {
            current_subpass: None,
            framebuffer: share(&self.inner.framebuffers[idx]),
            image_views,
        }
    }
}

impl CanvasInner {
    /// Recreates every image set and framebuffer at precisely the given
    /// size. The replacement generation is assembled completely before it
    /// is swapped in, so on failure the previous generation is untouched,
    /// and a reader never observes a partially-rebuilt canvas. A creation
    /// failure is fatal by design (resource exhaustion), reported as a
    /// value so the caller can terminate on its own terms.
    pub fn recreate_buffers_exact(
        &mut self,
        exact_extent: [u32; 3],
        num_frames_in_flight: usize,
        allocator: &Arc<vulkano::memory::allocator::StandardMemoryAllocator>,
    ) -> (r: Result<(), CanvasError>)
        requires
            old(self).wf(),
            num_frames_in_flight >= 1,
        ensures
            r is Ok ==> {
                &&& final(self).wf()
                &&& final(self).frames() == num_frames_in_flight
                &&& final(self).size() == (exact_extent@[0], exact_extent@[1])
                &&& final(self).current() == old(self).current() % (num_frames_in_flight as int)
                &&& final(self).rotations() == 0
                &&& final(self).start_index() == final(self).current() as nat
                &&& final(self).target_count() == num_frames_in_flight
                &&& final(self).attachment_count() == old(self).attachment_count()
            },
            r is Err ==> *final(self) == *old(self),
    {
        let mut new_sets: Vec<Vec<Arc<vulkano::image::view::ImageView>>> = Vec::new();
        let mut new_framebuffers: Vec<Arc<vulkano::render_pass::Framebuffer>> = Vec::new();
        let mut i: usize = 0;
        while i < num_frames_in_flight
            invariant
                i <= num_frames_in_flight,
                new_sets@.len() == i,
                new_framebuffers@.len() == i,
                forall|k: int|
                    0 <= k < i ==> (#[trigger] new_sets@[k])@.len()
                        == self.image_create_infos@.len(),
                *self == *old(self),
            decreases num_frames_in_flight - i,
        {
            let mut set: Vec<Arc<vulkano::image::view::ImageView>> = Vec::new();
            let mut j: usize = 0;
            while j < self.image_create_infos.len()
                invariant
                    j <= self.image_create_infos@.len(),
                    set@.len() == j,
                    *self == *old(self),
                decreases self.image_create_infos@.len() - j,
            {
                let image = match create_image(allocator, &self.image_create_infos[j], exact_extent)
                {
                    Ok(image) => image,
                    Err(e) => {
                        return Err(e);
                    }
                };
                let view = match create_image_view(image) {
                    Ok(view) => view,
                    Err(e) => {
                        return Err(e);
                    }
                };
                set.push(view);
                j = j + 1;
            }
            let framebuffer = match create_framebuffer(&self.renderpass, &set) {
                Ok(framebuffer) => framebuffer,
                Err(e) => {
                    return Err(e);
                }
            };
            new_framebuffers.push(framebuffer);
            new_sets.push(set);
            i = i + 1;
        }
        self.image_sets = new_sets;
        self.framebuffers = new_framebuffers;
        self.state.rebuild(exact_extent, num_frames_in_flight);
        Ok(())
    }
}

/// A short-lived, single-use handle scoped to one frame: borrows one
/// framebuffer and its image views and enforces the recording order
/// begin, zero or more next-subpass steps, end. Out-of-order calls are
/// contract violations and do not verify.
pub struct RenderPassController {
    current_subpass: Option<usize>,
    pub framebuffer: Arc<vulkano::render_pass::Framebuffer>,
    pub image_views: Vec<Arc<vulkano::image::view::ImageView>>,
}

impl RenderPassController {
    /// No active subpass, or the index of the active one.
    pub closed spec fn subpass(&self) -> Option<usize> {
        self.current_subpass
    }

    /// The framebuffer this controller is bound to.
    pub closed spec fn target(&self) -> Arc<vulkano::render_pass::Framebuffer> {
        self.framebuffer
    }

    /// The image views this controller is bound to.
    pub closed spec fn views(&self) -> Seq<Arc<vulkano::image::view::ImageView>> {
        self.image_views@
    }

    /// Begins the render pass over the framebuffer's full area with the
    /// given per-attachment clear values (`None` for an attachment that
    /// is pre-initialized or don't-care). Requires that recording has not
    /// begun yet; afterwards subpass 0 is active.
    pub fn begin_renderpass(
        &mut self,
        cmd_buf: &mut CmdBuffer,
        clear_values: Vec<Option<vulkano::format::ClearValue>>,
    ) -> (r: Result<(), RecordError>)
        requires
            old(self).subpass() is None,
        ensures
            final(self).target() == old(self).target(),
            final(self).views() == old(self).views(),
            r is Ok ==> final(self).subpass() == Some(0usize),
            r is Err ==> final(self).subpass() is None,
    {
        match cmd_begin_render_pass(cmd_buf, &self.framebuffer, clear_values) {
            Ok(()) => {
                self.current_subpass = Some(0);
                Ok(())
            }
            Err(_) => Err(RecordError::CommandRejected),
        }
    }

    /// Begins the render pass over an explicit sub-rectangle instead of
    /// the full framebuffer area; otherwise as [`Self::begin_renderpass`].
    pub fn begin_renderpass_with_extent(
        &mut self,
        cmd_buf: &mut CmdBuffer,
        clear_values: Vec<Option<vulkano::format::ClearValue>>,
        extent: [u32; 2],
        offset: [u32; 2],
    ) -> (r: Result<(), RecordError>)
        requires
            old(self).subpass() is None,
        ensures
            final(self).target() == old(self).target(),
            final(self).views() == old(self).views(),
            r is Ok ==> final(self).subpass() == Some(0usize),
            r is Err ==> final(self).subpass() is None,
    {
        match cmd_begin_render_pass_area(cmd_buf, &self.framebuffer, clear_values, extent, offset) {
            Ok(()) => {
                self.current_subpass = Some(0);
                Ok(())
            }
            Err(_) => Err(RecordError::CommandRejected),
        }
    }

    /// Advances to the next subpass. Requires an active render pass:
    /// advancing before `begin_renderpass` is a contract violation, not a
    /// recoverable condition. The subpass counter advances even when the
    /// device refuses the command.
    pub fn next_subpass(&mut self, cmd_buf: &mut CmdBuffer) -> (r: Result<(), RecordError>)
        requires
            old(self).subpass() is Some,
            old(self).subpass()->0 < usize::MAX,
        ensures
            final(self).target() == old(self).target(),
            final(self).views() == old(self).views(),
            final(self).subpass() == Some((old(self).subpass()->0 + 1) as usize),
    {
        let k: usize = match self.current_subpass {
            Some(k) => k,
            None => {
                proof {
                    assert(false);
                }
                0
            }
        };
        self.current_subpass = Some(k + 1);
        match cmd_next_subpass(cmd_buf) {
            Ok(()) => Ok(()),
            Err(_) => Err(RecordError::CommandRejected),
        }
    }

    /// Ends the render pass, consuming the controller. Requires an active
    /// render pass.
    pub fn end_renderpass(self, cmd_buf: &mut CmdBuffer) -> (r: Result<(), RecordError>)
        requires
            self.subpass() is Some,
    {
        match cmd_end_render_pass(cmd_buf) {
            Ok(()) => Ok(()),
            Err(_) => Err(RecordError::CommandRejected),
        }
    }
}

/// Clones a set of image-view handles, element by element.
fn share_views(
    views: &Vec<Arc<vulkano::image::view::ImageView>>,
) -> (r: Vec<Arc<vulkano::image::view::ImageView>>)
    ensures
        r@ == views@,
{
    let mut r: Vec<Arc<vulkano::image::view::ImageView>> = Vec::new();
    let mut i: usize = 0;
    while i < views.len()
        invariant
            i <= views@.len(),
            r@ == views@.subrange(0, i as int),
        decreases views@.len() - i,
    {
        r.push(share(&views[i]));
        proof {
            assert(r@ =~= views@.subrange(0, i + 1 as int));
        }
        i = i + 1;
    }
    proof {
        assert(r@ =~= views@);
    }
    r
}

/// Relies on vulkano's `Image::new`: allocates one device image from the
/// canvas's per-attachment template, overriding only its extent with the
/// requested one; a device or allocator refusal is reported as a value.
/// One exception: `Image::new` asserts that the template's flags exclude
/// the disjoint-image flag, so a template carrying that flag aborts the
/// process — a fatal misconfiguration of the canvas, not an operating
/// condition.
#[verifier::external_body]
fn create_image(
    allocator: &Arc<vulkano::memory::allocator::StandardMemoryAllocator>,
    template: &vulkano::image::ImageCreateInfo,
    exact_extent: [u32; 3],
) -> (r: Result<Arc<vulkano::image::Image>, CanvasError>) {
    let create_info = vulkano::image::ImageCreateInfo { extent: exact_extent, ..template.clone() };
    match vulkano::image::Image::new(
        allocator.clone(),
        create_info,
        vulkano::memory::allocator::AllocationCreateInfo::default(),
    ) {
        Ok(image) => Ok(image),
        Err(_) => Err(CanvasError::ImageCreationFailed),
    }
}

/// Relies on vulkano's `ImageView::new_default`: wraps an allocated image
/// in a full-image view usable as a framebuffer attachment.
#[verifier::external_body]
fn create_image_view(
    image: Arc<vulkano::image::Image>,
) -> (r: Result<Arc<vulkano::image::view::ImageView>, CanvasError>) {
    match vulkano::image::view::ImageView::new_default(image) {
        Ok(view) => Ok(view),
        Err(_) => Err(CanvasError::ImageCreationFailed),
    }
}

/// Relies on vulkano's `Framebuffer::new`: assembles one framebuffer from
/// the render pass and the given attachment views; a validation refusal
/// is reported as a value. One exception: the call asserts that every
/// attachment belongs to the render pass's own device, so a canvas whose
/// allocator and render pass come from different devices aborts the
/// process — a fatal misconfiguration, not an operating condition.
#[verifier::external_body]
fn create_framebuffer(
    renderpass: &Arc<RenderPassObject>,
    attachments: &Vec<Arc<vulkano::image::view::ImageView>>,
) -> (r: Result<Arc<vulkano::render_pass::Framebuffer>, CanvasError>) {
    let create_info = vulkano::render_pass::FramebufferCreateInfo {
        attachments: attachments.clone(),
        ..Default::default()
    };
    match vulkano::render_pass::Framebuffer::new(renderpass.clone(), create_info) {
        Ok(framebuffer) => Ok(framebuffer),
        Err(_) => Err(CanvasError::FramebufferCreationFailed),
    }
}

/// Relies on vulkano's `AutoCommandBufferBuilder::begin_render_pass`:
/// records a render-pass begin over the framebuffer's full area with the
/// given clear values.
#[verifier::external_body]
fn cmd_begin_render_pass(
    cmd_buf: &mut CmdBuffer,
    framebuffer: &Arc<vulkano::render_pass::Framebuffer>,
    clear_values: Vec<Option<vulkano::format::ClearValue>>,
) -> (r: Result<(), Box<vulkano::ValidationError>>) {
    let begin_info = vulkano::command_buffer::RenderPassBeginInfo {
        clear_values,
        ..vulkano::command_buffer::RenderPassBeginInfo::framebuffer(framebuffer.clone())
    };
    match cmd_buf.inner.begin_render_pass(begin_info, Default::default()) {
        Ok(_) => Ok(()),
        Err(err) => Err(err),
    }
}

/// Relies on vulkano's `AutoCommandBufferBuilder::begin_render_pass`:
/// as [`cmd_begin_render_pass`], but over an explicit render area.
#[verifier::external_body]
fn cmd_begin_render_pass_area(
    cmd_buf: &mut CmdBuffer,
    framebuffer: &Arc<vulkano::render_pass::Framebuffer>,
    clear_values: Vec<Option<vulkano::format::ClearValue>>,
    render_area_extent: [u32; 2],
    render_area_offset: [u32; 2],
) -> (r: Result<(), Box<vulkano::ValidationError>>) {
    let begin_info = vulkano::command_buffer::RenderPassBeginInfo {
        clear_values,
        render_area_extent,
        render_area_offset,
        ..vulkano::command_buffer::RenderPassBeginInfo::framebuffer(framebuffer.clone())
    };
    match cmd_buf.inner.begin_render_pass(begin_info, Default::default()) {
        Ok(_) => Ok(()),
        Err(err) => Err(err),
    }
}

/// Relies on vulkano's `AutoCommandBufferBuilder::next_subpass`: records
/// an advance to the next subpass.
#[verifier::external_body]
fn cmd_next_subpass(cmd_buf: &mut CmdBuffer) -> (r: Result<(), Box<vulkano::ValidationError>>) {
    match cmd_buf.inner.next_subpass(Default::default(), Default::default()) {
        Ok(_) => Ok(()),
        Err(err) => Err(err),
    }
}

/// Relies on vulkano's `AutoCommandBufferBuilder::end_render_pass`:
/// records the end of the render pass.
#[verifier::external_body]
fn cmd_end_render_pass(cmd_buf: &mut CmdBuffer) -> (r: Result<(), Box<vulkano::ValidationError>>) {
    match cmd_buf.inner.end_render_pass(Default::default()) {
        Ok(_) => Ok(()),
        Err(err) => Err(err),
    }
}

} // verus!
