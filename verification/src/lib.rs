//! A frame-orchestration engine sitting between an application and a
//! graphics device: it composes an ordered list of independently-authored
//! rendering stages into one frame, executes frames on a single serialized
//! submission queue, keeps several frames in flight, and skips a frame
//! cleanly when the output target is momentarily unusable.

use std::sync::Arc;
use vstd::prelude::*;

pub mod canvas;
pub mod dispatcher;
pub mod drawable;
pub mod gpu;
pub mod render_system;
pub mod rendergraph;
pub mod renderscript;
pub mod renderpass;
pub mod submit_system;
pub mod window_surface;

pub use dispatcher::PresentBarrier;

verus! {

/// The device handles every frame runs against: shared, read-only context
/// passed into each stage phase.
#[derive(Clone)]
pub struct GraphicsObjects {
    pub num_frames_in_flight: usize,
    pub device: Arc<vulkano::device::Device>,
    pub graphics_queue: Arc<vulkano::device::Queue>,
    pub descriptor_set_allocator: Arc<vulkano::descriptor_set::allocator::StandardDescriptorSetAllocator>,
    pub command_buffer_allocator: Arc<vulkano::command_buffer::allocator::StandardCommandBufferAllocator>,
    pub memory_allocator: Arc<vulkano::memory::allocator::StandardMemoryAllocator>,
}

/// A physical device's kind, for choosing among the adapters a machine
/// offers.
#[derive(Clone, Copy, Debug, PartialEq, Eq, Structural)]
pub enum DeviceKind {
    Discrete,
    Integrated,
    Virtual,
    Cpu,
    Other,
    Unknown,
}

/// The preference order used when picking a physical device: lower is
/// better, dedicated hardware first.
pub fn device_preference_rank(kind: DeviceKind) -> (r: u32)
    ensures
        r == (match kind {
            DeviceKind::Discrete => 0u32,
            DeviceKind::Integrated => 1u32,
            DeviceKind::Virtual => 2u32,
            DeviceKind::Cpu => 3u32,
            DeviceKind::Other => 4u32,
            DeviceKind::Unknown => 5u32,
        }),
{
    match kind {
        DeviceKind::Discrete => 0,
        DeviceKind::Integrated => 1,
        DeviceKind::Virtual => 2,
        DeviceKind::Cpu => 3,
        DeviceKind::Other => 4,
        DeviceKind::Unknown => 5,
    }
}

/// How many frames to keep in flight for a surface that demands at least
/// `min_image_count` images: that minimum, but never fewer than two, so
/// one frame can be recorded while another presents.
pub fn preferred_frames_in_flight(min_image_count: u32) -> (r: u32)
    ensures
        r == (if min_image_count >= 2 {
            min_image_count
        } else {
            2u32
        }),
{
    if min_image_count >= 2 {
        min_image_count
    } else {
        2
    }
}

} // verus!
