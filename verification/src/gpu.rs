//! Opaque declarations of the graphics-device types that flow through the
//! library. Verus treats a value of each as an indivisible handle: the
//! library's own state (counts, indices, extents) is what the contracts
//! speak of, while these handles are created, carried and handed back to
//! the device layer unchanged.

use std::sync::Arc;
use vstd::prelude::*;
use vulkano::render_pass::RenderPass as RenderPassObject;

verus! {

/// Relies on `Arc::clone` (std): the clone is a new handle to the same
/// allocation, so as a specification value it equals the original.
#[verifier::external_body]
pub(crate) fn share<T>(handle: &Arc<T>) -> (r: Arc<T>)
    ensures
        r == *handle,
{
    handle.clone()
}

/// Relies on vulkano's `Device`: a logical-device handle.
#[verifier::external_type_specification]
#[verifier::external_body]
pub struct ExDevice(vulkano::device::Device);

/// Relies on vulkano's `Queue`: a device submission-queue handle.
#[verifier::external_type_specification]
#[verifier::external_body]
pub struct ExQueue(vulkano::device::Queue);

/// Relies on vulkano's `GenericMemoryAllocator`: the general-purpose
/// device-memory allocator (`StandardMemoryAllocator` instantiates it).
#[verifier::external_type_specification]
#[verifier::external_body]
#[verifier::reject_recursive_types(S)]
pub struct ExGenericMemoryAllocator<S>(vulkano::memory::allocator::GenericMemoryAllocator<S>);

/// Relies on vulkano's `FreeListAllocator`: the suballocator used by
/// `StandardMemoryAllocator`.
#[verifier::external_type_specification]
#[verifier::external_body]
pub struct ExFreeListAllocator(vulkano::memory::allocator::FreeListAllocator);

/// Relies on vulkano's `StandardDescriptorSetAllocator`: the
/// descriptor/resource-binding allocator.
#[verifier::external_type_specification]
#[verifier::external_body]
pub struct ExStandardDescriptorSetAllocator(
    vulkano::descriptor_set::allocator::StandardDescriptorSetAllocator,
);

/// Relies on vulkano's `StandardCommandBufferAllocator`: the
/// command-recording-buffer allocator.
#[verifier::external_type_specification]
#[verifier::external_body]
pub struct ExStandardCommandBufferAllocator(
    vulkano::command_buffer::allocator::StandardCommandBufferAllocator,
);

/// Relies on vulkano's `RenderPass`: the attachment/subpass template a
/// canvas builds its framebuffers against.
#[verifier::external_type_specification]
#[verifier::external_body]
pub struct ExRenderPass(RenderPassObject);

/// Relies on vulkano's `Framebuffer`: one fully-assembled render target.
#[verifier::external_type_specification]
#[verifier::external_body]
pub struct ExFramebuffer(vulkano::render_pass::Framebuffer);

/// Relies on vulkano's `Image`: one allocated device image.
#[verifier::external_type_specification]
#[verifier::external_body]
pub struct ExImage(vulkano::image::Image);

/// Relies on vulkano's `ImageView`: a view over an allocated image,
/// usable as a framebuffer attachment.
#[verifier::external_type_specification]
#[verifier::external_body]
pub struct ExImageView(vulkano::image::view::ImageView);

/// Relies on vulkano's `ImageCreateInfo`: the description an image is
/// allocated from (format, usage, and so on); the canvas keeps one per
/// attachment as its render-target template.
#[verifier::external_type_specification]
#[verifier::external_body]
pub struct ExImageCreateInfo(vulkano::image::ImageCreateInfo);

/// Relies on vulkano's `ClearValue`: the per-attachment clear value
/// handed to a render-pass begin.
#[verifier::external_type_specification]
#[verifier::external_body]
pub struct ExClearValue(vulkano::format::ClearValue);

/// Relies on vulkano's `ValidationError`: the error a command recording
/// call reports when the device refuses it.
#[verifier::external_type_specification]
#[verifier::external_body]
pub struct ExValidationError(vulkano::ValidationError);

} // verus!
