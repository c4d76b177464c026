//! The two images shared with OpenGL: the frame that comes in and the
//! processed frame that goes out.

use vstd::prelude::*;

verus! {

/// One image whose memory is exported for import on the OpenGL side.
#[derive(Clone, Copy, Debug, PartialEq, Eq, Structural)]
pub struct SharedImage {
    /// The raw `VkImage` handle.
    pub image: u64,
    /// The raw `VkDeviceMemory` handle.
    pub memory: u64,
    /// The raw `VkImageView` handle.
    pub view: u64,
    /// The size of the memory allocation in bytes.
    pub alloc_size: u64,
    /// The exported platform handle: a file descriptor on Linux, a `HANDLE`
    /// on Windows.
    pub handle: i64,
}

/// The input and output images, both `width` × `height`.
#[derive(Clone, Copy, Debug, PartialEq, Eq, Structural)]
pub struct InteropResources {
    pub input: SharedImage,
    pub output: SharedImage,
    pub width: u32,
    pub height: u32,
}

/// The part of an image that a view or a barrier covers.
#[derive(Clone, Copy, Debug, PartialEq, Eq, Structural)]
pub struct ColorRange {
    /// Raw `VkImageAspectFlags`.
    pub aspect_mask: u32,
    pub base_mip_level: u32,
    pub level_count: u32,
    pub base_array_layer: u32,
    pub layer_count: u32,
}

/// Reads ash's `vk::ImageAspectFlags::COLOR`; ash defines it as bit 0.
#[verifier::external_body]
fn aspect_color_bit() -> (bit: u32)
    ensures
        bit == 1,
{
    ash::vk::ImageAspectFlags::COLOR.as_raw()
}

/// The colour aspect of the first mip level of the first array layer.
pub open spec fn color_range_of_images() -> ColorRange {
    ColorRange { aspect_mask: 1, base_mip_level: 0, level_count: 1, base_array_layer: 0, layer_count: 1 }
}

/// The colour aspect of the first mip level of the first array layer: all
/// that the single-level, single-layer shared images have.
pub fn full_color_range() -> (range: ColorRange)
    ensures
        range == color_range_of_images(),
{
    ColorRange {
        aspect_mask: aspect_color_bit(),
        base_mip_level: 0,
        level_count: 1,
        base_array_layer: 0,
        layer_count: 1,
    }
}


// ---------------------------------------------------------------------------
// Barriers
// ---------------------------------------------------------------------------

/// Reads ash's `vk::AccessFlags::empty()`: no access bits.
#[verifier::external_body]
pub(crate) fn access_none() -> (bits: u32)
    ensures
        bits == 0,
{
    ash::vk::AccessFlags::empty().as_raw()
}

/// Reads ash's `vk::AccessFlags::SHADER_READ`; ash defines it as bit 5.
#[verifier::external_body]
pub(crate) fn access_shader_read() -> (bits: u32)
    ensures
        bits == 0x20,
{
    ash::vk::AccessFlags::SHADER_READ.as_raw()
}

/// Reads ash's `vk::AccessFlags::SHADER_WRITE`; ash defines it as bit 6.
#[verifier::external_body]
pub(crate) fn access_shader_write() -> (bits: u32)
    ensures
        bits == 0x40,
{
    ash::vk::AccessFlags::SHADER_WRITE.as_raw()
}

/// Reads ash's `vk::ImageLayout::UNDEFINED`; ash defines it as 0.
#[verifier::external_body]
fn layout_undefined() -> (layout: i32)
    ensures
        layout == 0,
{
    ash::vk::ImageLayout::UNDEFINED.as_raw()
}

/// Reads ash's `vk::ImageLayout::GENERAL`; ash defines it as 1.
#[verifier::external_body]
pub(crate) fn layout_general() -> (layout: i32)
    ensures
        layout == 1,
{
    ash::vk::ImageLayout::GENERAL.as_raw()
}

/// Reads ash's `vk::PipelineStageFlags::TOP_OF_PIPE`; ash defines it as bit 0.
#[verifier::external_body]
pub(crate) fn stage_top_of_pipe() -> (bits: u32)
    ensures
        bits == 0x1,
{
    ash::vk::PipelineStageFlags::TOP_OF_PIPE.as_raw()
}

/// Reads ash's `vk::PipelineStageFlags::COMPUTE_SHADER`; ash defines it as bit 11.
#[verifier::external_body]
pub(crate) fn stage_compute_shader() -> (bits: u32)
    ensures
        bits == 0x800,
{
    ash::vk::PipelineStageFlags::COMPUTE_SHADER.as_raw()
}

/// Reads ash's `vk::PipelineStageFlags::BOTTOM_OF_PIPE`; ash defines it as bit 13.
#[verifier::external_body]
pub(crate) fn stage_bottom_of_pipe() -> (bits: u32)
    ensures
        bits == 0x2000,
{
    ash::vk::PipelineStageFlags::BOTTOM_OF_PIPE.as_raw()
}

/// Reads ash's `vk::QUEUE_FAMILY_IGNORED`; ash defines it as `!0`.
#[verifier::external_body]
fn queue_family_ignored() -> (family: u32)
    ensures
        family == u32::MAX,
{
    ash::vk::QUEUE_FAMILY_IGNORED
}

/// One image memory barrier over the whole colour range of an image, with
/// no queue-family ownership transfer.
#[derive(Clone, Copy, Debug, PartialEq, Eq, Structural)]
pub struct ImageBarrier {
    /// Raw `VkAccessFlags` that must complete before the barrier.
    pub src_access: u32,
    /// Raw `VkAccessFlags` that wait for the barrier.
    pub dst_access: u32,
    /// Raw `VkImageLayout` before and after.
    pub old_layout: i32,
    pub new_layout: i32,
    pub src_queue_family: u32,
    pub dst_queue_family: u32,
    /// The raw `VkImage` handle.
    pub image: u64,
    pub range: ColorRange,
}

/// A pipeline barrier: the stages it separates (raw `VkPipelineStageFlags`)
/// and its image barriers.
pub struct PipelineBarrier {
    pub src_stage: u32,
    pub dst_stage: u32,
    pub images: Vec<ImageBarrier>,
}

/// The barrier on `image` from `old_layout` to `new_layout`, making the
/// `src_access` work available to the `dst_access` work.
pub open spec fn image_barrier(
    src_access: u32,
    dst_access: u32,
    old_layout: i32,
    new_layout: i32,
    image: u64,
) -> ImageBarrier {
    ImageBarrier {
        src_access,
        dst_access,
        old_layout,
        new_layout,
        src_queue_family: u32::MAX,
        dst_queue_family: u32::MAX,
        image,
        range: color_range_of_images(),
    }
}

/// An image barrier covers the colour aspect of mip level 0 and array layer 0
/// (one level, one layer), transfers no queue-family ownership, and carries
/// the accesses, layouts and image it was given.
pub proof fn image_barrier_fields(src_access: u32, dst_access: u32, old_layout: i32, new_layout: i32, image: u64)
    ensures
        image_barrier(src_access, dst_access, old_layout, new_layout, image).src_access == src_access,
        image_barrier(src_access, dst_access, old_layout, new_layout, image).dst_access == dst_access,
        image_barrier(src_access, dst_access, old_layout, new_layout, image).old_layout == old_layout,
        image_barrier(src_access, dst_access, old_layout, new_layout, image).new_layout == new_layout,
        image_barrier(src_access, dst_access, old_layout, new_layout, image).image == image,
        image_barrier(src_access, dst_access, old_layout, new_layout, image).src_queue_family == u32::MAX,
        image_barrier(src_access, dst_access, old_layout, new_layout, image).dst_queue_family == u32::MAX,
        image_barrier(src_access, dst_access, old_layout, new_layout, image).range.aspect_mask == 1,
        image_barrier(src_access, dst_access, old_layout, new_layout, image).range.base_mip_level == 0,
        image_barrier(src_access, dst_access, old_layout, new_layout, image).range.level_count == 1,
        image_barrier(src_access, dst_access, old_layout, new_layout, image).range.base_array_layer == 0,
        image_barrier(src_access, dst_access, old_layout, new_layout, image).range.layer_count == 1,
{
}

/// Builds the image barrier that `image_barrier` describes.
pub(crate) fn make_image_barrier(
    src_access: u32,
    dst_access: u32,
    old_layout: i32,
    new_layout: i32,
    image: u64,
) -> (barrier: ImageBarrier)
    ensures
        barrier == image_barrier(src_access, dst_access, old_layout, new_layout, image),
{
    let ignored: u32 = queue_family_ignored();
    ImageBarrier {
        src_access,
        dst_access,
        old_layout,
        new_layout,
        src_queue_family: ignored,
        dst_queue_family: ignored,
        image,
        range: full_color_range(),
    }
}

/// The barrier that moves freshly created images from the undefined layout
/// to the general one before the compute shader first reads or writes them:
/// one image barrier per image, in order, that makes shader reads and writes
/// (`0x20 | 0x40`) wait for the transition.
pub fn transition_to_general(images: &Vec<u64>) -> (barrier: PipelineBarrier)
    ensures
        barrier.src_stage == 0x1,
        barrier.dst_stage == 0x800,
        barrier.images@.len() == images@.len(),
        forall|i: int| 0 <= i < images@.len() ==> #[trigger] barrier.images@[i]
            == image_barrier(0, 0x60, 0, 1, images@[i]),
{
    let none: u32 = access_none();
    let read: u32 = access_shader_read();
    let write: u32 = access_shader_write();
    let rw: u32 = read | write;
    assert(rw == 0x60) by (bit_vector)
        requires rw == read | write, read == 0x20, write == 0x40;
    let undefined: i32 = layout_undefined();
    let general: i32 = layout_general();
    let mut barriers: Vec<ImageBarrier> = Vec::new();
    let mut i: usize = 0;
    while i < images.len()
        invariant
            i <= images.len(),
            none == 0,
            rw == 0x60,
            undefined == 0,
            general == 1,
            barriers@.len() == i,
            forall|j: int| 0 <= j < i ==> #[trigger] barriers@[j]
                == image_barrier(0, 0x60, 0, 1, images@[j]),
        decreases images.len() - i,
    {
        barriers.push(make_image_barrier(none, rw, undefined, general, images[i]));
        i = i + 1;
    }
    PipelineBarrier { src_stage: stage_top_of_pipe(), dst_stage: stage_compute_shader(), images: barriers }
}

} // verus!

