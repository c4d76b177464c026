//! The renderer's own state: the context it runs in, the shared images, their
//! size and the number of frames processed, and what each frame dispatches.

use vstd::prelude::*;
use crate::error::RtxError;
use crate::interop::{
    access_none, access_shader_read, access_shader_write, image_barrier, layout_general,
    make_image_barrier, stage_bottom_of_pipe, stage_compute_shader, stage_top_of_pipe, ImageBarrier,
    InteropResources, PipelineBarrier,
};
use crate::vulkan_context::VulkanContext;

verus! {

/// The number of work groups that covers `extent` pixels.
pub open spec fn groups_for(extent: u32) -> int {
    (extent + 15) / 16
}

/// What a renderer is, as its callers see it.
pub struct RendererView {
    pub context: VulkanContext,
    pub interop: InteropResources,
    pub width: u32,
    pub height: u32,
    pub frame_count: u32,
}

/// The handles handed to the OpenGL side, in the order
/// `[input handle, input size, output handle, output size]`.
pub open spec fn handles_of(interop: InteropResources) -> Seq<i64> {
    seq![
        interop.input.handle,
        interop.input.alloc_size as i64,
        interop.output.handle,
        interop.output.alloc_size as i64,
    ]
}

/// The renderer after one more frame went through.
pub open spec fn advanced(v: RendererView) -> RendererView {
    RendererView { frame_count: (v.frame_count + 1) as u32, ..v }
}

/// The renderer after its images were recreated as `interop`.
pub open spec fn resized(v: RendererView, interop: InteropResources) -> RendererView {
    RendererView { interop, width: interop.width, height: interop.height, ..v }
}

/// A frame that goes through advances the counter by exactly one and changes
/// nothing else; recreating the images changes neither the counter nor the
/// context, and leaves the renderer's size equal to that of the new images.
pub proof fn frames_and_resizes_are_independent(v: RendererView, interop: InteropResources)
    requires
        v.frame_count < u32::MAX,
    ensures
        advanced(v).frame_count == v.frame_count + 1,
        advanced(v).interop == v.interop,
        advanced(v).context == v.context,
        resized(v, interop).frame_count == v.frame_count,
        resized(v, interop).context == v.context,
        resized(v, interop).width == interop.width,
        resized(v, interop).height == interop.height,
        resized(advanced(v), interop) == advanced(resized(v, interop)),
{
}

/// After a resize the renderer's images are exactly the recreated ones, in
/// every field (image, memory, view, allocation size and exported handle of
/// both, and the size), and its size is theirs; nothing else changes.
pub proof fn resize_takes_new_images(v: RendererView, interop: InteropResources)
    ensures
        resized(v, interop).interop == interop,
        resized(v, interop).interop.input.image == interop.input.image,
        resized(v, interop).interop.input.memory == interop.input.memory,
        resized(v, interop).interop.input.view == interop.input.view,
        resized(v, interop).interop.output.image == interop.output.image,
        resized(v, interop).interop.output.memory == interop.output.memory,
        resized(v, interop).interop.output.view == interop.output.view,
        resized(v, interop).width == interop.width,
        resized(v, interop).height == interop.height,
        resized(v, interop).context == v.context,
        resized(v, interop).frame_count == v.frame_count,
{
}

/// The handle list holds four entries: the input's exported handle, the
/// input's allocation size, the output's exported handle and the output's
/// allocation size, the sizes as the same 64 bits read as signed.
pub proof fn handle_layout(interop: InteropResources)
    ensures
        handles_of(interop).len() == 4,
        handles_of(interop)[0] == interop.input.handle,
        handles_of(interop)[2] == interop.output.handle,
        interop.input.alloc_size <= i64::MAX ==> handles_of(interop)[1] == interop.input.alloc_size,
        interop.output.alloc_size <= i64::MAX ==> handles_of(interop)[3] == interop.output.alloc_size,
        interop.input.alloc_size > i64::MAX ==> handles_of(interop)[1] == interop.input.alloc_size - 0x1_0000_0000_0000_0000,
        interop.output.alloc_size > i64::MAX ==> handles_of(interop)[3] == interop.output.alloc_size - 0x1_0000_0000_0000_0000,
{
    let a = interop.input.alloc_size;
    let b = interop.output.alloc_size;
    assert(a <= i64::MAX ==> a as i64 == a) by (bit_vector);
    assert(b <= i64::MAX ==> b as i64 == b) by (bit_vector);
    assert(a > i64::MAX ==> a as i64 == a - 0x1_0000_0000_0000_0000) by (bit_vector);
    assert(b > i64::MAX ==> b as i64 == b - 0x1_0000_0000_0000_0000) by (bit_vector);
}

/// What `resize` returns is what `get_handles` gives afterwards, and a frame
/// going through does not change the handles.
pub proof fn handles_follow_images(v: RendererView, interop: InteropResources)
    ensures
        handles_of(resized(v, interop).interop) == handles_of(interop),
        handles_of(advanced(v).interop) == handles_of(v.interop),
{
}

/// What one frame records: the push constants other than the time, which the
/// caller derives from `frame_index`, and the work-group counts to dispatch.
#[derive(Clone, Copy, Debug, PartialEq, Eq, Structural)]
pub struct FrameDispatch {
    pub push_width: i32,
    pub push_height: i32,
    pub frame_index: u32,
    pub groups_x: u32,
    pub groups_y: u32,
    pub groups_z: u32,
}

/// Owns the context, the shared images and the frame counter.
pub struct Renderer {
    context: VulkanContext,
    /// The shared images; their size is the renderer's size.
    interop: InteropResources,
    frame_count: u32,
}

impl View for Renderer {
    type V = RendererView;

    closed spec fn view(&self) -> RendererView {
        RendererView {
            context: self.context,
            interop: self.interop,
            width: self.interop.width,
            height: self.interop.height,
            frame_count: self.frame_count,
        }
    }
}

/// The number of `edge`-pixel groups that covers `extent`, without overflow.
fn group_count(extent: u32) -> (n: u32)
    ensures
        n == groups_for(extent),
        n * 16 >= extent,
        n * 16 < extent + 16,
{
    extent / 16 + if extent % 16 == 0 { 0 } else { 1 }
}

impl Renderer {
    /// A renderer on `context` whose shared images are `interop`, with no
    /// frame processed yet.
    pub fn new(context: VulkanContext, interop: InteropResources) -> (r: Renderer)
        ensures
            r@ == (RendererView {
                context,
                interop,
                width: interop.width,
                height: interop.height,
                frame_count: 0,
            }),
    {
        Renderer { context, interop, frame_count: 0 }
    }

    /// The context the renderer runs in.
    pub fn context(&self) -> (c: &VulkanContext)
        ensures
            *c == self@.context,
    {
        &self.context
    }

    /// The shared images in use.
    pub fn interop(&self) -> (i: &InteropResources)
        ensures
            *i == self@.interop,
    {
        &self.interop
    }

    /// The name of the GPU in use.
    pub fn gpu_name(&self) -> (name: &str)
        ensures
            name@ == self@.context.gpu_name@,
    {
        self.context.gpu_name.as_str()
    }

    /// Whether the device was created with ray tracing enabled.
    pub fn rt_supported(&self) -> (rt: bool)
        ensures
            rt == self@.context.rt_supported,
    {
        self.context.rt_supported
    }

    /// The shared-image handles: `[input handle, input allocation size,
    /// output handle, output allocation size]`, sizes as `i64` bit patterns.
    pub fn get_handles(&self) -> (handles: Vec<i64>)
        ensures
            handles@ == handles_of(self@.interop),
    {
        let mut handles: Vec<i64> = Vec::new();
        handles.push(self.interop.input.handle);
        handles.push(self.interop.input.alloc_size as i64);
        handles.push(self.interop.output.handle);
        handles.push(self.interop.output.alloc_size as i64);
        assert(handles@ =~= handles_of(self@.interop));
        handles
    }

    /// What the next frame dispatches: the image size as the shader's push
    /// constants, the index of the frame, and enough 16 × 16 work groups to
    /// cover every pixel of the image, and no more.
    pub fn frame_dispatch(&self) -> (d: FrameDispatch)
        ensures
            d.push_width == self@.width as i32,
            d.push_height == self@.height as i32,
            d.frame_index == self@.frame_count,
            d.groups_x == groups_for(self@.width),
            d.groups_y == groups_for(self@.height),
            d.groups_z == 1,
            d.groups_x * 16 >= self@.width && d.groups_x * 16 < self@.width + 16,
            d.groups_y * 16 >= self@.height && d.groups_y * 16 < self@.height + 16,
    {
        FrameDispatch {
            push_width: self.interop.width as i32,
            push_height: self.interop.height as i32,
            frame_index: self.frame_count,
            groups_x: group_count(self.interop.width),
            groups_y: group_count(self.interop.height),
            groups_z: 1,
        }
    }

    /// The barriers around one frame's dispatch. Before it, the input image
    /// (written by OpenGL) becomes visible to shader reads; after it, the
    /// shader's writes to the output image become visible to OpenGL. Both
    /// images stay in the general layout.
    pub fn frame_barriers(&self) -> (barriers: (PipelineBarrier, PipelineBarrier))
        ensures
            barriers.0.src_stage == 0x1,
            barriers.0.dst_stage == 0x800,
            barriers.0.images@ == seq![image_barrier(0, 0x20, 1, 1, self@.interop.input.image)],
            barriers.1.src_stage == 0x800,
            barriers.1.dst_stage == 0x2000,
            barriers.1.images@ == seq![image_barrier(0x40, 0, 1, 1, self@.interop.output.image)],
    {
        let general: i32 = layout_general();
        let mut before: Vec<ImageBarrier> = Vec::new();
        before.push(make_image_barrier(access_none(), access_shader_read(), general, general, self.interop.input.image));
        let mut after: Vec<ImageBarrier> = Vec::new();
        after.push(make_image_barrier(access_shader_write(), access_none(), general, general, self.interop.output.image));
        let pre = PipelineBarrier { src_stage: stage_top_of_pipe(), dst_stage: stage_compute_shader(), images: before };
        let post = PipelineBarrier { src_stage: stage_compute_shader(), dst_stage: stage_bottom_of_pipe(), images: after };
        assert(pre.images@ =~= seq![image_barrier(0, 0x20, 1, 1, self@.interop.input.image)]);
        assert(post.images@ =~= seq![image_barrier(0x40, 0, 1, 1, self@.interop.output.image)]);
        (pre, post)
    }

    /// Records how the GPU work of one frame went: a frame that went through
    /// counts, a failed one changes nothing; the outcome is handed back.
    pub fn process_frame(&mut self, submitted: Result<(), RtxError>) -> (r: Result<(), RtxError>)
        requires
            submitted is Ok ==> old(self)@.frame_count < u32::MAX,
        ensures
            r == submitted,
            submitted is Ok ==> final(self)@ == advanced(old(self)@),
            submitted is Err ==> final(self)@ == old(self)@,
            final(self)@.width == final(self)@.interop.width,
            final(self)@.height == final(self)@.interop.height,
    {
        if submitted.is_ok() {
            self.frame_count = self.frame_count + 1;
        }
        submitted
    }

    /// Records the outcome of recreating the shared images at a new size: on
    /// success the renderer takes the new images and their size and returns
    /// their handles; on failure it is unchanged and the error is handed back.
    pub fn resize(&mut self, recreated: Result<InteropResources, RtxError>) -> (r: Result<Vec<i64>, RtxError>)
        ensures
            recreated matches Ok(interop) ==> {
                &&& final(self)@ == resized(old(self)@, interop)
                &&& final(self)@.interop == interop
                &&& final(self)@.frame_count == old(self)@.frame_count
                &&& r matches Ok(h) && h@ == handles_of(interop)
            },
            recreated matches Err(e) ==> final(self)@ == old(self)@ && r == Err::<Vec<i64>, RtxError>(e),
            final(self)@.width == final(self)@.interop.width,
            final(self)@.height == final(self)@.interop.height,
    {
        match recreated {
            Ok(interop) => {
                self.interop = interop;
                Ok(self.get_handles())
            },
            Err(e) => Err(e),
        }
    }
}

} // verus!
