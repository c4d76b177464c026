use lattice::error::RtxError;
use lattice::interop::{full_color_range, transition_to_general, ColorRange, ImageBarrier, InteropResources, SharedImage};
use lattice::renderer::Renderer;
use lattice::vulkan_context::VulkanContext;

fn image(base: u64, alloc_size: u64, handle: i64) -> SharedImage {
    SharedImage { image: base, memory: base + 1, view: base + 2, alloc_size, handle }
}

fn interop(width: u32, height: u32, seed: u64) -> InteropResources {
    InteropResources {
        input: image(seed, 4096 + seed, 40 + seed as i64),
        output: image(seed + 10, 8192 + seed, 50 + seed as i64),
        width,
        height,
    }
}

fn renderer(width: u32, height: u32) -> Renderer {
    let ctx = VulkanContext {
        gpu_name: "Test GPU".to_string(),
        rt_supported: true,
        queue_family: 0,
        memory_type_flags: vec![1],
    };
    Renderer::new(ctx, interop(width, height, 0))
}

#[test]
fn new_renderer_reports_its_context() {
    let r = renderer(640, 480);
    assert_eq!(r.gpu_name(), "Test GPU");
    assert!(r.rt_supported());
    assert_eq!(r.context().queue_family, 0);
}

#[test]
fn handles_are_input_then_output() {
    let r = renderer(640, 480);
    assert_eq!(r.get_handles(), vec![40, 4096, 50, 8192]);
}

#[test]
fn huge_allocation_sizes_keep_their_bit_pattern() {
    let mut io = interop(8, 8, 0);
    io.input.alloc_size = u64::MAX;
    let ctx = VulkanContext { gpu_name: String::new(), rt_supported: false, queue_family: 0, memory_type_flags: vec![] };
    let r = Renderer::new(ctx, io);
    assert_eq!(r.get_handles()[1], -1);
}

#[test]
fn dispatch_covers_the_image() {
    let d = renderer(1920, 1081).frame_dispatch();
    assert_eq!((d.groups_x, d.groups_y, d.groups_z), (120, 68, 1));
    assert_eq!((d.push_width, d.push_height, d.frame_index), (1920, 1081, 0));
    let d = renderer(0, 1).frame_dispatch();
    assert_eq!((d.groups_x, d.groups_y), (0, 1));
    let d = renderer(u32::MAX, 17).frame_dispatch();
    assert_eq!((d.groups_x, d.groups_y), (268_435_456, 2));
    assert_eq!(d.push_width, -1);
}

#[test]
fn only_frames_that_went_through_count() {
    let mut r = renderer(64, 64);
    assert_eq!(r.process_frame(Ok(())), Ok(()));
    assert_eq!(r.process_frame(Ok(())), Ok(()));
    let failed = Err(RtxError::Vulkan(-4));
    assert_eq!(r.process_frame(failed.clone()), failed);
    assert_eq!(r.frame_dispatch().frame_index, 2);
}

#[test]
fn resize_takes_the_new_images() {
    let mut r = renderer(64, 64);
    r.process_frame(Ok(())).unwrap();
    let handles = r.resize(Ok(interop(800, 600, 100))).unwrap();
    assert_eq!(handles, vec![140, 4196, 150, 8292]);
    assert_eq!(r.get_handles(), handles);
    let d = r.frame_dispatch();
    assert_eq!((d.push_width, d.push_height, d.frame_index), (800, 600, 1));
    assert_eq!((d.groups_x, d.groups_y), (50, 38));
}

#[test]
fn failed_resize_changes_nothing() {
    let mut r = renderer(64, 48);
    let err = RtxError::Init("No matching memory type".to_string());
    assert_eq!(r.resize(Err(err.clone())), Err(err));
    assert_eq!(r.get_handles(), vec![40, 4096, 50, 8192]);
    let d = r.frame_dispatch();
    assert_eq!((d.push_width, d.push_height), (64, 48));
}

#[test]
fn color_range_is_the_single_level_and_layer() {
    assert_eq!(
        full_color_range(),
        ColorRange { aspect_mask: 1, base_mip_level: 0, level_count: 1, base_array_layer: 0, layer_count: 1 }
    );
}

fn barrier(src_access: u32, dst_access: u32, old_layout: i32, new_layout: i32, image: u64) -> ImageBarrier {
    ImageBarrier {
        src_access,
        dst_access,
        old_layout,
        new_layout,
        src_queue_family: u32::MAX,
        dst_queue_family: u32::MAX,
        image,
        range: full_color_range(),
    }
}

#[test]
fn frame_barriers_guard_input_reads_and_output_writes() {
    let r = renderer(64, 64);
    let (pre, post) = r.frame_barriers();
    assert_eq!((pre.src_stage, pre.dst_stage), (0x1, 0x800));
    assert_eq!(pre.images, vec![barrier(0, 0x20, 1, 1, 0)]);
    assert_eq!((post.src_stage, post.dst_stage), (0x800, 0x2000));
    assert_eq!(post.images, vec![barrier(0x40, 0, 1, 1, 10)]);
}

#[test]
fn new_images_move_from_undefined_to_general() {
    let t = transition_to_general(&vec![7, 9]);
    assert_eq!((t.src_stage, t.dst_stage), (0x1, 0x800));
    assert_eq!(t.images, vec![barrier(0, 0x60, 0, 1, 7), barrier(0, 0x60, 0, 1, 9)]);
    assert!(transition_to_general(&Vec::new()).images.is_empty());
}
