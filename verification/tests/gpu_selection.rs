use lattice::error::RtxError;
use lattice::vulkan_context::{
    device_extensions, pick_gpu, plan_device, select_queue_family, DeviceFeatures, PhysicalDeviceInfo,
    Platform, VulkanContext,
};

const FD: &str = "VK_KHR_external_memory_fd";
const WIN32: &str = "VK_KHR_external_memory_win32";
const DEFERRED: &str = "VK_KHR_deferred_host_operations";
const ACCEL: &str = "VK_KHR_acceleration_structure";
const RTP: &str = "VK_KHR_ray_tracing_pipeline";

fn device(handle: u64, name: &str, discrete: bool, queue_flags: Vec<u32>, exts: &[&str]) -> PhysicalDeviceInfo {
    PhysicalDeviceInfo {
        handle,
        name: name.to_string(),
        discrete,
        queue_flags,
        extensions: exts.iter().map(|e| e.to_string()).collect(),
    }
}

#[test]
fn no_devices_means_no_suitable_gpu() {
    assert_eq!(pick_gpu(&Vec::new(), Platform::Linux), Err(RtxError::NoSuitableGpu));
}

#[test]
fn devices_without_compute_or_external_memory_are_skipped() {
    let devs = vec![
        device(1, "graphics only", true, vec![1], &[FD, DEFERRED, ACCEL, RTP]),
        device(2, "no external memory", true, vec![3], &[DEFERRED, ACCEL, RTP]),
    ];
    assert_eq!(pick_gpu(&devs, Platform::Linux), Err(RtxError::NoSuitableGpu));
    let mut devs = devs;
    devs.push(device(3, "integrated", false, vec![2], &[FD]));
    assert_eq!(pick_gpu(&devs, Platform::Linux), Ok((3, "integrated".to_string(), false)));
}

#[test]
fn discrete_gpu_beats_integrated_gpu_with_ray_tracing() {
    let devs = vec![
        device(10, "integrated rt", false, vec![3], &[FD, DEFERRED, ACCEL, RTP]),
        device(20, "discrete", true, vec![3], &[FD]),
    ];
    assert_eq!(pick_gpu(&devs, Platform::Linux), Ok((20, "discrete".to_string(), false)));
}

#[test]
fn ray_tracing_breaks_the_tie_between_discrete_gpus() {
    let devs = vec![
        device(10, "plain", true, vec![3], &[FD]),
        device(20, "rt", true, vec![3], &[FD, DEFERRED, ACCEL, RTP]),
        device(30, "partial rt", true, vec![3], &[FD, DEFERRED, ACCEL]),
    ];
    assert_eq!(pick_gpu(&devs, Platform::Linux), Ok((20, "rt".to_string(), true)));
}

#[test]
fn first_device_wins_a_tie() {
    let devs = vec![
        device(10, "first", true, vec![2], &[FD]),
        device(20, "second", true, vec![2], &[FD]),
    ];
    assert_eq!(pick_gpu(&devs, Platform::Linux), Ok((10, "first".to_string(), false)));
}

#[test]
fn platform_decides_the_external_memory_extension() {
    let devs = vec![
        device(10, "linux", true, vec![2], &[FD]),
        device(20, "windows", false, vec![2], &[WIN32]),
    ];
    assert_eq!(pick_gpu(&devs, Platform::Windows), Ok((20, "windows".to_string(), false)));
    assert_eq!(pick_gpu(&devs, Platform::Linux), Ok((10, "linux".to_string(), false)));
}

#[test]
fn queue_family_prefers_graphics_and_compute() {
    assert_eq!(select_queue_family(&vec![2, 4, 3, 7]), Ok(2));
    assert_eq!(select_queue_family(&vec![7]), Ok(0));
}

#[test]
fn queue_family_falls_back_to_compute_only() {
    assert_eq!(select_queue_family(&vec![1, 4, 6, 2]), Ok(2));
}

#[test]
fn queue_family_without_compute_is_an_error() {
    assert_eq!(
        select_queue_family(&vec![1, 4, 8]),
        Err(RtxError::Init("No compute queue family".to_string()))
    );
    assert_eq!(
        select_queue_family(&Vec::new()),
        Err(RtxError::Init("No compute queue family".to_string()))
    );
}

#[test]
fn extensions_without_ray_tracing() {
    assert_eq!(device_extensions(Platform::Linux, false), vec![FD.to_string()]);
    assert_eq!(device_extensions(Platform::Windows, false), vec![WIN32.to_string()]);
}

#[test]
fn extensions_with_ray_tracing() {
    assert_eq!(
        device_extensions(Platform::Linux, true),
        vec![FD.to_string(), DEFERRED.to_string(), ACCEL.to_string(), RTP.to_string()]
    );
}

fn features(storage: bool, bda: bool, accel: bool, rtp: bool) -> DeviceFeatures {
    DeviceFeatures {
        shader_storage_image_extended_formats: storage,
        buffer_device_address: bda,
        acceleration_structure: accel,
        ray_tracing_pipeline: rtp,
    }
}

#[test]
fn plan_requires_extended_storage_formats() {
    let r = plan_device(&"Test GPU".to_string(), true, features(false, true, true, true), &vec![3], Platform::Linux);
    assert_eq!(
        r.err(),
        Some(RtxError::Init("GPU 'Test GPU' lacks shaderStorageImageExtendedFormats".to_string()))
    );
}

#[test]
fn plan_requires_a_compute_queue() {
    let r = plan_device(&"Test GPU".to_string(), false, features(true, false, false, false), &vec![1], Platform::Linux);
    assert_eq!(r.err(), Some(RtxError::Init("No compute queue family".to_string())));
}

#[test]
fn plan_enables_ray_tracing_only_when_fully_supported() {
    let p = plan_device(&"G".to_string(), true, features(true, true, true, true), &vec![2, 3], Platform::Linux).unwrap();
    assert_eq!(p.queue_family, 1);
    assert!(p.rt_supported);
    assert_eq!(p.extensions.len(), 4);
    assert_eq!(p.features, features(true, true, true, true));

    let p = plan_device(&"G".to_string(), true, features(true, true, false, true), &vec![2], Platform::Windows).unwrap();
    assert_eq!(p.queue_family, 0);
    assert!(!p.rt_supported);
    assert_eq!(p.extensions, vec![WIN32.to_string()]);
    assert_eq!(p.features, features(true, false, false, false));

    let p = plan_device(&"G".to_string(), false, features(true, true, true, true), &vec![2], Platform::Linux).unwrap();
    assert!(!p.rt_supported);
}

fn context(memory_type_flags: Vec<u32>) -> VulkanContext {
    VulkanContext { gpu_name: "G".to_string(), rt_supported: false, queue_family: 0, memory_type_flags }
}

#[test]
fn memory_type_is_the_first_allowed_one_with_the_flags() {
    let ctx = context(vec![2, 1, 7, 1]);
    assert_eq!(ctx.find_memory_type(0b1110, 1), Ok(1));
    assert_eq!(ctx.find_memory_type(0b1100, 1), Ok(2));
    assert_eq!(ctx.find_memory_type(0b1111, 2), Ok(0));
    assert_eq!(ctx.find_memory_type(0b1000, 0), Ok(3));
}

#[test]
fn memory_type_missing_is_an_error() {
    let ctx = context(vec![2, 1, 7, 1]);
    let none = Err(RtxError::Init("No matching memory type".to_string()));
    assert_eq!(ctx.find_memory_type(0b1010, 4), none);
    assert_eq!(ctx.find_memory_type(0, 0), none);
    assert_eq!(context(Vec::new()).find_memory_type(u32::MAX, 0), none);
}

#[test]
fn memory_type_bit_31_is_reachable() {
    let mut flags = vec![0u32; 32];
    flags[31] = 1;
    assert_eq!(context(flags).find_memory_type(1u32 << 31, 1), Ok(31));
}
