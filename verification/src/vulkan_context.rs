//! Choices made while bringing up Vulkan: which physical device to use, which
//! queue family to take, which device extensions to enable, and which memory
//! type an allocation may come from.

use vstd::prelude::*;
use crate::error::RtxError;

verus! {

// ---------------------------------------------------------------------------
// Values that ash defines
// ---------------------------------------------------------------------------

/// Reads ash's `vk::QueueFlags::GRAPHICS`; ash defines it as bit 0.
#[verifier::external_body]
fn queue_graphics_bit() -> (bit: u32)
    ensures
        bit == 1,
{
    ash::vk::QueueFlags::GRAPHICS.as_raw()
}

/// Reads ash's `vk::QueueFlags::COMPUTE`; ash defines it as bit 1.
#[verifier::external_body]
fn queue_compute_bit() -> (bit: u32)
    ensures
        bit == 2,
{
    ash::vk::QueueFlags::COMPUTE.as_raw()
}

/// Reads ash's `khr::external_memory_fd::NAME` as text.
#[verifier::external_body]
fn external_memory_fd_name() -> (name: String)
    ensures
        name@ == "VK_KHR_external_memory_fd"@,
{
    ash::khr::external_memory_fd::NAME.to_string_lossy().into_owned()
}

/// Reads ash's `khr::external_memory_win32::NAME` as text.
#[verifier::external_body]
fn external_memory_win32_name() -> (name: String)
    ensures
        name@ == "VK_KHR_external_memory_win32"@,
{
    ash::khr::external_memory_win32::NAME.to_string_lossy().into_owned()
}

/// Reads ash's `khr::deferred_host_operations::NAME` as text.
#[verifier::external_body]
fn deferred_host_operations_name() -> (name: String)
    ensures
        name@ == "VK_KHR_deferred_host_operations"@,
{
    ash::khr::deferred_host_operations::NAME.to_string_lossy().into_owned()
}

/// Reads ash's `khr::acceleration_structure::NAME` as text.
#[verifier::external_body]
fn acceleration_structure_name() -> (name: String)
    ensures
        name@ == "VK_KHR_acceleration_structure"@,
{
    ash::khr::acceleration_structure::NAME.to_string_lossy().into_owned()
}

/// Reads ash's `khr::ray_tracing_pipeline::NAME` as text.
#[verifier::external_body]
fn ray_tracing_pipeline_name() -> (name: String)
    ensures
        name@ == "VK_KHR_ray_tracing_pipeline"@,
{
    ash::khr::ray_tracing_pipeline::NAME.to_string_lossy().into_owned()
}

// ---------------------------------------------------------------------------
// The model
// ---------------------------------------------------------------------------

/// Whether every bit of `required` is set in `flags` (Vulkan flag containment).
pub open spec fn flags_contain(flags: u32, required: u32) -> bool {
    flags & required == required
}

/// The operating system whose external-memory extension the shared images use.
#[derive(Clone, Copy, Debug, PartialEq, Eq, Structural)]
pub enum Platform {
    Linux,
    Windows,
}

/// The platform's external-memory extension, which a device must offer.
pub open spec fn external_memory_extension(platform: Platform) -> Seq<char> {
    match platform {
        Platform::Linux => "VK_KHR_external_memory_fd"@,
        Platform::Windows => "VK_KHR_external_memory_win32"@,
    }
}

/// What the device selection reads of one physical device.
pub struct PhysicalDeviceInfo {
    /// The raw `VkPhysicalDevice` handle.
    pub handle: u64,
    /// The device name the driver reports.
    pub name: String,
    /// Whether the device is a discrete GPU.
    pub discrete: bool,
    /// The raw `VkQueueFlags` of each of its queue families.
    pub queue_flags: Vec<u32>,
    /// The names of the device extensions it offers.
    pub extensions: Vec<String>,
}

/// Whether `names` holds `name`.
pub open spec fn offers(names: Seq<String>, name: Seq<char>) -> bool {
    exists|i: int| 0 <= i < names.len() && (#[trigger] names[i])@ == name
}

/// Whether some queue family supports compute work.
pub open spec fn has_compute_family(families: Seq<u32>) -> bool {
    exists|i: int| 0 <= i < families.len() && flags_contain(#[trigger] families[i], 2)
}

/// Whether the device offers the three ray-tracing extensions.
pub open spec fn offers_ray_tracing(dev: PhysicalDeviceInfo) -> bool {
    &&& offers(dev.extensions@, "VK_KHR_deferred_host_operations"@)
    &&& offers(dev.extensions@, "VK_KHR_acceleration_structure"@)
    &&& offers(dev.extensions@, "VK_KHR_ray_tracing_pipeline"@)
}

/// Whether the device can be used at all: it has a compute queue family and
/// the platform's external-memory extension.
pub open spec fn usable(dev: PhysicalDeviceInfo, platform: Platform) -> bool {
    &&& has_compute_family(dev.queue_flags@)
    &&& offers(dev.extensions@, external_memory_extension(platform))
}

/// The preference score of a device: discrete GPUs first, then ray tracing.
pub open spec fn gpu_score(dev: PhysicalDeviceInfo) -> int {
    (if dev.discrete { 1000int } else { 0int }) + (if offers_ray_tracing(dev) { 500int } else { 0int })
}

/// Whether `k` is the device that selection takes: a usable device whose
/// score no usable device beats, and that no earlier usable device ties.
pub open spec fn is_chosen(devs: Seq<PhysicalDeviceInfo>, platform: Platform, k: int) -> bool {
    &&& 0 <= k < devs.len()
    &&& usable(devs[k], platform)
    &&& forall|j: int| 0 <= j < devs.len() && usable(#[trigger] devs[j], platform)
            ==> gpu_score(devs[j]) <= gpu_score(devs[k])
    &&& forall|j: int| 0 <= j < k && usable(#[trigger] devs[j], platform)
            ==> gpu_score(devs[j]) < gpu_score(devs[k])
}

/// Whether some device is usable.
pub open spec fn any_usable(devs: Seq<PhysicalDeviceInfo>, platform: Platform) -> bool {
    exists|j: int| 0 <= j < devs.len() && usable(#[trigger] devs[j], platform)
}

// ---------------------------------------------------------------------------
// Device selection
// ---------------------------------------------------------------------------

/// Whether `names` holds `name`.
fn has_extension(names: &Vec<String>, name: &String) -> (found: bool)
    ensures
        found == offers(names@, name@),
{
    let mut i: usize = 0;
    while i < names.len()
        invariant
            i <= names.len(),
            forall|j: int| 0 <= j < i ==> (#[trigger] names@[j])@ != name@,
        decreases names.len() - i,
    {
        if names[i] == *name {
            assert(names@[i as int]@ == name@);
            return true;
        }
        i = i + 1;
    }
    false
}

/// Whether some queue family supports compute work.
fn has_compute_queue(families: &Vec<u32>) -> (found: bool)
    ensures
        found == has_compute_family(families@),
{
    let compute: u32 = queue_compute_bit();
    let mut i: usize = 0;
    while i < families.len()
        invariant
            i <= families.len(),
            compute == 2,
            forall|j: int| 0 <= j < i ==> !flags_contain(#[trigger] families@[j], 2),
        decreases families.len() - i,
    {
        if families[i] & compute == compute {
            assert(flags_contain(families@[i as int], 2));
            return true;
        }
        i = i + 1;
    }
    false
}

/// Picks the physical device to run on: among the usable devices (a compute
/// queue family and the platform's external-memory extension), the first one
/// with the highest score, where a discrete GPU counts 1000 and support for
/// ray tracing 500. Returns its handle, its name and whether it offers the
/// ray-tracing extensions.
pub fn pick_gpu(devs: &Vec<PhysicalDeviceInfo>, platform: Platform) -> (chosen: Result<(u64, String, bool), RtxError>)
    ensures
        chosen is Ok <==> any_usable(devs@, platform),
        chosen matches Err(e) ==> e == RtxError::NoSuitableGpu,
        chosen matches Ok((handle, name, rt)) ==> exists|k: int| #[trigger] is_chosen(devs@, platform, k)
            && handle == devs@[k].handle && name@ == devs@[k].name@ && rt == offers_ray_tracing(devs@[k]),
{
    let mem_name = match platform {
        Platform::Linux => external_memory_fd_name(),
        Platform::Windows => external_memory_win32_name(),
    };
    let deferred = deferred_host_operations_name();
    let accel = acceleration_structure_name();
    let pipeline = ray_tracing_pipeline_name();

    // (index, score, ray tracing) of the best device seen so far
    let mut best: Option<(usize, u32, bool)> = None;
    let mut i: usize = 0;
    while i < devs.len()
        invariant
            i <= devs.len(),
            mem_name@ == external_memory_extension(platform),
            deferred@ == "VK_KHR_deferred_host_operations"@,
            accel@ == "VK_KHR_acceleration_structure"@,
            pipeline@ == "VK_KHR_ray_tracing_pipeline"@,
            best is None <==> !(exists|j: int| 0 <= j < i && usable(#[trigger] devs@[j], platform)),
            best matches Some((k, s, rt)) ==> {
                &&& k < i
                &&& usable(devs@[k as int], platform)
                &&& s == gpu_score(devs@[k as int])
                &&& rt == offers_ray_tracing(devs@[k as int])
                &&& forall|j: int| 0 <= j < i && usable(#[trigger] devs@[j], platform)
                        ==> gpu_score(devs@[j]) <= s
                &&& forall|j: int| 0 <= j < k && usable(#[trigger] devs@[j], platform)
                        ==> gpu_score(devs@[j]) < s
            },
        decreases devs.len() - i,
    {
        let dev = &devs[i];
        if has_compute_queue(&dev.queue_flags) && has_extension(&dev.extensions, &mem_name) {
            let rt_ok = has_extension(&dev.extensions, &deferred)
                && has_extension(&dev.extensions, &accel)
                && has_extension(&dev.extensions, &pipeline);
            let mut score: u32 = 0;
            if dev.discrete {
                score = score + 1000;
            }
            if rt_ok {
                score = score + 500;
            }
            assert(score == gpu_score(devs@[i as int]));
            let better = match best {
                None => true,
                Some((_, s, _)) => score > s,
            };
            if better {
                best = Some((i, score, rt_ok));
            }
        }
        i = i + 1;
    }
    match best {
        None => Err(RtxError::NoSuitableGpu),
        Some((k, _, rt)) => {
            assert(is_chosen(devs@, platform, k as int));
            Ok((devs[k].handle, devs[k].name.clone(), rt))
        },
    }
}

/// The choice is determined: at most one device is the chosen one.
pub proof fn chosen_gpu_is_unique(devs: Seq<PhysicalDeviceInfo>, platform: Platform, k1: int, k2: int)
    requires
        is_chosen(devs, platform, k1),
        is_chosen(devs, platform, k2),
    ensures
        k1 == k2,
{
    assert(gpu_score(devs[k1]) <= gpu_score(devs[k2]));
    assert(gpu_score(devs[k2]) <= gpu_score(devs[k1]));
}

/// A device is ray-tracing capable exactly when its extension list holds
/// each of the three ray-tracing extensions; lacking any one of them it is
/// not, and then it earns no ray-tracing bonus: its score is a multiple of
/// 1000, while a capable device's score leaves 500 over.
pub proof fn ray_tracing_needs_all_three_extensions(dev: PhysicalDeviceInfo)
    ensures
        offers_ray_tracing(dev) <==> {
            &&& exists|i: int| 0 <= i < dev.extensions@.len()
                    && (#[trigger] dev.extensions@[i])@ == "VK_KHR_deferred_host_operations"@
            &&& exists|i: int| 0 <= i < dev.extensions@.len()
                    && (#[trigger] dev.extensions@[i])@ == "VK_KHR_acceleration_structure"@
            &&& exists|i: int| 0 <= i < dev.extensions@.len()
                    && (#[trigger] dev.extensions@[i])@ == "VK_KHR_ray_tracing_pipeline"@
        },
        offers_ray_tracing(dev) ==> gpu_score(dev) % 1000 == 500,
        !offers_ray_tracing(dev) ==> gpu_score(dev) % 1000 == 0,
        dev.discrete ==> gpu_score(dev) >= 1000,
        !dev.discrete ==> gpu_score(dev) <= 500,
{
}

/// A device is usable exactly when one of its queue families has the
/// compute bit and its extension list holds the platform's external-memory
/// extension (`VK_KHR_external_memory_fd` on Linux, `..._win32` on Windows).
pub proof fn usable_devices(dev: PhysicalDeviceInfo, platform: Platform)
    ensures
        usable(dev, platform) <==> {
            &&& exists|j: int| 0 <= j < dev.queue_flags@.len() && (#[trigger] dev.queue_flags@[j]) & 2 == 2
            &&& exists|i: int| 0 <= i < dev.extensions@.len() && (#[trigger] dev.extensions@[i])@ == (
                if platform == Platform::Linux {
                    "VK_KHR_external_memory_fd"@
                } else {
                    "VK_KHR_external_memory_win32"@
                })
        },
{
}

/// The chosen device is usable, no usable device scores higher, and every
/// usable device before it scores strictly lower: ties go to the first.
pub proof fn chosen_gpu_is_first_best(devs: Seq<PhysicalDeviceInfo>, platform: Platform, k: int)
    requires
        is_chosen(devs, platform, k),
    ensures
        0 <= k < devs.len(),
        usable(devs[k], platform),
        forall|j: int| 0 <= j < devs.len() && usable(#[trigger] devs[j], platform) ==> {
            &&& gpu_score(devs[j]) <= gpu_score(devs[k])
            &&& j < k ==> gpu_score(devs[j]) < gpu_score(devs[k])
        },
{
}

/// A usable discrete GPU always wins over every integrated one: if any
/// usable device is discrete, the chosen device is discrete.
pub proof fn discrete_gpu_preferred(devs: Seq<PhysicalDeviceInfo>, platform: Platform, k: int, j: int)
    requires
        is_chosen(devs, platform, k),
        0 <= j < devs.len(),
        usable(devs[j], platform),
        devs[j].discrete,
    ensures
        devs[k].discrete,
{
    assert(gpu_score(devs[j]) <= gpu_score(devs[k]));
}

/// Among usable devices of the same kind, one that offers ray tracing wins
/// over one that does not.
pub proof fn ray_tracing_gpu_preferred(devs: Seq<PhysicalDeviceInfo>, platform: Platform, k: int, j: int)
    requires
        is_chosen(devs, platform, k),
        0 <= j < devs.len(),
        usable(devs[j], platform),
        devs[j].discrete == devs[k].discrete,
        offers_ray_tracing(devs[j]),
    ensures
        offers_ray_tracing(devs[k]),
{
    assert(gpu_score(devs[j]) <= gpu_score(devs[k]));
}

// ---------------------------------------------------------------------------
// Device set-up
// ---------------------------------------------------------------------------

/// Whether family `i` is the first whose flags contain `required`.
pub open spec fn first_family_with(families: Seq<u32>, required: u32, i: int) -> bool {
    &&& 0 <= i < families.len()
    &&& flags_contain(families[i], required)
    &&& forall|j: int| 0 <= j < i ==> !flags_contain(#[trigger] families[j], required)
}

/// The queue family that set-up takes: the first family with both graphics
/// and compute, else the first with compute.
pub open spec fn is_chosen_family(families: Seq<u32>, i: int) -> bool {
    ||| first_family_with(families, 3, i)
    ||| {
        &&& forall|j: int| 0 <= j < families.len() ==> !flags_contain(#[trigger] families[j], 3)
        &&& first_family_with(families, 2, i)
    }
}

/// Picks the queue family to create the device with, from the raw
/// `VkQueueFlags` of each family: the first one that supports both graphics
/// and compute, else the first that supports compute; fails when none
/// supports compute.
pub fn select_queue_family(families: &Vec<u32>) -> (chosen: Result<u32, RtxError>)
    requires
        families.len() <= u32::MAX,
    ensures
        chosen is Ok <==> has_compute_family(families@),
        chosen matches Ok(i) ==> is_chosen_family(families@, i as int),
        chosen matches Err(e) ==> e matches RtxError::Init(m) && m@ == "No compute queue family"@,
{
    let both: u32 = queue_compute_bit() | queue_graphics_bit();
    assert(both == 3) by (bit_vector)
        requires both == (2u32 | 1u32);
    let mut i: usize = 0;
    while i < families.len()
        invariant
            i <= families.len(),
            both == 3,
            families.len() <= u32::MAX,
            forall|j: int| 0 <= j < i ==> !flags_contain(#[trigger] families@[j], 3),
        decreases families.len() - i,
    {
        if families[i] & both == both {
            let f: u32 = families[i];
            assert(f & 2 == 2) by (bit_vector)
                requires f & 3 == 3;
            assert(flags_contain(families@[i as int], 2));
            return Ok(i as u32);
        }
        i = i + 1;
    }
    let compute: u32 = queue_compute_bit();
    let mut i: usize = 0;
    while i < families.len()
        invariant
            i <= families.len(),
            compute == 2,
            families.len() <= u32::MAX,
            forall|j: int| 0 <= j < families.len() ==> !flags_contain(#[trigger] families@[j], 3),
            forall|j: int| 0 <= j < i ==> !flags_contain(#[trigger] families@[j], 2),
        decreases families.len() - i,
    {
        if families[i] & compute == compute {
            assert(flags_contain(families@[i as int], 2));
            return Ok(i as u32);
        }
        i = i + 1;
    }
    Err(RtxError::Init(String::from_str("No compute queue family")))
}

/// The queue family chosen always supports compute work.
pub proof fn chosen_family_supports_compute(families: Seq<u32>, i: int)
    requires
        is_chosen_family(families, i),
    ensures
        0 <= i < families.len(),
        flags_contain(families[i], 2),
{
    let f: u32 = families[i];
    if flags_contain(f, 3) {
        assert(f & 2 == 2) by (bit_vector)
            requires f & 3 == 3;
    }
}

/// Whichever family is chosen has the compute bit. When some family has
/// both the graphics and the compute bits (whatever other bits it has), the
/// chosen one is the first such family; only when none has both is it the
/// first family with the compute bit.
pub proof fn queue_family_choice(families: Seq<u32>, i: int)
    requires
        is_chosen_family(families, i),
    ensures
        0 <= i < families.len(),
        families[i] & 2 == 2,
        (exists|j: int| 0 <= j < families.len() && (#[trigger] families[j]) & 3 == 3) ==> {
            &&& families[i] & 3 == 3
            &&& forall|j: int| 0 <= j < i ==> (#[trigger] families[j]) & 3 != 3
        },
        !(exists|j: int| 0 <= j < families.len() && (#[trigger] families[j]) & 3 == 3)
            ==> forall|j: int| 0 <= j < i ==> (#[trigger] families[j]) & 2 != 2,
{
    chosen_family_supports_compute(families, i);
    if exists|j: int| 0 <= j < families.len() && (#[trigger] families[j]) & 3 == 3 {
        let j = choose|j: int| 0 <= j < families.len() && (#[trigger] families[j]) & 3 == 3;
        assert(flags_contain(families[j], 3));
    }
}

/// Success is owed exactly when some queue family has the compute bit.
pub proof fn compute_family_exists(families: Seq<u32>)
    ensures
        has_compute_family(families) <==> exists|j: int| 0 <= j < families.len() && (#[trigger] families[j]) & 2 == 2,
{
}

/// The device extensions to enable: the platform's external-memory extension,
/// and the three ray-tracing extensions when ray tracing is supported.
pub open spec fn device_extension_list(platform: Platform, rt_supported: bool) -> Seq<Seq<char>> {
    if rt_supported {
        seq![
            external_memory_extension(platform),
            "VK_KHR_deferred_host_operations"@,
            "VK_KHR_acceleration_structure"@,
            "VK_KHR_ray_tracing_pipeline"@,
        ]
    } else {
        seq![external_memory_extension(platform)]
    }
}

/// The extensions enabled say whether ray tracing is on: the ray-tracing
/// pipeline extension is among them exactly when it is.
pub proof fn extensions_tell_ray_tracing(platform: Platform, rt_supported: bool)
    ensures
        device_extension_list(platform, rt_supported).contains("VK_KHR_ray_tracing_pipeline"@) == rt_supported,
        device_extension_list(platform, rt_supported)[0] == external_memory_extension(platform),
{
    reveal_strlit("VK_KHR_ray_tracing_pipeline");
    reveal_strlit("VK_KHR_external_memory_fd");
    reveal_strlit("VK_KHR_external_memory_win32");
    let list = device_extension_list(platform, rt_supported);
    let rtp = "VK_KHR_ray_tracing_pipeline"@;
    assert(external_memory_extension(platform)[8] != rtp[8]);
    if rt_supported {
        assert(list[3] == rtp);
    } else {
        assert(list.len() == 1);
        assert(list[0] != rtp);
    }
}

/// The extension list, spelled out: the platform's external-memory extension
/// first (`VK_KHR_external_memory_fd` on Linux, `VK_KHR_external_memory_win32`
/// on Windows), then, with ray tracing on, deferred host operations,
/// acceleration structures and the ray-tracing pipeline. No extension appears
/// twice.
pub proof fn extension_list_spelled_out(platform: Platform, rt_supported: bool)
    ensures
        device_extension_list(platform, rt_supported).len() == (if rt_supported { 4int } else { 1int }),
        platform == Platform::Linux ==> device_extension_list(platform, rt_supported)[0]
            == "VK_KHR_external_memory_fd"@,
        platform == Platform::Windows ==> device_extension_list(platform, rt_supported)[0]
            == "VK_KHR_external_memory_win32"@,
        rt_supported ==> {
            &&& device_extension_list(platform, rt_supported)[1] == "VK_KHR_deferred_host_operations"@
            &&& device_extension_list(platform, rt_supported)[2] == "VK_KHR_acceleration_structure"@
            &&& device_extension_list(platform, rt_supported)[3] == "VK_KHR_ray_tracing_pipeline"@
        },
        forall|a: int, b: int| 0 <= a < b < device_extension_list(platform, rt_supported).len()
            ==> #[trigger] device_extension_list(platform, rt_supported)[a]
                != #[trigger] device_extension_list(platform, rt_supported)[b],
{
    reveal_strlit("VK_KHR_external_memory_fd");
    reveal_strlit("VK_KHR_external_memory_win32");
    reveal_strlit("VK_KHR_deferred_host_operations");
    reveal_strlit("VK_KHR_acceleration_structure");
    reveal_strlit("VK_KHR_ray_tracing_pipeline");
    let list = device_extension_list(platform, rt_supported);
    assert forall|a: int, b: int| 0 <= a < b < list.len() implies #[trigger] list[a] != #[trigger] list[b] by {
        // the letter after "VK_KHR_" tells them apart
        assert(list[a][7] != list[b][7]);
    }
}

/// The names of the device extensions to enable.
pub fn device_extensions(platform: Platform, rt_supported: bool) -> (names: Vec<String>)
    ensures
        names@.map_values(|n: String| n@) == device_extension_list(platform, rt_supported),
{
    let mut names: Vec<String> = Vec::new();
    match platform {
        Platform::Linux => names.push(external_memory_fd_name()),
        Platform::Windows => names.push(external_memory_win32_name()),
    }
    if rt_supported {
        names.push(deferred_host_operations_name());
        names.push(acceleration_structure_name());
        names.push(ray_tracing_pipeline_name());
    }
    assert(names@.map_values(|n: String| n@) =~= device_extension_list(platform, rt_supported));
    names
}

/// A set of device features: those the chosen GPU supports, or those the
/// device is created with.
#[derive(Clone, Copy, Debug, PartialEq, Eq, Structural)]
pub struct DeviceFeatures {
    pub shader_storage_image_extended_formats: bool,
    pub buffer_device_address: bool,
    pub acceleration_structure: bool,
    pub ray_tracing_pipeline: bool,
}

/// What the logical device is created with: one queue of `queue_family`,
/// the extensions and the features listed.
pub struct DevicePlan {
    /// The queue family whose queue the renderer uses.
    pub queue_family: u32,
    /// Whether the ray-tracing extensions and features are enabled.
    pub rt_supported: bool,
    /// The device extensions to enable.
    pub extensions: Vec<String>,
    /// The device features to enable.
    pub features: DeviceFeatures,
}

/// The features the device is created with: storage images in extended
/// formats always, the three ray-tracing features exactly when ray tracing
/// is on.
pub open spec fn enabled_features(rt_supported: bool) -> DeviceFeatures {
    DeviceFeatures {
        shader_storage_image_extended_formats: true,
        buffer_device_address: rt_supported,
        acceleration_structure: rt_supported,
        ray_tracing_pipeline: rt_supported,
    }
}

/// Ray tracing is enabled when the device offers the extensions and supports
/// all three features that they need.
pub open spec fn ray_tracing_enabled(rt_extensions: bool, features: DeviceFeatures) -> bool {
    rt_extensions && features.buffer_device_address && features.acceleration_structure
        && features.ray_tracing_pipeline
}

/// Ray tracing is on exactly when the GPU offers the extensions and all three
/// features they need; the device then enables storage images in extended
/// formats always and each ray-tracing feature exactly when ray tracing is on.
pub proof fn ray_tracing_decision(rt_extensions: bool, features: DeviceFeatures, rt: bool)
    ensures
        ray_tracing_enabled(rt_extensions, features) <==> (rt_extensions && features.buffer_device_address
            && features.acceleration_structure && features.ray_tracing_pipeline),
        enabled_features(rt).shader_storage_image_extended_formats,
        enabled_features(rt).buffer_device_address == rt,
        enabled_features(rt).acceleration_structure == rt,
        enabled_features(rt).ray_tracing_pipeline == rt,
{
}

/// Decides how to create the logical device on the chosen GPU: the GPU must
/// support storage images in extended formats; ray tracing is enabled when
/// it is fully supported; the queue family and the extensions follow.
pub fn plan_device(
    gpu_name: &String,
    rt_extensions: bool,
    features: DeviceFeatures,
    queue_families: &Vec<u32>,
    platform: Platform,
) -> (plan: Result<DevicePlan, RtxError>)
    requires
        queue_families.len() <= u32::MAX,
    ensures
        plan is Ok <==> features.shader_storage_image_extended_formats && has_compute_family(queue_families@),
        !features.shader_storage_image_extended_formats ==> (plan matches Err(e) && e matches RtxError::Init(m)
            && m@ == "GPU '"@ + gpu_name@ + "' lacks shaderStorageImageExtendedFormats"@),
        features.shader_storage_image_extended_formats && !has_compute_family(queue_families@)
            ==> (plan matches Err(e) && e matches RtxError::Init(m) && m@ == "No compute queue family"@),
        plan matches Ok(p) ==> {
            &&& is_chosen_family(queue_families@, p.queue_family as int)
            &&& p.rt_supported == ray_tracing_enabled(rt_extensions, features)
            &&& p.extensions@.map_values(|n: String| n@) == device_extension_list(platform, p.rt_supported)
            &&& p.features == enabled_features(p.rt_supported)
        },
{
    if !features.shader_storage_image_extended_formats {
        let text = String::from_str("GPU '").concat(gpu_name.as_str()).concat(
            "' lacks shaderStorageImageExtendedFormats",
        );
        return Err(RtxError::Init(text));
    }
    let rt_supported = rt_extensions && features.buffer_device_address
        && features.acceleration_structure && features.ray_tracing_pipeline;
    let queue_family = match select_queue_family(queue_families) {
        Ok(i) => i,
        Err(e) => return Err(e),
    };
    let extensions = device_extensions(platform, rt_supported);
    let features = DeviceFeatures {
        shader_storage_image_extended_formats: true,
        buffer_device_address: rt_supported,
        acceleration_structure: rt_supported,
        ray_tracing_pipeline: rt_supported,
    };
    Ok(DevicePlan { queue_family, rt_supported, extensions, features })
}

// ---------------------------------------------------------------------------
// The context
// ---------------------------------------------------------------------------

/// What the renderer keeps of the Vulkan context: the chosen GPU, whether
/// ray tracing was enabled, the queue family in use and the raw
/// `VkMemoryPropertyFlags` of each memory type of the GPU.
pub struct VulkanContext {
    pub gpu_name: String,
    pub rt_supported: bool,
    pub queue_family: u32,
    pub memory_type_flags: Vec<u32>,
}

/// Whether memory type `i` is allowed by `type_bits` and has all of `flags`.
pub open spec fn memory_type_fits(type_bits: u32, type_flags: u32, flags: u32, i: u32) -> bool {
    &&& type_bits & (1u32 << i) != 0
    &&& flags_contain(type_flags, flags)
}

/// A memory type fits when bit `i` of the allowed-type mask is set and its
/// property flags hold every requested flag (a type with only some of them
/// does not fit).
pub proof fn memory_type_fit_means(type_bits: u32, type_flags: u32, flags: u32, i: u32)
    requires
        i < 32,
    ensures
        memory_type_fits(type_bits, type_flags, flags, i) <==> {
            &&& (type_bits >> i) & 1 == 1
            &&& type_flags & flags == flags
        },
{
    assert((type_bits & (1u32 << i) != 0) <==> ((type_bits >> i) & 1 == 1)) by (bit_vector)
        requires i < 32;
}

impl VulkanContext {
    /// Finds the first memory type that `memory_type_bits` allows (bit `i`
    /// stands for type `i`) and whose property flags contain `flags`.
    pub fn find_memory_type(&self, memory_type_bits: u32, flags: u32) -> (found: Result<u32, RtxError>)
        requires
            self.memory_type_flags.len() <= 32,
        ensures
            found matches Ok(i) ==> {
                &&& i < self.memory_type_flags.len()
                &&& memory_type_fits(memory_type_bits, self.memory_type_flags@[i as int], flags, i)
                &&& forall|j: u32| j < i ==> !memory_type_fits(
                    memory_type_bits, #[trigger] self.memory_type_flags@[j as int], flags, j)
            },
            found matches Err(e) ==> {
                &&& e matches RtxError::Init(m) && m@ == "No matching memory type"@
                &&& forall|j: u32| j < self.memory_type_flags.len() ==> !memory_type_fits(
                    memory_type_bits, #[trigger] self.memory_type_flags@[j as int], flags, j)
            },
    {
        let count: u32 = self.memory_type_flags.len() as u32;
        let mut i: u32 = 0;
        while i < count
            invariant
                i <= count,
                count == self.memory_type_flags.len(),
                count <= 32,
                forall|j: u32| j < i ==> !memory_type_fits(
                    memory_type_bits, #[trigger] self.memory_type_flags@[j as int], flags, j),
            decreases count - i,
        {
            if (memory_type_bits & (1u32 << i)) != 0 && self.memory_type_flags[i as usize] & flags == flags {
                return Ok(i);
            }
            i = i + 1;
        }
        Err(RtxError::Init(String::from_str("No matching memory type")))
    }
}

} // verus!
