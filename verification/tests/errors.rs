use lattice::error::RtxError;

#[test]
fn vulkan_error_names_the_result_code() {
    assert_eq!(RtxError::Vulkan(-1).message(), "Vulkan error: ERROR_OUT_OF_HOST_MEMORY");
    assert_eq!(RtxError::Vulkan(-4).message(), "Vulkan error: ERROR_DEVICE_LOST");
}

#[test]
fn vulkan_error_with_unknown_code_shows_the_number() {
    assert_eq!(RtxError::Vulkan(12345).message(), "Vulkan error: 12345");
}

#[test]
fn messages_of_the_other_variants() {
    assert_eq!(
        RtxError::Loading("LibraryLoadFailure".to_string()).message(),
        "Vulkan loader error: LibraryLoadFailure"
    );
    assert_eq!(RtxError::Init("boom".to_string()).message(), "Init failed: boom");
    assert_eq!(RtxError::NoSuitableGpu.message(), "No suitable GPU found");
    assert_eq!(RtxError::Interop("bad fd".to_string()).message(), "Interop error: bad fd");
}

#[test]
fn init_failure_names_the_call_and_the_code() {
    let e = RtxError::init_failure("vkCreateInstance", -9);
    assert_eq!(e, RtxError::Init("vkCreateInstance: ERROR_INCOMPATIBLE_DRIVER".to_string()));
    assert_eq!(e.message(), "Init failed: vkCreateInstance: ERROR_INCOMPATIBLE_DRIVER");
}
