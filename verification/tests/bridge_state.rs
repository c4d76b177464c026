use lattice::bridge::NativeBridge;

#[test]
fn gpu_name_is_unknown_before_init() {
    let b = NativeBridge::new();
    assert_eq!(b.gpu_name(), "Unknown");
    assert_eq!(b.is_rt_supported(), 0);
}

#[test]
fn first_gpu_name_is_kept() {
    let mut b = NativeBridge::new();
    b.record_init("First GPU", true);
    assert_eq!(b.gpu_name(), "First GPU");
    assert_eq!(b.is_rt_supported(), 1);
    b.record_init("Second GPU", false);
    assert_eq!(b.gpu_name(), "First GPU");
    assert_eq!(b.is_rt_supported(), 0);
}
