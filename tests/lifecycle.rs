use sdl3cube::{DeviceResource, Release, ResourceLedger};

fn full_ledger() -> ResourceLedger<u32> {
    let mut l = ResourceLedger::new();
    assert!(l.adopt_window(Some(1)));
    assert!(l.adopt_device(Some(2)));
    l.record_claim(true);
    assert_eq!(l.adopt(DeviceResource::Shader, Some(10)), Some(0));
    assert_eq!(l.adopt(DeviceResource::Shader, Some(11)), Some(1));
    assert_eq!(l.adopt(DeviceResource::Buffer, Some(12)), Some(2));
    assert_eq!(l.adopt(DeviceResource::Buffer, Some(13)), Some(3));
    assert_eq!(l.adopt(DeviceResource::TransferBuffer, Some(14)), Some(4));
    assert_eq!(l.adopt(DeviceResource::GraphicsPipeline, Some(15)), Some(5));
    l
}

fn scoped(kind: DeviceResource, slot: usize, handle: u32) -> Release<u32> {
    Release::Resource { kind, slot, device: 2, handle }
}

#[test]
fn teardown_releases_scoped_objects_then_device_then_window() {
    let mut l = full_ledger();
    let plan = l.teardown();
    assert_eq!(
        plan,
        vec![
            scoped(DeviceResource::GraphicsPipeline, 5, 15),
            scoped(DeviceResource::TransferBuffer, 4, 14),
            scoped(DeviceResource::Buffer, 3, 13),
            scoped(DeviceResource::Buffer, 2, 12),
            scoped(DeviceResource::Shader, 1, 11),
            scoped(DeviceResource::Shader, 0, 10),
            Release::ReleaseWindowFromDevice { device: 2, window: 1 },
            Release::DestroyDevice(2),
            Release::DestroyWindow(1),
        ]
    );
    assert!(l.teardown().is_empty());
}

#[test]
fn early_release_happens_once_and_teardown_skips_it() {
    let mut l = full_ledger();
    assert_eq!(l.get(4), Some(14));
    assert_eq!(l.release(4), Some(scoped(DeviceResource::TransferBuffer, 4, 14)));
    assert_eq!(l.release(4), None);
    assert_eq!(l.get(4), None);
    let plan = l.teardown();
    assert_eq!(plan.len(), 8);
    assert!(!plan.iter().any(|r| matches!(r, Release::Resource { slot: 4, .. })));
}

#[test]
fn failed_creation_is_never_released() {
    let mut l = ResourceLedger::new();
    assert!(l.adopt_window(Some(1)));
    assert!(l.adopt_device(Some(2)));
    assert_eq!(l.adopt(DeviceResource::Shader, Some(10)), Some(0));
    assert_eq!(l.adopt(DeviceResource::Shader, None), None);
    assert_eq!(l.adopt(DeviceResource::Buffer, Some(12)), Some(1));
    assert_eq!(l.release(7), None);
    assert_eq!(
        l.teardown(),
        vec![
            scoped(DeviceResource::Buffer, 1, 12),
            scoped(DeviceResource::Shader, 0, 10),
            Release::DestroyDevice(2),
            Release::DestroyWindow(1),
        ]
    );
}

#[test]
fn teardown_after_failed_device_creation() {
    let mut l: ResourceLedger<u32> = ResourceLedger::new();
    assert!(l.adopt_window(Some(1)));
    assert!(!l.adopt_device(None));
    assert_eq!(l.device(), None);
    assert_eq!(l.window(), Some(1));
    assert_eq!(l.teardown(), vec![Release::DestroyWindow(1)]);
}

#[test]
fn teardown_after_failed_window_creation() {
    let mut l: ResourceLedger<u32> = ResourceLedger::new();
    assert!(!l.adopt_window(None));
    assert!(l.teardown().is_empty());
}

#[test]
fn teardown_without_claim_skips_unbinding() {
    let mut l = ResourceLedger::new();
    l.adopt_window(Some(1));
    l.adopt_device(Some(2));
    l.record_claim(false);
    l.adopt(DeviceResource::Buffer, Some(3));
    assert_eq!(
        l.teardown(),
        vec![
            scoped(DeviceResource::Buffer, 0, 3),
            Release::DestroyDevice(2),
            Release::DestroyWindow(1),
        ]
    );
}
