use raytracer_rs::device::{
    first_compute_family, select_device, DeviceInfo, DeviceRequest, DeviceSelection,
    QueueFamilyInfo,
};
use raytracer_rs::failure::Failure;

fn family(supports_compute: bool) -> QueueFamilyInfo {
    QueueFamilyInfo { supports_compute }
}

fn device(families: &[bool], supports_storage_buffers: bool) -> DeviceInfo {
    DeviceInfo {
        queue_families: families.iter().map(|c| family(*c)).collect(),
        supports_storage_buffers,
    }
}

#[test]
fn no_device_is_reported() {
    assert_eq!(select_device(&vec![]), Err(Failure::NoDevice));
}

#[test]
fn devices_without_compute_are_reported() {
    let devices = vec![device(&[false, false], true), device(&[], true), device(&[false], true)];
    assert_eq!(select_device(&devices), Err(Failure::NoComputeQueue));
}

#[test]
fn first_compute_family_of_first_device_is_chosen() {
    let devices = vec![device(&[false, true, true], true), device(&[true], true)];
    assert_eq!(select_device(&devices), Ok(DeviceSelection { device: 0, queue_family: 1 }));
}

#[test]
fn devices_without_compute_are_passed_over() {
    let devices = vec![
        device(&[false], true),
        device(&[], true),
        device(&[false, false, true], true),
        device(&[true], true),
    ];
    assert_eq!(select_device(&devices), Ok(DeviceSelection { device: 2, queue_family: 2 }));
}

#[test]
fn missing_capability_ends_the_search() {
    // The second device would do, but only the first compute-capable one is tried.
    let devices = vec![device(&[false], true), device(&[true], false), device(&[true], true)];
    assert_eq!(select_device(&devices), Err(Failure::MissingCapability));
}

#[test]
fn capability_of_a_device_without_compute_does_not_matter() {
    let devices = vec![device(&[false], false), device(&[true], true)];
    assert_eq!(select_device(&devices), Ok(DeviceSelection { device: 1, queue_family: 0 }));
}

#[test]
fn first_compute_family_is_found() {
    assert_eq!(first_compute_family(&vec![]), None);
    assert_eq!(first_compute_family(&vec![family(false), family(false)]), None);
    assert_eq!(first_compute_family(&vec![family(true)]), Some(0));
    assert_eq!(first_compute_family(&vec![family(false), family(true), family(true)]), Some(1));
}

#[test]
fn one_queue_with_storage_buffers_is_asked_for() {
    let selection = DeviceSelection { device: 2, queue_family: 1 };
    assert_eq!(
        selection.request(),
        DeviceRequest { selection, queue_count: 1, queue_priority: 500, storage_buffers: true }
    );
}
