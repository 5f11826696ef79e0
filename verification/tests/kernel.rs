use raytracer_rs::config::{
    BufferPlan, BufferUsage, Residency, SceneBufferPolicy, TracerConfig, HEIGHT, NUM_SPHERES, WIDTH,
};
use raytracer_rs::kernel::{bound_slots, dispatch_groups, BufferSlot, KernelInterface};

#[test]
fn groups_cover_the_usual_frame() {
    assert_eq!(dispatch_groups(800 * 600, 48), 10000);
    assert_eq!(dispatch_groups(800 * 600, 64), 7500);
    assert_eq!(dispatch_groups(800 * 600, 1), 480000);
    assert_eq!(dispatch_groups(800 * 600, 7), 68572);
}

#[test]
fn groups_round_up() {
    assert_eq!(dispatch_groups(0, 64), 0);
    assert_eq!(dispatch_groups(1, 64), 1);
    assert_eq!(dispatch_groups(64, 64), 1);
    assert_eq!(dispatch_groups(65, 64), 2);
    assert_eq!(dispatch_groups(u32::MAX, 1), u32::MAX);
    assert_eq!(dispatch_groups(u32::MAX, u32::MAX), 1);
    assert_eq!(dispatch_groups(u32::MAX, 2), 2147483648);
}

#[test]
fn groups_are_the_least_cover() {
    for pixels in 0..200u32 {
        for local in 1..20u32 {
            let groups = dispatch_groups(pixels, local);
            assert!(groups * local >= pixels);
            if pixels > 0 {
                assert!((groups - 1) * local < pixels);
            }
        }
    }
}

#[test]
fn buffers_are_bound_in_order() {
    assert_eq!(
        bound_slots(),
        [BufferSlot::Framebuffer, BufferSlot::Scene, BufferSlot::Camera, BufferSlot::Spheres]
    );
}

#[test]
fn interface_must_match_exactly() {
    let good = KernelInterface { slots: bound_slots().to_vec(), local_size: 48 };
    assert!(good.is_compatible());
    let swapped = KernelInterface {
        slots: vec![
            BufferSlot::Scene,
            BufferSlot::Framebuffer,
            BufferSlot::Camera,
            BufferSlot::Spheres,
        ],
        local_size: 48,
    };
    assert!(!swapped.is_compatible());
    let short = KernelInterface {
        slots: vec![BufferSlot::Framebuffer, BufferSlot::Scene, BufferSlot::Camera],
        local_size: 48,
    };
    assert!(!short.is_compatible());
    let long = KernelInterface {
        slots: vec![
            BufferSlot::Framebuffer,
            BufferSlot::Scene,
            BufferSlot::Camera,
            BufferSlot::Spheres,
            BufferSlot::Spheres,
        ],
        local_size: 48,
    };
    assert!(!long.is_compatible());
    let last_wrong = KernelInterface {
        slots: vec![
            BufferSlot::Framebuffer,
            BufferSlot::Scene,
            BufferSlot::Camera,
            BufferSlot::Camera,
        ],
        local_size: 48,
    };
    assert!(!last_wrong.is_compatible());
    let empty_groups = KernelInterface { slots: bound_slots().to_vec(), local_size: 0 };
    assert!(!empty_groups.is_compatible());
    let none = KernelInterface { slots: vec![], local_size: 1 };
    assert!(!none.is_compatible());
}

#[test]
fn usual_configuration() {
    let config = TracerConfig::default();
    assert_eq!(WIDTH, 800);
    assert_eq!(HEIGHT, 600);
    assert_eq!(NUM_SPHERES, 5);
    assert_eq!(
        config,
        TracerConfig {
            width: 800,
            height: 600,
            sphere_count: 5,
            scene_buffer: SceneBufferPolicy::Immutable
        }
    );
    assert!(config.is_supported());
    assert_eq!(config.pixel_count(), 480000);
}

#[test]
fn supported_configurations() {
    let base = TracerConfig::default();
    assert!(TracerConfig { width: 1, height: 1, sphere_count: 1, ..base }.is_supported());
    assert!(!TracerConfig { width: 0, ..base }.is_supported());
    assert!(!TracerConfig { height: 0, ..base }.is_supported());
    assert!(!TracerConfig { sphere_count: 0, ..base }.is_supported());
    assert!(TracerConfig { width: 65535, height: 65537, ..base }.is_supported());
    assert!(!TracerConfig { width: 65536, height: 65536, ..base }.is_supported());
    assert!(TracerConfig { width: u32::MAX, height: 1, ..base }.is_supported());
    assert!(!TracerConfig { width: u32::MAX, height: 2, ..base }.is_supported());
    assert_eq!(
        TracerConfig { width: u32::MAX, height: u32::MAX, ..base }.pixel_count(),
        18446744065119617025
    );
}

#[test]
fn blank_frame_is_all_zero() {
    let base = TracerConfig::default();
    assert_eq!(TracerConfig { width: 3, height: 2, ..base }.blank_frame(), vec![0u32; 6]);
    assert_eq!(TracerConfig { width: 1, height: 1, ..base }.blank_frame(), vec![0u32]);
    assert!(TracerConfig { width: 0, height: 7, ..base }.blank_frame().is_empty());
    let usual = base.blank_frame();
    assert_eq!(usual.len(), 480000);
    assert!(usual.iter().all(|p| *p == 0));
}

#[test]
fn buffer_plans() {
    let immutable = TracerConfig::default();
    let writable = TracerConfig { scene_buffer: SceneBufferPolicy::HostWritable, ..immutable };
    let host = |slot| BufferPlan {
        slot,
        residency: Residency::HostVisible,
        usage: BufferUsage::All,
        kernel_writes: slot == BufferSlot::Framebuffer,
    };
    assert_eq!(
        immutable.buffer_plan(BufferSlot::Scene),
        BufferPlan {
            slot: BufferSlot::Scene,
            residency: Residency::DeviceLocal,
            usage: BufferUsage::StorageOnly,
            kernel_writes: false
        }
    );
    assert!(immutable.buffer_plan(BufferSlot::Framebuffer).kernel_writes);
    assert!(!immutable.buffer_plan(BufferSlot::Camera).kernel_writes);
    assert!(!immutable.buffer_plan(BufferSlot::Spheres).kernel_writes);
    assert!(!writable.buffer_plan(BufferSlot::Scene).kernel_writes);
    assert_eq!(writable.buffer_plan(BufferSlot::Scene), host(BufferSlot::Scene));
    for config in [immutable, writable] {
        assert_eq!(config.buffer_plan(BufferSlot::Framebuffer), host(BufferSlot::Framebuffer));
        assert_eq!(config.buffer_plan(BufferSlot::Camera), host(BufferSlot::Camera));
        assert_eq!(config.buffer_plan(BufferSlot::Spheres), host(BufferSlot::Spheres));
    }
}
