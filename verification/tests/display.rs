use raytracer_rs::compute::Tracer;
use raytracer_rs::config::TracerConfig;
use raytracer_rs::device::{DeviceInfo, QueueFamilyInfo};
use raytracer_rs::graphics::{run, FrameInput, KeyState, SPEED};
use raytracer_rs::kernel::{bound_slots, KernelInterface};
use raytracer_rs::protocol::Phase;

fn tracer() -> Tracer {
    let devices = vec![DeviceInfo {
        queue_families: vec![QueueFamilyInfo { supports_compute: true }],
        supports_storage_buffers: true,
    }];
    let kernel = KernelInterface { slots: bound_slots().to_vec(), local_size: 48 };
    Tracer::init(TracerConfig::default(), &devices, &kernel).unwrap()
}

fn no_keys() -> KeyState {
    KeyState {
        escape: false,
        w: false,
        s: false,
        a: false,
        d: false,
        left_shift: false,
        space: false,
    }
}

fn input(keys: KeyState) -> FrameInput {
    FrameInput { window_open: true, keys, facing: [0, 0, 1000] }
}

#[test]
fn speed_is_a_tenth() {
    assert_eq!(SPEED, 100);
}

#[test]
fn each_key_moves_along_its_axis() {
    let cases = [
        (KeyState { w: true, ..no_keys() }, [0, -1000, 900]),
        (KeyState { s: true, ..no_keys() }, [0, -1000, 1100]),
        (KeyState { a: true, ..no_keys() }, [-100, -1000, 1000]),
        (KeyState { d: true, ..no_keys() }, [100, -1000, 1000]),
        (KeyState { left_shift: true, ..no_keys() }, [0, -900, 1000]),
        (KeyState { space: true, ..no_keys() }, [0, -1100, 1000]),
        (no_keys(), [0, -1000, 1000]),
    ];
    for (keys, expected) in cases {
        let mut t = tracer();
        assert!(run(&mut t, &input(keys)));
        assert_eq!(t.camera().position, expected);
    }
}

#[test]
fn keys_add_up_and_cancel() {
    let mut t = tracer();
    let keys = KeyState { w: true, d: true, space: true, ..no_keys() };
    assert!(run(&mut t, &input(keys)));
    assert_eq!(t.camera().position, [100, -1100, 900]);
    let opposite =
        KeyState { w: true, s: true, a: true, d: true, left_shift: true, space: true, ..no_keys() };
    assert!(run(&mut t, &input(opposite)));
    assert_eq!(t.camera().position, [100, -1100, 900]);
}

#[test]
fn keys_take_effect_in_order_at_the_end_of_the_range() {
    // W first runs into the lower end, then S moves back up from there.
    let mut t = tracer();
    t.set_camera_pos([0, 0, i64::MIN + 30]);
    assert!(run(&mut t, &input(KeyState { w: true, s: true, ..no_keys() })));
    assert_eq!(t.camera().position, [0, 0, i64::MIN + 100]);
}

#[test]
fn run_turns_the_camera() {
    let mut t = tracer();
    let turn = FrameInput { window_open: true, keys: no_keys(), facing: [707, 0, 707] };
    assert!(run(&mut t, &turn));
    assert_eq!(t.camera().direction, [707, 0, 707]);
}

#[test]
fn escape_or_a_closed_window_ends_the_loop() {
    let moving = KeyState { w: true, d: true, ..no_keys() };
    let stops = [
        FrameInput { window_open: false, keys: moving, facing: [1000, 0, 0] },
        FrameInput {
            window_open: true,
            keys: KeyState { escape: true, ..moving },
            facing: [1000, 0, 0],
        },
        FrameInput {
            window_open: false,
            keys: KeyState { escape: true, ..moving },
            facing: [1000, 0, 0],
        },
    ];
    for stop in stops {
        let mut t = tracer();
        let before = t.camera();
        assert!(!run(&mut t, &stop));
        assert_eq!(t.camera(), before);
        assert_eq!(t.phase(), Phase::Idle);
    }
}

#[test]
fn ten_turns_forward_move_one_unit() {
    let mut t = tracer();
    for _ in 0..10 {
        assert!(run(&mut t, &input(KeyState { w: true, ..no_keys() })));
    }
    assert_eq!(t.camera().position, [0, -1000, 0]);
}
