use raytracer_rs::failure::{Failure, FailureKind, Stage};

const ALL: [Failure; 17] = [
    Failure::InstanceUnavailable,
    Failure::NoDevice,
    Failure::NoComputeQueue,
    Failure::MissingCapability,
    Failure::DeviceRejected,
    Failure::BufferAllocation,
    Failure::SceneUpload,
    Failure::KernelLoad,
    Failure::InterfaceMismatch,
    Failure::PipelineBuild,
    Failure::ResourceBinding,
    Failure::CameraUpload,
    Failure::CommandRecording,
    Failure::Submission,
    Failure::FenceWait,
    Failure::Readback,
    Failure::OutOfOrder,
];

#[test]
fn every_failure_has_its_stage() {
    let stages: Vec<Stage> = ALL.iter().map(|f| f.stage()).collect();
    assert_eq!(
        stages,
        vec![
            Stage::DeviceEnumeration,
            Stage::DeviceEnumeration,
            Stage::DeviceEnumeration,
            Stage::DeviceCreation,
            Stage::DeviceCreation,
            Stage::BufferAllocation,
            Stage::BufferAllocation,
            Stage::KernelLoad,
            Stage::KernelLoad,
            Stage::PipelineBuild,
            Stage::PipelineBuild,
            Stage::Dispatch,
            Stage::Dispatch,
            Stage::Dispatch,
            Stage::FenceWait,
            Stage::Dispatch,
            Stage::Dispatch,
        ]
    );
}

#[test]
fn kinds_follow_the_stage() {
    for failure in ALL {
        let expected = match failure.stage() {
            Stage::Dispatch | Stage::FenceWait => FailureKind::Dispatch,
            _ => FailureKind::Initialization,
        };
        assert_eq!(failure.kind(), expected);
    }
    assert_eq!(Failure::PipelineBuild.kind(), FailureKind::Initialization);
    assert_eq!(Failure::ResourceBinding.kind(), FailureKind::Initialization);
    assert_eq!(Failure::Submission.kind(), FailureKind::Dispatch);
    assert_eq!(Failure::FenceWait.kind(), FailureKind::Dispatch);
}

#[test]
fn diagnostics_are_worded() {
    assert_eq!(Failure::InstanceUnavailable.diagnostic(), "Failed to create instance");
    assert_eq!(Failure::NoDevice.diagnostic(), "No vulkan device available");
    assert_eq!(Failure::NoComputeQueue.diagnostic(), "Couldn't find compute queue family");
    assert_eq!(Failure::MissingCapability.diagnostic(), "Device lacks storage buffer support");
    assert_eq!(Failure::DeviceRejected.diagnostic(), "failed to create device");
    assert_eq!(Failure::BufferAllocation.diagnostic(), "Failed to create buffer");
    assert_eq!(Failure::SceneUpload.diagnostic(), "Failed to create immutable buffer");
    assert_eq!(Failure::KernelLoad.diagnostic(), "Failed to create shader module");
    assert_eq!(
        Failure::InterfaceMismatch.diagnostic(),
        "Shader interface does not match the tracer's buffers"
    );
    assert_eq!(Failure::PipelineBuild.diagnostic(), "Failed to create compute pipeline");
    assert_eq!(Failure::ResourceBinding.diagnostic(), "Failed to bind buffers");
    assert_eq!(Failure::CameraUpload.diagnostic(), "Failed to write camera buffer");
    assert_eq!(Failure::CommandRecording.diagnostic(), "Failed to record dispatch");
    assert_eq!(Failure::Submission.diagnostic(), "Failed to submit dispatch");
    assert_eq!(Failure::FenceWait.diagnostic(), "Failed to wait for fence");
    assert_eq!(Failure::Readback.diagnostic(), "Failed to read framebuffer");
    assert_eq!(Failure::OutOfOrder.diagnostic(), "Dispatch steps out of order");
}

#[test]
fn diagnostics_differ() {
    for (i, a) in ALL.iter().enumerate() {
        for (j, b) in ALL.iter().enumerate() {
            if i != j {
                assert_ne!(a.diagnostic(), b.diagnostic());
            }
        }
    }
}
