//! What can go wrong, and at which stage of the tracer's life.
//!
//! Every failure is fatal: nothing is retried and nothing is skipped. A
//! failure names its cause; the cause fixes the stage and the kind.

use vstd::prelude::*;

verus! {

/// The two kinds of failure.
#[derive(Clone, Copy, Debug, PartialEq, Eq, Structural)]
pub enum FailureKind {
    /// The tracer could not be brought up.
    Initialization,
    /// A frame could not be produced.
    Dispatch,
}

/// The stage that a diagnostic names.
#[derive(Clone, Copy, Debug, PartialEq, Eq, Structural)]
pub enum Stage {
    DeviceEnumeration,
    DeviceCreation,
    BufferAllocation,
    KernelLoad,
    PipelineBuild,
    Dispatch,
    FenceWait,
}

/// The cause of a failure.
#[derive(Clone, Copy, Debug, PartialEq, Eq, Structural)]
pub enum Failure {
    /// The graphics API could not be reached at all.
    InstanceUnavailable,
    /// No device was found.
    NoDevice,
    /// No device has a queue family that can run compute work.
    NoComputeQueue,
    /// The chosen device lacks the storage-buffer capability.
    MissingCapability,
    /// The device refused to be created.
    DeviceRejected,
    /// A buffer could not be allocated.
    BufferAllocation,
    /// The scene could not be uploaded to its device-resident buffer.
    SceneUpload,
    /// The kernel program could not be loaded.
    KernelLoad,
    /// The kernel declares other buffer slots, or no invocations per group.
    InterfaceMismatch,
    /// The compute pipeline could not be created.
    PipelineBuild,
    /// The buffers could not be bound to the kernel's slots.
    ResourceBinding,
    /// The camera could not be written to its buffer.
    CameraUpload,
    /// The dispatch command could not be recorded.
    CommandRecording,
    /// The recorded work could not be submitted to the queue.
    Submission,
    /// Waiting for the device to finish failed.
    FenceWait,
    /// The framebuffer could not be read, or has the wrong number of pixels.
    Readback,
    /// An event arrived that the step in progress does not expect.
    OutOfOrder,
}

impl Failure {
    /// The stage at which this failure arises.
    pub open spec fn spec_stage(self) -> Stage {
        match self {
            Failure::InstanceUnavailable | Failure::NoDevice | Failure::NoComputeQueue =>
                Stage::DeviceEnumeration,
            Failure::MissingCapability | Failure::DeviceRejected => Stage::DeviceCreation,
            Failure::BufferAllocation | Failure::SceneUpload => Stage::BufferAllocation,
            Failure::KernelLoad | Failure::InterfaceMismatch => Stage::KernelLoad,
            Failure::PipelineBuild | Failure::ResourceBinding => Stage::PipelineBuild,
            Failure::CameraUpload
            | Failure::CommandRecording
            | Failure::Submission
            | Failure::Readback
            | Failure::OutOfOrder => Stage::Dispatch,
            Failure::FenceWait => Stage::FenceWait,
        }
    }

    /// The kind of this failure: everything up to and including the pipeline
    /// and its bindings belongs to initialization, the rest to dispatch.
    pub open spec fn spec_kind(self) -> FailureKind {
        match self.spec_stage() {
            Stage::Dispatch | Stage::FenceWait => FailureKind::Dispatch,
            _ => FailureKind::Initialization,
        }
    }

    /// The text of the diagnostic.
    pub open spec fn spec_diagnostic(self) -> Seq<char> {
        match self {
            Failure::InstanceUnavailable => "Failed to create instance"@,
            Failure::NoDevice => "No vulkan device available"@,
            Failure::NoComputeQueue => "Couldn't find compute queue family"@,
            Failure::MissingCapability => "Device lacks storage buffer support"@,
            Failure::DeviceRejected => "failed to create device"@,
            Failure::BufferAllocation => "Failed to create buffer"@,
            Failure::SceneUpload => "Failed to create immutable buffer"@,
            Failure::KernelLoad => "Failed to create shader module"@,
            Failure::InterfaceMismatch => "Shader interface does not match the tracer's buffers"@,
            Failure::PipelineBuild => "Failed to create compute pipeline"@,
            Failure::ResourceBinding => "Failed to bind buffers"@,
            Failure::CameraUpload => "Failed to write camera buffer"@,
            Failure::CommandRecording => "Failed to record dispatch"@,
            Failure::Submission => "Failed to submit dispatch"@,
            Failure::FenceWait => "Failed to wait for fence"@,
            Failure::Readback => "Failed to read framebuffer"@,
            Failure::OutOfOrder => "Dispatch steps out of order"@,
        }
    }

    #[verifier::when_used_as_spec(spec_stage)]
    pub fn stage(self) -> (stage: Stage)
        ensures
            stage == self.spec_stage(),
    {
        match self {
            Failure::InstanceUnavailable | Failure::NoDevice | Failure::NoComputeQueue =>
                Stage::DeviceEnumeration,
            Failure::MissingCapability | Failure::DeviceRejected => Stage::DeviceCreation,
            Failure::BufferAllocation | Failure::SceneUpload => Stage::BufferAllocation,
            Failure::KernelLoad | Failure::InterfaceMismatch => Stage::KernelLoad,
            Failure::PipelineBuild | Failure::ResourceBinding => Stage::PipelineBuild,
            Failure::CameraUpload
            | Failure::CommandRecording
            | Failure::Submission
            | Failure::Readback
            | Failure::OutOfOrder => Stage::Dispatch,
            Failure::FenceWait => Stage::FenceWait,
        }
    }

    #[verifier::when_used_as_spec(spec_kind)]
    pub fn kind(self) -> (kind: FailureKind)
        ensures
            kind == self.spec_kind(),
    {
        match self.stage() {
            Stage::Dispatch | Stage::FenceWait => FailureKind::Dispatch,
            _ => FailureKind::Initialization,
        }
    }

    /// The message shown when the process gives up.
    pub fn diagnostic(self) -> (text: &'static str)
        ensures
            text@ == self.spec_diagnostic(),
    {
        match self {
            Failure::InstanceUnavailable => "Failed to create instance",
            Failure::NoDevice => "No vulkan device available",
            Failure::NoComputeQueue => "Couldn't find compute queue family",
            Failure::MissingCapability => "Device lacks storage buffer support",
            Failure::DeviceRejected => "failed to create device",
            Failure::BufferAllocation => "Failed to create buffer",
            Failure::SceneUpload => "Failed to create immutable buffer",
            Failure::KernelLoad => "Failed to create shader module",
            Failure::InterfaceMismatch => "Shader interface does not match the tracer's buffers",
            Failure::PipelineBuild => "Failed to create compute pipeline",
            Failure::ResourceBinding => "Failed to bind buffers",
            Failure::CameraUpload => "Failed to write camera buffer",
            Failure::CommandRecording => "Failed to record dispatch",
            Failure::Submission => "Failed to submit dispatch",
            Failure::FenceWait => "Failed to wait for fence",
            Failure::Readback => "Failed to read framebuffer",
            Failure::OutOfOrder => "Dispatch steps out of order",
        }
    }
}

} // verus!
