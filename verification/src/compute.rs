//! The tracer: the host's side of the ray tracer.
//!
//! A [`Tracer`] owns the scene and the camera, knows which device it works
//! on, and keeps the phase of the frame in progress. Its camera can be set
//! and moved at any time; a frame shows the camera as it stands when the
//! frame is requested.

use crate::camera::{initial_camera, CameraState};
use crate::config::TracerConfig;
use crate::device::{select_device, selection_of, DeviceInfo, DeviceSelection};
use crate::failure::Failure;
use crate::fixed::{stays_in_range, translate};
use crate::kernel::{bound_slots, dispatch_groups, KernelInterface};
use crate::protocol::{DispatchAction, DispatchEvent, Phase, TracerView};
use crate::scene::{build_scene, scene_of, SceneDescriptor};
use vstd::prelude::*;

verus! {

/// What [`Tracer::init`] makes of its arguments: the choice of the device
/// comes first, the check of the kernel's interface second.
pub open spec fn init_outcome(
    config: TracerConfig,
    devices: Seq<DeviceInfo>,
    kernel: KernelInterface,
) -> Result<TracerView, Failure> {
    match selection_of(devices) {
        Err(failure) => Err(failure),
        Ok(selection) => if !kernel.is_compatible() {
            Err(Failure::InterfaceMismatch)
        } else {
            Ok(
                TracerView {
                    config,
                    selection,
                    local_size: kernel.local_size,
                    scene: scene_of(config.sphere_count as nat, config.width, config.height),
                    camera: initial_camera(),
                    pipeline_ready: false,
                    phase: Phase::Idle,
                },
            )
        },
    }
}

/// The host's side of the ray tracer.
#[derive(Debug)]
pub struct Tracer {
    config: TracerConfig,
    selection: DeviceSelection,
    local_size: u32,
    scene: SceneDescriptor,
    camera: CameraState,
    pipeline_ready: bool,
    phase: Phase,
}

impl View for Tracer {
    type V = TracerView;

    closed spec fn view(&self) -> TracerView {
        TracerView {
            config: self.config,
            selection: self.selection,
            local_size: self.local_size,
            scene: self.scene@,
            camera: self.camera,
            pipeline_ready: self.pipeline_ready,
            phase: self.phase,
        }
    }
}

impl Tracer {
    #[verifier::type_invariant]
    pub open spec fn inv(&self) -> bool {
        self@.wf()
    }

    /// Makes a tracer for `config` on the first suitable device of `devices`,
    /// to drive a kernel that declares `kernel`.
    ///
    /// The new tracer is idle, its pipeline not yet built, its camera the
    /// initial one, its scene the one that `config` calls for.
    pub fn init(config: TracerConfig, devices: &Vec<DeviceInfo>, kernel: &KernelInterface) -> (made:
        Result<Tracer, Failure>)
        requires
            config.is_supported(),
        ensures
            match made {
                Ok(tracer) => init_outcome(config, devices@, *kernel) == Ok::<TracerView, Failure>(
                    tracer@,
                ) && tracer@.wf(),
                Err(failure) => init_outcome(config, devices@, *kernel) == Err::<
                    TracerView,
                    Failure,
                >(failure),
            },
    {
        let selection = match select_device(devices) {
            Ok(selection) => selection,
            Err(failure) => {
                return Err(failure);
            },
        };
        if !kernel.is_compatible() {
            return Err(Failure::InterfaceMismatch);
        }
        Ok(
            Tracer {
                config,
                selection,
                local_size: kernel.local_size,
                scene: build_scene(config.sphere_count, config.width, config.height),
                camera: CameraState::initial(),
                pipeline_ready: false,
                phase: Phase::Idle,
            },
        )
    }

    /// Puts the camera at `pos`. Every position is accepted.
    pub fn set_camera_pos(&mut self, pos: [i64; 3])
        ensures
            final(self)@ == old(self)@.with_position(pos),
            final(self)@.wf(),
    {
        proof {
            use_type_invariant(&*self);
        }
        self.camera.position = pos;
    }

    /// Moves the camera by `(x, y, z)`.
    pub fn change_camera_pos(&mut self, x: i64, y: i64, z: i64)
        ensures
            final(self)@ == old(self)@.moved(x, y, z),
            final(self)@.wf(),
    {
        proof {
            use_type_invariant(&*self);
        }
        self.camera.position = translate(self.camera.position, x, y, z);
    }

    /// Turns the camera to look along `(x, y, z)`. The vector is stored as it
    /// is given: the caller hands in a unit vector.
    pub fn set_camera_direction(&mut self, x: i64, y: i64, z: i64)
        ensures
            final(self)@ == old(self)@.with_direction([x, y, z]),
            final(self)@.wf(),
    {
        proof {
            use_type_invariant(&*self);
        }
        self.camera.direction = [x, y, z];
    }

    /// What the tracer was made for.
    pub fn config(&self) -> (config: TracerConfig)
        ensures
            config == self@.config,
            config.is_supported(),
    {
        proof {
            use_type_invariant(self);
        }
        self.config
    }

    /// The device and queue family that were chosen.
    pub fn selection(&self) -> (selection: DeviceSelection)
        ensures
            selection == self@.selection,
    {
        self.selection
    }

    /// The number of invocations in one work group of the kernel.
    pub fn local_size(&self) -> (local_size: u32)
        ensures
            local_size == self@.local_size,
            local_size >= 1,
    {
        proof {
            use_type_invariant(self);
        }
        self.local_size
    }

    /// The scene.
    pub fn scene(&self) -> (scene: &SceneDescriptor)
        ensures
            scene@ == self@.scene,
    {
        &self.scene
    }

    /// The camera as it stands.
    pub fn camera(&self) -> (camera: CameraState)
        ensures
            camera == self@.camera,
    {
        self.camera
    }

    /// How far the work on the frame in progress has come.
    pub fn phase(&self) -> (phase: Phase)
        ensures
            phase == self@.phase,
    {
        self.phase
    }

    /// Whether the pipeline and its bindings exist.
    pub fn pipeline_ready(&self) -> (ready: bool)
        ensures
            ready == self@.pipeline_ready,
    {
        self.pipeline_ready
    }

    fn fail(&mut self, failure: Failure) -> (action: DispatchAction)
        ensures
            (final(self)@, action) == old(self)@.fail(failure),
    {
        proof {
            use_type_invariant(&*self);
        }
        self.phase = Phase::Failed(failure);
        DispatchAction::Abort(failure)
    }

    fn upload(&mut self) -> (action: DispatchAction)
        requires
            old(self).pipeline_ready,
        ensures
            (final(self)@, action) == old(self)@.upload(),
    {
        proof {
            use_type_invariant(&*self);
        }
        self.phase = Phase::Uploading;
        DispatchAction::UploadCamera(self.camera)
    }

    /// Takes the outcome of the last action and says what to do next.
    ///
    /// A frame that is presented has exactly one pixel for each pixel of the
    /// configured frame, wherever the camera stands.
    pub fn compute(&mut self, event: DispatchEvent) -> (action: DispatchAction)
        ensures
            (final(self)@, action) == old(self)@.step(event),
            final(self)@.wf(),
            action matches DispatchAction::Present(pixels) ==> pixels@.len()
                == final(self)@.config.width * final(self)@.config.height,
    {
        proof {
            use_type_invariant(&*self);
        }
        match (self.phase, event) {
            (Phase::Failed(failure), _) => DispatchAction::Abort(failure),
            (Phase::Idle, DispatchEvent::FrameRequested) => if self.pipeline_ready {
                self.upload()
            } else {
                self.phase = Phase::BuildingPipeline;
                DispatchAction::BuildPipeline
            },
            (Phase::BuildingPipeline, DispatchEvent::PipelineBuilt) => {
                self.phase = Phase::Binding;
                DispatchAction::BindResources(bound_slots())
            },
            (Phase::Binding, DispatchEvent::ResourcesBound) => {
                self.pipeline_ready = true;
                self.upload()
            },
            (Phase::Uploading, DispatchEvent::CameraUploaded) => {
                self.phase = Phase::Recording;
                let groups: u32 = dispatch_groups(
                    self.config.width * self.config.height,
                    self.local_size,
                );
                DispatchAction::RecordDispatch { groups }
            },
            (Phase::Recording, DispatchEvent::DispatchRecorded) => {
                self.phase = Phase::Submitting;
                DispatchAction::Submit
            },
            (Phase::Submitting, DispatchEvent::Submitted) => {
                self.phase = Phase::Waiting;
                DispatchAction::WaitFence
            },
            (Phase::Waiting, DispatchEvent::FenceSignaled) => {
                self.phase = Phase::Reading;
                DispatchAction::ReadFramebuffer
            },
            (Phase::Reading, DispatchEvent::FramebufferRead(pixels)) => {
                if pixels.len() as u64 == self.config.pixel_count() {
                    self.phase = Phase::Idle;
                    DispatchAction::Present(pixels)
                } else {
                    self.fail(Failure::Readback)
                }
            },
            (phase, DispatchEvent::Failed) => self.fail(phase.failure()),
            _ => self.fail(Failure::OutOfOrder),
        }
    }
}

/// Two moves along x, one after the other, end where one move by their sum
/// ends, if and only if the first move stays inside the range of the
/// coordinates or both moves go the same way. A move that ran into the end
/// of the range is not undone by a move back.
pub proof fn lemma_moves_add_up(tracer: TracerView, a: i64, b: i64)
    requires
        i64::MIN <= a + b <= i64::MAX,
    ensures
        tracer.moved(a, 0, 0).moved(b, 0, 0) == tracer.moved((a + b) as i64, 0, 0) <==> (
        stays_in_range(tracer.camera.position, a, 0, 0) || (a >= 0 && b >= 0) || (a <= 0 && b
            <= 0)),
{
}

/// Two moves end at the same place in either order, as long as neither of
/// them, made first, runs into the end of the range.
pub proof fn lemma_moves_commute(tracer: TracerView, first: [i64; 3], second: [i64; 3])
    requires
        stays_in_range(tracer.camera.position, first[0], first[1], first[2]),
        stays_in_range(tracer.camera.position, second[0], second[1], second[2]),
    ensures
        tracer.moved(first[0], first[1], first[2]).moved(second[0], second[1], second[2])
            == tracer.moved(second[0], second[1], second[2]).moved(first[0], first[1], first[2]),
{
}

} // verus!
