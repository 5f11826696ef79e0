//! The order of a frame's work, as a state machine.
//!
//! The tracer does not touch the device. The caller performs each
//! [`DispatchAction`] and reports the outcome as a [`DispatchEvent`]; the
//! tracer answers with the next action. One frame is one walk through
//!
//! ```text
//! FrameRequested -> [BuildPipeline -> BindResources ->] UploadCamera
//!     -> RecordDispatch -> Submit -> WaitFence -> ReadFramebuffer -> Present
//! ```
//!
//! where the bracketed part happens on the first frame only. A frame is
//! presented only after the device has signalled that the work is done, so
//! no half-written frame is ever seen. Any failure is final.

use crate::camera::CameraState;
use crate::config::TracerConfig;
use crate::device::DeviceSelection;
use crate::failure::Failure;
use crate::fixed::translated;
use crate::kernel::{binding_order, work_groups, BufferSlot};
use crate::scene::{scene_of, SceneView};
use vstd::prelude::*;

verus! {

/// How far the work on a frame has come.
#[derive(Clone, Copy, Debug, PartialEq, Eq, Structural)]
pub enum Phase {
    /// No frame is in progress.
    Idle,
    /// The compute pipeline is being created.
    BuildingPipeline,
    /// The buffers are being bound to the kernel's slots.
    Binding,
    /// The camera is being written to its buffer.
    Uploading,
    /// The dispatch command is being recorded.
    Recording,
    /// The recorded work is being submitted.
    Submitting,
    /// The host waits for the device to finish.
    Waiting,
    /// The framebuffer is being read back.
    Reading,
    /// The tracer has failed for good.
    Failed(Failure),
}

impl Phase {
    /// The failure in which the step of this phase ends when the device
    /// reports that it could not do what was asked.
    pub open spec fn spec_failure(self) -> Failure {
        match self {
            Phase::Idle => Failure::OutOfOrder,
            Phase::BuildingPipeline => Failure::PipelineBuild,
            Phase::Binding => Failure::ResourceBinding,
            Phase::Uploading => Failure::CameraUpload,
            Phase::Recording => Failure::CommandRecording,
            Phase::Submitting => Failure::Submission,
            Phase::Waiting => Failure::FenceWait,
            Phase::Reading => Failure::Readback,
            Phase::Failed(failure) => failure,
        }
    }

    #[verifier::when_used_as_spec(spec_failure)]
    pub fn failure(self) -> (failure: Failure)
        ensures
            failure == self.spec_failure(),
    {
        match self {
            Phase::Idle => Failure::OutOfOrder,
            Phase::BuildingPipeline => Failure::PipelineBuild,
            Phase::Binding => Failure::ResourceBinding,
            Phase::Uploading => Failure::CameraUpload,
            Phase::Recording => Failure::CommandRecording,
            Phase::Submitting => Failure::Submission,
            Phase::Waiting => Failure::FenceWait,
            Phase::Reading => Failure::Readback,
            Phase::Failed(failure) => failure,
        }
    }

    /// Whether the pipeline and its bindings must exist in this phase.
    pub open spec fn needs_pipeline(self) -> bool {
        self is Uploading || self is Recording || self is Submitting || self is Waiting
            || self is Reading
    }
}

/// What the caller reports to the tracer.
#[derive(Debug, PartialEq, Eq)]
pub enum DispatchEvent {
    /// The display asks for a new frame.
    FrameRequested,
    /// The compute pipeline was created.
    PipelineBuilt,
    /// The buffers were bound.
    ResourcesBound,
    /// The camera was written to its buffer.
    CameraUploaded,
    /// The dispatch command was recorded.
    DispatchRecorded,
    /// The recorded work was submitted.
    Submitted,
    /// The device has finished the submitted work.
    FenceSignaled,
    /// The framebuffer as it was read back.
    FramebufferRead(Vec<u32>),
    /// The last action could not be performed.
    Failed,
}

/// What the tracer asks the caller to do.
#[derive(Debug, PartialEq, Eq)]
pub enum DispatchAction {
    /// Create the compute pipeline from the kernel.
    BuildPipeline,
    /// Bind the buffers to the kernel's slots, in this order.
    BindResources([BufferSlot; 4]),
    /// Write this camera to the camera buffer.
    UploadCamera(CameraState),
    /// Record one dispatch over a one-dimensional grid of `groups` work groups.
    RecordDispatch { groups: u32 },
    /// Submit the recorded work to the queue.
    Submit,
    /// Block until the device has finished; there is no timeout.
    WaitFence,
    /// Read the framebuffer back.
    ReadFramebuffer,
    /// Show this frame: one packed colour per pixel.
    Present(Vec<u32>),
    /// Give up with this failure.
    Abort(Failure),
}

/// A tracer as a mathematical value.
pub struct TracerView {
    pub config: TracerConfig,
    pub selection: DeviceSelection,
    /// The number of invocations in one work group of the kernel.
    pub local_size: u32,
    pub scene: SceneView,
    pub camera: CameraState,
    /// Whether the pipeline and its bindings exist.
    pub pipeline_ready: bool,
    pub phase: Phase,
}

impl TracerView {
    /// What holds of every tracer.
    pub open spec fn wf(self) -> bool {
        &&& self.config.is_supported()
        &&& self.local_size >= 1
        &&& self.scene == scene_of(
            self.config.sphere_count as nat,
            self.config.width,
            self.config.height,
        )
        &&& self.phase.needs_pipeline() ==> self.pipeline_ready
    }

    /// The number of work groups of one dispatch.
    pub open spec fn groups(self) -> nat {
        work_groups(self.config.pixels(), self.local_size as nat)
    }

    /// This tracer in another phase.
    pub open spec fn at(self, phase: Phase) -> TracerView {
        TracerView { phase, ..self }
    }

    /// This tracer with its camera at `position`.
    pub open spec fn with_position(self, position: [i64; 3]) -> TracerView {
        TracerView { camera: CameraState { position, ..self.camera }, ..self }
    }

    /// This tracer with its camera moved by `(x, y, z)`.
    pub open spec fn moved(self, x: i64, y: i64, z: i64) -> TracerView {
        self.with_position(translated(self.camera.position, x, y, z))
    }

    /// This tracer with its camera looking along `direction`.
    pub open spec fn with_direction(self, direction: [i64; 3]) -> TracerView {
        TracerView { camera: CameraState { direction, ..self.camera }, ..self }
    }

    /// This tracer after it has failed with `failure`, and what it answers.
    pub open spec fn fail(self, failure: Failure) -> (TracerView, DispatchAction) {
        (self.at(Phase::Failed(failure)), DispatchAction::Abort(failure))
    }

    /// The start of the device's work on a frame: the camera as it is now is
    /// written to its buffer.
    pub open spec fn upload(self) -> (TracerView, DispatchAction) {
        (self.at(Phase::Uploading), DispatchAction::UploadCamera(self.camera))
    }

    /// The tracer after `event`, and the action it asks for.
    ///
    /// In each phase one event is expected; it moves the tracer to the next
    /// phase. `Failed` ends the tracer with the failure of the phase, any
    /// other event with `OutOfOrder`. A failed tracer stays as it is and
    /// answers every event with the failure it ended in.
    pub open spec fn step(self, event: DispatchEvent) -> (TracerView, DispatchAction) {
        match (self.phase, event) {
            (Phase::Failed(failure), _) => (self, DispatchAction::Abort(failure)),
            (Phase::Idle, DispatchEvent::FrameRequested) => if self.pipeline_ready {
                self.upload()
            } else {
                (self.at(Phase::BuildingPipeline), DispatchAction::BuildPipeline)
            },
            (Phase::BuildingPipeline, DispatchEvent::PipelineBuilt) => (
                self.at(Phase::Binding),
                DispatchAction::BindResources(binding_order()),
            ),
            (Phase::Binding, DispatchEvent::ResourcesBound) => (TracerView {
                pipeline_ready: true,
                ..self
            }).upload(),
            (Phase::Uploading, DispatchEvent::CameraUploaded) => (
                self.at(Phase::Recording),
                DispatchAction::RecordDispatch { groups: self.groups() as u32 },
            ),
            (Phase::Recording, DispatchEvent::DispatchRecorded) => (
                self.at(Phase::Submitting),
                DispatchAction::Submit,
            ),
            (Phase::Submitting, DispatchEvent::Submitted) => (
                self.at(Phase::Waiting),
                DispatchAction::WaitFence,
            ),
            (Phase::Waiting, DispatchEvent::FenceSignaled) => (
                self.at(Phase::Reading),
                DispatchAction::ReadFramebuffer,
            ),
            (Phase::Reading, DispatchEvent::FramebufferRead(pixels)) => if pixels@.len()
                == self.config.pixels() {
                (self.at(Phase::Idle), DispatchAction::Present(pixels))
            } else {
                self.fail(Failure::Readback)
            },
            (_, DispatchEvent::Failed) => self.fail(self.phase.failure()),
            _ => self.fail(Failure::OutOfOrder),
        }
    }

    /// The tracer after the events of `events`, one after the other.
    pub open spec fn after(self, events: Seq<DispatchEvent>) -> TracerView
        decreases events.len(),
    {
        if events.len() == 0 {
            self
        } else {
            self.after(events.drop_last()).step(events.last()).0
        }
    }

    /// The actions that the tracer asks for as the events of `events` come
    /// in, one for each event.
    pub open spec fn answers(self, events: Seq<DispatchEvent>) -> Seq<DispatchAction>
        decreases events.len(),
    {
        if events.len() == 0 {
            Seq::empty()
        } else {
            self.answers(events.drop_last()).push(
                self.after(events.drop_last()).step(events.last()).1,
            )
        }
    }
}

/// The events of a frame on which nothing fails, once the pipeline exists;
/// `pixels` is what the device hands back.
pub open spec fn frame_events(pixels: Vec<u32>) -> Seq<DispatchEvent> {
    seq![
        DispatchEvent::FrameRequested,
        DispatchEvent::CameraUploaded,
        DispatchEvent::DispatchRecorded,
        DispatchEvent::Submitted,
        DispatchEvent::FenceSignaled,
        DispatchEvent::FramebufferRead(pixels),
    ]
}

/// The events of the first frame on which nothing fails: the pipeline is
/// built and the buffers are bound before the camera is uploaded.
pub open spec fn first_frame_events(pixels: Vec<u32>) -> Seq<DispatchEvent> {
    seq![
        DispatchEvent::FrameRequested,
        DispatchEvent::PipelineBuilt,
        DispatchEvent::ResourcesBound,
        DispatchEvent::CameraUploaded,
        DispatchEvent::DispatchRecorded,
        DispatchEvent::Submitted,
        DispatchEvent::FenceSignaled,
        DispatchEvent::FramebufferRead(pixels),
    ]
}

/// What the device is asked to do for a frame of `tracer`, from the upload
/// of the camera to the reading of the framebuffer.
pub open spec fn frame_requests(tracer: TracerView) -> Seq<DispatchAction> {
    seq![
        DispatchAction::UploadCamera(tracer.camera),
        DispatchAction::RecordDispatch { groups: tracer.groups() as u32 },
        DispatchAction::Submit,
        DispatchAction::WaitFence,
        DispatchAction::ReadFramebuffer,
    ]
}

/// One more event: the tracer steps once more and gives one more answer.
pub proof fn lemma_one_more_event(
    tracer: TracerView,
    events: Seq<DispatchEvent>,
    event: DispatchEvent,
)
    ensures
        tracer.after(events.push(event)) == tracer.after(events).step(event).0,
        tracer.answers(events.push(event)) == tracer.answers(events).push(
            tracer.after(events).step(event).1,
        ),
{
    assert(events.push(event).drop_last() =~= events);
}

/// A step changes the phase and, once, `pipeline_ready`; the configuration,
/// the chosen device, the scene and the camera stay as they are, and a
/// well-formed tracer stays well-formed.
pub proof fn lemma_step_keeps_state(tracer: TracerView, event: DispatchEvent)
    ensures
        tracer.step(event).0.config == tracer.config,
        tracer.step(event).0.selection == tracer.selection,
        tracer.step(event).0.local_size == tracer.local_size,
        tracer.step(event).0.scene == tracer.scene,
        tracer.step(event).0.camera == tracer.camera,
        tracer.pipeline_ready ==> tracer.step(event).0.pipeline_ready,
        tracer.wf() ==> tracer.step(event).0.wf(),
{
}

/// The phases follow one another in one order only. A tracer enters a phase
/// from the phase before it, on the event that ends that phase: it waits for
/// the device only after the work was submitted, reads the framebuffer only
/// after the device signalled, and is idle again only after the framebuffer
/// was read.
pub proof fn lemma_phases_in_order(tracer: TracerView, event: DispatchEvent)
    requires
        tracer.step(event).0.phase != tracer.phase,
    ensures
        match tracer.step(event).0.phase {
            Phase::BuildingPipeline => tracer.phase is Idle && event is FrameRequested
                && !tracer.pipeline_ready,
            Phase::Binding => tracer.phase is BuildingPipeline && event is PipelineBuilt,
            Phase::Uploading => (tracer.phase is Idle && event is FrameRequested
                && tracer.pipeline_ready) || (tracer.phase is Binding && event is ResourcesBound),
            Phase::Recording => tracer.phase is Uploading && event is CameraUploaded,
            Phase::Submitting => tracer.phase is Recording && event is DispatchRecorded,
            Phase::Waiting => tracer.phase is Submitting && event is Submitted,
            Phase::Reading => tracer.phase is Waiting && event is FenceSignaled,
            Phase::Idle => tracer.phase is Reading && event is FramebufferRead,
            Phase::Failed(failure) => !(tracer.phase is Failed) && (failure == Failure::OutOfOrder
                || (failure == tracer.phase.failure() && (event is Failed
                || event is FramebufferRead))),
        },
{
}

/// A frame is presented only when the framebuffer was read back in the
/// reading phase, it is the array that was read, unchanged, and it has one
/// element for each pixel.
pub proof fn lemma_present_is_readback(tracer: TracerView, event: DispatchEvent)
    requires
        tracer.step(event).1 is Present,
    ensures
        tracer.phase is Reading,
        event is FramebufferRead,
        tracer.step(event).1 == DispatchAction::Present(event->FramebufferRead_0),
        (event->FramebufferRead_0)@.len() == tracer.config.width * tracer.config.height,
        tracer.step(event).0 == tracer.at(Phase::Idle),
{
}

/// Whatever events come in, the configuration, the chosen device and the
/// scene stay as they are, and a well-formed tracer stays well-formed.
pub proof fn lemma_events_keep_state(tracer: TracerView, events: Seq<DispatchEvent>)
    ensures
        tracer.after(events).config == tracer.config,
        tracer.after(events).selection == tracer.selection,
        tracer.after(events).local_size == tracer.local_size,
        tracer.after(events).scene == tracer.scene,
        tracer.after(events).camera == tracer.camera,
        tracer.answers(events).len() == events.len(),
        tracer.wf() ==> tracer.after(events).wf(),
    decreases events.len(),
{
    if events.len() > 0 {
        lemma_events_keep_state(tracer, events.drop_last());
        lemma_step_keeps_state(tracer.after(events.drop_last()), events.last());
    }
}

/// Wherever the camera was put and whatever events came in since: a frame
/// that is presented has exactly one element for each pixel of the frame.
pub proof fn lemma_frame_has_every_pixel(
    tracer: TracerView,
    position: [i64; 3],
    events: Seq<DispatchEvent>,
    i: int,
)
    requires
        0 <= i < events.len(),
        tracer.with_position(position).answers(events)[i] is Present,
    ensures
        (tracer.with_position(position).answers(events)[i]->Present_0)@.len()
            == tracer.config.width * tracer.config.height,
    decreases events.len(),
{
    let placed = tracer.with_position(position);
    lemma_events_keep_state(placed, events.drop_last());
    if i < events.len() - 1 {
        lemma_frame_has_every_pixel(tracer, position, events.drop_last(), i);
    } else {
        lemma_present_is_readback(placed.after(events.drop_last()), events.last());
    }
}

/// A failure is final: whatever events follow, the tracer stays as it is
/// and answers each of them with the failure it ended in.
pub proof fn lemma_failure_is_final(
    tracer: TracerView,
    failure: Failure,
    events: Seq<DispatchEvent>,
)
    requires
        tracer.phase == Phase::Failed(failure),
    ensures
        tracer.after(events) == tracer,
        tracer.answers(events).len() == events.len(),
        forall|i: int|
            0 <= i < events.len() ==> #[trigger] tracer.answers(events)[i] == DispatchAction::Abort(
                failure,
            ),
    decreases events.len(),
{
    if events.len() > 0 {
        lemma_failure_is_final(tracer, failure, events.drop_last());
    }
}

/// The first frame: the pipeline is built, the buffers are bound in the
/// tracer's order, then the frame takes its course. Afterwards the tracer is
/// as before, but for the pipeline, which now exists.
pub proof fn lemma_first_frame(tracer: TracerView, pixels: Vec<u32>)
    requires
        tracer.phase is Idle,
        !tracer.pipeline_ready,
        pixels@.len() == tracer.config.pixels(),
    ensures
        tracer.answers(first_frame_events(pixels)) == seq![
            DispatchAction::BuildPipeline,
            DispatchAction::BindResources(binding_order()),
        ] + frame_requests(tracer).push(DispatchAction::Present(pixels)),
        tracer.after(first_frame_events(pixels)) == (TracerView { pipeline_ready: true, ..tracer }),
{
    let e0 = Seq::<DispatchEvent>::empty();
    let e1 = e0.push(DispatchEvent::FrameRequested);
    let e2 = e1.push(DispatchEvent::PipelineBuilt);
    let e3 = e2.push(DispatchEvent::ResourcesBound);
    let e4 = e3.push(DispatchEvent::CameraUploaded);
    let e5 = e4.push(DispatchEvent::DispatchRecorded);
    let e6 = e5.push(DispatchEvent::Submitted);
    let e7 = e6.push(DispatchEvent::FenceSignaled);
    let e8 = e7.push(DispatchEvent::FramebufferRead(pixels));
    lemma_one_more_event(tracer, e0, DispatchEvent::FrameRequested);
    lemma_one_more_event(tracer, e1, DispatchEvent::PipelineBuilt);
    lemma_one_more_event(tracer, e2, DispatchEvent::ResourcesBound);
    lemma_one_more_event(tracer, e3, DispatchEvent::CameraUploaded);
    lemma_one_more_event(tracer, e4, DispatchEvent::DispatchRecorded);
    lemma_one_more_event(tracer, e5, DispatchEvent::Submitted);
    lemma_one_more_event(tracer, e6, DispatchEvent::FenceSignaled);
    lemma_one_more_event(tracer, e7, DispatchEvent::FramebufferRead(pixels));
    assert(first_frame_events(pixels) == e8);
    assert(tracer.answers(e8) =~= seq![
        DispatchAction::BuildPipeline,
        DispatchAction::BindResources(binding_order()),
    ] + frame_requests(tracer).push(DispatchAction::Present(pixels)));
}

/// Every later frame: the camera as it stands when the frame is requested is
/// uploaded, one dispatch is recorded and submitted, the host waits, reads
/// the framebuffer and presents what it read. Afterwards the tracer is
/// exactly as before.
pub proof fn lemma_frame(tracer: TracerView, pixels: Vec<u32>)
    requires
        tracer.phase is Idle,
        tracer.pipeline_ready,
        pixels@.len() == tracer.config.pixels(),
    ensures
        tracer.answers(frame_events(pixels)) == frame_requests(tracer).push(
            DispatchAction::Present(pixels),
        ),
        tracer.after(frame_events(pixels)) == tracer,
{
    let e0 = Seq::<DispatchEvent>::empty();
    let e1 = e0.push(DispatchEvent::FrameRequested);
    let e2 = e1.push(DispatchEvent::CameraUploaded);
    let e3 = e2.push(DispatchEvent::DispatchRecorded);
    let e4 = e3.push(DispatchEvent::Submitted);
    let e5 = e4.push(DispatchEvent::FenceSignaled);
    let e6 = e5.push(DispatchEvent::FramebufferRead(pixels));
    lemma_one_more_event(tracer, e0, DispatchEvent::FrameRequested);
    lemma_one_more_event(tracer, e1, DispatchEvent::CameraUploaded);
    lemma_one_more_event(tracer, e2, DispatchEvent::DispatchRecorded);
    lemma_one_more_event(tracer, e3, DispatchEvent::Submitted);
    lemma_one_more_event(tracer, e4, DispatchEvent::FenceSignaled);
    lemma_one_more_event(tracer, e5, DispatchEvent::FramebufferRead(pixels));
    assert(frame_events(pixels) == e6);
}

/// Two frames with nothing changed in between ask the same of the device,
/// and each presents what the device handed back, unchanged. So a device
/// that answers the same requests with the same pixels shows the same frame
/// twice.
pub proof fn lemma_frames_repeat(tracer: TracerView, first: Vec<u32>, second: Vec<u32>)
    requires
        tracer.phase is Idle,
        tracer.pipeline_ready,
        first@.len() == tracer.config.pixels(),
        second@.len() == tracer.config.pixels(),
    ensures
        tracer.after(frame_events(first)) == tracer,
        tracer.answers(frame_events(first)) == frame_requests(tracer).push(
            DispatchAction::Present(first),
        ),
        tracer.after(frame_events(first)).answers(frame_events(second)) == frame_requests(
            tracer,
        ).push(DispatchAction::Present(second)),
{
    lemma_frame(tracer, first);
    lemma_frame(tracer, second);
}

/// A frame shows the camera as it was last set before the frame was
/// requested: the position given to `set_camera_pos` is the one uploaded.
pub proof fn lemma_frame_sees_last_position(tracer: TracerView, earlier: [i64; 3], last: [i64; 3])
    requires
        tracer.phase is Idle,
        tracer.pipeline_ready,
    ensures
        tracer.with_position(earlier).with_position(last).step(DispatchEvent::FrameRequested).1
            == DispatchAction::UploadCamera(CameraState { position: last, ..tracer.camera }),
{
}

} // verus!
