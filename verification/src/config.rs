//! What a tracer is made for, and what follows from it for its buffers.

use crate::kernel::BufferSlot;
use vstd::prelude::*;

verus! {

/// The width of the usual frame, in pixels.
pub const WIDTH: u32 = 800;

/// The height of the usual frame, in pixels.
pub const HEIGHT: u32 = 600;

/// The number of spheres in the usual scene.
pub const NUM_SPHERES: u32 = 5;

/// Whether the host may write the scene buffer after it was first filled.
#[derive(Clone, Copy, Debug, PartialEq, Eq, Structural)]
pub enum SceneBufferPolicy {
    /// Uploaded once into device memory, then read-only.
    Immutable,
    /// Kept in memory that the host can write.
    HostWritable,
}

/// Where a buffer lives.
#[derive(Clone, Copy, Debug, PartialEq, Eq, Structural)]
pub enum Residency {
    /// In memory that the host reads and writes.
    HostVisible,
    /// In the device's own memory, filled once by an upload.
    DeviceLocal,
}

/// What a buffer may be used for.
#[derive(Clone, Copy, Debug, PartialEq, Eq, Structural)]
pub enum BufferUsage {
    /// Every use.
    All,
    /// Only as a storage buffer of a shader.
    StorageOnly,
}

/// How one of the tracer's buffers is to be allocated.
#[derive(Clone, Copy, Debug, PartialEq, Eq, Structural)]
pub struct BufferPlan {
    pub slot: BufferSlot,
    pub residency: Residency,
    pub usage: BufferUsage,
    /// Whether the kernel writes the buffer. It writes the framebuffer and
    /// only reads the others.
    pub kernel_writes: bool,
}

/// What a tracer is made for.
#[derive(Clone, Copy, Debug, PartialEq, Eq, Structural)]
pub struct TracerConfig {
    /// The frame's width in pixels.
    pub width: u32,
    /// The frame's height in pixels.
    pub height: u32,
    /// The number of spheres in the scene.
    pub sphere_count: u32,
    pub scene_buffer: SceneBufferPolicy,
}

impl TracerConfig {
    /// The number of pixels of a frame.
    pub open spec fn pixels(self) -> nat {
        (self.width * self.height) as nat
    }

    /// Whether a tracer can be made for this configuration: the frame has at
    /// least one pixel and no more than an invocation index can count, and
    /// the scene has at least one sphere.
    pub open spec fn spec_is_supported(self) -> bool {
        &&& self.width >= 1
        &&& self.height >= 1
        &&& self.width * self.height <= u32::MAX
        &&& self.sphere_count >= 1
    }

    /// How the buffer for `slot` is to be allocated. The scene lives in
    /// device memory, for storage use only, unless the host is to write it
    /// again; every other buffer is visible to the host and open to every
    /// use. The kernel writes the framebuffer and nothing else.
    pub open spec fn spec_buffer_plan(self, slot: BufferSlot) -> BufferPlan {
        if slot == BufferSlot::Scene && self.scene_buffer == SceneBufferPolicy::Immutable {
            BufferPlan {
                slot,
                residency: Residency::DeviceLocal,
                usage: BufferUsage::StorageOnly,
                kernel_writes: false,
            }
        } else {
            BufferPlan {
                slot,
                residency: Residency::HostVisible,
                usage: BufferUsage::All,
                kernel_writes: slot == BufferSlot::Framebuffer,
            }
        }
    }

    #[verifier::when_used_as_spec(spec_is_supported)]
    pub fn is_supported(self) -> (ok: bool)
        ensures
            ok == self.spec_is_supported(),
    {
        let pixels: u64 = self.pixel_count();
        self.width >= 1 && self.height >= 1 && pixels <= u32::MAX as u64 && self.sphere_count >= 1
    }

    /// The number of pixels of a frame.
    pub fn pixel_count(self) -> (count: u64)
        ensures
            count == self.pixels(),
    {
        assert(self.width * self.height <= u32::MAX * u32::MAX) by (nonlinear_arith);
        self.width as u64 * self.height as u64
    }

    /// The framebuffer before the first frame: one zero for each pixel.
    pub fn blank_frame(self) -> (pixels: Vec<u32>)
        requires
            self.pixels() <= usize::MAX,
        ensures
            pixels@ == Seq::new(self.pixels(), |i: int| 0u32),
    {
        let count: usize = self.pixel_count() as usize;
        let mut pixels: Vec<u32> = Vec::new();
        let mut i: usize = 0;
        while i < count
            invariant
                i <= count,
                pixels@ == Seq::new(i as nat, |i: int| 0u32),
            decreases count - i,
        {
            pixels.push(0);
            i += 1;
        }
        pixels
    }

    #[verifier::when_used_as_spec(spec_buffer_plan)]
    pub fn buffer_plan(self, slot: BufferSlot) -> (plan: BufferPlan)
        ensures
            plan == self.spec_buffer_plan(slot),
    {
        match (slot, self.scene_buffer) {
            (BufferSlot::Scene, SceneBufferPolicy::Immutable) => BufferPlan {
                slot,
                residency: Residency::DeviceLocal,
                usage: BufferUsage::StorageOnly,
                kernel_writes: false,
            },
            _ => BufferPlan {
                slot,
                residency: Residency::HostVisible,
                usage: BufferUsage::All,
                kernel_writes: slot == BufferSlot::Framebuffer,
            },
        }
    }
}

impl Default for TracerConfig {
    /// The usual tracer: 800 by 600 pixels, five spheres, the scene uploaded
    /// once.
    fn default() -> (config: TracerConfig)
        ensures
            config == (TracerConfig {
                width: WIDTH,
                height: HEIGHT,
                sphere_count: NUM_SPHERES,
                scene_buffer: SceneBufferPolicy::Immutable,
            }),
            config.is_supported(),
    {
        TracerConfig {
            width: WIDTH,
            height: HEIGHT,
            sphere_count: NUM_SPHERES,
            scene_buffer: SceneBufferPolicy::Immutable,
        }
    }
}

} // verus!
