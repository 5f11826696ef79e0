//! The contract between the tracer and the kernel program.
//!
//! The kernel is an opaque compute program. What the host knows of it is
//! what it declares: the buffer slots it reads and writes, in order, and how
//! many invocations make up one work group. The tracer binds its buffers in
//! one fixed order and sizes the grid of work groups so that there is an
//! invocation for every pixel.

use vstd::prelude::*;

verus! {

/// The role of a buffer that the kernel is given.
#[derive(Clone, Copy, Debug, PartialEq, Eq, Structural)]
pub enum BufferSlot {
    /// One packed colour per pixel; the kernel's only output.
    Framebuffer,
    /// The light and the frame's dimensions.
    Scene,
    /// The camera.
    Camera,
    /// The spheres with their materials.
    Spheres,
}

/// How many buffers the kernel is given.
pub const SLOT_COUNT: usize = 4;

/// The order in which the tracer binds its buffers.
pub open spec fn binding_order() -> [BufferSlot; 4] {
    [BufferSlot::Framebuffer, BufferSlot::Scene, BufferSlot::Camera, BufferSlot::Spheres]
}

/// What a kernel program declares of itself.
#[derive(Debug)]
pub struct KernelInterface {
    /// The buffer slots, in the order of their binding numbers.
    pub slots: Vec<BufferSlot>,
    /// The number of invocations in one work group.
    pub local_size: u32,
}

impl KernelInterface {
    /// Whether the tracer can drive a kernel with this interface: it has
    /// exactly the tracer's slots in the tracer's order, and a work group
    /// holds at least one invocation.
    pub open spec fn spec_is_compatible(&self) -> bool {
        &&& self.slots@ == binding_order()@
        &&& self.local_size >= 1
    }

    #[verifier::when_used_as_spec(spec_is_compatible)]
    pub fn is_compatible(&self) -> (ok: bool)
        ensures
            ok == self.spec_is_compatible(),
    {
        let order = bound_slots();
        if self.local_size == 0 || self.slots.len() != SLOT_COUNT {
            return false;
        }
        let mut i: usize = 0;
        while i < SLOT_COUNT
            invariant
                i <= SLOT_COUNT,
                self.slots@.len() == SLOT_COUNT,
                order == binding_order(),
                forall|j: int| 0 <= j < i ==> self.slots@[j] == order@[j],
            decreases SLOT_COUNT - i,
        {
            if self.slots[i] != order[i] {
                return false;
            }
            i += 1;
        }
        assert(self.slots@ =~= order@);
        true
    }
}

/// The tracer's buffers in the order in which they are bound.
pub fn bound_slots() -> (order: [BufferSlot; 4])
    ensures
        order == binding_order(),
{
    [BufferSlot::Framebuffer, BufferSlot::Scene, BufferSlot::Camera, BufferSlot::Spheres]
}

/// The least number of work groups of `local_size` invocations each that
/// together hold at least `pixels` invocations.
pub open spec fn work_groups(pixels: nat, local_size: nat) -> nat
    recommends
        local_size >= 1,
{
    ((pixels + local_size - 1) / (local_size as int)) as nat
}

/// `work_groups` is the least cover: its groups hold an invocation for every
/// pixel, and one group fewer would not.
pub proof fn lemma_work_groups_cover(pixels: nat, local_size: nat)
    requires
        local_size >= 1,
    ensures
        work_groups(pixels, local_size) * local_size >= pixels,
        pixels > 0 ==> (work_groups(pixels, local_size) - 1) * local_size < pixels,
        pixels == 0 ==> work_groups(pixels, local_size) == 0,
        work_groups(pixels, local_size) <= pixels,
{
    let n = (pixels + local_size - 1) as int;
    let d = local_size as int;
    let q = n / d;
    let r = n % d;
    assert(n == q * d + r && 0 <= r < d) by (nonlinear_arith)
        requires
            d >= 1,
            q == n / d,
            r == n % d,
    ;
    assert(q >= 0) by (nonlinear_arith)
        requires
            n >= 0,
            d >= 1,
            q == n / d,
    ;
    if pixels == 0 {
        assert(q == 0) by (nonlinear_arith)
            requires
                n == q * d + r,
                0 <= r < d,
                0 <= n < d,
                q >= 0,
        ;
    } else {
        assert(q <= pixels) by (nonlinear_arith)
            requires
                n == q * d + r,
                0 <= r,
                d >= 1,
                q >= 0,
                n == pixels + d - 1,
                pixels >= 1,
        ;
        assert((q - 1) * d == q * d - d) by (nonlinear_arith);
    }
}

/// The number of work groups to dispatch for a frame of `pixels` pixels.
pub fn dispatch_groups(pixels: u32, local_size: u32) -> (groups: u32)
    requires
        local_size >= 1,
    ensures
        groups == work_groups(pixels as nat, local_size as nat),
        groups * local_size >= pixels,
        pixels > 0 ==> (groups - 1) * local_size < pixels,
{
    proof {
        lemma_work_groups_cover(pixels as nat, local_size as nat);
    }
    let n: u64 = pixels as u64 + local_size as u64 - 1;
    let q: u64 = n / (local_size as u64);
    q as u32
}

} // verus!
